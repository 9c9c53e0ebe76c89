//! Minimal asynchronous operation client interface.
//!
//! Generally speaking, the details of the asynchronous operation client
//! interface depend on the specifics of how a client has chosen to monitor
//! and synchronize with the asynchronous operation status. However, one
//! service which is common to all asynchronous operation clients is the
//! ability to request the cancellation of an asynchronous operation.
//!
//! Note that the precise semantics of cancellation are application-specific,
//! and a cancellation request is not guaranteed to be honored. What is
//! guaranteed is that a server is able to check at any time whether a
//! cancellation request has been sent by the client, and that once sent, the
//! request stays visible for the lifetime of the shared state.

use vstd::prelude::*;

verus! {

/// Features which all asynchronous operation clients are expected to share
pub trait IAsyncOpClient: Sized {
    /// Whether a cancellation request was already sent through this client
    spec fn cancel_requested(&self) -> bool;

    /// Request the cancellation of the active asynchronous operation.
    ///
    /// This is a best-effort signal: it may be called any number of times,
    /// from any state, and every call after the first leaves the client in
    /// the same state as the first one did.
    fn cancel(&mut self)
        ensures
            final(self).cancel_requested(),
    ;
}

} // verus!
