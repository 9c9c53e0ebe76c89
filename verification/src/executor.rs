//! Asynchronous callback executors.
//!
//! Whenever callback-based asynchronous notifications are used, one
//! important design issue is to decide how the callback functions should be
//! executed.
//!
//! A traditional answer to this problem is to run callbacks directly on the
//! asynchronous operation server, as part of the status update process.
//! While this approach, also known as inline callback execution, works and
//! has minimal scheduling overhead, it also has some issues that prevent it
//! from being universally applicable:
//!
//! - Long-running callbacks can have a harmful impact on server performance
//! - In distributed scenarios where the client and the server live in
//!   separate address spaces, the callback may have a hard time accessing
//!   the client
//! - And in such distributed scenarios, a server-side callback also raises
//!   serious security issues, since it allows code injection attacks
//!
//! For this reason, we would rather have a client-side component which is in
//! charge of receiving status update notifications from the server and
//! making sure that the appropriate callback gets executed on the client
//! side. For consistency with the terminology of C++ tasking runtimes, we
//! will call this component a callback executor, or executor for short.

pub mod inline;

use vstd::prelude::*;

use crate::status::{AsyncOpStatus, AsyncOpStatusDetails};

verus! {

/// Entry point to client-side callback scheduling. Schedules callbacks to
/// be executed whenever the operation status changes.
pub trait CallbackExecutor<Details, F>: Sized where
    Details: AsyncOpStatusDetails + 'static,
    F: Fn(AsyncOpStatus<Details>),
 {
    /// Notification channel used by the server to tell the client about
    /// updates
    type Channel: AnyCallbackChannel<Details>;

    /// Setup an asynchronous notification channel with a certain callback.
    ///
    /// The callback must be callable on every status; it is not invoked
    /// during setup, so the fresh channel has delivered nothing yet.
    fn setup_callback(&mut self, callback: F) -> (channel: Self::Channel)
        requires
            forall|s: AsyncOpStatus<Details>| call_requires(callback, (s,)),
        ensures
            channel.inv(),
            channel.delivered() == Seq::<AsyncOpStatus<Details>>::empty(),
    ;
}

/// Client-side entry point used to have callbacks called on status updates.
/// Can be extended to the server side through simple message-passing
/// techniques.
pub trait CallbackChannel<Details: AsyncOpStatusDetails>: Sized {
    /// Invariant established at channel setup time and preserved by every
    /// notification; it says in particular that the stored callback stays
    /// callable
    spec fn inv(&self) -> bool;

    /// The statuses this channel was notified of so far, in order; the
    /// callback was invoked exactly once for each of them
    spec fn delivered(&self) -> Seq<AsyncOpStatus<Details>>;

    /// Notify the client that an operation status update has occurred
    fn notify(&mut self, new_status: AsyncOpStatus<Details>)
        requires
            old(self).inv(),
        ensures
            final(self).inv(),
            final(self).delivered() == old(self).delivered().push(new_status),
    ;
}

/// Variant of [`CallbackChannel`] for handles that are passed around without
/// restating which concrete channel implementation they came from, together
/// with a runtime check of the operation status type they were set up for.
pub trait AnyCallbackChannel<Details: AsyncOpStatusDetails + 'static>: Sized {
    /// Invariant established at channel setup time and preserved by every
    /// notification
    spec fn inv(&self) -> bool;

    /// The statuses this channel was notified of so far, in order
    spec fn delivered(&self) -> Seq<AsyncOpStatus<Details>>;

    /// Check if the channel was configured for the right operation status
    /// type: this returns true exactly when the queried details type is the
    /// one the channel was created for. Status details types are only told
    /// apart at runtime, so this result is checked by tests rather than
    /// stated in a contract.
    fn is_compatible<QueriedDetails: AsyncOpStatusDetails + 'static>(&self) -> bool;

    /// Notify the client about a status update. Unlike with a fully
    /// type-erased handle, a status for a mismatched details type is
    /// rejected at compile time rather than at runtime.
    fn notify(&mut self, new_status: AsyncOpStatus<Details>)
        requires
            old(self).inv(),
        ensures
            final(self).inv(),
            final(self).delivered() == old(self).delivered().push(new_status),
    ;
}

} // verus!
