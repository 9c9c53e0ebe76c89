//! Representation of the status of asynchronous operations.
//!
//! Any asynchronous operation can be represented as a state machine which
//! starts on the client side in a pending state, is hopefully scheduled and
//! run on the server, goes through a number of intermediary "running" states
//! in this process, and finally ends up in a successful or unsuccessful final
//! state.

use vstd::prelude::*;

verus! {

/// Trait bounds which every part of the operation status should honor: the
/// payloads are plain values that can be copied, compared for equality, and
/// sent across the client/server boundary.
pub trait AsyncOpStatusTraits: Copy + Clone + PartialEq + Send {}

/// Additional requirement on error details: they must carry a human-readable
/// description of what went wrong.
pub trait AsyncOpErrorTraits: AsyncOpStatusTraits {
    /// A human-readable description of the error
    fn description(&self) -> &'static str;
}

/// Implementation-specific details on the status of asynchronous operations
pub trait AsyncOpStatusDetails: AsyncOpStatusTraits {
    /// Details on the status of pending operations
    ///
    /// Possible usage: represent a distinction between a command being
    /// submitted to a host driver, and queued on the device.
    type PendingDetails: AsyncOpStatusTraits;

    /// Details on the status of running operations
    ///
    /// Possible usage: keep the client informed about the server's progress.
    type RunningDetails: AsyncOpStatusTraits;

    /// Details on the status of completed operations
    ///
    /// Possible usage: provide or give access to the operation's result.
    type DoneDetails: AsyncOpStatusTraits;

    /// Details on the status of cancelled operations
    ///
    /// Possible usage: indicate why an operation was cancelled.
    type CancelledDetails: AsyncOpStatusTraits;

    /// Details on the status of erroneous operations
    ///
    /// Possible usage: explain why the server could not perform the work.
    type ErrorDetails: AsyncOpErrorTraits;
}

/// Representation of an asynchronous operation's status
///
/// This enumeration follows a state machine design, with customization points
/// so that each application can add whichever extra information it needs.
///
/// Here are the possible state transitions:
///
/// - Pending -> Pending' / Running / Cancelled / Error
/// - Running -> Running' / Done / Cancelled / Error
///
/// Here, an apostrophe is used to denote a switch to another version of the
/// same toplevel state with different implementation-specific details.
///
/// Note that once the asynchronous operation is in either of the Done,
/// Error or Cancelled state, its state won't change anymore.
#[derive(Clone, Copy, PartialEq)]
pub enum AsyncOpStatus<Details: AsyncOpStatusDetails> {
    /// The request has been submitted, but not been processed yet
    Pending(Details::PendingDetails),
    /// The request is being processed by the server
    Running(Details::RunningDetails),
    /// The server has successfully processed the request
    Done(Details::DoneDetails),
    /// The client has cancelled the request before the server was done
    Cancelled(Details::CancelledDetails),
    /// The server has failed to process the request
    Error(AsyncOpError<Details>),
}

impl<Details: AsyncOpStatusDetails> AsyncOpStatusTraits for AsyncOpStatus<Details> {

}

/// Support for standard and custom asynchronous operation errors
#[derive(Clone, Copy, PartialEq)]
pub enum AsyncOpError<Details: AsyncOpStatusDetails> {
    /// The server was killed before the operation reached a final status
    ServerKilled,
    /// An application-specific error has occurred
    CustomError(Details::ErrorDetails),
}

impl<Details: AsyncOpStatusDetails> AsyncOpStatusTraits for AsyncOpError<Details> {

}

/// Terminality predicate on statuses: `Pending` and `Running` may still
/// change, everything else is final. This depends only on the variant tag,
/// never on the payload, and is the single source of truth consulted by every
/// part of this library.
pub open spec fn is_final_spec<Details: AsyncOpStatusDetails>(
    s: AsyncOpStatus<Details>,
) -> bool {
    match s {
        AsyncOpStatus::Pending(_) => false,
        AsyncOpStatus::Running(_) => false,
        AsyncOpStatus::Done(_) => true,
        AsyncOpStatus::Cancelled(_) => true,
        AsyncOpStatus::Error(_) => true,
    }
}

/// Check if an operation status is final (i.e. won't change anymore)
pub fn is_final<Details: AsyncOpStatusDetails>(s: &AsyncOpStatus<Details>) -> (r: bool)
    ensures
        r == is_final_spec(*s),
{
    match s {
        AsyncOpStatus::Pending(_) => false,
        AsyncOpStatus::Running(_) => false,
        AsyncOpStatus::Done(_) => true,
        AsyncOpStatus::Cancelled(_) => true,
        AsyncOpStatus::Error(_) => true,
    }
}

/// Placeholder for unneeded asynchronous operation details
#[derive(Clone, Copy, PartialEq, Eq)]
pub struct NoDetails {

}

impl AsyncOpStatusTraits for NoDetails {

}

impl AsyncOpErrorTraits for NoDetails {
    /// A human-readable description of the error
    fn description(&self) -> &'static str {
        "<No error details>"
    }
}

impl AsyncOpStatusDetails for NoDetails {
    type PendingDetails = NoDetails;

    type RunningDetails = NoDetails;

    type DoneDetails = NoDetails;

    type CancelledDetails = NoDetails;

    type ErrorDetails = NoDetails;
}

/// Fully standard asynchronous operation statuses, without any detail
pub type StandardAsyncOpStatus = AsyncOpStatus<NoDetails>;

/// The standard "pending" status
pub fn pending() -> (s: StandardAsyncOpStatus)
    ensures
        s == (AsyncOpStatus::<NoDetails>::Pending(NoDetails {  })),
{
    AsyncOpStatus::Pending(NoDetails {  })
}

/// The standard "running" status
pub fn running() -> (s: StandardAsyncOpStatus)
    ensures
        s == (AsyncOpStatus::<NoDetails>::Running(NoDetails {  })),
{
    AsyncOpStatus::Running(NoDetails {  })
}

/// The standard "done" status
pub fn done() -> (s: StandardAsyncOpStatus)
    ensures
        s == (AsyncOpStatus::<NoDetails>::Done(NoDetails {  })),
{
    AsyncOpStatus::Done(NoDetails {  })
}

/// The standard "cancelled" status
pub fn cancelled() -> (s: StandardAsyncOpStatus)
    ensures
        s == (AsyncOpStatus::<NoDetails>::Cancelled(NoDetails {  })),
{
    AsyncOpStatus::Cancelled(NoDetails {  })
}

/// The standard "the server was killed" error status
pub fn error_server_killed() -> (s: StandardAsyncOpStatus)
    ensures
        s == (AsyncOpStatus::<NoDetails>::Error(AsyncOpError::ServerKilled)),
{
    AsyncOpStatus::Error(AsyncOpError::ServerKilled)
}

} // verus!
