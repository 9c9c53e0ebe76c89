//! Inline callback executor, implementing synchronous callback execution.
//!
//! This callback executor follows the traditional pattern of directly
//! executing callbacks on the server side. It can harm server performance,
//! and for security reasons should never be allowed to cross a process or
//! machine boundary, but in local communication perimeters like coroutines
//! and threads it can be a good choice for short performance-critical
//! callbacks.

use vstd::prelude::*;

use core::any::TypeId;

use crate::executor::{AnyCallbackChannel, CallbackChannel, CallbackExecutor};
use crate::status::{AsyncOpStatus, AsyncOpStatusDetails};

verus! {

/// Declares `core::any::TypeId`: the runtime identifier of a type.
#[verifier::external_type_specification]
#[verifier::external_body]
pub struct ExTypeId(TypeId);

/// Relies on `TypeId::of`: returns the runtime identifier of a type, which
/// is the same in every call and differs between distinct types.
#[verifier::external_body]
fn type_id_of<T: 'static>() -> TypeId {
    TypeId::of::<T>()
}

/// Relies on `TypeId`'s `PartialEq`: two runtime type identifiers compare
/// equal exactly when they are the same identifier.
#[verifier::external_body]
fn type_id_eq(left: &TypeId, right: &TypeId) -> (r: bool)
    ensures
        r == (*left == *right),
{
    left == right
}

/// CallbackExecutor implementation suitable for inline callback execution
pub struct InlineCallbackExecutor {

}

impl InlineCallbackExecutor {
    /// Create a new inline callback executor
    pub fn new() -> (executor: Self)
        ensures
            executor == (InlineCallbackExecutor {  }),
    {
        InlineCallbackExecutor {  }
    }
}

impl<Details, F> CallbackExecutor<Details, F> for InlineCallbackExecutor where
    Details: AsyncOpStatusDetails + 'static,
    F: Fn(AsyncOpStatus<Details>),
 {
    type Channel = AnyInlineCallbackChannel<Details, F>;

    fn setup_callback(&mut self, callback: F) -> (channel: Self::Channel) {
        AnyInlineCallbackChannel {
            holder: InlineCallbackChannel { callback, history: Ghost(Seq::empty()) },
        }
    }
}

/// Callback channel which invokes an internal callback whenever a new
/// operation status is pushed into it
pub struct InlineCallbackChannel<Details: AsyncOpStatusDetails, F: Fn(AsyncOpStatus<Details>)> {
    /// The function to run, on the notifying thread, for each status update
    pub callback: F,
    /// The statuses this channel was notified of so far, in order
    pub history: Ghost<Seq<AsyncOpStatus<Details>>>,
}

impl<Details, F> CallbackChannel<Details> for InlineCallbackChannel<Details, F> where
    Details: AsyncOpStatusDetails,
    F: Fn(AsyncOpStatus<Details>),
 {
    open spec fn inv(&self) -> bool {
        forall|s: AsyncOpStatus<Details>| call_requires(self.callback, (s,))
    }

    open spec fn delivered(&self) -> Seq<AsyncOpStatus<Details>> {
        self.history@
    }

    /// Invoke the stored callback, immediately and on the calling thread.
    /// The extra clause below is provable only by really calling the
    /// callback on exactly the notified status.
    fn notify(&mut self, new_status: AsyncOpStatus<Details>)
        ensures
            call_ensures(old(self).callback, (new_status,), ()),
    {
        (self.callback)(new_status);
        proof {
            self.history@ = self.history@.push(new_status);
        }
    }
}

/// AnyCallbackChannel implementation corresponding to InlineCallbackChannel
pub struct AnyInlineCallbackChannel<Details: AsyncOpStatusDetails, F: Fn(
    AsyncOpStatus<Details>,
)> {
    /// The typed channel this handle stands for
    pub holder: InlineCallbackChannel<Details, F>,
}

impl<Details, F> AnyCallbackChannel<Details> for AnyInlineCallbackChannel<Details, F> where
    Details: AsyncOpStatusDetails + 'static,
    F: Fn(AsyncOpStatus<Details>),
 {
    open spec fn inv(&self) -> bool {
        self.holder.inv()
    }

    open spec fn delivered(&self) -> Seq<AsyncOpStatus<Details>> {
        self.holder.delivered()
    }

    /// Check if the channel was configured for the right operation status
    /// type, by comparing runtime type identifiers
    fn is_compatible<QueriedDetails: AsyncOpStatusDetails + 'static>(&self) -> bool {
        type_id_eq(&type_id_of::<QueriedDetails>(), &type_id_of::<Details>())
    }

    /// Invoke the stored callback, immediately and on the calling thread.
    /// The extra clause below is provable only by really calling the
    /// callback on exactly the notified status.
    fn notify(&mut self, new_status: AsyncOpStatus<Details>)
        ensures
            call_ensures(old(self).holder.callback, (new_status,), ()),
    {
        self.holder.notify(new_status);
    }
}

} // verus!
