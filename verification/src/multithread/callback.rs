//! Callback-based asynchronous operation monitoring.
//!
//! This module provides a way to monitor asynchronous operations through
//! asynchronous callbacks. It is more flexible than polling and blocking
//! (which could technically be implemented on top of it), and can achieve
//! higher performance, but at the cost of somewhat higher code complexity.
//!
//! The server's `send` simply notifies the callback channel, synchronously
//! within the update call: there is no queuing and no separate notification
//! thread unless the chosen executor provides one. A cancellation request
//! never suppresses the delivery of a status already in flight.

use vstd::prelude::*;

use core::marker::PhantomData;
use std::sync::atomic::{AtomicBool, Ordering};
use std::sync::Arc;

use crate::client::IAsyncOpClient;
use crate::executor::{AnyCallbackChannel, CallbackExecutor};
use crate::server::AsyncOpServerConfig;
use crate::status::{AsyncOpStatus, AsyncOpStatusDetails, is_final_spec};
use crate::sync::arc_clone;

verus! {

/// Server interface, used to send operation status updates to the client
pub type AsyncOpServer<Details, Channel> = crate::server::AsyncOpServer<
    CallbackServerConfig<Details, Channel>,
>;

/// Asynchronous operation object
#[verifier::reject_recursive_types(Details)]
pub struct AsyncOp<Details: AsyncOpStatusDetails + 'static, Channel: AnyCallbackChannel<
    Details,
>> {
    /// Server interface used to submit status updates
    pub server: AsyncOpServer<Details, Channel>,
    /// Client interface used to monitor the operation status
    pub client: AsyncOpClient,
}

impl<Details: AsyncOpStatusDetails + 'static, Channel: AnyCallbackChannel<Details>> AsyncOp<
    Details,
    Channel,
> {
    // NOTE: In this module, the constructor cannot be a struct method,
    //       because the Channel type parameter depends on the executor
    //       handed to it: see new_async_op below.
    /// Split the asynchronous operation object into client and server
    /// objects which can be respectively sent to client and server threads
    pub fn split(self) -> (halves: (AsyncOpServer<Details, Channel>, AsyncOpClient))
        ensures
            halves.0 == self.server,
            halves.1 == self.client,
    {
        (self.server, self.client)
    }
}

/// Constructor of callback-based asynchronous operations.
///
/// The callback must be callable on every status. It is not invoked during
/// construction, even if the initial status is already final: only statuses
/// subsequently submitted through the server reach it.
pub fn new_async_op<Details, F, Executor>(
    callback: F,
    executor: &mut Executor,
    initial_status: AsyncOpStatus<Details>,
) -> (op: AsyncOp<Details, Executor::Channel>) where
    Details: AsyncOpStatusDetails + 'static,
    F: Fn(AsyncOpStatus<Details>),
    Executor: CallbackExecutor<Details, F>,

    requires
        forall|s: AsyncOpStatus<Details>| call_requires(callback, (s,)),
    ensures
        op.server.wf(),
        op.server.initial_status@ == initial_status,
        op.server.reached_final_status == is_final_spec(initial_status),
        op.server.updates() == Seq::<AsyncOpStatus<Details>>::empty(),
        op.server.config.delivered() == Seq::<AsyncOpStatus<Details>>::empty(),
        !op.client.cancel_requested(),
        op.client.cancel_flag() == op.server.config.cancelled,
{
    // Setup a callback channel on the active executor...
    let callback_channel = executor.setup_callback(callback);

    // ...and a shared cancellation flag...
    let cancel_flag = Arc::new(AtomicBool::new(false));

    // ...then build the asynchronous operation client and server
    AsyncOp {
        server: crate::server::AsyncOpServer::new(
            CallbackServerConfig {
                channel: callback_channel,
                cancelled: arc_clone(&cancel_flag),
                details: PhantomData,
            },
            &initial_status,
        ),
        client: AsyncOpClient { cancelled: cancel_flag, requested: Ghost(false) },
    }
}

/// Server configuration for callback-based operation monitoring
#[verifier::reject_recursive_types(Details)]
pub struct CallbackServerConfig<Details: AsyncOpStatusDetails + 'static, CallbackChannel: AnyCallbackChannel<
    Details,
>> {
    /// The following callback channel will receive our status updates
    pub channel: CallbackChannel,
    /// In addition, the client & server also share a cancellation flag
    pub cancelled: Arc<AtomicBool>,
    /// The channel handle does not restate our status details type, so it
    /// is remembered here
    pub details: PhantomData<Details>,
}

impl<Details: AsyncOpStatusDetails + 'static, Channel: AnyCallbackChannel<Details>> AsyncOpServerConfig for CallbackServerConfig<
    Details,
    Channel,
> {
    /// Implementation details of the asynchronous operation status
    type StatusDetails = Details;

    open spec fn inv(&self) -> bool {
        self.channel.inv()
    }

    open spec fn delivered(&self) -> Seq<AsyncOpStatus<Details>> {
        self.channel.delivered()
    }

    /// Method used to send a status update to the client: the callback runs
    /// synchronously, on the updating thread, once per submitted status
    fn update(&mut self, status: AsyncOpStatus<Details>)
        ensures
            final(self).cancelled == old(self).cancelled,
    {
        self.channel.notify(status);
    }

    /// Method used to query whether the client has cancelled the operation
    fn cancelled(&self) -> bool {
        self.cancelled.load(Ordering::Acquire)
    }
}

/// Client interface, used to cancel the asynchronous operation
pub struct AsyncOpClient {
    /// In callback-based synchronization, all the client can do is cancel
    pub cancelled: Arc<AtomicBool>,
    /// Whether a cancellation request was sent through this client. This
    /// field is private and is set only by the trusted store below, so the
    /// model flag can only ever reflect a real store.
    requested: Ghost<bool>,
}

impl AsyncOpClient {
    /// The cancellation flag this client writes
    pub closed spec fn cancel_flag(&self) -> Arc<AtomicBool> {
        self.cancelled
    }

    /// Relies on `AtomicBool::store` with release ordering: the shared flag
    /// is set for the server's acquire loads. This is the one place that
    /// sets the client's private cancellation model flag, so the flag can
    /// only become true through the real store.
    #[verifier::external_body]
    fn store_cancel_request(&mut self)
        ensures
            final(self).cancel_flag() == old(self).cancel_flag(),
            final(self).requested@ == true,
    {
        self.cancelled.store(true, Ordering::Release);
    }
}

impl IAsyncOpClient for AsyncOpClient {
    closed spec fn cancel_requested(&self) -> bool {
        self.requested@
    }

    /// Request the cancellation of the active asynchronous operation
    fn cancel(&mut self)
        ensures
            final(self).cancel_flag() == old(self).cancel_flag(),
            final(self).cancel_requested(),
    {
        self.store_cancel_request();
    }
}

/// Cancellation is idempotent: the state of a client after a cancel request
/// does not depend on how many requests were sent before, so any number of
/// `cancel` calls leaves the client exactly where a single call does.
pub proof fn lemma_cancel_idempotent(once: AsyncOpClient, many: AsyncOpClient)
    requires
        once.cancel_flag() == many.cancel_flag(),
        once.cancel_requested(),
        many.cancel_requested(),
    ensures
        once == many,
{
}

/// The callback fires exactly once per submitted status, in submission
/// order: on any reachable server of this backend whose channel was fresh
/// at construction time, the sequence of statuses the channel delivered to
/// the callback is exactly the sequence of statuses submitted through the
/// server.
pub proof fn lemma_callback_invocations<Details, Channel>(
    server: AsyncOpServer<Details, Channel>,
) where Details: AsyncOpStatusDetails + 'static, Channel: AnyCallbackChannel<Details>
    requires
        server.wf(),
        server.preexisting@ == Seq::<AsyncOpStatus<Details>>::empty(),
    ensures
        server.config.delivered() == server.updates(),
{
    assert(server.preexisting@ + server.updates() =~= server.updates());
}

} // verus!
