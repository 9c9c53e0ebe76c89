//! Polling-based asynchronous operation monitoring.
//!
//! This module provides a way to monitor asynchronous operations through
//! polling. It provides maximal performance in scenarios where a client does
//! not need to synchronize with asynchronous operation status updates, but
//! only to periodically check the status, as is the case for example when
//! updating progress bars and status graphs in user interfaces.
//!
//! The channel is a triple buffer: a single-producer, single-consumer,
//! latest-value-wins cell. Neither side ever blocks, `send` always succeeds
//! immediately, and an unread intermediate status may be overwritten by a
//! newer one before the client polls again; that loss is by design, since
//! intermediate progress values are inherently advisory. There is no `wait`
//! on this backend: waiting is not meaningful when values may be overwritten
//! before being read.

use vstd::prelude::*;

use std::sync::atomic::{AtomicBool, Ordering};
use std::sync::Arc;

use triple_buffer::{Input, Output, TripleBuffer};

use crate::client::IAsyncOpClient;
use crate::server::AsyncOpServerConfig;
use crate::status::{AsyncOpStatus, AsyncOpStatusDetails, is_final_spec};
use crate::sync::arc_clone;

verus! {

/// Declares `triple_buffer::TripleBuffer`: a single-producer,
/// single-consumer, non-blocking channel that behaves like a shared
/// variable holding the latest published value.
#[verifier::external_type_specification]
#[verifier::external_body]
#[verifier::reject_recursive_types(T)]
pub struct ExTripleBuffer<T: Send>(TripleBuffer<T>);

/// Declares `triple_buffer::Input`: the producer end of a triple buffer.
#[verifier::external_type_specification]
#[verifier::external_body]
#[verifier::reject_recursive_types(T)]
pub struct ExInput<T: Send>(Input<T>);

/// Declares `triple_buffer::Output`: the consumer end of a triple buffer.
#[verifier::external_type_specification]
#[verifier::external_body]
#[verifier::reject_recursive_types(T)]
pub struct ExOutput<T: Send>(Output<T>);

/// Relies on `TripleBuffer::new`: builds a triple buffer whose slots start
/// out as clones of the given initial value, so that a read before any
/// write returns the initial value.
#[verifier::external_body]
fn buffer_new<T: Clone + Send>(initial: &T) -> TripleBuffer<T> {
    TripleBuffer::new(initial)
}

/// Relies on `TripleBuffer::split`: consumes the buffer and hands out its
/// producer and consumer interfaces.
#[verifier::external_body]
fn buffer_split<T: Send>(buffer: TripleBuffer<T>) -> (Input<T>, Output<T>) {
    buffer.split()
}

/// Relies on `Output::read`: fetches the most recently published value, or
/// the initial value if nothing was published yet. This never blocks. The
/// producer runs on another thread, so nothing is promised about which
/// value comes back.
#[verifier::external_body]
fn buffer_read<T: Copy + Send>(output: &mut Output<T>) -> T {
    *output.read()
}

/// Server interface, used to send operation status updates to the client
pub type AsyncOpServer<Details> = crate::server::AsyncOpServer<PollingServerConfig<Details>>;

/// Asynchronous operation object
#[verifier::reject_recursive_types(Details)]
pub struct AsyncOp<Details: AsyncOpStatusDetails> {
    /// Server interface used to submit status updates
    pub server: AsyncOpServer<Details>,
    /// Client interface used to monitor the operation status
    pub client: AsyncOpClient<Details>,
}

impl<Details: AsyncOpStatusDetails> AsyncOp<Details> {
    /// Create a new asynchronous operation object with some initial status
    pub fn new(initial_status: AsyncOpStatus<Details>) -> (op: Self)
        ensures
            op.server.wf(),
            op.server.initial_status@ == initial_status,
            op.server.reached_final_status == is_final_spec(initial_status),
            op.server.updates() == Seq::<AsyncOpStatus<Details>>::empty(),
            op.server.config.delivered() == Seq::<AsyncOpStatus<Details>>::empty(),
            !op.client.cancel_requested(),
            op.client.cancel_flag() == op.server.config.cancel_flag(),
    {
        // Setup triple buffer-based client/server communication...
        let buffer = buffer_new(&initial_status);
        let (buf_input, buf_output) = buffer_split(buffer);

        // ...and a shared cancellation flag...
        let cancel_flag = Arc::new(AtomicBool::new(false));

        // ...then build the client and server
        AsyncOp {
            server: crate::server::AsyncOpServer::new(
                PollingServerConfig {
                    buf_input,
                    cancelled: arc_clone(&cancel_flag),
                    history: Ghost(Seq::empty()),
                },
                &initial_status,
            ),
            client: AsyncOpClient {
                buf_output,
                cancelled: cancel_flag,
                requested: Ghost(false),
            },
        }
    }

    /// Split the asynchronous operation object into client and server
    /// objects which can be respectively sent to client and server threads
    pub fn split(self) -> (halves: (AsyncOpServer<Details>, AsyncOpClient<Details>))
        ensures
            halves.0 == self.server,
            halves.1 == self.client,
    {
        (self.server, self.client)
    }
}

/// Server configuration for polling-based operation monitoring
#[verifier::reject_recursive_types(Details)]
pub struct PollingServerConfig<Details: AsyncOpStatusDetails> {
    /// New operation statuses will be sent through this triple buffer
    pub buf_input: Input<AsyncOpStatus<Details>>,
    /// In addition, the client & server also share a cancellation flag
    pub cancelled: Arc<AtomicBool>,
    /// The statuses published through the buffer so far, in order. This
    /// field is private and grows only through `send` below, so the
    /// delivered history can only ever reflect real writes.
    history: Ghost<Seq<AsyncOpStatus<Details>>>,
}

impl<Details: AsyncOpStatusDetails> PollingServerConfig<Details> {
    /// The cancellation flag this configuration polls
    pub closed spec fn cancel_flag(&self) -> Arc<AtomicBool> {
        self.cancelled
    }

    /// Relies on `Input::write`: publishes the status to the consumer side,
    /// never blocking; if the consumer has not read the previously published
    /// value yet, that value is lost. This is the one place that extends the
    /// delivered history, and it does so by exactly the status it really
    /// published.
    #[verifier::external_body]
    fn send(&mut self, status: AsyncOpStatus<Details>)
        ensures
            final(self).cancel_flag() == old(self).cancel_flag(),
            final(self).delivered() == old(self).delivered().push(status),
    {
        self.buf_input.write(status);
    }
}

impl<Details: AsyncOpStatusDetails> AsyncOpServerConfig for PollingServerConfig<Details> {
    /// Implementation details of the asynchronous operation status
    type StatusDetails = Details;

    open spec fn inv(&self) -> bool {
        true
    }

    closed spec fn delivered(&self) -> Seq<AsyncOpStatus<Details>> {
        self.history@
    }

    /// Method used to send a status update to the client
    fn update(&mut self, status: AsyncOpStatus<Details>)
        ensures
            final(self).cancel_flag() == old(self).cancel_flag(),
    {
        self.send(status);
    }

    /// Method used to query whether the client has cancelled the operation
    fn cancelled(&self) -> bool {
        self.cancelled.load(Ordering::Acquire)
    }
}

/// Client interface, used to synchronize with the operation status
#[verifier::reject_recursive_types(Details)]
pub struct AsyncOpClient<Details: AsyncOpStatusDetails> {
    /// Current operation status will be read through this triple buffer
    pub buf_output: Output<AsyncOpStatus<Details>>,
    /// In addition, the client & server also share a cancellation flag
    pub cancelled: Arc<AtomicBool>,
    /// Whether a cancellation request was sent through this client. This
    /// field is private and is set only by the trusted store below, so the
    /// model flag can only ever reflect a real store.
    requested: Ghost<bool>,
}

impl<Details: AsyncOpStatusDetails> AsyncOpClient<Details> {
    /// The consumer end this client reads statuses from
    pub closed spec fn buffer_output(&self) -> Output<AsyncOpStatus<Details>> {
        self.buf_output
    }

    /// The cancellation flag this client writes
    pub closed spec fn cancel_flag(&self) -> Arc<AtomicBool> {
        self.cancelled
    }

    /// Relies on `AtomicBool::store` with release ordering: the shared flag
    /// is set for the server's acquire loads. This is the one place that
    /// sets the client's private cancellation model flag, so the flag can
    /// only become true through the real store.
    #[verifier::external_body]
    fn store_cancel_request(&mut self)
        ensures
            final(self).buffer_output() == old(self).buffer_output(),
            final(self).cancel_flag() == old(self).cancel_flag(),
            final(self).requested@ == true,
    {
        self.cancelled.store(true, Ordering::Release);
    }

    /// Access the current asynchronous operation status: the most recent
    /// status published by the server, or the initial status if the server
    /// has not published anything yet. This never blocks.
    pub fn status(&mut self) -> (r: AsyncOpStatus<Details>)
        ensures
            final(self).cancel_flag() == old(self).cancel_flag(),
            final(self).cancel_requested() == old(self).cancel_requested(),
    {
        buffer_read(&mut self.buf_output)
    }
}

impl<Details: AsyncOpStatusDetails> IAsyncOpClient for AsyncOpClient<Details> {
    closed spec fn cancel_requested(&self) -> bool {
        self.requested@
    }

    /// Request the cancellation of the active asynchronous operation
    fn cancel(&mut self)
        ensures
            final(self).buffer_output() == old(self).buffer_output(),
            final(self).cancel_flag() == old(self).cancel_flag(),
            final(self).cancel_requested(),
    {
        self.store_cancel_request();
    }
}

/// Cancellation is idempotent: the state of a client after a cancel request
/// does not depend on how many requests were sent before, so any number of
/// `cancel` calls leaves the client exactly where a single call does.
pub proof fn lemma_cancel_idempotent<Details: AsyncOpStatusDetails>(
    once: AsyncOpClient<Details>,
    many: AsyncOpClient<Details>,
)
    requires
        once.buffer_output() == many.buffer_output(),
        once.cancel_flag() == many.cancel_flag(),
        once.cancel_requested(),
        many.cancel_requested(),
    ensures
        once == many,
{
}

} // verus!
