//! Blocking-based asynchronous operation monitoring.
//!
//! This module provides a way to monitor asynchronous operations by blocking
//! until their status changes. This synchronization mechanism is easy to use
//! and reason about, but should be used with care, as the unpredictable
//! application delays that it introduces can be harmful to performance.
//!
//! The shared state is a `(status, read)` pair guarded by a mutex, plus a
//! condition variable. The `read` bit records whether the client has already
//! consumed the current version of the status; it is what lets `wait` block
//! exactly when there is nothing new to report and the status may still
//! change, without busy-waiting and without missed-wakeup races. The
//! decision logic on the pair is pure and verified here; the lock itself is
//! trusted (see the `sync` module).

use vstd::prelude::*;

use std::sync::atomic::{AtomicBool, Ordering};
use std::sync::{Arc, Condvar, Mutex};

use crate::client::IAsyncOpClient;
use crate::server::AsyncOpServerConfig;
use crate::status::{AsyncOpStatus, AsyncOpStatusDetails, is_final, is_final_spec};
use crate::sync::{
    arc_clone, condvar_new, condvar_wait_while, guard_read, guard_write, mutex_lock, mutex_new,
};

verus! {

/// Current asynchronous operation status, together with the flag telling
/// whether the client has already consumed this version of it
#[derive(Clone, Copy)]
pub struct StatusWithReadBit<Details: AsyncOpStatusDetails> {
    /// Current asynchronous operation status
    pub status: AsyncOpStatus<Details>,
    /// Whether this version of the status was read by the client
    pub read: bool,
}

impl<Details: AsyncOpStatusDetails> StatusWithReadBit<Details> {
    /// The pair stored by the server when it sends a status: a fresh value,
    /// not yet consumed by the client
    pub open spec fn written(status: AsyncOpStatus<Details>) -> Self {
        StatusWithReadBit { status, read: false }
    }

    /// The pair after the client consumed the current value
    pub open spec fn consumed(self) -> Self {
        StatusWithReadBit { status: self.status, read: true }
    }

    /// Whether `wait` must block on this pair: the current value was already
    /// consumed and the operation may still change
    pub open spec fn must_wait(self) -> bool {
        self.read && !is_final_spec(self.status)
    }
}

/// The blocking decision taken by `wait` under the lock: block exactly when
/// the current status was already read and is not final.
fn should_wait<Details: AsyncOpStatusDetails>(pair: &StatusWithReadBit<Details>) -> (r: bool)
    ensures
        r == pair.must_wait(),
{
    pair.read && !is_final(&pair.status)
}

/// A status update always unblocks the next `wait`: whatever the pair held
/// before, the pair stored by `send` never requires waiting, so a `wait`
/// that observes it returns promptly with the new status.
pub proof fn lemma_update_unblocks_wait<Details: AsyncOpStatusDetails>(
    status: AsyncOpStatus<Details>,
)
    ensures
        !StatusWithReadBit::written(status).must_wait(),
{
}

/// Once the stored status is final, `wait` never blocks again, whether or
/// not the value was already consumed: final statuses are sticky and always
/// immediately returnable.
pub proof fn lemma_final_status_never_blocks<Details: AsyncOpStatusDetails>(
    pair: StatusWithReadBit<Details>,
)
    requires
        is_final_spec(pair.status),
    ensures
        !pair.must_wait(),
        !pair.consumed().must_wait(),
{
}

/// Consuming the current value preserves the status itself: a `status` call
/// followed by a `wait` that does not block (because the status is final)
/// returns the same value.
pub proof fn lemma_consume_preserves_status<Details: AsyncOpStatusDetails>(
    pair: StatusWithReadBit<Details>,
)
    ensures
        pair.consumed().status == pair.status,
        pair.consumed().read,
        is_final_spec(pair.status) ==> !pair.consumed().must_wait(),
{
}

/// State shared between the client and the server
#[verifier::reject_recursive_types(Details)]
pub struct SharedState<Details: AsyncOpStatusDetails> {
    /// Current asynchronous operation status (mutex-protected)
    pub status_lock: Mutex<StatusWithReadBit<Details>>,
    /// Condition variable used to notify clients about status updates
    pub update_cv: Condvar,
    /// Atomic boolean used by the client to request cancellation
    pub cancelled: AtomicBool,
}

/// Server interface, used to send operation status updates to the client
pub type AsyncOpServer<Details> = crate::server::AsyncOpServer<BlockingServerConfig<Details>>;

/// Asynchronous operation object
#[verifier::reject_recursive_types(Details)]
pub struct AsyncOp<Details: AsyncOpStatusDetails> {
    /// Server interface used to submit status updates
    pub server: AsyncOpServer<Details>,
    /// Client interface used to monitor the operation status
    pub client: AsyncOpClient<Details>,
}

impl<Details: AsyncOpStatusDetails> AsyncOp<Details> {
    /// Create a new asynchronous operation object with some initial status
    pub fn new(initial_status: AsyncOpStatus<Details>) -> (op: Self)
        ensures
            op.server.wf(),
            op.server.initial_status@ == initial_status,
            op.server.reached_final_status == is_final_spec(initial_status),
            op.server.updates() == Seq::<AsyncOpStatus<Details>>::empty(),
            op.server.config.delivered() == Seq::<AsyncOpStatus<Details>>::empty(),
            !op.client.cancel_requested(),
            op.client.shared_state() == op.server.config.shared_state(),
    {
        // Start by building the shared state...
        let shared_state = Arc::new(
            SharedState {
                status_lock: mutex_new(
                    StatusWithReadBit { status: initial_status, read: false },
                ),
                update_cv: condvar_new(),
                cancelled: AtomicBool::new(false),
            },
        );

        // ...then build the client and server
        AsyncOp {
            server: crate::server::AsyncOpServer::new(
                BlockingServerConfig {
                    shared: arc_clone(&shared_state),
                    history: Ghost(Seq::empty()),
                },
                &initial_status,
            ),
            client: AsyncOpClient { shared: shared_state, requested: Ghost(false) },
        }
    }

    /// Split the asynchronous operation object into client and server
    /// objects which can be respectively sent to client and server threads
    pub fn split(self) -> (halves: (AsyncOpServer<Details>, AsyncOpClient<Details>))
        ensures
            halves.0 == self.server,
            halves.1 == self.client,
    {
        (self.server, self.client)
    }
}

/// Server configuration for blocking operation monitoring
#[verifier::reject_recursive_types(Details)]
pub struct BlockingServerConfig<Details: AsyncOpStatusDetails> {
    /// Reference-counted shared state
    pub shared: Arc<SharedState<Details>>,
    /// The statuses stored into the shared state so far, in order. This
    /// field is private and grows only through `send_pair` below, so the
    /// delivered history can only ever reflect real stores.
    history: Ghost<Seq<AsyncOpStatus<Details>>>,
}

impl<Details: AsyncOpStatusDetails> BlockingServerConfig<Details> {
    /// The shared state this configuration stores statuses into
    pub closed spec fn shared_state(&self) -> Arc<SharedState<Details>> {
        self.shared
    }

    /// Relies on `Mutex::lock` and `Condvar::notify_all`: stores the given
    /// pair into the shared state under the lock (recovering a poisoned
    /// lock rather than panicking), then wakes all waiters. This is the one
    /// place that extends the delivered history, and it does so by exactly
    /// the status it really stored.
    #[verifier::external_body]
    fn send_pair(&mut self, pair: StatusWithReadBit<Details>)
        ensures
            final(self).shared_state() == old(self).shared_state(),
            final(self).delivered() == old(self).delivered().push(pair.status),
    {
        // Update the value of the asynchronous operation status
        {
            let mut guard =
                self.shared.status_lock.lock().unwrap_or_else(|poisoned| poisoned.into_inner());
            *guard = pair;
        }

        // Notify the reader that an update has occurred
        self.shared.update_cv.notify_all();
    }
}

impl<Details: AsyncOpStatusDetails> AsyncOpServerConfig for BlockingServerConfig<Details> {
    /// Implementation details of the asynchronous operation status
    type StatusDetails = Details;

    open spec fn inv(&self) -> bool {
        true
    }

    closed spec fn delivered(&self) -> Seq<AsyncOpStatus<Details>> {
        self.history@
    }

    /// Method used to send a status update to the client: overwrite the
    /// shared pair with the fresh, unconsumed status, then wake all waiters.
    fn update(&mut self, status: AsyncOpStatus<Details>)
        ensures
            final(self).shared_state() == old(self).shared_state(),
    {
        self.send_pair(StatusWithReadBit { status, read: false });
    }

    /// Method used to query whether the client has cancelled the operation
    fn cancelled(&self) -> bool {
        self.shared.cancelled.load(Ordering::Acquire)
    }
}

/// Client interface, used to synchronize with the operation status
#[verifier::reject_recursive_types(Details)]
pub struct AsyncOpClient<Details: AsyncOpStatusDetails> {
    /// Reference-counted shared state
    pub shared: Arc<SharedState<Details>>,
    /// Whether a cancellation request was sent through this client. This
    /// field is private and is set only by the trusted `cancel` below, so
    /// the model flag can only ever reflect a real store.
    requested: Ghost<bool>,
}

impl<Details: AsyncOpStatusDetails> AsyncOpClient<Details> {
    /// The shared state this client observes statuses through
    pub closed spec fn shared_state(&self) -> Arc<SharedState<Details>> {
        self.shared
    }

    /// Relies on `AtomicBool::store` with release ordering: the shared flag
    /// is set for the server's acquire loads. This is the one place that
    /// sets the client's private cancellation model flag, so the flag can
    /// only become true through the real store.
    #[verifier::external_body]
    fn store_cancel_request(&mut self)
        ensures
            final(self).shared == old(self).shared,
            final(self).requested@ == true,
    {
        self.shared.cancelled.store(true, Ordering::Release);
    }

    /// Access the current operation status and mark it as read.
    ///
    /// The returned value is whatever the server most recently stored into
    /// the shared state; the shared pair is left holding the same status,
    /// marked as consumed.
    pub fn status(&mut self) -> (r: AsyncOpStatus<Details>)
        ensures
            *final(self) == *old(self),
    {
        // Access the current operation status
        let mut guard = mutex_lock(&self.shared.status_lock);
        let pair = guard_read(&guard);

        // Mark it as read
        let marked = StatusWithReadBit { status: pair.status, read: true };
        proof {
            assert(marked == pair.consumed());
        }
        guard_write(&mut guard, marked);

        // Return a copy of it
        pair.status
    }

    /// Wait for either a status update or a final operation status.
    ///
    /// This blocks exactly while the current value was already consumed and
    /// is not final (see `StatusWithReadBit::must_wait`); the returned value
    /// is the first observed status for which that decision said not to
    /// block, and it is left in the shared state marked as consumed.
    pub fn wait(&mut self) -> (r: AsyncOpStatus<Details>)
        ensures
            *final(self) == *old(self),
    {
        // Access the current operation status
        let guard = mutex_lock(&self.shared.status_lock);

        // Only wait while the current status was read and can still change
        let decision = |current: StatusWithReadBit<Details>| -> (blocks: bool)
            ensures
                blocks == current.must_wait(),
            {
                should_wait(&current)
            };
        let (mut guard, pair) = condvar_wait_while(&self.shared.update_cv, guard, decision);
        proof {
            assert(!pair.must_wait());
        }

        // Mark the current operation status as read
        let marked = StatusWithReadBit { status: pair.status, read: true };
        proof {
            assert(marked == pair.consumed());
        }
        guard_write(&mut guard, marked);

        // Return a copy of the final operation status
        pair.status
    }
}

impl<Details: AsyncOpStatusDetails> IAsyncOpClient for AsyncOpClient<Details> {
    closed spec fn cancel_requested(&self) -> bool {
        self.requested@
    }

    /// Request the cancellation of the active asynchronous operation
    fn cancel(&mut self)
        ensures
            final(self).shared_state() == old(self).shared_state(),
            final(self).cancel_requested(),
    {
        self.store_cancel_request();
    }
}

/// Cancellation is idempotent: the state of a client after a cancel request
/// does not depend on how many requests were sent before, so any number of
/// `cancel` calls leaves the client exactly where a single call does.
pub proof fn lemma_cancel_idempotent<Details: AsyncOpStatusDetails>(
    once: AsyncOpClient<Details>,
    many: AsyncOpClient<Details>,
)
    requires
        once.shared_state() == many.shared_state(),
        once.cancel_requested(),
        many.cancel_requested(),
    ensures
        once == many,
{
}

} // verus!
