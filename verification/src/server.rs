//! General implementation of an asynchronous operation server.
//!
//! This module contains a generic implementation of an asynchronous operation
//! server, suitable for sending asynchronous operation status updates to a
//! client no matter where the client is located and how it plans on
//! synchronizing with the server.
//!
//! The server is a state machine with two states, driven by the terminality
//! of the statuses that flow through it: while the tracked operation has not
//! reached a final status, updates are accepted and forwarded to the
//! configured channel backend; once a final status went through, no further
//! update may ever be submitted. Whoever owns the server must call
//! [`AsyncOpServer::finalize`] before discarding it, so that an abandoned
//! operation still ends in an observable `Error(ServerKilled)` status rather
//! than leaving the client waiting forever.

use vstd::prelude::*;

use crate::status::{AsyncOpError, AsyncOpStatus, AsyncOpStatusDetails, is_final, is_final_spec};

verus! {

/// Whether an operation whose initial status was `init`, and whose server
/// then submitted `updates` in order, has reached a final status.
///
/// The current status of such an operation is the last submitted update, or
/// the initial status while nothing was submitted yet.
pub open spec fn reaches_final<Details: AsyncOpStatusDetails>(
    init: AsyncOpStatus<Details>,
    updates: Seq<AsyncOpStatus<Details>>,
) -> bool {
    if updates.len() == 0 {
        is_final_spec(init)
    } else {
        is_final_spec(updates.last())
    }
}

/// Whether a sequence of submitted updates respects the server's state
/// machine: every update was submitted while the operation had not yet
/// reached a final status.
pub open spec fn valid_trace<Details: AsyncOpStatusDetails>(
    init: AsyncOpStatus<Details>,
    updates: Seq<AsyncOpStatus<Details>>,
) -> bool {
    forall|i: int| 0 <= i < updates.len() ==> !reaches_final(init, #[trigger] updates.take(i))
}

/// A valid trace stays valid when a further update is submitted in a
/// non-final state, which is exactly what `AsyncOpServer::update` does.
proof fn lemma_valid_trace_push<Details: AsyncOpStatusDetails>(
    init: AsyncOpStatus<Details>,
    updates: Seq<AsyncOpStatus<Details>>,
    status: AsyncOpStatus<Details>,
)
    requires
        valid_trace(init, updates),
        !reaches_final(init, updates),
    ensures
        valid_trace(init, updates.push(status)),
{
    let extended = updates.push(status);
    assert forall|i: int| 0 <= i < extended.len() implies !reaches_final(
        init,
        #[trigger] extended.take(i),
    ) by {
        if i < updates.len() {
            assert(extended.take(i) =~= updates.take(i));
        } else {
            assert(extended.take(i) =~= updates);
        }
    }
}

/// Terminality is sticky: in any trace that respects the server's state
/// machine, a final status can only be the last submitted update, so no
/// status is ever delivered after a final one.
pub proof fn lemma_terminality_is_sticky<Details: AsyncOpStatusDetails>(
    init: AsyncOpStatus<Details>,
    updates: Seq<AsyncOpStatus<Details>>,
    i: int,
)
    requires
        valid_trace(init, updates),
        0 <= i < updates.len(),
        is_final_spec(updates[i]),
    ensures
        i == updates.len() - 1,
{
    if i < updates.len() - 1 {
        assert(updates.take(i + 1).last() == updates[i]);
        assert(reaches_final(init, updates.take(i + 1)));
    }
}

/// Terminality is sticky on every reachable server: a server's
/// well-formedness invariant says that its submissions form a valid trace,
/// so a final status among them can only be the last one, and no backend
/// ever delivers a later status to the client.
pub proof fn lemma_server_terminality_is_sticky<Config: AsyncOpServerConfig>(
    server: &AsyncOpServer<Config>,
    i: int,
)
    requires
        server.wf(),
        0 <= i < server.updates().len(),
        is_final_spec(server.updates()[i]),
    ensures
        i == server.updates().len() - 1,
{
    lemma_terminality_is_sticky(server.initial_status@, server.updates(), i);
}

/// No missed finalization: in any state where the operation has not reached
/// a final status yet, submitting `Error(ServerKilled)` is a legal step of
/// the server's state machine, and it leaves the operation in a final state
/// whose last delivered status is `Error(ServerKilled)`.
pub proof fn lemma_no_missed_finalization<Details: AsyncOpStatusDetails>(
    init: AsyncOpStatus<Details>,
    updates: Seq<AsyncOpStatus<Details>>,
)
    requires
        valid_trace(init, updates),
        !reaches_final(init, updates),
    ensures
        valid_trace(init, updates.push(AsyncOpStatus::Error(AsyncOpError::ServerKilled))),
        reaches_final(init, updates.push(AsyncOpStatus::Error(AsyncOpError::ServerKilled))),
        updates.push(AsyncOpStatus::Error(AsyncOpError::ServerKilled)).last()
            == (AsyncOpStatus::<Details>::Error(AsyncOpError::ServerKilled)),
{
    lemma_valid_trace_push(init, updates, AsyncOpStatus::Error(AsyncOpError::ServerKilled));
}

/// Configurable parameters and behaviour of an [`AsyncOpServer`]
pub trait AsyncOpServerConfig: Sized {
    /// Implementation details of the asynchronous operation status
    type StatusDetails: AsyncOpStatusDetails;

    /// Backend-specific invariant, established at construction time and
    /// preserved by `update`
    spec fn inv(&self) -> bool;

    /// The sequence of statuses handed to the channel backend so far, in
    /// submission order
    spec fn delivered(&self) -> Seq<AsyncOpStatus<Self::StatusDetails>>;

    /// Method used to send status updates to the client
    fn update(&mut self, status: AsyncOpStatus<Self::StatusDetails>)
        requires
            old(self).inv(),
        ensures
            final(self).inv(),
            final(self).delivered() == old(self).delivered().push(status),
    ;

    /// Method used to query whether the client has cancelled the operation
    fn cancelled(&self) -> bool;
}

/// Server interface, used to submit asynchronous operation status updates
pub struct AsyncOpServer<Config: AsyncOpServerConfig> {
    /// User-configurable server behaviour
    pub config: Config,
    /// Flag indicating that the operation status has reached a final state
    /// and should not change anymore
    pub reached_final_status: bool,
    /// The status the tracked operation was constructed with
    pub initial_status: Ghost<AsyncOpStatus<Config::StatusDetails>>,
    /// What the channel backend had already delivered when this server was
    /// built; the server's own submissions come after this prefix
    pub preexisting: Ghost<Seq<AsyncOpStatus<Config::StatusDetails>>>,
}

impl<Config: AsyncOpServerConfig> AsyncOpServer<Config> {
    /// The statuses submitted through this server, in submission order
    pub open spec fn updates(&self) -> Seq<AsyncOpStatus<Config::StatusDetails>> {
        self.config.delivered().skip(self.preexisting@.len() as int)
    }

    /// Well-formedness: the backend upholds its invariant, the statuses
    /// submitted through this server form a trace that respects the state
    /// machine, and the terminality flag reflects that trace.
    pub open spec fn wf(&self) -> bool {
        &&& self.config.inv()
        &&& self.config.delivered() == self.preexisting@ + self.updates()
        &&& valid_trace(self.initial_status@, self.updates())
        &&& self.reached_final_status == reaches_final(self.initial_status@, self.updates())
    }

    /// Create a new server interface with some initial status
    pub fn new(
        config: Config,
        initial_status: &AsyncOpStatus<Config::StatusDetails>,
    ) -> (server: Self)
        requires
            config.inv(),
        ensures
            server.wf(),
            server.config == config,
            server.initial_status@ == *initial_status,
            server.preexisting@ == config.delivered(),
            server.updates() == Seq::<AsyncOpStatus<Config::StatusDetails>>::empty(),
            server.reached_final_status == is_final_spec(*initial_status),
    {
        let ghost already_delivered = config.delivered();
        let server = AsyncOpServer {
            config,
            reached_final_status: is_final(initial_status),
            initial_status: Ghost(*initial_status),
            preexisting: Ghost(already_delivered),
        };
        proof {
            assert(server.updates() =~= Seq::<AsyncOpStatus<Config::StatusDetails>>::empty());
            assert(server.config.delivered() =~= server.preexisting@ + server.updates());
        }
        server
    }

    /// Update the current status of the asynchronous operation.
    ///
    /// This may only be called while the operation has not reached a final
    /// status: submitting anything after a final status is a contract
    /// violation by the worker, not a recoverable runtime condition.
    pub fn update(&mut self, status: AsyncOpStatus<Config::StatusDetails>)
        requires
            old(self).wf(),
            !old(self).reached_final_status,
        ensures
            final(self).wf(),
            final(self).updates() == old(self).updates().push(status),
            final(self).reached_final_status == is_final_spec(status),
            final(self).initial_status@ == old(self).initial_status@,
            final(self).preexisting@ == old(self).preexisting@,
    {
        // This may only happen if we have not yet reached a final status
        self.reached_final_status = is_final(&status);

        // Propagate the new operation status
        self.config.update(status);

        proof {
            assert(self.updates() =~= old(self).updates().push(status));
            assert(self.config.delivered() =~= self.preexisting@ + self.updates());
            lemma_valid_trace_push(self.initial_status@, old(self).updates(), status);
            assert(self.updates().last() == status);
        }
    }

    /// Method used to query whether the client has cancelled the operation
    pub fn cancelled(&self) -> bool {
        self.config.cancelled()
    }

    /// If the worker is done with this server before the operation has
    /// reached its final status, notify the client in order to prevent it
    /// from hanging: an abandoned operation ends in `Error(ServerKilled)`.
    ///
    /// Calling this on an already finalized server does nothing, so the
    /// teardown step is idempotent against a server that already finalized
    /// normally. Whoever owns a server must call this before discarding it.
    pub fn finalize(&mut self)
        requires
            old(self).wf(),
        ensures
            final(self).wf(),
            final(self).reached_final_status,
            !old(self).reached_final_status ==> final(self).updates()
                == old(self).updates().push(AsyncOpStatus::Error(AsyncOpError::ServerKilled)),
            old(self).reached_final_status ==> *final(self) == *old(self),
            final(self).initial_status@ == old(self).initial_status@,
            final(self).preexisting@ == old(self).preexisting@,
    {
        if !self.reached_final_status {
            self.update(AsyncOpStatus::Error(AsyncOpError::ServerKilled));
        }
    }
}

} // verus!
