//! Unit tests for polling-based operation monitoring

use async_ops::client::IAsyncOpClient;
use async_ops::multithread::polling::AsyncOp;
use async_ops::status;

/// Check the initial state of asynchronous operations
#[test]
#[allow(unused_variables)]
fn polling_initial_state() {
    // Does the client give out the right status initially?
    let mut async_op = AsyncOp::new(status::pending());
    assert!(async_op.client.status() == status::pending());

    // Does it still give it out after splitting the client and the server?
    let (server, mut client) = async_op.split();
    assert!(client.status() == status::pending());

    // Is the cancellation flag initially unset?
    assert!(!server.cancelled());
}

/// Check that status changes propagate correctly from client to server
#[test]
fn status_propagation() {
    let async_op = AsyncOp::new(status::pending());
    let (mut server, mut client) = async_op.split();
    server.update(status::done());
    assert!(client.status() == status::done());
}

/// Check that cancellation works as expected
#[test]
fn polling_cancelation() {
    // Create an asynchronous operation
    let async_op = AsyncOp::new(status::pending());
    let (server, mut client) = async_op.split();

    // Make sure that cancelling it works as expected
    client.cancel();
    assert!(server.cancelled());
}

/// Cancelling any number of times is equivalent to cancelling once
#[test]
fn cancelation_idempotent() {
    let async_op = AsyncOp::new(status::pending());
    let (server, mut client) = async_op.split();
    assert!(!server.cancelled());
    client.cancel();
    assert!(server.cancelled());
    client.cancel();
    client.cancel();
    assert!(server.cancelled());
}

/// The reader only ever observes the most recent completed write
#[test]
fn latest_value_wins() {
    let async_op = AsyncOp::new(status::pending());
    let (mut server, mut client) = async_op.split();
    server.update(status::running());
    server.update(status::done());
    assert!(client.status() == status::done());
    // A stale value never reappears after a newer one was read
    assert!(client.status() == status::done());
}

/// The scenario walked through by the design discussion: construct with
/// pending, split, move to running, then done; the server then refuses
/// further updates
#[test]
fn full_scenario() {
    let async_op = AsyncOp::new(status::pending());
    let (mut server, mut client) = async_op.split();
    assert!(!server.reached_final_status);
    server.update(status::running());
    assert!(client.status() == status::running());
    server.update(status::done());
    assert!(client.status() == status::done());
    // A further update would violate the server's contract: its terminality
    // flag is now set for good
    assert!(server.reached_final_status);
}

/// An abandoned server leaves the client an observable error status
#[test]
fn abandoned_server_reports_error() {
    let async_op = AsyncOp::new(status::pending());
    let (mut server, mut client) = async_op.split();
    server.finalize();
    assert!(client.status() == status::error_server_killed());
}
