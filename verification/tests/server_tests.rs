//! Unit tests for the generic asynchronous operation server

use std::cell::RefCell;
use std::rc::Rc;

use async_ops::server::{AsyncOpServer, AsyncOpServerConfig};
use async_ops::status::{self, NoDetails, StandardAsyncOpStatus};

/// Mock server config, suitable for unit testing
struct MockServerConfig {
    /// Last status update sent by the server
    last_status: Rc<RefCell<StandardAsyncOpStatus>>,

    /// Number of status updates sent by the server so far
    update_count: i32,
}

impl MockServerConfig {
    /// Create a new instance of the mock
    fn new(initial_status: StandardAsyncOpStatus) -> Self {
        MockServerConfig {
            last_status: Rc::new(RefCell::new(initial_status)),
            update_count: 0,
        }
    }
}

impl AsyncOpServerConfig for MockServerConfig {
    /// Implementation details of the asynchronous operation status
    type StatusDetails = NoDetails;

    /// Ghost item of the trait; never called at runtime
    fn inv(&self) -> bool {
        true
    }

    /// Ghost item of the trait; never called at runtime
    fn delivered(&self) -> vstd::seq::Seq<StandardAsyncOpStatus> {
        unreachable!()
    }

    /// Method used to send status updates to the client
    fn update(&mut self, status: StandardAsyncOpStatus) {
        *self.last_status.borrow_mut() = status;
        self.update_count += 1;
    }

    /// Method used to query whether the client has cancelled the operation
    fn cancelled(&self) -> bool {
        false
    }
}

/// Check that servers are created in the right initial state
#[test]
fn server_initial_state() {
    // Test initial server state for a non-final status
    let pending_server =
        AsyncOpServer::new(MockServerConfig::new(status::pending()), &status::pending());
    assert!(*pending_server.config.last_status.borrow() == status::pending());
    assert_eq!(pending_server.config.update_count, 0);
    assert_eq!(pending_server.reached_final_status, false);

    // Test initial server state for a final status
    let final_server =
        AsyncOpServer::new(MockServerConfig::new(status::done()), &status::done());
    assert!(*final_server.config.last_status.borrow() == status::done());
    assert_eq!(final_server.config.update_count, 0);
    assert_eq!(final_server.reached_final_status, true);
}

/// Check that the server update() method works correctly
#[test]
fn correct_updates() {
    // Start with a server in the pending state
    let mut server =
        AsyncOpServer::new(MockServerConfig::new(status::pending()), &status::pending());

    // Move it to the running state, check that it works
    server.update(status::running());
    assert!(*server.config.last_status.borrow() == status::running());
    assert_eq!(server.config.update_count, 1);
    assert_eq!(server.reached_final_status, false);

    // Move it to the done state, check that it works
    server.update(status::done());
    assert!(*server.config.last_status.borrow() == status::done());
    assert_eq!(server.config.update_count, 2);
    assert_eq!(server.reached_final_status, true);
}

/// Check that finalizing a server notifies the client if and only if that
/// server's associated asynchronous operation still has a non-final status.
#[test]
fn drop() {
    // We'll use this reference to keep track of the final operation status
    let mut final_status_ref: Rc<RefCell<StandardAsyncOpStatus>>;

    // Legitimate teardown should work fine
    {
        let mut server =
            AsyncOpServer::new(MockServerConfig::new(status::done()), &status::done());
        final_status_ref = server.config.last_status.clone();
        server.finalize();
    }
    assert!(*final_status_ref.borrow() == status::done());

    // Tearing down an operation with non-final status must notify the client
    {
        let mut server =
            AsyncOpServer::new(MockServerConfig::new(status::running()), &status::running());
        final_status_ref = server.config.last_status.clone();
        server.finalize();
    }
    assert!(*final_status_ref.borrow() == status::error_server_killed());
}

/// Finalization is idempotent: a second finalize after a normal terminal
/// update, or after a first finalize, sends nothing further
#[test]
fn finalize_idempotent() {
    let mut server =
        AsyncOpServer::new(MockServerConfig::new(status::pending()), &status::pending());
    server.update(status::done());
    assert_eq!(server.config.update_count, 1);
    server.finalize();
    assert_eq!(server.config.update_count, 1);
    assert!(*server.config.last_status.borrow() == status::done());

    let mut killed_server =
        AsyncOpServer::new(MockServerConfig::new(status::pending()), &status::pending());
    killed_server.finalize();
    assert_eq!(killed_server.config.update_count, 1);
    killed_server.finalize();
    assert_eq!(killed_server.config.update_count, 1);
    assert!(*killed_server.config.last_status.borrow() == status::error_server_killed());
}
