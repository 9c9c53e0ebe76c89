//! Unit tests for callback-based operation monitoring

use std::cell::{Cell, RefCell};
use std::rc::Rc;

use async_ops::client::IAsyncOpClient;
use async_ops::executor::inline::InlineCallbackExecutor;
use async_ops::multithread::callback::new_async_op;
use async_ops::status::{self, StandardAsyncOpStatus};

/// Check the initial operation state
#[test]
#[allow(unused_variables)]
fn callback_initial_state() {
    // This callback will set a boolean flag if called
    let called = Rc::new(Cell::new(false));
    let c_called = called.clone();
    let callback = move |s: StandardAsyncOpStatus| c_called.set(true);

    // Check that the callback does not get called during server creation
    let mut executor = InlineCallbackExecutor::new();
    let async_op = new_async_op(callback, &mut executor, status::pending());
    assert!(!called.get());
}

/// Check that the callback is called on status updates
#[test]
fn callback_update() {
    // This callback will increment a counter if called
    let counter = Rc::new(Cell::new(0));
    let c_counter = counter.clone();
    let callback = move |s: StandardAsyncOpStatus| {
        assert!(s == status::done());
        c_counter.set(c_counter.get() + 1);
    };

    // Check that the callback gets called exactly once on status updates
    let mut executor = InlineCallbackExecutor::new();
    let async_op = new_async_op(callback, &mut executor, status::pending());
    let (mut server, _) = async_op.split();
    server.update(status::done());
    assert_eq!(counter.get(), 1);
}

/// Check that cancellation works as expected
#[test]
#[allow(unused_variables)]
fn callback_cancelation() {
    // This callback will set a boolean flag if called
    let called = Rc::new(Cell::new(false));
    let c_called = called.clone();
    let callback = move |s: StandardAsyncOpStatus| c_called.set(true);

    // Create a test harness
    let mut executor = InlineCallbackExecutor::new();
    let async_op = new_async_op(callback, &mut executor, status::pending());
    let (server, mut client) = async_op.split();

    // Check that cancellation works as expected
    client.cancel();
    assert!(server.cancelled());
    assert!(!called.get());
}

/// The callback fires exactly once per update, with the exact status that
/// was submitted, in submission order
#[test]
fn callback_invocation_order() {
    let seen = Rc::new(RefCell::new(Vec::new()));
    let c_seen = seen.clone();
    let callback = move |s: StandardAsyncOpStatus| c_seen.borrow_mut().push(s);

    let mut executor = InlineCallbackExecutor::new();
    let async_op = new_async_op(callback, &mut executor, status::pending());
    let (mut server, _) = async_op.split();
    server.update(status::running());
    server.update(status::pending());
    server.update(status::done());

    let observed = seen.borrow();
    assert_eq!(observed.len(), 3);
    assert!(observed[0] == status::running());
    assert!(observed[1] == status::pending());
    assert!(observed[2] == status::done());
}

/// Finalizing a server that never reached a final status invokes the
/// callback one last time, with the synthesized error status
#[test]
fn abandoned_server_invokes_callback() {
    let seen = Rc::new(RefCell::new(Vec::new()));
    let c_seen = seen.clone();
    let callback = move |s: StandardAsyncOpStatus| c_seen.borrow_mut().push(s);

    let mut executor = InlineCallbackExecutor::new();
    let async_op = new_async_op(callback, &mut executor, status::pending());
    let (mut server, _) = async_op.split();
    server.update(status::running());
    server.finalize();

    let observed = seen.borrow();
    assert_eq!(observed.len(), 2);
    assert!(observed[0] == status::running());
    assert!(observed[1] == status::error_server_killed());
}
