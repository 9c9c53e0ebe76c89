//! Unit tests for the inline callback executor

use std::cell::Cell;
use std::rc::Rc;

use async_ops::executor::inline::InlineCallbackExecutor;
use async_ops::executor::{AnyCallbackChannel, CallbackExecutor};
use async_ops::status::{self, AsyncOpErrorTraits, AsyncOpStatusDetails, AsyncOpStatusTraits,
                        NoDetails, StandardAsyncOpStatus};

/// A second details policy, used to check runtime type compatibility tests
#[derive(Clone, Copy, PartialEq)]
struct OtherDetails {}

impl AsyncOpStatusTraits for OtherDetails {}

impl AsyncOpErrorTraits for OtherDetails {
    fn description(&self) -> &'static str {
        "<No error details>"
    }
}

impl AsyncOpStatusDetails for OtherDetails {
    type PendingDetails = OtherDetails;
    type RunningDetails = OtherDetails;
    type DoneDetails = OtherDetails;
    type CancelledDetails = OtherDetails;
    type ErrorDetails = OtherDetails;
}

// Make sure that executor creation works well
#[test]
fn new_executor() {
    let _ = InlineCallbackExecutor::new();
}

// Make sure that callback channels are set up properly
#[test]
#[allow(unused_variables)]
fn callback_setup() {
    // This callback will set a boolean flag if called
    let called = Rc::new(Cell::new(false));
    let c_called = called.clone();
    let callback = move |s: StandardAsyncOpStatus| c_called.set(true);

    // Setup a callback channel for it
    let mut executor = InlineCallbackExecutor::new();
    let channel = executor.setup_callback(callback);

    // Check that the right type of callback channel was created
    assert!(channel.is_compatible::<NoDetails>());

    // Check that the callback was not called during setup
    assert!(!called.get());
}

// Make sure that callback channels propagate updates as expected
#[test]
fn inline_update() {
    // This callback will increment a counter if called
    let counter = Rc::new(Cell::new(0));
    let c_counter = counter.clone();
    let callback = move |s: StandardAsyncOpStatus| {
        assert!(s == status::done());
        c_counter.set(c_counter.get() + 1);
    };

    // Setup a callback channel for it
    let mut executor = InlineCallbackExecutor::new();
    let mut channel = executor.setup_callback(callback);

    // Check that the callback gets called exactly once on status updates
    channel.notify(status::done());
    assert_eq!(counter.get(), 1);
}

// A channel is compatible exactly with the details type it was set up for
#[test]
#[allow(unused_variables)]
fn compatibility_is_exact() {
    let callback = |s: StandardAsyncOpStatus| {};
    let mut executor = InlineCallbackExecutor::new();
    let channel = executor.setup_callback(callback);
    assert!(channel.is_compatible::<NoDetails>());
    assert!(!channel.is_compatible::<OtherDetails>());

    let other_callback = |s: async_ops::status::AsyncOpStatus<OtherDetails>| {};
    let other_channel = executor.setup_callback(other_callback);
    assert!(other_channel.is_compatible::<OtherDetails>());
    assert!(!other_channel.is_compatible::<NoDetails>());
}
