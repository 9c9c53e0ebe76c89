//! Unit tests for the status model

use async_ops::status::{self, AsyncOpError, AsyncOpErrorTraits, AsyncOpStatus, NoDetails, is_final};

/// Test that the standard asynchronous operation statuses match their
/// more general generic cousins
#[test]
fn test_standard_statuses() {
    // Standard "pending" status
    match status::pending() {
        AsyncOpStatus::Pending(_) => {}
        _ => panic!("PENDING status is incorrectly defined"),
    }
    assert!(!is_final(&status::pending()));

    // Standard "running" status
    match status::running() {
        AsyncOpStatus::Running(_) => {}
        _ => panic!("RUNNING status is incorrectly defined"),
    }
    assert!(!is_final(&status::running()));

    // Standard "done" status
    match status::done() {
        AsyncOpStatus::Done(_) => {}
        _ => panic!("DONE status is incorrectly defined"),
    }
    assert!(is_final(&status::done()));

    // Standard "cancelled" status
    match status::cancelled() {
        AsyncOpStatus::Cancelled(_) => {}
        _ => panic!("CANCELLED status is incorrectly defined"),
    }
    assert!(is_final(&status::cancelled()));

    // Standard "error" status
    match status::error_server_killed() {
        AsyncOpStatus::Error(AsyncOpError::ServerKilled) => {}
        _ => panic!("ERROR_SERVER_KILLED status is incorrectly defined"),
    }
    assert!(is_final(&status::error_server_killed()));
}

/// Application-specific errors are terminal like any other error status
#[test]
fn custom_errors_are_final() {
    let custom: status::StandardAsyncOpStatus =
        AsyncOpStatus::Error(AsyncOpError::CustomError(NoDetails {}));
    assert!(is_final(&custom));
    match custom {
        AsyncOpStatus::Error(AsyncOpError::CustomError(_)) => {}
        _ => panic!("custom error status was not preserved"),
    }
}

/// The placeholder details carry a placeholder error description
#[test]
fn no_details_description() {
    assert_eq!(NoDetails {}.description(), "<No error details>");
}
