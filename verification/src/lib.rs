//! Monitoring of asynchronous operations.
//!
//! An asynchronous operation is a unit of work handed off to another thread or
//! device. This library splits every such operation into a server half, owned
//! by whoever performs the work, and a client half, owned by whoever waits for
//! the result, connected by a status channel. Three channel backends are
//! provided: non-blocking polling, blocking wait, and callback dispatch. All
//! of them share one contract: the client is always eventually informed of a
//! terminal outcome, and never observes two terminal statuses.

pub mod client;
pub mod executor;
pub mod multithread;
pub mod server;
pub mod status;
mod sync;
