//! A TCP connection server core: bounded concurrency admission, exponential
//! backoff for transient accept failures, and graceful shutdown coordination
//! across in-flight connection handlers.
//!
//! The asynchronous shell (sockets, timers, task spawning) lives outside this
//! crate; here every admission, backoff, shutdown and completion decision is
//! a verified state transition with an exact contract.

pub mod addr;
pub mod auth;
pub mod backoff;
pub mod cmd;
pub mod config;
pub mod handler;
pub mod handlers;
pub mod permits;
pub mod server;
pub mod shutdown;
pub mod tracker;
pub mod util;

use vstd::prelude::*;

verus! {

/// Conversion that may fail, mirroring [From] with a [Result] return type.
pub trait FromResulting<T, E> where Self: Sized {
    fn from_resulting(t: T) -> Result<Self, E>;
}

/// Conversion that may fail, mirroring [Into] with a [Result] return type.
pub trait IntoResulting<T, E> where Self: Sized {
    fn into_resulting(self) -> Result<T, E>;
}

} // verus!
