//! Core of a generic connection pool: bounded admission of new connections,
//! FIFO bookkeeping of idle connections and parked waiters, replenishment up
//! to a configured idle minimum, and reaping of expired idle connections.
//!
//! The pool's lock-protected state and every decision taken under the lock
//! live here, verified. The surrounding async plumbing (locking, task
//! spawning, timers) hands plain values in and out.

pub mod approvals;
pub mod backoff;
pub mod config;
pub mod conn;
pub mod internals;
pub mod laws;
pub mod waiter;
