//! Synchronization primitives.
pub mod mutex;
pub mod waiter_queue;
