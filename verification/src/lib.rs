//! Board descriptions and an actor-style mutex for embedded devices.
pub mod bsp;
pub mod synchronization;
