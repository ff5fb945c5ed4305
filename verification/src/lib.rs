//! Helpers for small HTTP services, with their behaviour stated in
//! contracts and proved: a cache whose entries share a time to live,
//! containers for handler output, error bodies, request counters, token and
//! upload handling, and the sizing of thread and connection pools.
//!
//! Nothing here touches the network, the file system or the environment.
//! Where the clock, a random number generator or another crate has a say,
//! the contract says what holds whatever they answer.

pub mod auth;
pub mod containers;
pub mod db_pool;
pub mod logger;
pub mod pagination;
pub mod server;
pub mod threads;
pub mod utils;
