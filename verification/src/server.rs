//! What a service decides about its own responses: error bodies, request
//! counters and readiness.

pub mod app_data;
pub mod builder;
pub mod generic_error;
pub mod json_error;
pub mod prometheus;
pub mod stats;
pub mod status;
pub mod tracing;

pub use builder::Serwus;
