//! Who is asking: tokens in request headers.

pub mod jwt;
pub mod rs256_jwks;

pub use crate::containers::role::Role;
