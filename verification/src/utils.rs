//! Small helpers on strings and values that handlers share.

pub mod email;
pub mod generate_code;
pub mod hash_password;
pub mod rabbit;
pub mod read_bytes;
pub mod sanitize;
pub mod sanitized_string;
pub mod string_utils;
pub mod text;
pub mod validation;

pub use generate_code::generate_code;
pub use sanitize::Sanitize;
pub use sanitized_string::SanitizedString;
