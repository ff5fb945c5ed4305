//! The kind of an error whose custom kinds are the service's own type.

use crate::server::status::HttpStatus;
use crate::server::status::NOT_FOUND;
use vstd::prelude::*;

verus! {

/// The kind of an error; `Custom` carries what a service adds of its own.
#[derive(Debug)]
pub enum GenericErrorType<T> {
    BadRequest,
    NotFound,
    Internal,
    Other,
    ValidationFail,
    InvalidParams,
    Custom(T),
}

/// The kind that a bare status stands for: 404 is `NotFound`, any other
/// client error `BadRequest`, a server error `Internal`, the rest `Other`.
pub open spec fn kind_of_status(status: HttpStatus) -> GenericErrorType<()> {
    if status.number() == NOT_FOUND {
        GenericErrorType::NotFound
    } else if status.client_error() {
        GenericErrorType::BadRequest
    } else if status.server_error() {
        GenericErrorType::Internal
    } else {
        GenericErrorType::Other
    }
}

impl From<HttpStatus> for GenericErrorType<()> {
    fn from(value: HttpStatus) -> (kind: Self) {
        if value.as_u16() == NOT_FOUND {
            Self::NotFound
        } else if value.is_client_error() {
            Self::BadRequest
        } else if value.is_server_error() {
            Self::Internal
        } else {
            Self::Other
        }
    }
}

impl vstd::std_specs::convert::FromSpecImpl<HttpStatus> for GenericErrorType<()> {
    open spec fn obeys_from_spec() -> bool {
        true
    }

    open spec fn from_spec(value: HttpStatus) -> Self {
        kind_of_status(value)
    }
}

} // verus!
