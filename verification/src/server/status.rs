//! HTTP status codes as plain numbers.

use vstd::prelude::*;

verus! {

/// A status code: a number from 100 to 999.
#[derive(Debug, Clone, Copy, PartialEq, Eq, Structural)]
pub struct HttpStatus {
    code: u16,
}

pub const OK: u16 = 200;

pub const BAD_REQUEST: u16 = 400;

pub const UNAUTHORIZED: u16 = 401;

pub const FORBIDDEN: u16 = 403;

pub const NOT_FOUND: u16 = 404;

pub const UNPROCESSABLE_ENTITY: u16 = 422;

pub const INTERNAL_SERVER_ERROR: u16 = 500;

pub const SERVICE_UNAVAILABLE: u16 = 503;

/// The numbers that are status codes.
pub open spec fn is_status(code: u16) -> bool {
    100 <= code <= 999
}

impl HttpStatus {
    #[verifier::type_invariant]
    spec fn in_range(self) -> bool {
        is_status(self.code)
    }

    /// The number of the status.
    pub closed spec fn number(self) -> u16 {
        self.code
    }

    /// The class of successful responses, `2xx`.
    pub open spec fn success(self) -> bool {
        200 <= self.number() < 300
    }

    /// The class of client errors, `4xx`.
    pub open spec fn client_error(self) -> bool {
        400 <= self.number() < 500
    }

    /// The class of server errors, `5xx`.
    pub open spec fn server_error(self) -> bool {
        500 <= self.number() < 600
    }

    /// The status with the given number, where the number is one.
    pub fn from_u16(code: u16) -> (status: Option<HttpStatus>)
        ensures
            status is Some <==> is_status(code),
            status matches Some(s) ==> s.number() == code,
    {
        if 100 <= code && code <= 999 {
            Some(HttpStatus { code })
        } else {
            None
        }
    }

    /// The status with the given number.
    pub fn new(code: u16) -> (status: HttpStatus)
        requires
            is_status(code),
        ensures
            status.number() == code,
    {
        HttpStatus { code }
    }

    /// The number of the status, which is always from 100 to 999.
    pub fn as_u16(&self) -> (code: u16)
        ensures
            code == self.number(),
            is_status(code),
    {
        proof {
            use_type_invariant(self);
        }
        self.code
    }

    /// Whether the status is in the class of successful responses.
    pub fn is_success(&self) -> (r: bool)
        ensures
            r == self.success(),
    {
        300 > self.code && self.code >= 200
    }

    /// Whether the status is in the class of client errors.
    pub fn is_client_error(&self) -> (r: bool)
        ensures
            r == self.client_error(),
    {
        500 > self.code && self.code >= 400
    }

    /// Whether the status is in the class of server errors.
    pub fn is_server_error(&self) -> (r: bool)
        ensures
            r == self.server_error(),
    {
        600 > self.code && self.code >= 500
    }
}

} // verus!
