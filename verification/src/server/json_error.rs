//! Errors in the shape in which a service sends them out as JSON.

use crate::server::status::HttpStatus;
use crate::server::status::BAD_REQUEST;
use crate::server::status::FORBIDDEN;
use crate::server::status::INTERNAL_SERVER_ERROR;
use crate::server::status::NOT_FOUND;
use crate::server::status::UNAUTHORIZED;
use crate::server::status::UNPROCESSABLE_ENTITY;
use serde_json::Value;
use vstd::prelude::*;
use vstd::string::StringExecFns;

verus! {

/// `serde_json::Value`: a JSON value, carried through unread.
#[verifier::external_type_specification]
#[verifier::external_body]
pub struct ExValue(serde_json::Value);

/// `str == str`: equality of the characters.
pub assume_specification[ <str as PartialEq>::eq ](a: &str, b: &str) -> (r: bool)
    ensures
        r == (a@ == b@),
;

/// `Value::from` of a `String`: the JSON string with that text. The value is
/// carried through unread, so nothing is claimed of it.
#[verifier::external_body]
fn json_string(text: String) -> (value: Value) {
    Value::from(text)
}

/// The kind of an error, common to all services.
#[derive(Debug)]
pub enum JsonErrorType {
    BadRequest,
    NotFound,
    Internal,
    Other,
    Database,
    ValidationFail,
    InvalidParams,
    Custom(String),
}

impl JsonErrorType {
    /// The kind that a bare status stands for: 404 is `NotFound`, any other
    /// client error `BadRequest`, a server error `Internal`, the rest `Other`.
    pub open spec fn of_status(status: HttpStatus) -> JsonErrorType {
        if status.number() == NOT_FOUND {
            JsonErrorType::NotFound
        } else if status.client_error() {
            JsonErrorType::BadRequest
        } else if status.server_error() {
            JsonErrorType::Internal
        } else {
            JsonErrorType::Other
        }
    }
}

impl From<HttpStatus> for JsonErrorType {
    fn from(value: HttpStatus) -> (kind: Self) {
        if value.as_u16() == NOT_FOUND {
            Self::NotFound
        } else if value.is_client_error() {
            Self::BadRequest
        } else if value.is_server_error() {
            Self::Internal
        } else {
            Self::Other
        }
    }
}

impl vstd::std_specs::convert::FromSpecImpl<HttpStatus> for JsonErrorType {
    open spec fn obeys_from_spec() -> bool {
        true
    }

    open spec fn from_spec(value: HttpStatus) -> Self {
        JsonErrorType::of_status(value)
    }
}

/// The message of an error that has none of its own.
pub const GENERIC_MESSAGE: &'static str = "Something went wrong. Try again later";

/// The reason of an error whose reason is not known.
pub const GENERIC_REASON: &'static str = "Unknown";

/// The content type of a JSON body.
pub const JSON_CONTENT_TYPE: &'static str = "application/json; charset=utf-8";

/// What 404 is called in a message.
pub const NOT_FOUND_TEXT: &'static str = "404 Not Found";

/// What the debug field holds when the response carried no error.
pub const HANDLER_NAME: &'static str = "default_error_handler";

/// An error as a service sends it out.
#[derive(Debug)]
pub struct JsonError {
    /// The status of the response.
    pub status: HttpStatus,
    /// Generic type common to all services
    pub error_type: JsonErrorType,
    /// Message to be displayed to the user
    pub message: String,
    /// Error representation for tracing exact place in the code where error occurred
    pub debug: Option<String>,
    /// Detailed reason of the error
    pub reason: String,
    /// Any additional data, needs to be used when presenting error to the user (f. ex. validation errors)
    pub data: Option<Value>,
}

/// Puts a [`JsonError`] together step by step.
pub struct ErrorBuilder {
    inner: JsonError,
}

/// The text of a string, where there is one.
pub open spec fn text_of(s: Option<String>) -> Option<Seq<char>> {
    match s {
        Some(s) => Some(s@),
        None => None,
    }
}

impl ErrorBuilder {
    /// The error as it stands.
    pub closed spec fn view(&self) -> JsonError {
        self.inner
    }

    /// An error that was started with `new`: the generic message, no debug
    /// text and no data.
    pub open spec fn is_new(&self, status: HttpStatus, error_type: JsonErrorType, reason: Seq<char>) -> bool {
        &&& self@.status == status
        &&& self@.error_type == error_type
        &&& self@.message@ == GENERIC_MESSAGE@
        &&& self@.debug is None
        &&& self@.reason@ == reason
        &&& self@.data is None
    }

    /// `self` is `before` but for the message.
    pub open spec fn same_but_message(&self, before: &Self) -> bool {
        &&& self@.status == before@.status
        &&& self@.error_type == before@.error_type
        &&& self@.debug == before@.debug
        &&& self@.reason == before@.reason
        &&& self@.data == before@.data
    }

    // Starters
    /// Starts an error with the generic message.
    pub fn new(status_code: HttpStatus, error_type: JsonErrorType, reason: &str) -> (builder:
        ErrorBuilder)
        ensures
            builder.is_new(status_code, error_type, reason@),
    {
        let reason = String::from_str(reason);
        Self {
            inner: JsonError {
                status: status_code,
                error_type,
                message: String::from_str(GENERIC_MESSAGE),
                debug: None,
                reason,
                data: None,
            },
        }
    }

    /// 404, with the name of the status as message and reason.
    pub fn not_found() -> (builder: Self)
        ensures
            builder@.status.number() == NOT_FOUND,
            builder@.error_type == JsonErrorType::NotFound,
            builder@.message@ == NOT_FOUND_TEXT@,
            builder@.reason@ == NOT_FOUND_TEXT@,
            builder@.debug is None,
            builder@.data is None,
    {
        Self::not_found_msg(NOT_FOUND_TEXT)
    }

    /// 404, with `message` as message and reason.
    pub fn not_found_msg(message: &str) -> (builder: Self)
        ensures
            builder@.status.number() == NOT_FOUND,
            builder@.error_type == JsonErrorType::NotFound,
            builder@.message@ == message@,
            builder@.reason@ == message@,
            builder@.debug is None,
            builder@.data is None,
    {
        let status_code = HttpStatus::new(NOT_FOUND);
        Self::new(status_code, JsonErrorType::NotFound, message).message(message)
    }

    /// 400 of kind `BadRequest`.
    pub fn bad_request(reason: &str) -> (builder: Self)
        ensures
            builder@.status.number() == BAD_REQUEST,
            builder.is_new(builder@.status, JsonErrorType::BadRequest, reason@),
    {
        let status_code = HttpStatus::new(BAD_REQUEST);
        Self::new(status_code, JsonErrorType::BadRequest, reason)
    }

    /// 500 of kind `Internal`.
    pub fn internal(reason: &str) -> (builder: Self)
        ensures
            builder@.status.number() == INTERNAL_SERVER_ERROR,
            builder.is_new(builder@.status, JsonErrorType::Internal, reason@),
    {
        let status_code = HttpStatus::new(INTERNAL_SERVER_ERROR);
        Self::new(status_code, JsonErrorType::Internal, reason)
    }

    /// 500 of kind `Database`.
    pub fn database(reason: &str) -> (builder: Self)
        ensures
            builder@.status.number() == INTERNAL_SERVER_ERROR,
            builder.is_new(builder@.status, JsonErrorType::Database, reason@),
    {
        let status_code = HttpStatus::new(INTERNAL_SERVER_ERROR);
        Self::new(status_code, JsonErrorType::Database, reason)
    }

    /// 401 of kind `Other`.
    pub fn unauthorized(reason: &str) -> (builder: Self)
        ensures
            builder@.status.number() == UNAUTHORIZED,
            builder.is_new(builder@.status, JsonErrorType::Other, reason@),
    {
        let status_code = HttpStatus::new(UNAUTHORIZED);
        Self::new(status_code, JsonErrorType::Other, reason)
    }

    /// 403 of kind `Other`.
    pub fn forbidden(reason: &str) -> (builder: Self)
        ensures
            builder@.status.number() == FORBIDDEN,
            builder.is_new(builder@.status, JsonErrorType::Other, reason@),
    {
        let status_code = HttpStatus::new(FORBIDDEN);
        Self::new(status_code, JsonErrorType::Other, reason)
    }

    /// 422 of kind `ValidationFail`.
    pub fn validation_fail(reason: &str) -> (builder: Self)
        ensures
            builder@.status.number() == UNPROCESSABLE_ENTITY,
            builder.is_new(builder@.status, JsonErrorType::ValidationFail, reason@),
    {
        let status_code = HttpStatus::new(UNPROCESSABLE_ENTITY);
        Self::new(status_code, JsonErrorType::ValidationFail, reason)
    }

    /// 422 of kind `ValidationFail`, with `message` as message and reason.
    pub fn validation_fail_msg(message: &str) -> (builder: Self)
        ensures
            builder@.status.number() == UNPROCESSABLE_ENTITY,
            builder@.error_type == JsonErrorType::ValidationFail,
            builder@.message@ == message@,
            builder@.reason@ == message@,
            builder@.debug is None,
            builder@.data is None,
    {
        Self::validation_fail(message).message(message)
    }

    /// 500 of a kind of the service's own, named by `sub_type`.
    pub fn custom(sub_type: &str, reason: &str) -> (builder: Self)
        ensures
            builder@.status.number() == INTERNAL_SERVER_ERROR,
            builder@.error_type matches JsonErrorType::Custom(name) && name@ == sub_type@,
            builder@.message@ == GENERIC_MESSAGE@,
            builder@.reason@ == reason@,
            builder@.debug is None,
            builder@.data is None,
    {
        let status_code = HttpStatus::new(INTERNAL_SERVER_ERROR);
        Self::new(status_code, JsonErrorType::Custom(String::from_str(sub_type)), reason)
    }

    // Modifiers
    /// Sets the status; the kind stays as it is.
    pub fn status(self, status_code: HttpStatus) -> (builder: Self)
        ensures
            builder@.status == status_code,
            builder@.error_type == self@.error_type,
            builder@.message == self@.message,
            builder@.debug == self@.debug,
            builder@.reason == self@.reason,
            builder@.data == self@.data,
    {
        let mut builder = self;
        builder.inner.status = status_code;
        builder
    }

    /// Sets the message for the user.
    pub fn message(self, message: &str) -> (builder: Self)
        ensures
            builder@.message@ == message@,
            builder.same_but_message(&self),
    {
        let mut builder = self;
        builder.inner.message = String::from_str(message);
        builder
    }

    /// Sets the kind; the status stays as it is.
    pub fn error_type(self, error_type: JsonErrorType) -> (builder: Self)
        ensures
            builder@.error_type == error_type,
            builder@.status == self@.status,
            builder@.message == self@.message,
            builder@.debug == self@.debug,
            builder@.reason == self@.reason,
            builder@.data == self@.data,
    {
        let mut builder = self;
        builder.inner.error_type = error_type;
        builder
    }

    /// Sets the debug text.
    pub fn debug(self, debug: &str) -> (builder: Self)
        ensures
            text_of(builder@.debug) == Some(debug@),
            builder@.status == self@.status,
            builder@.error_type == self@.error_type,
            builder@.message == self@.message,
            builder@.reason == self@.reason,
            builder@.data == self@.data,
    {
        let mut builder = self;
        builder.inner.debug = Some(String::from_str(debug));
        builder
    }

    /// Sets the data from the outcome of turning it into JSON: the value, or,
    /// where that failed with the given words, a JSON string that says so.
    pub fn data(self, converted: Result<Value, String>) -> (builder: Self)
        ensures
            builder@.data is Some,
            converted matches Ok(value) ==> builder@.data == Some(value),
            builder@.status == self@.status,
            builder@.error_type == self@.error_type,
            builder@.message == self@.message,
            builder@.debug == self@.debug,
            builder@.reason == self@.reason,
    {
        let data = match converted {
            Ok(value) => value,
            Err(err_str) => json_string(serialization_failure(err_str.as_str())),
        };
        let mut builder = self;
        builder.inner.data = Some(data);
        builder
    }

    // Produce ready error
    /// The finished error.
    pub fn finish(self) -> (error: JsonError)
        ensures
            error == self@,
    {
        self.inner
    }
}

/// What stands in for data that could not be turned into JSON.
pub fn serialization_failure(err_str: &str) -> (text: String)
    ensures
        text@ == "Error serializing error: "@ + err_str@,
{
    let mut text = String::from_str("Error serializing error: ");
    text.append(err_str);
    text
}

/// What a response's error says of itself.
pub struct ErrorWords {
    /// The error as shown to a user.
    pub display: String,
    /// The error as shown to a developer.
    pub debug: String,
}

/// Whether a response is rewritten as a JSON error: it is no success, and its
/// body is not JSON already.
pub open spec fn needs_rewrite(status: HttpStatus, content_type: Option<Seq<char>>) -> bool {
    !status.success() && content_type != Some(JSON_CONTENT_TYPE@)
}

/// Decides whether a response is rewritten as a JSON error.
pub fn should_rewrite(status: HttpStatus, content_type: Option<&str>) -> (r: bool)
    ensures
        r == needs_rewrite(
            status,
            match content_type {
                Some(c) => Some(c@),
                None => None,
            },
        ),
{
    let is_json = match content_type {
        Some(c) => *c == *JSON_CONTENT_TYPE,
        None => false,
    };
    !status.is_success() && !is_json
}

/// The JSON error that takes the place of a plain error response, or `None`
/// where the response is left as it is. The kind follows from the status.
/// Message and debug text are the error's own words; a response without an
/// error gets the name of its status and the name of this handler.
pub fn default_error_handler(
    status: HttpStatus,
    content_type: Option<&str>,
    status_text: &str,
    error: Option<ErrorWords>,
) -> (rewritten: Option<JsonError>)
    ensures
        rewritten is Some <==> needs_rewrite(
            status,
            match content_type {
                Some(c) => Some(c@),
                None => None,
            },
        ),
        rewritten matches Some(err) ==> {
            &&& err.status == status
            &&& err.error_type == JsonErrorType::of_status(status)
            &&& err.message@ == match error {
                Some(words) => words.display@,
                None => status_text@,
            }
            &&& text_of(err.debug) == Some(
                match error {
                    Some(words) => words.debug@,
                    None => HANDLER_NAME@,
                },
            )
            &&& err.reason@ == Seq::<char>::empty()
            &&& err.data is None
        },
{
    if should_rewrite(status, content_type) {
        let error_type = JsonErrorType::from(status);
        let (message, debug) = match error {
            Some(words) => (words.display, words.debug),
            None => (String::from_str(status_text), String::from_str(HANDLER_NAME)),
        };
        Some(
            JsonError {
                status,
                error_type,
                message,
                debug: Some(debug),
                reason: String::new(),
                data: None,
            },
        )
    } else {
        None
    }
}

} // verus!
