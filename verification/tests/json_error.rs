use serwus::server::json_error::default_error_handler;
use serwus::server::json_error::serialization_failure;
use serwus::server::json_error::should_rewrite;
use serwus::server::json_error::ErrorBuilder;
use serwus::server::json_error::ErrorWords;
use serwus::server::json_error::JsonErrorType;
use serwus::server::json_error::GENERIC_MESSAGE;
use serwus::server::json_error::GENERIC_REASON;
use serwus::server::status::HttpStatus;
use serde_json::Value;

fn status(code: u16) -> HttpStatus {
    HttpStatus::from_u16(code).unwrap()
}

#[test]
fn status_is_a_number_from_100_to_999() {
    assert!(HttpStatus::from_u16(99).is_none());
    assert!(HttpStatus::from_u16(0).is_none());
    assert!(HttpStatus::from_u16(1000).is_none());
    assert!(HttpStatus::from_u16(u16::MAX).is_none());
    assert_eq!(HttpStatus::from_u16(100).unwrap().as_u16(), 100);
    assert_eq!(HttpStatus::from_u16(999).unwrap().as_u16(), 999);
    assert_eq!(HttpStatus::new(204).as_u16(), 204);
}

#[test]
fn status_classes() {
    assert!(status(200).is_success());
    assert!(status(299).is_success());
    assert!(!status(199).is_success());
    assert!(!status(300).is_success());
    assert!(status(400).is_client_error());
    assert!(status(499).is_client_error());
    assert!(!status(500).is_client_error());
    assert!(status(500).is_server_error());
    assert!(status(599).is_server_error());
    assert!(!status(600).is_server_error());
}

#[test]
fn kind_follows_status() {
    assert!(matches!(JsonErrorType::from(status(404)), JsonErrorType::NotFound));
    assert!(matches!(JsonErrorType::from(status(400)), JsonErrorType::BadRequest));
    assert!(matches!(JsonErrorType::from(status(422)), JsonErrorType::BadRequest));
    assert!(matches!(JsonErrorType::from(status(499)), JsonErrorType::BadRequest));
    assert!(matches!(JsonErrorType::from(status(500)), JsonErrorType::Internal));
    assert!(matches!(JsonErrorType::from(status(503)), JsonErrorType::Internal));
    assert!(matches!(JsonErrorType::from(status(302)), JsonErrorType::Other));
    assert!(matches!(JsonErrorType::from(status(200)), JsonErrorType::Other));
    assert!(matches!(JsonErrorType::from(status(600)), JsonErrorType::Other));
}

#[test]
fn builder_starters() {
    assert_eq!(GENERIC_MESSAGE, "Something went wrong. Try again later");
    assert_eq!(GENERIC_REASON, "Unknown");
    let err = ErrorBuilder::new(status(418), JsonErrorType::Other, "teapot").finish();
    assert_eq!(err.status.as_u16(), 418);
    assert!(matches!(err.error_type, JsonErrorType::Other));
    assert_eq!(err.message, GENERIC_MESSAGE);
    assert_eq!(err.reason, "teapot");
    assert!(err.debug.is_none());
    assert!(err.data.is_none());

    let err = ErrorBuilder::not_found().finish();
    assert_eq!(err.status.as_u16(), 404);
    assert!(matches!(err.error_type, JsonErrorType::NotFound));
    assert_eq!(err.message, "404 Not Found");
    assert_eq!(err.reason, "404 Not Found");

    let err = ErrorBuilder::not_found_msg("no such user").finish();
    assert_eq!(err.status.as_u16(), 404);
    assert_eq!(err.message, "no such user");
    assert_eq!(err.reason, "no such user");

    let err = ErrorBuilder::bad_request("why").finish();
    assert_eq!(err.status.as_u16(), 400);
    assert!(matches!(err.error_type, JsonErrorType::BadRequest));
    assert_eq!(err.message, GENERIC_MESSAGE);
    assert_eq!(err.reason, "why");

    let err = ErrorBuilder::internal("why").finish();
    assert_eq!(err.status.as_u16(), 500);
    assert!(matches!(err.error_type, JsonErrorType::Internal));

    let err = ErrorBuilder::database("why").finish();
    assert_eq!(err.status.as_u16(), 500);
    assert!(matches!(err.error_type, JsonErrorType::Database));

    let err = ErrorBuilder::unauthorized("why").finish();
    assert_eq!(err.status.as_u16(), 401);
    assert!(matches!(err.error_type, JsonErrorType::Other));

    let err = ErrorBuilder::forbidden("why").finish();
    assert_eq!(err.status.as_u16(), 403);
    assert!(matches!(err.error_type, JsonErrorType::Other));

    let err = ErrorBuilder::validation_fail("why").finish();
    assert_eq!(err.status.as_u16(), 422);
    assert!(matches!(err.error_type, JsonErrorType::ValidationFail));
    assert_eq!(err.message, GENERIC_MESSAGE);

    let err = ErrorBuilder::validation_fail_msg("bad input").finish();
    assert_eq!(err.status.as_u16(), 422);
    assert_eq!(err.message, "bad input");
    assert_eq!(err.reason, "bad input");

    let err = ErrorBuilder::custom("Quota", "used up").finish();
    assert_eq!(err.status.as_u16(), 500);
    assert!(matches!(&err.error_type, JsonErrorType::Custom(name) if name == "Quota"));
    assert_eq!(err.reason, "used up");
}

#[test]
fn builder_modifiers() {
    let err = ErrorBuilder::internal("why")
        .status(status(502))
        .message("try later")
        .error_type(JsonErrorType::InvalidParams)
        .debug("at line 3")
        .data(Ok(Value::from(7)))
        .finish();
    assert_eq!(err.status.as_u16(), 502);
    assert_eq!(err.message, "try later");
    assert!(matches!(err.error_type, JsonErrorType::InvalidParams));
    assert_eq!(err.debug, Some("at line 3".to_string()));
    assert_eq!(err.reason, "why");
    assert_eq!(err.data, Some(Value::from(7)));
}

#[test]
fn data_that_failed_to_serialize_says_so() {
    let err = ErrorBuilder::internal("why").data(Err("key must be a string".to_string())).finish();
    assert_eq!(
        err.data,
        Some(Value::String("Error serializing error: key must be a string".to_string()))
    );
    assert_eq!(serialization_failure(""), "Error serializing error: ");
}

#[test]
fn only_plain_errors_are_rewritten() {
    let json = "application/json; charset=utf-8";
    assert!(should_rewrite(status(500), None));
    assert!(should_rewrite(status(404), Some("text/plain")));
    assert!(should_rewrite(status(404), Some("application/json")));
    assert!(should_rewrite(status(302), None));
    assert!(should_rewrite(status(100), None));
    assert!(!should_rewrite(status(404), Some(json)));
    assert!(!should_rewrite(status(200), None));
    assert!(!should_rewrite(status(204), Some("text/plain")));
    assert!(!should_rewrite(status(200), Some(json)));
}

#[test]
fn handler_takes_the_errors_own_words() {
    let words = ErrorWords { display: "no such thing".to_string(), debug: "NotFound(7)".to_string() };
    let err = default_error_handler(status(404), Some("text/plain"), "404 Not Found", Some(words));
    let err = err.unwrap();
    assert_eq!(err.status.as_u16(), 404);
    assert!(matches!(err.error_type, JsonErrorType::NotFound));
    assert_eq!(err.message, "no such thing");
    assert_eq!(err.debug, Some("NotFound(7)".to_string()));
    assert_eq!(err.reason, "");
    assert!(err.data.is_none());
}

#[test]
fn handler_falls_back_on_the_status() {
    let err = default_error_handler(status(503), None, "503 Service Unavailable", None).unwrap();
    assert_eq!(err.status.as_u16(), 503);
    assert!(matches!(err.error_type, JsonErrorType::Internal));
    assert_eq!(err.message, "503 Service Unavailable");
    assert_eq!(err.debug, Some("default_error_handler".to_string()));
    assert_eq!(err.reason, "");
}

#[test]
fn handler_leaves_json_and_successes_alone() {
    let json = "application/json; charset=utf-8";
    assert!(default_error_handler(status(404), Some(json), "404 Not Found", None).is_none());
    assert!(default_error_handler(status(200), None, "200 OK", None).is_none());
}
