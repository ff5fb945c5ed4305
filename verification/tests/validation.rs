use serwus::utils::validation::CodeError;
use serwus::utils::validation::Error;
use serwus::utils::validation::FieldIssue;
use serwus::utils::validation::FieldIssues;
use serwus::utils::validation::ValidationError;
use std::borrow::Cow;
use validator::ValidationErrors;

fn issue(code: &str, message: Option<&str>) -> FieldIssue {
    FieldIssue { code: code.to_string(), message: message.map(|m| m.to_string()) }
}

fn pairs(errors: &[Error]) -> Vec<(String, String)> {
    errors.iter().map(|e| (e.code().clone(), e.message().clone())).collect()
}

fn pair(code: &str, message: &str) -> (String, String) {
    (code.to_string(), message.to_string())
}

#[test]
fn code_of_validation_failure_is_zero() {
    assert_eq!(CodeError::ValidationCodeError.as_num(), 0);
    assert_eq!(ValidationError::from_fields(&Vec::new()).code(), 0);
}

#[test]
fn no_fields_give_no_errors() {
    let failure = ValidationError::from_fields(&Vec::new());
    assert!(failure.fields().is_empty());
    assert!(failure.errors_of(&"name".to_string()).is_none());
}

#[test]
fn issues_of_a_plain_name_pile_up() {
    let fields = vec![FieldIssues {
        field: "name".to_string(),
        issues: vec![issue("length", Some("too short")), issue("required", None)],
    }];
    let failure = ValidationError::from_fields(&fields);
    assert_eq!(failure.fields(), vec!["name".to_string()]);
    let errors = failure.errors_of(&"name".to_string()).unwrap();
    assert_eq!(pairs(errors), vec![pair("length", "too short"), pair("required", "")]);
}

#[test]
fn issues_of_a_renamed_field_replace_each_other() {
    let fields = vec![FieldIssues {
        field: "user_name".to_string(),
        issues: vec![issue("length", Some("too short")), issue("required", Some("missing"))],
    }];
    let failure = ValidationError::from_fields(&fields);
    assert_eq!(failure.fields(), vec!["userName".to_string()]);
    assert!(failure.errors_of(&"user_name".to_string()).is_none());
    let errors = failure.errors_of(&"userName".to_string()).unwrap();
    assert_eq!(pairs(errors), vec![pair("required", "missing")]);
}

#[test]
fn later_field_joins_an_entry_under_its_own_spelling() {
    let fields = vec![
        FieldIssues { field: "user_name".to_string(), issues: vec![issue("a", None)] },
        FieldIssues { field: "userName".to_string(), issues: vec![issue("b", Some("B"))] },
        FieldIssues { field: "age".to_string(), issues: Vec::new() },
        FieldIssues { field: "e_mail".to_string(), issues: vec![issue("email", Some("bad"))] },
    ];
    let failure = ValidationError::from_fields(&fields);
    assert_eq!(failure.fields(), vec!["userName".to_string(), "eMail".to_string()]);
    let errors = failure.errors_of(&"userName".to_string()).unwrap();
    assert_eq!(pairs(errors), vec![pair("a", ""), pair("b", "B")]);
    let errors = failure.errors_of(&"eMail".to_string()).unwrap();
    assert_eq!(pairs(errors), vec![pair("email", "bad")]);
    assert!(failure.errors_of(&"age".to_string()).is_none());
}

#[test]
fn from_reads_the_validators_field_errors() {
    let mut found = ValidationErrors::new();
    let mut short = validator::ValidationError::new("length");
    short.message = Some(Cow::Borrowed("too short"));
    found.add("name", short);
    found.add("name", validator::ValidationError::new("required"));
    found.add("zip_code", validator::ValidationError::new("digits"));
    let failure = ValidationError::from(&found);
    assert_eq!(failure.code(), 0);
    let mut names = failure.fields();
    names.sort();
    assert_eq!(names, vec!["name".to_string(), "zipCode".to_string()]);
    let errors = failure.errors_of(&"name".to_string()).unwrap();
    assert_eq!(pairs(errors), vec![pair("length", "too short"), pair("required", "")]);
    let errors = failure.errors_of(&"zipCode".to_string()).unwrap();
    assert_eq!(pairs(errors), vec![pair("digits", "")]);
}

#[test]
fn from_leaves_out_nested_errors() {
    let mut inner = ValidationErrors::new();
    inner.add("street", validator::ValidationError::new("required"));
    let mut found = ValidationErrors::new();
    found.merge_self("address", Err(inner));
    found.add("name", validator::ValidationError::new("required"));
    let failure = ValidationError::from(&found);
    assert_eq!(failure.fields(), vec!["name".to_string()]);
    assert!(ValidationError::from(&ValidationErrors::new()).fields().is_empty());
}
