use serwus::utils::Sanitize;
use serwus::utils::SanitizedString;

struct Model {
    name: String,
}

impl Sanitize for Model {
    fn sanitize(&mut self) {
        self.name = SanitizedString::sanitized(&self.name).into_string();
    }
}

fn name_of(json: &str) -> SanitizedString {
    let parsed: serde_json::Value = serde_json::from_str(json).unwrap();
    SanitizedString::sanitized(parsed["name"].as_str().unwrap())
}

#[test]
fn test_trimming() {
    let json = r#"{"name":" test "}"#;
    let name = name_of(json);

    assert_eq!(name.to_string(), "test");
}

#[test]
fn test_escaped_chars() {
    let json = r#"{"name":" test1 \n test1\b "}"#;
    let name = name_of(json);

    assert_eq!(name.to_string(), "test1 \n test1\u{8}");
}

#[test]
fn test_validation() {
    let json = r#"{"name":""}"#;
    let name = name_of(json);

    let result = validator::ValidateLength::validate_length(name.as_str(), Some(1), Some(128), None);
    assert!(!result);
    assert_eq!(name.length(), 0);
}

#[test]
fn trimming_takes_whitespace_from_both_ends_only() {
    assert_eq!(SanitizedString::sanitized("").as_str(), "");
    assert_eq!(SanitizedString::sanitized(" \t\n ").as_str(), "");
    assert_eq!(SanitizedString::sanitized("a").as_str(), "a");
    assert_eq!(SanitizedString::sanitized("\u{2003}a b\u{a0}").as_str(), "a b");
    assert_eq!(SanitizedString::sanitized("  ä  ö  ").as_str(), "ä  ö");
}

#[test]
fn wrapping_a_string_trims_nothing() {
    let wrapped = SanitizedString::from(" x ".to_string());
    assert_eq!(wrapped.as_str(), " x ");
    assert_eq!(wrapped.length(), 3);
    assert_eq!(wrapped.len(), 3);
    assert!(wrapped == SanitizedString::from(" x ".to_string()));
    assert!(wrapped != SanitizedString::sanitized(" x "));
    assert!(wrapped.clone() == wrapped);
    assert_eq!(SanitizedString::default().as_str(), "");
}

#[test]
fn length_counts_characters() {
    assert_eq!(SanitizedString::sanitized(" żółw ").length(), 4);
    assert_eq!(SanitizedString::sanitized(" żółw ").len(), 7);
}

#[test]
fn models_sanitize_in_place() {
    let mut model = Model { name: "  Ann ".to_string() };
    model.sanitize();
    assert_eq!(model.name, "Ann");
}
