use serwus::auth::jwt::bearer_in;
use serwus::auth::jwt::bearer_of;
use serwus::auth::jwt::decode_failure;
use serwus::auth::jwt::select_token;
use serwus::auth::jwt::AuthFailure;
use serwus::auth::jwt::KnowSecret;

struct Claims;

impl KnowSecret for Claims {
    fn get_secret() -> Vec<u8> {
        vec![1, 2, 3]
    }
}

fn headers(values: &[&str]) -> Vec<String> {
    values.iter().map(|v| v.to_string()).collect()
}

#[test]
fn bearer_token_is_the_second_word() {
    assert_eq!(bearer_of("Bearer abc.def.ghi"), Some("abc.def.ghi".to_string()));
    assert_eq!(bearer_of("  Bearer \t abc  trailing words"), Some("abc".to_string()));
    assert_eq!(bearer_of("Bearer\u{a0}abc"), Some("abc".to_string()));
    assert_eq!(bearer_of("Bearer\u{200b}abc"), None);
    assert_eq!(bearer_of("Bearer\u{2003}abc"), Some("abc".to_string()));
}

#[test]
fn other_schemes_carry_no_bearer_token() {
    assert_eq!(bearer_of(""), None);
    assert_eq!(bearer_of("   "), None);
    assert_eq!(bearer_of("Bearer"), None);
    assert_eq!(bearer_of("Bearer   "), None);
    assert_eq!(bearer_of("bearer abc"), None);
    assert_eq!(bearer_of("Basic dXNlcjpwYXNz"), None);
    assert_eq!(bearer_of("Bearerabc def"), None);
}

#[test]
fn bearer_of_agrees_with_split_whitespace() {
    for value in ["Bearer a", " Bearer  b c", "Bearer", "x Bearer y", "Bearer\nz", "\u{3000}Bearer q"] {
        let mut split = value.split_whitespace();
        let expected = match split.next() {
            Some("Bearer") => split.next().map(|t| t.to_string()),
            _ => None,
        };
        assert_eq!(bearer_of(value), expected);
    }
}

#[test]
fn one_token_is_selected() {
    assert_eq!(select_token(&headers(&["Bearer abc"])), Ok("abc".to_string()));
    assert_eq!(select_token(&headers(&["Basic x", "Bearer abc", "Digest y"])), Ok("abc".to_string()));
}

#[test]
fn no_token_is_missing() {
    assert_eq!(select_token(&Vec::new()), Err(AuthFailure::MissingToken));
    assert_eq!(select_token(&headers(&["Basic x", "Bearer"])), Err(AuthFailure::MissingToken));
}

#[test]
fn two_tokens_are_too_many() {
    assert_eq!(select_token(&headers(&["Bearer a", "Bearer b"])), Err(AuthFailure::MultipleHeaders));
    assert_eq!(select_token(&headers(&["Bearer a", "Bearer a", "x"])), Err(AuthFailure::MultipleHeaders));
}

#[test]
fn failures_in_words() {
    assert_eq!(AuthFailure::MissingToken.message(), "Missing auth token");
    assert_eq!(AuthFailure::MultipleHeaders.message(), "Multiple auth headers");
    assert_eq!(AuthFailure::TokenExpired.message(), "Token Expired");
    assert_eq!(AuthFailure::InvalidToken.message(), "Invalid Token");
    assert_eq!(decode_failure(true), AuthFailure::TokenExpired);
    assert_eq!(decode_failure(false), AuthFailure::InvalidToken);
}

#[test]
fn secret_is_the_implementors() {
    assert_eq!(Claims::get_secret(), vec![1, 2, 3]);
}

#[test]
fn bearer_token_from_flagged_characters() {
    let list: Vec<char> = "Bearer_abc_x".chars().collect();
    let flags: Vec<bool> = list.iter().map(|c| *c == '_').collect();
    assert_eq!(bearer_in(&list, &flags), Some("abc".to_string()));
    let unflagged = vec![false; list.len()];
    assert_eq!(bearer_in(&list, &unflagged), None);
    let list: Vec<char> = "Bearer".chars().collect();
    assert_eq!(bearer_in(&list, &vec![false; 6]), None);
    assert_eq!(bearer_in(&Vec::new(), &Vec::new()), None);
}
