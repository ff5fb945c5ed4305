use serwus::containers::Password;

#[test]
fn password_masks_itself() {
    let password = Password::from("hunter2".to_string());
    assert_eq!(password.masked(), "******");
    assert_eq!(password.debug_masked(), "********");
    assert_eq!(Password(String::new()).masked(), "******");
}

#[test]
fn password_derefs_to_its_string() {
    let password = Password("hunter2".to_string());
    assert_eq!(password.len(), 7);
    assert_eq!(*password, "hunter2".to_string());
    assert_eq!(password.0, "hunter2");
}

#[test]
fn password_equality_is_by_content() {
    let a = Password::from("a".to_string());
    assert!(a == Password("a".to_string()));
    assert!(a != Password("b".to_string()));
    assert!(a.clone() == a);
}
