use serwus::utils::hash_password::hash_password;
use serwus::utils::hash_password::hashed;
use serwus::utils::hash_password::random_salt;
use serwus::utils::hash_password::HashError;
use serwus::utils::hash_password::SALT_LENGTH;

fn quick() -> argon2::Config<'static> {
    let mut config = argon2::Config::default();
    config.mem_cost = 64;
    config.time_cost = 1;
    config
}

#[test]
fn salt_has_32_random_bytes() {
    assert_eq!(SALT_LENGTH, 32);
    let salt = random_salt();
    assert_eq!(salt.len(), 32);
    assert_ne!(salt, random_salt());
    assert_ne!(salt, vec![48u8; 32]);
}

#[test]
fn hash_verifies_against_its_password() {
    let encoded = hash_password("hunter2".to_string(), &quick()).unwrap();
    assert!(encoded.starts_with("$argon2"));
    assert!(argon2::verify_encoded(&encoded, b"hunter2").unwrap());
    assert!(!argon2::verify_encoded(&encoded, b"hunter3").unwrap());
}

#[test]
fn same_password_hashes_differently() {
    let first = hash_password("hunter2".to_string(), &quick()).unwrap();
    let second = hash_password("hunter2".to_string(), &quick()).unwrap();
    assert_ne!(first, second);
}

#[test]
fn refused_parameters_come_back_as_errors() {
    let mut config = quick();
    config.time_cost = 0;
    let result = hash_password("hunter2".to_string(), &config);
    assert!(matches!(result, Err(HashError::Argon(argon2::Error::TimeTooSmall))));
    assert!(matches!(hashed(Err(argon2::Error::SaltTooShort)), Err(HashError::Argon(argon2::Error::SaltTooShort))));
    assert_eq!(hashed(Ok("x".to_string())).unwrap(), "x");
}
