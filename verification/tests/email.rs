use serwus::utils::email::get_domain;
use serwus::utils::email::join_address;
use serwus::utils::email::normalize;

#[test]
fn test_normalize() {
    assert_eq!("Abc@example.com".to_string(), normalize("Abc@EXAMPLE.COM").unwrap());
    assert_eq!("aBc@xYz@example.com".to_string(), normalize("aBc@xYz@Example.COM").unwrap());
}

#[test]
fn normalize_refuses_missing_at() {
    assert!(normalize("").is_err());
    assert!(normalize("example.com").is_err());
    assert!(get_domain("").is_err());
    assert!(get_domain("no at symbol").is_err());
}

#[test]
fn normalize_edge_addresses() {
    assert_eq!(normalize("@").unwrap(), "@");
    assert_eq!(normalize("a@").unwrap(), "a@");
    assert_eq!(normalize("@B").unwrap(), "@b");
    assert_eq!(normalize("Ünï@DÖMÄIN.de").unwrap(), "Ünï@dömäin.de");
}

#[test]
fn get_domain_takes_what_follows_last_at() {
    assert_eq!(get_domain("Abc@EXAMPLE.COM").unwrap(), "EXAMPLE.COM");
    assert_eq!(get_domain("aBc@xYz@Example.COM").unwrap(), "Example.COM");
    assert_eq!(get_domain("a@").unwrap(), "");
    assert_eq!(get_domain("@").unwrap(), "");
    assert_eq!(get_domain("ü@é").unwrap(), "é");
}

#[test]
fn join_address_puts_at_between() {
    assert_eq!(join_address("local", "domain"), "local@domain");
    assert_eq!(join_address("", ""), "@");
}
