use serwus::containers::role::Role;
use serwus::containers::role::UnknownRole;

#[test]
fn role_numbers() {
    assert_eq!(Role::User.to_number(), 0);
    assert_eq!(Role::Admin.to_number(), 1);
    assert_eq!(Role::SuperAdmin.to_number(), 2);
    assert_eq!(Role::Tester.to_number(), 3);
}

#[test]
fn role_round_trip() {
    for role in [Role::User, Role::Admin, Role::SuperAdmin, Role::Tester] {
        assert_eq!(Role::from_number(role.to_number()), Ok(role));
    }
}

#[test]
fn unknown_role_numbers_are_refused() {
    assert_eq!(Role::from_number(4), Err(UnknownRole { value: 4 }));
    assert_eq!(Role::from_number(-1), Err(UnknownRole { value: -1 }));
    assert_eq!(Role::from_number(i16::MAX), Err(UnknownRole { value: i16::MAX }));
}
