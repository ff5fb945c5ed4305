//! The role of an identity, and the small integer it is stored as.

use vstd::prelude::*;

verus! {

/// What an identity may do.
#[derive(Debug, Clone, Copy, PartialEq, Eq, Structural)]
pub enum Role {
    User,
    Admin,
    SuperAdmin,
    Tester,
}

/// A stored number that stands for no role.
#[derive(Debug, Clone, Copy, PartialEq, Eq, Structural)]
pub struct UnknownRole {
    /// The number that was found.
    pub value: i16,
}

impl Role {
    /// The number a role is stored as.
    pub open spec fn number(self) -> i16 {
        match self {
            Role::User => 0,
            Role::Admin => 1,
            Role::SuperAdmin => 2,
            Role::Tester => 3,
        }
    }

    /// The role that a number stands for, if it stands for one.
    pub open spec fn of_number(v: i16) -> Option<Role> {
        if v == 0 {
            Some(Role::User)
        } else if v == 1 {
            Some(Role::Admin)
        } else if v == 2 {
            Some(Role::SuperAdmin)
        } else if v == 3 {
            Some(Role::Tester)
        } else {
            None
        }
    }

    /// The number to store for this role.
    pub fn to_number(&self) -> (v: i16)
        ensures
            v == self.number(),
    {
        match *self {
            Role::User => 0,
            Role::Admin => 1,
            Role::SuperAdmin => 2,
            Role::Tester => 3,
        }
    }

    /// Reads a stored number back. Numbers outside `0..=3` are refused and
    /// handed back in the error.
    pub fn from_number(v: i16) -> (r: Result<Role, UnknownRole>)
        ensures
            r == match Role::of_number(v) {
                Some(role) => Ok::<Role, UnknownRole>(role),
                None => Err(UnknownRole { value: v }),
            },
    {
        match v {
            0 => Ok(Role::User),
            1 => Ok(Role::Admin),
            2 => Ok(Role::SuperAdmin),
            3 => Ok(Role::Tester),
            v => Err(UnknownRole { value: v }),
        }
    }
}

/// Storing a role and reading it back gives the role again, and a number is
/// read back as a role exactly when it is one of `0..=3`.
pub proof fn lemma_role_number_round_trip(role: Role, v: i16)
    ensures
        Role::of_number(role.number()) == Some(role),
        0 <= role.number() <= 3,
        Role::of_number(v) is Some <==> 0 <= v <= 3,
        Role::of_number(v) matches Some(found) ==> found.number() == v,
{
}

} // verus!
