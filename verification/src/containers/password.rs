//! A string that never shows itself when it is printed or serialized.

use vstd::prelude::*;

verus! {

/// What stands in place of a password wherever it is serialized.
pub const SERIALIZED_MASK: &'static str = "******";

/// What stands in place of a password in debug output.
pub const DEBUG_MASK: &'static str = "********";

/// String wrapper that is written out as asterisks.
#[derive(Clone, Hash)]
pub struct Password(pub String);

impl View for Password {
    type V = Seq<char>;

    open spec fn view(&self) -> Seq<char> {
        self.0@
    }
}

impl Password {
    /// What stands in place of the password wherever it is serialized.
    pub open spec fn serialized_mask() -> Seq<char> {
        seq!['*', '*', '*', '*', '*', '*']
    }

    /// What stands in place of the password in debug output.
    pub open spec fn debug_mask() -> Seq<char> {
        seq!['*', '*', '*', '*', '*', '*', '*', '*']
    }

    /// The text to serialize: six asterisks, whatever the password is.
    pub fn masked(&self) -> (text: &'static str)
        ensures
            text@ == Password::serialized_mask(),
    {
        proof {
            reveal_strlit("******");
            assert("******"@ =~= Password::serialized_mask());
        }
        SERIALIZED_MASK
    }

    /// The text for debug output: eight asterisks, whatever the password is.
    pub fn debug_masked(&self) -> (text: &'static str)
        ensures
            text@ == Password::debug_mask(),
    {
        proof {
            reveal_strlit("********");
            assert("********"@ =~= Password::debug_mask());
        }
        DEBUG_MASK
    }
}

impl std::ops::Deref for Password {
    type Target = String;

    /// The string inside.
    fn deref(&self) -> (inner: &String)
        ensures
            inner@ == self@,
    {
        &self.0
    }
}

impl PartialEq for Password {
    fn eq(&self, other: &Self) -> (r: bool) {
        self.0 == other.0
    }
}

impl Eq for Password {

}

impl vstd::std_specs::cmp::PartialEqSpecImpl for Password {
    open spec fn obeys_eq_spec() -> bool {
        true
    }

    open spec fn eq_spec(&self, other: &Self) -> bool {
        self.0@ == other.0@
    }
}

impl From<String> for Password {
    fn from(value: String) -> (password: Self) {
        Self(value)
    }
}

impl vstd::std_specs::convert::FromSpecImpl<String> for Password {
    open spec fn obeys_from_spec() -> bool {
        true
    }

    open spec fn from_spec(value: String) -> Self {
        Password(value)
    }
}

} // verus!
