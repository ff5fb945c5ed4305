//! A string that is trimmed when it comes in from outside.

use crate::utils::text::chars_of;
use crate::utils::text::skip_space;
use crate::utils::text::skip_trailing_space;
use crate::utils::text::space_flags;
use crate::utils::text::space_run;
use crate::utils::text::trailing_space;
use crate::utils::text::whitespace_flags;
use vstd::prelude::*;
use vstd::string::StrSliceExecFns;
use vstd::string::StringExecFns;

verus! {

/// Where the text of a string begins: after the whitespace at its start.
pub open spec fn trim_start(flags: Seq<bool>) -> int {
    space_run(flags, 0)
}

/// Where the text of a string ends: before the whitespace at its end. In a
/// string of nothing but whitespace that is where the text begins.
pub open spec fn trim_end(flags: Seq<bool>) -> int {
    flags.len() - trailing_space(flags.skip(trim_start(flags)))
}

/// `s` without the whitespace at its start and at its end.
pub open spec fn trimmed(s: Seq<char>) -> Seq<char> {
    s.subrange(trim_start(space_flags(s)), trim_end(space_flags(s)))
}

/// Where the text begins and ends, from the flags that say which characters
/// are whitespace.
pub fn trim_bounds(flags: &Vec<bool>) -> (bounds: (usize, usize))
    ensures
        bounds.0 == trim_start(flags@),
        bounds.1 == trim_end(flags@),
        bounds.0 <= bounds.1 <= flags@.len(),
{
    let start = skip_space(flags, 0);
    let end = skip_trailing_space(flags, start);
    (start, end)
}

/// The string without the whitespace at its start and at its end.
pub fn trim(s: &str) -> (r: &str)
    ensures
        r@ == trimmed(s@),
{
    let list = chars_of(s);
    let flags = whitespace_flags(&list);
    let (start, end) = trim_bounds(&flags);
    s.substring_char(start, end)
}

/// Wrapper for String that is trimmed when it is read from a client.
#[derive(Clone, Default)]
pub struct SanitizedString(String);

impl View for SanitizedString {
    type V = Seq<char>;

    closed spec fn view(&self) -> Seq<char> {
        self.0@
    }
}

impl SanitizedString {
    /// Takes in what a client sent: leading and trailing whitespace go.
    pub fn sanitized(raw: &str) -> (clean: Self)
        ensures
            clean@ == trimmed(raw@),
    {
        let s = String::from_str(trim(raw));
        Self(s)
    }

    /// The string inside.
    pub fn as_str(&self) -> (inner: &str)
        ensures
            inner@ == self@,
    {
        self.0.as_str()
    }

    /// The string inside, as `Display` shows it.
    pub fn to_string(&self) -> (inner: String)
        ensures
            inner@ == self@,
    {
        self.0.clone()
    }

    /// Gives up the string inside.
    pub fn into_string(self) -> (inner: String)
        ensures
            inner@ == self@,
    {
        self.0
    }

    /// Number of characters, which is what length rules are checked against.
    pub fn length(&self) -> (chars: u64)
        ensures
            chars == self@.len(),
    {
        self.0.as_str().unicode_len() as u64
    }
}

impl std::ops::Deref for SanitizedString {
    type Target = String;

    fn deref(&self) -> (inner: &String)
        ensures
            inner@ == self@,
    {
        &self.0
    }
}

impl PartialEq for SanitizedString {
    fn eq(&self, other: &Self) -> (r: bool) {
        self.0 == other.0
    }
}

impl Eq for SanitizedString {

}

impl vstd::std_specs::cmp::PartialEqSpecImpl for SanitizedString {
    open spec fn obeys_eq_spec() -> bool {
        true
    }

    open spec fn eq_spec(&self, other: &Self) -> bool {
        self@ == other@
    }
}

impl From<String> for SanitizedString {
    /// Wraps a string as it is: nothing is trimmed here.
    fn from(value: String) -> (wrapped: Self)
        ensures
            wrapped@ == value@,
    {
        Self(value)
    }
}

impl vstd::std_specs::convert::FromSpecImpl<String> for SanitizedString {
    open spec fn obeys_from_spec() -> bool {
        true
    }

    closed spec fn from_spec(value: String) -> Self {
        SanitizedString(value)
    }
}

} // verus!
