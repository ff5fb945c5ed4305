//! Random codes for one-time tokens.

use rand::distr::Alphanumeric;
use rand::rngs::ThreadRng;
use rand::Rng;
use vstd::prelude::*;

verus! {

/// `rand::rngs::ThreadRng`: the random number generator of a thread,
/// carried through unread.
#[verifier::external_type_specification]
#[verifier::external_body]
pub struct ExThreadRng(rand::rngs::ThreadRng);

/// `rand::rng`: a handle to the generator of the current thread. Nothing is
/// claimed of it.
pub assume_specification[ rand::rng ]() -> (rng: ThreadRng);

/// Number of characters in a code.
pub const CODE_LENGTH: usize = 64;

/// The ASCII letters and digits.
pub open spec fn is_ascii_alphanumeric(c: char) -> bool {
    ('0' <= c <= '9') || ('A' <= c <= 'Z') || ('a' <= c <= 'z')
}

/// `Rng::sample` with the distribution `Alphanumeric`: one byte drawn from
/// the ASCII letters and digits. Which one is left open.
#[verifier::external_body]
fn sample_alphanumeric(rng: &mut ThreadRng) -> (byte: u8)
    ensures
        is_ascii_alphanumeric(byte as char),
{
    rng.sample(Alphanumeric)
}

/// Generate random string of 64 chars for one-time token purposes. Every
/// character is an ASCII letter or digit.
pub fn generate_code() -> (code: String)
    ensures
        code@.len() == CODE_LENGTH,
        forall|i: int| 0 <= i < code@.len() ==> is_ascii_alphanumeric(#[trigger] code@[i]),
{
    let mut rng = rand::rng();
    let mut code = String::new();
    let mut drawn: usize = 0;
    while drawn < CODE_LENGTH
        invariant
            drawn <= CODE_LENGTH,
            code@.len() == drawn,
            forall|i: int| 0 <= i < code@.len() ==> is_ascii_alphanumeric(#[trigger] code@[i]),
        decreases CODE_LENGTH - drawn,
    {
        let byte = sample_alphanumeric(&mut rng);
        code.push(byte as char);
        drawn = drawn + 1;
    }
    code
}

} // verus!
