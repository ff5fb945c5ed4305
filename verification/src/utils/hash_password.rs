//! Hashing of passwords with Argon2 under a random salt.

use argon2::Config;
use argon2::Error as ArgonError;
use rand::rngs::ThreadRng;
use rand::Rng;
use vstd::prelude::*;

verus! {

/// `argon2::Config`: the parameters of the hashing, carried through unread.
#[verifier::external_type_specification]
#[verifier::external_body]
pub struct ExConfig<'a>(argon2::Config<'a>);

/// `argon2::Error`: why Argon2 refused its parameters, carried through
/// unread.
#[verifier::external_type_specification]
#[verifier::external_body]
pub struct ExArgonError(ArgonError);

/// Why a password was not hashed.
#[derive(Debug)]
pub enum HashError {
    /// Argon2 refused its parameters.
    Argon(ArgonError),
}

/// Number of bytes in a salt.
pub const SALT_LENGTH: usize = 32;

/// `Rng::fill` on a list of bytes: every byte is drawn anew, the length
/// stays.
#[verifier::external_body]
fn fill_random(rng: &mut ThreadRng, dest: &mut Vec<u8>)
    ensures
        final(dest)@.len() == old(dest)@.len(),
{
    rng.fill(&mut dest[..])
}

/// `argon2::hash_encoded`: the encoded hash of the password under the salt,
/// or the parameter that Argon2 refused. Nothing is claimed of either.
pub assume_specification[ argon2::hash_encoded ](pwd: &[u8], salt: &[u8], config: &Config) -> (r:
    Result<String, ArgonError>)
;

/// A salt of 32 random bytes.
pub fn random_salt() -> (salt: Vec<u8>)
    ensures
        salt@.len() == SALT_LENGTH,
{
    let mut rng = rand::rng();
    let mut salt: Vec<u8> = vec![48u8; SALT_LENGTH];
    fill_random(&mut rng, &mut salt);
    salt
}

/// The outcome of the hashing as this library hands it on: the encoded hash
/// as it is, the refusal as a [`HashError`].
pub fn hashed(outcome: Result<String, ArgonError>) -> (r: Result<String, HashError>)
    ensures
        r == match outcome {
            Ok(encoded) => Ok::<String, HashError>(encoded),
            Err(refusal) => Err(HashError::Argon(refusal)),
        },
{
    match outcome {
        Ok(encoded) => Ok(encoded),
        Err(refusal) => Err(HashError::Argon(refusal)),
    }
}

/// Hash password using argon2, under a fresh salt from [`random_salt`].
pub fn hash_password(password: String, config: &Config<'_>) -> (r: Result<String, HashError>) {
    // Generate random salt
    let salt = random_salt();
    // Create hashed password
    let hashed_password = argon2::hash_encoded(
        password.as_str().as_bytes(),
        salt.as_slice(),
        config,
    );
    hashed(hashed_password)
}

} // verus!
