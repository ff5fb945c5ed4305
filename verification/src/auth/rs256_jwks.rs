//! Validation of access tokens against the keys of a third-party authority.

use alcoholic_jwt::ValidJWT;
use alcoholic_jwt::ValidationError as TokenError;
use alcoholic_jwt::Validation;
use alcoholic_jwt::JWK;
use alcoholic_jwt::JWKS;
use vstd::prelude::*;
use vstd::string::StringExecFns;

verus! {

/// `alcoholic_jwt::JWKS`: a set of keys. Of what it holds only the key ids
/// have a name here, [`jwks_kids`].
#[verifier::external_type_specification]
#[verifier::external_body]
pub struct ExJwks(alcoholic_jwt::JWKS);

/// `alcoholic_jwt::JWK`: one key, carried through unread.
#[verifier::external_type_specification]
#[verifier::external_body]
pub struct ExJwk(alcoholic_jwt::JWK);

/// `alcoholic_jwt::ValidJWT`: header and claims of an accepted token,
/// carried through unread.
#[verifier::external_type_specification]
#[verifier::external_body]
pub struct ExValidJwt(alcoholic_jwt::ValidJWT);

/// `alcoholic_jwt::ValidationError`: why the validator refused a token,
/// carried through unread.
#[verifier::external_type_specification]
#[verifier::external_body]
pub struct ExTokenError(TokenError);

/// Why a token was not accepted.
#[derive(Debug)]
pub enum ValidateError {
    /// The token is malformed, wrongly signed, or lacks a claim.
    Super(TokenError),
    /// The token's header names no key.
    NoKidInToken,
    /// The authority has no key of the name in the token's header.
    NoKidInJwks,
}

/// Why a pair of credentials was not accepted.
#[derive(Debug)]
pub enum CredentialsError {
    /// The authority's keys could not be had.
    JwksFetch(String),
    /// The access token was not accepted.
    AccessToken(ValidateError),
    /// The identity token was not accepted.
    IdToken(ValidateError),
}

/// A claim that a token is held to.
pub enum Claim {
    /// The token was issued by the given authority.
    Issuer(String),
    /// The token names its subject.
    SubjectPresent,
}

/// Where an authority publishes its keys, below its own address.
pub const JWKS_PATH: &'static str = ".well-known/jwks.json";

/// The key id that `token_kid` reads from a token's header: `None` where the
/// token cannot be read, `Some(None)` where its header names no key.
pub uninterp spec fn token_kid_of(token: Seq<char>) -> Option<Option<Seq<char>>>;

/// What a key set holds: the id of each of its keys, in order; `None` for a
/// key without id.
pub uninterp spec fn jwks_kids(jwks: JWKS) -> Seq<Option<Seq<char>>>;

/// The text of a string, where there is one.
pub open spec fn kid_text(kid: Option<String>) -> Option<Seq<char>> {
    match kid {
        Some(kid) => Some(kid@),
        None => None,
    }
}

/// `alcoholic_jwt::token_kid`: the `kid` of the token's header, which
/// depends on the token alone and is named here. It fails where the token
/// has no two parts or its header cannot be decoded.
pub assume_specification[ alcoholic_jwt::token_kid ](token: &str) -> (r: Result<
    Option<String>,
    TokenError,
>)
    ensures
        match r {
            Ok(kid) => token_kid_of(token@) == Some(kid_text(kid)),
            Err(_) => token_kid_of(token@) is None,
        },
;

/// `JWKS::find`: a key of the set whose id is `kid`; there is one exactly
/// when the set holds that id.
pub assume_specification<'a>[ alcoholic_jwt::JWKS::find ](jwks: &'a JWKS, kid: &str) -> (found:
    Option<&'a JWK>)
    ensures
        found is Some <==> jwks_kids(*jwks).contains(Some(kid@)),
;

/// `alcoholic_jwt::validate` with the given claims as its validations: the
/// signature is checked against the key, then the claims. Nothing is claimed
/// of the outcome.
#[verifier::external_body]
fn validate_claims(token: &str, jwk: &JWK, claims: Vec<Claim>) -> (r: Result<
    ValidJWT,
    TokenError,
>) {
    let validations = claims.into_iter().map(|claim| match claim {
        Claim::Issuer(issuer) => Validation::Issuer(issuer),
        Claim::SubjectPresent => Validation::SubjectPresent,
    }).collect();
    alcoholic_jwt::validate(token, jwk, validations)
}

/// The address of an authority's keys.
pub fn jwks_uri(authority: &str) -> (uri: String)
    ensures
        uri@ == authority@ + seq!['/'] + JWKS_PATH@,
{
    let mut uri = String::from_str(authority);
    uri.push('/');
    uri.append(JWKS_PATH);
    uri
}

/// The claims that every token is held to: it was issued by `authority`,
/// and it names its subject.
pub fn required_claims(authority: &str) -> (claims: Vec<Claim>)
    ensures
        claims@.len() == 2,
        claims@[0] matches Claim::Issuer(issuer) && issuer@ == authority@,
        claims@[1] is SubjectPresent,
{
    let mut claims: Vec<Claim> = Vec::new();
    claims.push(Claim::Issuer(String::from_str(authority)));
    claims.push(Claim::SubjectPresent);
    claims
}

/// The key id to look for, from what the token's header gave: a header that
/// names no key is refused, and so is one that cannot be read.
pub fn named_key(found: Result<Option<String>, TokenError>) -> (r: Result<String, ValidateError>)
    ensures
        r == match found {
            Ok(Some(kid)) => Ok::<String, ValidateError>(kid),
            Ok(None) => Err(ValidateError::NoKidInToken),
            Err(e) => Err(ValidateError::Super(e)),
        },
{
    match found {
        Ok(Some(kid)) => Ok(kid),
        Ok(None) => Err(ValidateError::NoKidInToken),
        Err(e) => Err(ValidateError::Super(e)),
    }
}

/// The key to check against, from what the key set gave: a key id that the
/// set lacks is refused.
pub fn known_key<'a>(found: Option<&'a JWK>) -> (r: Result<&'a JWK, ValidateError>)
    ensures
        r == match found {
            Some(jwk) => Ok::<&JWK, ValidateError>(jwk),
            None => Err(ValidateError::NoKidInJwks),
        },
{
    match found {
        Some(jwk) => Ok(jwk),
        None => Err(ValidateError::NoKidInJwks),
    }
}

/// The outcome of the validator as this library hands it on.
pub fn accepted(outcome: Result<ValidJWT, TokenError>) -> (r: Result<ValidJWT, ValidateError>)
    ensures
        r == match outcome {
            Ok(valid) => Ok::<ValidJWT, ValidateError>(valid),
            Err(e) => Err(ValidateError::Super(e)),
        },
{
    match outcome {
        Ok(valid) => Ok(valid),
        Err(e) => Err(ValidateError::Super(e)),
    }
}

/// Validates a token against the keys of `authority`. The key is the one
/// that the token's header names; a token that names none, and a name that
/// the key set lacks, are refused before anything is checked. The rest is up
/// to the signature and the claims of [`required_claims`].
pub fn validate_token(authority: &str, token: &str, jwks: &JWKS) -> (r: Result<
    ValidJWT,
    ValidateError,
>)
    ensures
        r matches Err(ValidateError::NoKidInToken) <==> token_kid_of(token@) == Some(
            None::<Seq<char>>,
        ),
        r matches Err(ValidateError::NoKidInJwks) <==> (token_kid_of(token@) matches Some(Some(kid))
            && !jwks_kids(*jwks).contains(Some(kid))),
        token_kid_of(token@) is None ==> r matches Err(ValidateError::Super(_)),
        r is Ok ==> (token_kid_of(token@) matches Some(Some(kid)) && jwks_kids(*jwks).contains(
            Some(kid),
        )),
{
    let validations = required_claims(authority);
    let kid = match named_key(alcoholic_jwt::token_kid(token)) {
        Ok(kid) => kid,
        Err(refusal) => return Err(refusal),
    };
    let jwk = match known_key(jwks.find(kid.as_str())) {
        Ok(jwk) => jwk,
        Err(refusal) => return Err(refusal),
    };
    accepted(validate_claims(token, jwk, validations))
}

/// Validates an access token and an identity token against the keys of
/// `authority`, the access token first. What comes back is the identity
/// token; a failure says which of the two was refused.
pub fn validate_both(authority: &str, access_token: &str, id_token: &str, jwks: &JWKS) -> (r:
    Result<ValidJWT, CredentialsError>)
    ensures
        r is Ok ==> {
            &&& token_kid_of(access_token@) matches Some(Some(kid)) && jwks_kids(*jwks).contains(
                Some(kid),
            )
            &&& token_kid_of(id_token@) matches Some(Some(kid)) && jwks_kids(*jwks).contains(
                Some(kid),
            )
        },
        !(token_kid_of(access_token@) matches Some(Some(kid)) && jwks_kids(*jwks).contains(
            Some(kid),
        )) ==> r matches Err(CredentialsError::AccessToken(_)),
        !(r matches Err(CredentialsError::JwksFetch(_))),
{
    match validate_token(authority, access_token, jwks) {
        Ok(_) => {},
        Err(e) => return Err(CredentialsError::AccessToken(e)),
    }
    match validate_token(authority, id_token, jwks) {
        Ok(valid) => Ok(valid),
        Err(e) => Err(CredentialsError::IdToken(e)),
    }
}

} // verus!
