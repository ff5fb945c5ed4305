//! The bearer token of a request, picked from its `Authorization` headers.

use crate::utils::text::chars_of;
use crate::utils::text::skip_space;
use crate::utils::text::skip_word;
use crate::utils::text::space_flags;
use crate::utils::text::space_run;
use crate::utils::text::whitespace_flags;
use crate::utils::text::string_of;
use crate::utils::text::word_run;
use vstd::prelude::*;

verus! {

/// A type that knows the secret its tokens are signed with.
pub trait KnowSecret {
    fn get_secret() -> Vec<u8>;
}

/// The scheme of a bearer token.
pub const BEARER: &'static str = "Bearer";

/// Why a request is refused as unauthorized.
#[derive(Debug, Clone, Copy, PartialEq, Eq, Structural)]
pub enum AuthFailure {
    /// No header carries a bearer token.
    MissingToken,
    /// More than one header carries a bearer token.
    MultipleHeaders,
    /// The token's signature has expired.
    TokenExpired,
    /// The token could not be decoded.
    InvalidToken,
}

impl AuthFailure {
    /// What the client is told.
    pub open spec fn text(self) -> Seq<char> {
        match self {
            AuthFailure::MissingToken => "Missing auth token"@,
            AuthFailure::MultipleHeaders => "Multiple auth headers"@,
            AuthFailure::TokenExpired => "Token Expired"@,
            AuthFailure::InvalidToken => "Invalid Token"@,
        }
    }

    /// What the client is told.
    pub fn message(&self) -> (text: &'static str)
        ensures
            text@ == self.text(),
    {
        match self {
            AuthFailure::MissingToken => "Missing auth token",
            AuthFailure::MultipleHeaders => "Multiple auth headers",
            AuthFailure::TokenExpired => "Token Expired",
            AuthFailure::InvalidToken => "Invalid Token",
        }
    }
}

/// The failure that a token's decoding error stands for.
pub fn decode_failure(expired_signature: bool) -> (failure: AuthFailure)
    ensures
        failure == if expired_signature {
            AuthFailure::TokenExpired
        } else {
            AuthFailure::InvalidToken
        },
{
    if expired_signature {
        AuthFailure::TokenExpired
    } else {
        AuthFailure::InvalidToken
    }
}

/// Where the first word starts.
pub open spec fn scheme_start(flags: Seq<bool>) -> int {
    space_run(flags, 0)
}

/// Where the first word ends.
pub open spec fn scheme_end(flags: Seq<bool>) -> int {
    scheme_start(flags) + word_run(flags, scheme_start(flags))
}

/// Where the second word starts.
pub open spec fn token_start(flags: Seq<bool>) -> int {
    scheme_end(flags) + space_run(flags, scheme_end(flags))
}

/// Where the second word ends.
pub open spec fn token_end(flags: Seq<bool>) -> int {
    token_start(flags) + word_run(flags, token_start(flags))
}

/// The bearer token of one header value, given which of its characters are
/// whitespace: its second word, where its first word is `Bearer` and a
/// second word is there. Any amount of whitespace may stand before, between
/// and after the words.
pub open spec fn bearer_token_in(s: Seq<char>, flags: Seq<bool>) -> Option<Seq<char>> {
    if s.subrange(scheme_start(flags), scheme_end(flags)) == BEARER@ && token_start(flags)
        < s.len() {
        Some(s.subrange(token_start(flags), token_end(flags)))
    } else {
        None
    }
}

/// The bearer token of one header value.
pub open spec fn bearer_token(s: Seq<char>) -> Option<Seq<char>> {
    bearer_token_in(s, space_flags(s))
}

/// The bearer token among the characters of one header value, from the
/// flags that say which of them are whitespace.
pub fn bearer_in(list: &Vec<char>, flags: &Vec<bool>) -> (token: Option<String>)
    requires
        flags@.len() == list@.len(),
    ensures
        match token {
            Some(t) => bearer_token_in(list@, flags@) == Some(t@),
            None => bearer_token_in(list@, flags@) is None,
        },
{
    let start = skip_space(flags, 0);
    let end = skip_word(flags, start);
    let auth_type = string_of(list, start, end);
    if *auth_type.as_str() == *BEARER {
        let from = skip_space(flags, end);
        if from < list.len() {
            let to = skip_word(flags, from);
            Some(string_of(list, from, to))
        } else {
            None
        }
    } else {
        None
    }
}

/// The bearer token of one header value.
pub fn bearer_of(string_value: &str) -> (token: Option<String>)
    ensures
        match token {
            Some(t) => bearer_token(string_value@) == Some(t@),
            None => bearer_token(string_value@) is None,
        },
{
    let list = chars_of(string_value);
    let flags = whitespace_flags(&list);
    bearer_in(&list, &flags)
}

/// The tokens of the header values that carry one, in order.
pub open spec fn bearer_tokens(values: Seq<Seq<char>>) -> Seq<Seq<char>>
    decreases values.len(),
{
    if values.len() == 0 {
        Seq::empty()
    } else {
        match bearer_token(values.last()) {
            Some(t) => bearer_tokens(values.drop_last()).push(t),
            None => bearer_tokens(values.drop_last()),
        }
    }
}

/// The header values as text.
pub open spec fn values_text(values: Seq<String>) -> Seq<Seq<char>> {
    values.map_values(|s: String| s@)
}

/// The one bearer token among the `Authorization` header values of a
/// request. None is a failure, and so is more than one.
pub fn select_token(values: &Vec<String>) -> (r: Result<String, AuthFailure>)
    ensures
        r is Ok <==> bearer_tokens(values_text(values@)).len() == 1,
        r matches Ok(token) ==> bearer_tokens(values_text(values@)) == seq![token@],
        r matches Err(failure) ==> failure == if bearer_tokens(values_text(values@)).len() == 0 {
            AuthFailure::MissingToken
        } else {
            AuthFailure::MultipleHeaders
        },
{
    let ghost all = values_text(values@);
    let mut encoded_tokens: Vec<String> = Vec::new();
    let mut i: usize = 0;
    while i < values.len()
        invariant
            i <= values@.len(),
            all == values_text(values@),
            values_text(encoded_tokens@) == bearer_tokens(all.take(i as int)),
        decreases values@.len() - i,
    {
        proof {
            assert(all.take(i + 1).drop_last() == all.take(i as int));
            assert(all.take(i + 1).last() == values@[i as int]@);
        }
        let ghost earlier = encoded_tokens@;
        if let Some(token) = bearer_of(values[i].as_str()) {
            encoded_tokens.push(token);
            proof {
                assert(values_text(encoded_tokens@) =~= values_text(earlier).push(
                    encoded_tokens@.last()@,
                ));
            }
        }
        i = i + 1;
    }
    proof {
        assert(all.take(all.len() as int) == all);
    }
    if encoded_tokens.len() == 0 {
        Err(AuthFailure::MissingToken)
    } else if encoded_tokens.len() == 1 {
        let token = encoded_tokens.pop().unwrap();
        proof {
            assert(bearer_tokens(all) =~= seq![token@]);
        }
        Ok(token)
    } else {
        Err(AuthFailure::MultipleHeaders)
    }
}

} // verus!
