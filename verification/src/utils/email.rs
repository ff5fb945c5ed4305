//! Addresses of the form `local@domain`: the split is at the last `@`.

use vstd::prelude::*;
use vstd::string::StrSliceExecFns;
use vstd::string::StringExecFns;

verus! {

/// The address holds no `@`.
#[derive(Debug)]
pub struct NoAtSymbolError;

/// Index of the last `@` in `s`, or `-1` where there is none.
pub open spec fn last_at(s: Seq<char>) -> int
    decreases s.len(),
{
    if s.len() == 0 {
        -1
    } else if s.last() == '@' {
        s.len() - 1
    } else {
        last_at(s.drop_last())
    }
}

/// What stands before the last `@`.
pub open spec fn local_part(s: Seq<char>) -> Seq<char> {
    s.take(last_at(s))
}

/// What stands after the last `@`.
pub open spec fn domain_part(s: Seq<char>) -> Seq<char> {
    s.skip(last_at(s) + 1)
}

/// A local part and a domain with `@` between them.
pub open spec fn joined(local: Seq<char>, domain: Seq<char>) -> Seq<char> {
    local + seq!['@'] + domain
}

/// What `str::to_lowercase` makes of a string.
pub uninterp spec fn lowercase_of(s: Seq<char>) -> Seq<char>;

/// `str::to_lowercase`: the lower case form of the whole string by the
/// Unicode rules, which depends on the characters alone and is named here.
pub assume_specification[ str::to_lowercase ](s: &str) -> (lower: String)
    ensures
        lower@ == lowercase_of(s@),
;

/// `last_at` finds an `@`, the last one, exactly when there is one.
pub proof fn lemma_last_at(s: Seq<char>)
    ensures
        -1 <= last_at(s) < s.len(),
        last_at(s) >= 0 <==> s.contains('@'),
        last_at(s) >= 0 ==> s[last_at(s)] == '@',
        forall|i: int| last_at(s) < i < s.len() ==> s[i] != '@',
    decreases s.len(),
{
    if s.len() == 0 {
    } else if s.last() == '@' {
        assert(s[s.len() - 1] == '@');
    } else {
        let front = s.drop_last();
        lemma_last_at(front);
        if s.contains('@') {
            let i = choose|i: int| 0 <= i < s.len() && s[i] == '@';
            assert(front[i] == '@');
        }
        if front.contains('@') {
            let i = choose|i: int| 0 <= i < front.len() && front[i] == '@';
            assert(s[i] == '@');
        }
        assert forall|i: int| last_at(s) < i < s.len() implies s[i] != '@' by {
            if i < front.len() {
                assert(front[i] != '@');
            }
        }
    }
}

/// The domain holds no `@`, and the parts put together again give the address.
pub proof fn lemma_parts_rejoin(s: Seq<char>)
    requires
        s.contains('@'),
    ensures
        !domain_part(s).contains('@'),
        joined(local_part(s), domain_part(s)) == s,
{
    lemma_last_at(s);
    let d = domain_part(s);
    if d.contains('@') {
        let i = choose|i: int| 0 <= i < d.len() && d[i] == '@';
        assert(s[last_at(s) + 1 + i] == '@');
    }
    assert(joined(local_part(s), domain_part(s)) =~= s);
}

/// Position of the last `@`, counted in characters.
fn find_last_at(val: &str) -> (found: Option<usize>)
    ensures
        match found {
            Some(i) => i == last_at(val@),
            None => last_at(val@) == -1,
        },
{
    let n = val.unicode_len();
    let mut found: Option<usize> = None;
    let mut seen: usize = 0;
    let characters = val.chars();
    for character in it: characters
        invariant
            it.seq() == val@,
            n == val@.len(),
            seen == it.index(),
            match found {
                Some(i) => i == last_at(val@.take(it.index())),
                None => last_at(val@.take(it.index())) == -1,
            },
    {
        proof {
            assert(val@.take(it.index() + 1).drop_last() == val@.take(it.index()));
        }
        if character == '@' {
            found = Some(seen);
        }
        seen = seen + 1;
    }
    proof {
        assert(val@.take(val@.len() as int) == val@);
    }
    found
}

/// Puts a local part and a domain together with `@` between them.
pub fn join_address(local: &str, domain: &str) -> (address: String)
    ensures
        address@ == joined(local@, domain@),
{
    let mut address = String::from_str(local);
    address.append("@");
    address.append(domain);
    proof {
        reveal_strlit("@");
        assert("@"@ =~= seq!['@']);
    }
    address
}

/// The address with its domain in lower case. The local part is kept as it
/// is. An address without `@` is refused.
pub fn normalize(val: &str) -> (r: Result<String, NoAtSymbolError>)
    ensures
        r is Ok <==> val@.contains('@'),
        r matches Ok(address) ==> address@ == joined(
            local_part(val@),
            lowercase_of(domain_part(val@)),
        ),
{
    proof {
        lemma_last_at(val@);
    }
    match find_last_at(val) {
        None => Err(NoAtSymbolError),
        Some(at) => {
            let n = val.unicode_len();
            let local = val.substring_char(0, at);
            let domain = val.substring_char(at + 1, n);
            let normalized_domain = domain.to_lowercase();
            Ok(join_address(local, normalized_domain.as_str()))
        },
    }
}

/// The domain of the address: what stands after the last `@`. An address
/// without `@` is refused.
pub fn get_domain(val: &str) -> (r: Result<String, NoAtSymbolError>)
    ensures
        r is Ok <==> val@.contains('@'),
        r matches Ok(domain) ==> domain@ == domain_part(val@),
{
    proof {
        lemma_last_at(val@);
    }
    match find_last_at(val) {
        None => Err(NoAtSymbolError),
        Some(at) => {
            let n = val.unicode_len();
            let domain = val.substring_char(at + 1, n);
            Ok(String::from_str(domain))
        },
    }
}

} // verus!
