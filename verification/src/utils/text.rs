//! Strings as lists of characters, and the words in them.
//!
//! Which characters are whitespace is for the standard library to say. The
//! answer for each character of a string is taken once, as a list of flags;
//! what is decided about words and blanks is decided from the flags alone.

use vstd::prelude::*;

verus! {

/// What `char::is_whitespace` says of a character.
pub uninterp spec fn char_is_whitespace(c: char) -> bool;

/// `char::is_whitespace`: a property of the character alone, taken from the
/// Unicode tables and named here.
pub assume_specification[ char::is_whitespace ](c: char) -> (r: bool)
    ensures
        r == char_is_whitespace(c),
;

/// For each character of a string, whether it is whitespace.
pub open spec fn space_flags(s: Seq<char>) -> Seq<bool> {
    Seq::new(s.len(), |i: int| char_is_whitespace(s[i]))
}

/// The characters of a string.
pub fn chars_of(s: &str) -> (list: Vec<char>)
    ensures
        list@ == s@,
{
    let mut list: Vec<char> = Vec::new();
    let characters = s.chars();
    for character in it: characters
        invariant
            it.seq() == s@,
            list@ == s@.take(it.index()),
    {
        list.push(character);
        proof {
            assert(list@ =~= s@.take(it.index() + 1));
        }
    }
    proof {
        assert(s@.take(s@.len() as int) == s@);
    }
    list
}

/// For each character of a list, whether it is whitespace.
pub fn whitespace_flags(list: &Vec<char>) -> (flags: Vec<bool>)
    ensures
        flags@ == space_flags(list@),
{
    let mut flags: Vec<bool> = Vec::new();
    let mut i: usize = 0;
    while i < list.len()
        invariant
            i <= list@.len(),
            flags@ == space_flags(list@.take(i as int)),
        decreases list@.len() - i,
    {
        flags.push(list[i].is_whitespace());
        i = i + 1;
        proof {
            assert(flags@ =~= space_flags(list@.take(i as int)));
        }
    }
    proof {
        assert(list@.take(list@.len() as int) == list@);
    }
    flags
}

/// The characters `from..to` of a list as a string.
pub fn string_of(list: &Vec<char>, from: usize, to: usize) -> (s: String)
    requires
        from <= to <= list@.len(),
    ensures
        s@ == list@.subrange(from as int, to as int),
{
    let mut s = String::new();
    let mut i = from;
    while i < to
        invariant
            from <= i <= to <= list@.len(),
            s@ == list@.subrange(from as int, i as int),
        decreases to - i,
    {
        s.push(list[i]);
        i = i + 1;
        proof {
            assert(s@ =~= list@.subrange(from as int, i as int));
        }
    }
    s
}

/// Number of whitespace characters from `from` on, up to the first
/// character of another kind.
pub open spec fn space_run(flags: Seq<bool>, from: int) -> int
    decreases flags.len() - from,
{
    if 0 <= from < flags.len() && flags[from] {
        1 + space_run(flags, from + 1)
    } else {
        0
    }
}

/// Number of characters from `from` on, up to the first whitespace
/// character.
pub open spec fn word_run(flags: Seq<bool>, from: int) -> int
    decreases flags.len() - from,
{
    if 0 <= from < flags.len() && !flags[from] {
        1 + word_run(flags, from + 1)
    } else {
        0
    }
}

/// Number of whitespace characters at the end.
pub open spec fn trailing_space(flags: Seq<bool>) -> int
    decreases flags.len(),
{
    if flags.len() > 0 && flags.last() {
        1 + trailing_space(flags.drop_last())
    } else {
        0
    }
}

/// The runs stay inside the string.
pub proof fn lemma_runs_stay_inside(flags: Seq<bool>, from: int)
    requires
        0 <= from <= flags.len(),
    ensures
        0 <= space_run(flags, from) <= flags.len() - from,
        0 <= word_run(flags, from) <= flags.len() - from,
    decreases flags.len() - from,
{
    if from < flags.len() {
        lemma_runs_stay_inside(flags, from + 1);
    }
}

/// The whitespace at the end is no longer than the string.
pub proof fn lemma_trailing_space_stays_inside(flags: Seq<bool>)
    ensures
        0 <= trailing_space(flags) <= flags.len(),
    decreases flags.len(),
{
    if flags.len() > 0 {
        lemma_trailing_space_stays_inside(flags.drop_last());
    }
}

/// Where the whitespace that starts at `from` ends.
pub fn skip_space(flags: &Vec<bool>, from: usize) -> (end: usize)
    requires
        from <= flags@.len(),
    ensures
        end == from + space_run(flags@, from as int),
        from <= end <= flags@.len(),
{
    let mut end = from;
    while end < flags.len() && flags[end]
        invariant
            from <= end <= flags@.len(),
            from + space_run(flags@, from as int) == end + space_run(flags@, end as int),
        decreases flags@.len() - end,
    {
        end = end + 1;
    }
    end
}

/// Where the word that starts at `from` ends.
pub fn skip_word(flags: &Vec<bool>, from: usize) -> (end: usize)
    requires
        from <= flags@.len(),
    ensures
        end == from + word_run(flags@, from as int),
        from <= end <= flags@.len(),
{
    let mut end = from;
    while end < flags.len() && !flags[end]
        invariant
            from <= end <= flags@.len(),
            from + word_run(flags@, from as int) == end + word_run(flags@, end as int),
        decreases flags@.len() - end,
    {
        end = end + 1;
    }
    end
}

/// Where the whitespace at the end begins, looking no further back than
/// `from`.
pub fn skip_trailing_space(flags: &Vec<bool>, from: usize) -> (end: usize)
    requires
        from <= flags@.len(),
    ensures
        end == flags@.len() - trailing_space(flags@.skip(from as int)),
        from <= end <= flags@.len(),
{
    let ghost rest = flags@.skip(from as int);
    let mut end = flags.len();
    proof {
        assert(rest.take(end - from) == rest);
    }
    while end > from && flags[end - 1]
        invariant
            from <= end <= flags@.len(),
            rest == flags@.skip(from as int),
            trailing_space(rest) == trailing_space(rest.take(end - from)) + (flags@.len() - end),
        decreases end,
    {
        proof {
            assert(rest.take(end - from).last() == flags@[end - 1]);
            assert(rest.take(end - from).drop_last() == rest.take(end - 1 - from));
        }
        end = end - 1;
    }
    proof {
        if end > from {
            assert(rest.take(end - from).last() == flags@[end - 1]);
        }
    }
    end
}

} // verus!
