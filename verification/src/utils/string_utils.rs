//! Conversion of identifiers to camelCase.

use crate::utils::text::chars_of;
use vstd::prelude::*;
use vstd::string::StrSliceExecFns;

verus! {

/// What `char::is_alphanumeric` says of a character.
pub uninterp spec fn char_is_alphanumeric(c: char) -> bool;

/// What `char::is_numeric` says of a character.
pub uninterp spec fn char_is_numeric(c: char) -> bool;

/// What `char::is_lowercase` says of a character.
pub uninterp spec fn char_is_lowercase(c: char) -> bool;

/// What `char::is_uppercase` says of a character.
pub uninterp spec fn char_is_uppercase(c: char) -> bool;

/// `char::is_alphanumeric`: a property of the character alone, taken from the
/// Unicode tables and named here.
pub assume_specification[ char::is_alphanumeric ](c: char) -> (r: bool)
    ensures
        r == char_is_alphanumeric(c),
;

/// `char::is_numeric`: a property of the character alone, named here.
pub assume_specification[ char::is_numeric ](c: char) -> (r: bool)
    ensures
        r == char_is_numeric(c),
;

/// `char::is_lowercase`: a property of the character alone, named here.
pub assume_specification[ char::is_lowercase ](c: char) -> (r: bool)
    ensures
        r == char_is_lowercase(c),
;

/// `char::is_uppercase`: a property of the character alone, named here.
pub assume_specification[ char::is_uppercase ](c: char) -> (r: bool)
    ensures
        r == char_is_uppercase(c),
;

/// The ASCII letters `A` to `Z` mapped to `a` to `z`; every other character
/// stays.
pub open spec fn ascii_lower(c: char) -> char {
    if 'A' <= c <= 'Z' {
        ((c as u8) + 32) as char
    } else {
        c
    }
}

/// The ASCII letters `a` to `z` mapped to `A` to `Z`; every other character
/// stays.
pub open spec fn ascii_upper(c: char) -> char {
    if 'a' <= c <= 'z' {
        ((c as u8) - 32) as char
    } else {
        c
    }
}

/// `char::to_ascii_lowercase`: ASCII upper case letters become lower case,
/// nothing else changes.
pub assume_specification[ char::to_ascii_lowercase ](c: &char) -> (r: char)
    ensures
        r == ascii_lower(*c),
;

/// `char::to_ascii_uppercase`: ASCII lower case letters become upper case,
/// nothing else changes.
pub assume_specification[ char::to_ascii_uppercase ](c: &char) -> (r: char)
    ensures
        r == ascii_upper(*c),
;

/// `String::push`: appends one character.
pub assume_specification[ String::push ](s: &mut String, c: char)
    ensures
        final(s)@ == old(s)@.push(c),
;

/// A string without its trailing separators: characters are dropped from the
/// end until the last one is alphanumeric or none is left.
pub open spec fn without_trailing_separators(s: Seq<char>) -> Seq<char>
    decreases s.len(),
{
    if s.len() == 0 || char_is_alphanumeric(s.last()) {
        s
    } else {
        without_trailing_separators(s.drop_last())
    }
}

/// What the conversion remembers between two characters.
pub struct CamelState {
    /// The output so far.
    pub out: Seq<char>,
    /// The next letter starts a word.
    pub new_word: bool,
    /// The last letter that went out in lower case, a space before the first.
    pub last_char: char,
    /// An alphanumeric character has been seen.
    pub found_real_char: bool,
}

/// The state before the first character.
pub open spec fn camel_start() -> CamelState {
    CamelState { out: Seq::empty(), new_word: false, last_char: ' ', found_real_char: false }
}

/// Whether a letter opens a word: a separator or digit came before it, or it
/// is an upper case letter right after the lower case letter `last_char`.
pub open spec fn opens_word(new_word: bool, last_char: char, c: char) -> bool {
    new_word || (char_is_lowercase(last_char) && char_is_uppercase(c) && last_char != ' ')
}

/// One character's effect, given what the standard library says of it:
/// whether it separates words, whether it is a digit, and whether it opens a
/// word. Separators are dropped; after the first real character they make
/// the next letter start a word. Digits go out as they are and end the word.
/// A letter that opens a word goes out in ASCII upper case, any other letter
/// in ASCII lower case.
pub open spec fn camel_step_with(
    st: CamelState,
    c: char,
    separator: bool,
    numeric: bool,
    opens: bool,
) -> CamelState {
    if separator {
        CamelState { new_word: st.new_word || st.found_real_char, ..st }
    } else if numeric {
        CamelState { out: st.out.push(c), new_word: true, found_real_char: true, ..st }
    } else if opens {
        CamelState { out: st.out.push(ascii_upper(c)), new_word: false, found_real_char: true, ..st }
    } else {
        CamelState { out: st.out.push(ascii_lower(c)), last_char: c, found_real_char: true, ..st }
    }
}

/// One character's effect.
pub open spec fn camel_step(st: CamelState, c: char) -> CamelState {
    camel_step_with(
        st,
        c,
        !char_is_alphanumeric(c),
        char_is_numeric(c),
        opens_word(st.new_word, st.last_char, c),
    )
}

/// The state after all characters of `s`, taken from left to right.
pub open spec fn camel_fold(s: Seq<char>) -> CamelState
    decreases s.len(),
{
    if s.len() == 0 {
        camel_start()
    } else {
        camel_step(camel_fold(s.drop_last()), s.last())
    }
}

/// The camelCase form of `s`.
pub open spec fn camel_case(s: Seq<char>) -> Seq<char> {
    camel_fold(s).out
}

/// Trailing separators leave no trace in the output.
pub proof fn lemma_trailing_separators_leave_output(s: Seq<char>)
    ensures
        camel_case(without_trailing_separators(s)) == camel_case(s),
    decreases s.len(),
{
    if s.len() == 0 || char_is_alphanumeric(s.last()) {
    } else {
        lemma_trailing_separators_leave_output(s.drop_last());
    }
}

/// The output never grows beyond the input: each character adds at most one.
pub proof fn lemma_camel_case_is_no_longer(s: Seq<char>)
    ensures
        camel_case(s).len() <= s.len(),
    decreases s.len(),
{
    if s.len() > 0 {
        lemma_camel_case_is_no_longer(s.drop_last());
    }
}

/// Whether a character is neither letter nor digit.
fn is_not_alphanumeric(character: char) -> (r: bool)
    ensures
        r == !char_is_alphanumeric(character),
{
    !character.is_alphanumeric()
}

/// Whether a character separates words: it is neither letter nor digit.
fn char_is_seperator(character: char) -> (r: bool)
    ensures
        r == !char_is_alphanumeric(character),
{
    is_not_alphanumeric(character)
}

/// The string without its trailing separators.
fn trim_right(convertable_string: &str) -> (trimmed: &str)
    ensures
        trimmed@ == without_trailing_separators(convertable_string@),
{
    let list = chars_of(convertable_string);
    let mut end = list.len();
    proof {
        assert(list@.take(end as int) == list@);
    }
    while end > 0 && is_not_alphanumeric(list[end - 1])
        invariant
            end <= list@.len(),
            without_trailing_separators(list@) == without_trailing_separators(
                list@.take(end as int),
            ),
        decreases end,
    {
        proof {
            assert(list@.take(end as int).drop_last() == list@.take(end - 1));
        }
        end = end - 1;
    }
    proof {
        assert(list@.take(end as int) == convertable_string@.subrange(0, end as int));
    }
    convertable_string.substring_char(0, end)
}

/// Whether a letter opens a word.
fn last_char_lower_current_is_upper_or_new_word(
    new_word: bool,
    last_char: char,
    character: char,
) -> (r: bool)
    ensures
        r == opens_word(new_word, last_char, character),
{
    new_word || ((last_char.is_lowercase() && character.is_uppercase()) && (last_char != ' '))
}

/// Appends the letter that opens a word: in lower case for the first word,
/// in upper case for every other.
fn append_on_new_word(result: String, first_word: bool, character: char) -> (appended: String)
    ensures
        appended@ == result@.push(
            if first_word {
                ascii_lower(character)
            } else {
                ascii_upper(character)
            },
        ),
{
    let mut result = result;
    if first_word {
        result.push(character.to_ascii_lowercase());
    } else {
        result.push(character.to_ascii_uppercase());
    }
    result
}

/// Writes camelCase one character at a time.
pub struct CamelWriter {
    result: String,
    new_word: bool,
    last_char: char,
    found_real_char: bool,
}

impl View for CamelWriter {
    type V = CamelState;

    closed spec fn view(&self) -> CamelState {
        CamelState {
            out: self.result@,
            new_word: self.new_word,
            last_char: self.last_char,
            found_real_char: self.found_real_char,
        }
    }
}

impl CamelWriter {
    /// A writer that has seen nothing yet.
    pub fn new() -> (writer: Self)
        ensures
            writer@ == camel_start(),
    {
        CamelWriter {
            result: String::new(),
            new_word: false,
            last_char: ' ',
            found_real_char: false,
        }
    }

    /// Takes in one character together with what is known of it: whether it
    /// separates words, whether it is a digit, and whether it opens a word.
    pub fn step(self, character: char, separator: bool, numeric: bool, opens: bool) -> (next: Self)
        ensures
            next@ == camel_step_with(self@, character, separator, numeric, opens),
    {
        let first_word: bool = false;
        let mut next = self;
        if separator && next.found_real_char {
            next.new_word = true;
        } else if !next.found_real_char && separator {
        } else if numeric {
            next.found_real_char = true;
            next.new_word = true;
            next.result.push(character);
        } else if opens {
            next.found_real_char = true;
            next.new_word = false;
            next.result = append_on_new_word(next.result, first_word, character);
        } else {
            next.found_real_char = true;
            next.last_char = character;
            next.result.push(character.to_ascii_lowercase());
        }
        next
    }

    /// What was written.
    pub fn finish(self) -> (camel: String)
        ensures
            camel@ == self@.out,
    {
        self.result
    }
}

/// Convert string to camelCase
pub fn to_camel_case(convertable_string: &str) -> (camel: String)
    ensures
        camel@ == camel_case(convertable_string@),
{
    let mut writer = CamelWriter::new();
    let trimmed = trim_right(convertable_string);
    let characters = trimmed.chars();
    for character in it: characters
        invariant
            it.seq() == trimmed@,
            writer@ == camel_fold(trimmed@.take(it.index())),
    {
        proof {
            assert(trimmed@.take(it.index() + 1).drop_last() == trimmed@.take(it.index()));
        }
        let separator = char_is_seperator(character);
        let numeric = character.is_numeric();
        let opens = last_char_lower_current_is_upper_or_new_word(
            writer.new_word,
            writer.last_char,
            character,
        );
        writer = writer.step(character, separator, numeric, opens);
    }
    proof {
        assert(trimmed@.take(trimmed@.len() as int) == trimmed@);
        lemma_trailing_separators_leave_output(convertable_string@);
    }
    writer.finish()
}

} // verus!
