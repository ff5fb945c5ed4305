use serwus::utils::sanitized_string::trim;
use serwus::utils::sanitized_string::trim_bounds;
use serwus::utils::text::chars_of;
use serwus::utils::text::skip_space;
use serwus::utils::text::skip_trailing_space;
use serwus::utils::text::skip_word;
use serwus::utils::text::string_of;
use serwus::utils::text::whitespace_flags;

fn flags(pattern: &str) -> Vec<bool> {
    pattern.chars().map(|c| c == '_').collect()
}

#[test]
fn characters_of_a_string() {
    assert_eq!(chars_of(""), Vec::<char>::new());
    assert_eq!(chars_of("aż b"), vec!['a', 'ż', ' ', 'b']);
}

#[test]
fn whitespace_is_flagged_character_by_character() {
    assert_eq!(whitespace_flags(&chars_of("")), Vec::<bool>::new());
    assert_eq!(
        whitespace_flags(&chars_of(" a\t\u{a0}ż\u{200b}\n")),
        vec![true, false, true, true, false, false, true]
    );
}

#[test]
fn string_of_a_range_of_characters() {
    let list = chars_of("héllo wörld");
    assert_eq!(string_of(&list, 0, 5), "héllo");
    assert_eq!(string_of(&list, 6, 11), "wörld");
    assert_eq!(string_of(&list, 3, 3), "");
    assert_eq!(string_of(&list, 0, list.len()), "héllo wörld");
}

#[test]
fn runs_of_space_and_words() {
    let marked = flags("__ab__c");
    assert_eq!(skip_space(&marked, 0), 2);
    assert_eq!(skip_space(&marked, 2), 2);
    assert_eq!(skip_word(&marked, 2), 4);
    assert_eq!(skip_word(&marked, 4), 4);
    assert_eq!(skip_space(&marked, 4), 6);
    assert_eq!(skip_word(&marked, 6), 7);
    assert_eq!(skip_space(&marked, 7), 7);
    assert_eq!(skip_word(&marked, 7), 7);
}

#[test]
fn space_at_the_end() {
    assert_eq!(skip_trailing_space(&flags("ab__"), 0), 2);
    assert_eq!(skip_trailing_space(&flags("ab__"), 3), 3);
    assert_eq!(skip_trailing_space(&flags("a_b"), 0), 3);
    assert_eq!(skip_trailing_space(&flags("____"), 0), 0);
    assert_eq!(skip_trailing_space(&flags("____"), 4), 4);
    assert_eq!(skip_trailing_space(&flags(""), 0), 0);
}

#[test]
fn bounds_of_the_text_between_blanks() {
    assert_eq!(trim_bounds(&flags("")), (0, 0));
    assert_eq!(trim_bounds(&flags("abc")), (0, 3));
    assert_eq!(trim_bounds(&flags("__a_b___")), (2, 5));
    assert_eq!(trim_bounds(&flags("___")), (3, 3));
}

#[test]
fn trim_agrees_with_the_standard_one() {
    for s in ["", " ", "a", " a", "a ", "  a b  ", "\n\ta\u{2003}b\u{a0}\r\n", "\u{200b} x \u{200b}", "ż "] {
        assert_eq!(trim(s), s.trim());
    }
}
