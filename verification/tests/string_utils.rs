use serwus::utils::string_utils::to_camel_case;
use serwus::utils::string_utils::CamelWriter;

#[test]
fn test_to_case_camel() {
    assert_eq!(to_camel_case("tra_ta_ta"), "traTaTa");
}

#[test]
fn camel_case_drops_separators_at_both_ends() {
    assert_eq!(to_camel_case("__user_name__"), "userName");
    assert_eq!(to_camel_case(""), "");
    assert_eq!(to_camel_case("___"), "");
    assert_eq!(to_camel_case("name"), "name");
}

#[test]
fn camel_case_words_and_digits() {
    assert_eq!(to_camel_case("fooBar"), "fooBar");
    assert_eq!(to_camel_case("FooBar"), "fooBar");
    assert_eq!(to_camel_case("FOO"), "foo");
    assert_eq!(to_camel_case("foo bar-baz"), "fooBarBaz");
    assert_eq!(to_camel_case("line1_address"), "line1Address");
    assert_eq!(to_camel_case("a1b"), "a1B");
    assert_eq!(to_camel_case("1st_place"), "1StPlace");
}

#[test]
fn writer_takes_characters_with_their_classes() {
    let writer = CamelWriter::new();
    let writer = writer.step('_', true, false, false);
    let writer = writer.step('F', false, false, false);
    let writer = writer.step('o', false, false, false);
    let writer = writer.step('-', true, false, false);
    let writer = writer.step('b', false, false, true);
    let writer = writer.step('4', false, true, false);
    let writer = writer.step('x', false, false, true);
    let writer = writer.step('ß', false, false, true);
    let writer = writer.step('!', true, false, true);
    assert_eq!(writer.finish(), "foB4Xß");
    assert_eq!(CamelWriter::new().finish(), "");
}
