use upgrade_worker::text::{chars_of, contains, parse_number, same_text, split_chars, text_contains};
use upgrade_worker::version::{check_component, is_version_character, leading_number};
use upgrade_worker::{ValidationFailure, Version};

fn chars(s: &str) -> Vec<char> {
    s.chars().collect()
}

fn pieces(s: &str) -> Vec<String> {
    split_chars(&chars(s), '.').into_iter().map(|piece| piece.into_iter().collect()).collect()
}

#[test]
fn versions_have_two_or_three_components() {
    assert!(Version::parse_and_validate("1.0").is_ok());
    assert!(Version::parse_and_validate("1.0.0").is_ok());
    assert_eq!(Version::parse_and_validate("1").unwrap_err(), ValidationFailure::ComponentCount);
    assert_eq!(Version::parse_and_validate("").unwrap_err(), ValidationFailure::ComponentCount);
    assert_eq!(
        Version::parse_and_validate("1.2.3.4").unwrap_err(),
        ValidationFailure::ComponentCount
    );
    assert_eq!(
        Version::parse_and_validate("invalid").unwrap_err(),
        ValidationFailure::ComponentCount
    );
}

#[test]
fn versions_have_no_empty_component() {
    assert_eq!(Version::parse_and_validate("1..2").unwrap_err(), ValidationFailure::EmptyComponent);
    assert_eq!(Version::parse_and_validate(".1.2").unwrap_err(), ValidationFailure::EmptyComponent);
    assert_eq!(Version::parse_and_validate("1.2.").unwrap_err(), ValidationFailure::EmptyComponent);
    assert_eq!(Version::parse_and_validate(".").unwrap_err(), ValidationFailure::EmptyComponent);
    assert_eq!(Version::parse_and_validate("..").unwrap_err(), ValidationFailure::EmptyComponent);
}

#[test]
fn versions_are_made_of_ascii_letters_digits_and_hyphens() {
    assert!(Version::parse_and_validate("1.0.0-beta").is_ok());
    assert!(Version::parse_and_validate("v1.2").is_ok());
    assert!(Version::parse_and_validate("A.b.Z9").is_ok());
    assert!(Version::parse_and_validate("-.-").is_ok());
    assert_eq!(
        Version::parse_and_validate("1.0.0+build").unwrap_err(),
        ValidationFailure::InvalidCharacter
    );
    assert_eq!(
        Version::parse_and_validate("1.0_0").unwrap_err(),
        ValidationFailure::InvalidCharacter
    );
    assert_eq!(
        Version::parse_and_validate("1. 0").unwrap_err(),
        ValidationFailure::InvalidCharacter
    );
    assert_eq!(
        Version::parse_and_validate("1.\u{e9}.0").unwrap_err(),
        ValidationFailure::InvalidCharacter
    );
    assert_eq!(
        Version::parse_and_validate("1.\u{663}.0").unwrap_err(),
        ValidationFailure::InvalidCharacter
    );
}

#[test]
fn the_count_is_judged_first_and_then_the_components_in_order() {
    assert_eq!(
        Version::parse_and_validate("1..$.4").unwrap_err(),
        ValidationFailure::ComponentCount
    );
    assert_eq!(Version::parse_and_validate("1..$").unwrap_err(), ValidationFailure::EmptyComponent);
    assert_eq!(
        Version::parse_and_validate("$..1").unwrap_err(),
        ValidationFailure::InvalidCharacter
    );
    assert_eq!(
        Version::parse_and_validate("1.$.").unwrap_err(),
        ValidationFailure::InvalidCharacter
    );
}

#[test]
fn a_version_holds_its_components() {
    let version = Version::parse_and_validate("12.0-rc1.x").unwrap();
    let components: Vec<String> =
        version.components().iter().map(|piece| piece.iter().collect()).collect();
    assert_eq!(components, vec!["12", "0-rc1", "x"]);
    assert_eq!(version.major(), 12);

    let short = Version::parse_and_validate("3.1").unwrap();
    assert_eq!(short.components().len(), 2);
}

#[test]
fn the_major_number_of_a_version() {
    assert_eq!(Version::parse_and_validate("7.1").unwrap().major(), 7);
    assert_eq!(Version::parse_and_validate("007.1").unwrap().major(), 7);
    assert_eq!(Version::parse_and_validate("0.1").unwrap().major(), 0);
    assert_eq!(Version::parse_and_validate("abc.1").unwrap().major(), 0);
    assert_eq!(Version::parse_and_validate("1a.1").unwrap().major(), 0);
    assert_eq!(Version::parse_and_validate("-1.1").unwrap().major(), 0);
    assert_eq!(Version::parse_and_validate("4294967295.0").unwrap().major(), 4294967295);
    assert_eq!(Version::parse_and_validate("4294967296.0").unwrap().major(), 0);
    assert_eq!(Version::parse_and_validate("99999999999999999999999.0").unwrap().major(), 0);
}

#[test]
fn a_jump_is_a_rise_of_the_major_number() {
    let one = Version::parse_and_validate("1.0.0").unwrap();
    let one_five = Version::parse_and_validate("1.5.0").unwrap();
    let two = Version::parse_and_validate("2.0.0").unwrap();
    let named = Version::parse_and_validate("latest.0").unwrap();

    assert!(one.is_major_jump(&two));
    assert!(one_five.is_major_jump(&two));
    assert!(!one.is_major_jump(&one_five));
    assert!(!two.is_major_jump(&one));
    assert!(!one.is_major_jump(&one));
    assert!(named.is_major_jump(&one));
    assert!(!one.is_major_jump(&named));
}

#[test]
fn leading_number_reads_the_text_before_the_first_dot() {
    assert_eq!(leading_number("12.4.5"), 12);
    assert_eq!(leading_number("12"), 12);
    assert_eq!(leading_number("+12.1"), 12);
    assert_eq!(leading_number(""), 0);
    assert_eq!(leading_number(".5"), 0);
    assert_eq!(leading_number("1 .5"), 0);
    assert_eq!(leading_number("x.5"), 0);
}

#[test]
fn numbers_are_decimal_digits_after_an_optional_plus() {
    assert_eq!(parse_number(&chars("0")), Some(0));
    assert_eq!(parse_number(&chars("42")), Some(42));
    assert_eq!(parse_number(&chars("+42")), Some(42));
    assert_eq!(parse_number(&chars("0042")), Some(42));
    assert_eq!(parse_number(&chars("4294967295")), Some(u32::MAX));
    assert_eq!(parse_number(&chars("4294967296")), None);
    assert_eq!(parse_number(&chars("42949672950")), None);
    assert_eq!(parse_number(&chars("")), None);
    assert_eq!(parse_number(&chars("+")), None);
    assert_eq!(parse_number(&chars("++1")), None);
    assert_eq!(parse_number(&chars("-1")), None);
    assert_eq!(parse_number(&chars("1_000")), None);
    assert_eq!(parse_number(&chars(" 1")), None);
    assert_eq!(parse_number(&chars("1x")), None);
    assert_eq!(parse_number(&chars("\u{663}")), None);
}

#[test]
fn numbers_are_read_as_the_standard_library_reads_them() {
    for text in ["0", "7", "+7", "-7", "", "+", "12a", "4294967295", "4294967296", "00000000001"] {
        assert_eq!(parse_number(&chars(text)), text.parse::<u32>().ok(), "{:?}", text);
    }
}

#[test]
fn splitting_cuts_at_every_separator() {
    assert_eq!(pieces(""), vec![""]);
    assert_eq!(pieces("abc"), vec!["abc"]);
    assert_eq!(pieces("1.2.3"), vec!["1", "2", "3"]);
    assert_eq!(pieces("."), vec!["", ""]);
    assert_eq!(pieces("a..b"), vec!["a", "", "b"]);
    assert_eq!(pieces(".a."), vec!["", "a", ""]);
}

#[test]
fn splitting_agrees_with_the_standard_library() {
    for text in ["", ".", "..", "1.0", "1.0.0", "a..b.", ".x", "no dots", "1.2.3.4.5"] {
        let expected: Vec<String> = text.split('.').map(|piece| piece.to_string()).collect();
        assert_eq!(pieces(text), expected, "{:?}", text);
    }
}

#[test]
fn components_are_checked_character_by_character() {
    assert_eq!(check_component(&chars("")), Some(ValidationFailure::EmptyComponent));
    assert_eq!(check_component(&chars("a b")), Some(ValidationFailure::InvalidCharacter));
    assert_eq!(check_component(&chars("ab.")), Some(ValidationFailure::InvalidCharacter));
    assert_eq!(check_component(&chars("rc-1")), None);
    for c in ['0', '9', 'a', 'z', 'A', 'Z', '-'] {
        assert!(is_version_character(c), "{:?}", c);
    }
    for c in ['/', ':', '@', '[', '`', '{', '.', '+', '_', ' ', '\u{e9}', '\u{663}'] {
        assert!(!is_version_character(c), "{:?}", c);
    }
}

#[test]
fn texts_are_compared_character_by_character() {
    assert!(same_text("", ""));
    assert!(same_text("npm", "npm"));
    assert!(!same_text("npm", "npn"));
    assert!(!same_text("npm", "np"));
    assert!(!same_text("np", "npm"));
    assert!(same_text("caf\u{e9}", "caf\u{e9}"));
    assert!(!same_text("caf\u{e9}", "cafe"));
    assert_eq!(chars_of("a\u{e9}z"), vec!['a', '\u{e9}', 'z']);
    assert_eq!(chars_of(""), Vec::<char>::new());
}

#[test]
fn a_needle_is_found_wherever_it_stands() {
    assert!(text_contains("haystack", "hay"));
    assert!(text_contains("haystack", "stack"));
    assert!(text_contains("haystack", "yst"));
    assert!(text_contains("haystack", "haystack"));
    assert!(text_contains("haystack", ""));
    assert!(text_contains("", ""));
    assert!(!text_contains("", "a"));
    assert!(!text_contains("haystack", "haystacks"));
    assert!(!text_contains("haystack", "hat"));
    assert!(text_contains("aaab", "aab"));
    assert!(contains(&chars("x\u{e9}y"), &chars("\u{e9}y")));
    assert!(!contains(&chars("xey"), &chars("\u{e9}")));
}
