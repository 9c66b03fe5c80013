use battery_notifier::paths::join_path;
use battery_notifier::text::{decimal_string, parse_numeral, replace, same_text, NumeralError};

#[test]
fn decimal_string_matches_std() {
    let mut n: u8 = 0;
    loop {
        assert_eq!(decimal_string(n), n.to_string());
        if n == 255 {
            break;
        }
        n += 1;
    }
}

#[test]
fn replace_matches_std_on_samples() {
    let cases = [
        ("", "ab", "x"),
        ("ab", "ab", "x"),
        ("aab", "ab", "x"),
        ("ababab", "ab", ""),
        ("aaa", "aa", "b"),
        ("aaaa", "aa", "b"),
        ("hello world", "o", "0"),
        ("héllo wörld", "ö", "oe"),
        ("abc", "abcd", "x"),
        ("line\nbreak\n", "\n", ""),
        ("xx{capacity}xx", "{capacity}", "55"),
    ];
    for (template, token, value) in cases {
        assert_eq!(replace(template, token, value), template.replace(token, value));
    }
}

#[test]
fn same_text_compares_by_characters() {
    assert!(same_text("", ""));
    assert!(same_text("Charging", "Charging"));
    assert!(!same_text("Charging", "charging"));
    assert!(!same_text("Charging", "Charging "));
    assert!(!same_text("abc", "abd"));
}

#[test]
fn parse_numeral_reads_digits_with_an_optional_plus() {
    assert_eq!(parse_numeral("0", 100), Ok(0));
    assert_eq!(parse_numeral("85", 100), Ok(85));
    assert_eq!(parse_numeral("100", 100), Ok(100));
    assert_eq!(parse_numeral("+7", 100), Ok(7));
    assert_eq!(parse_numeral("007", 100), Ok(7));
    assert_eq!(parse_numeral("255", 255), Ok(255));
}

#[test]
fn parse_numeral_rejects_what_is_no_number() {
    assert_eq!(parse_numeral("", 100), Err(NumeralError::NotANumber));
    assert_eq!(parse_numeral("+", 100), Err(NumeralError::NotANumber));
    assert_eq!(parse_numeral("-1", 100), Err(NumeralError::NotANumber));
    assert_eq!(parse_numeral(" 1", 100), Err(NumeralError::NotANumber));
    assert_eq!(parse_numeral("1 ", 100), Err(NumeralError::NotANumber));
    assert_eq!(parse_numeral("12a", 100), Err(NumeralError::NotANumber));
    assert_eq!(parse_numeral("++1", 100), Err(NumeralError::NotANumber));
    assert_eq!(parse_numeral("999x", 100), Err(NumeralError::NotANumber));
    assert_eq!(parse_numeral("٣", 100), Err(NumeralError::NotANumber));
}

#[test]
fn parse_numeral_rejects_what_is_too_large() {
    assert_eq!(parse_numeral("101", 100), Err(NumeralError::TooLarge));
    assert_eq!(parse_numeral("256", 255), Err(NumeralError::TooLarge));
    assert_eq!(parse_numeral("99999999999999999999999", 100), Err(NumeralError::TooLarge));
}

#[test]
fn parse_numeral_agrees_with_std_for_u8() {
    let cases = ["0", "9", "10", "255", "256", "+255", "+", "", "a", "1a", "0000", "00256"];
    for text in cases {
        assert_eq!(parse_numeral(text, 255).ok(), text.parse::<u8>().ok());
    }
}

#[test]
fn join_path_matches_std_on_samples() {
    let cases = [
        ("/home/u", ".config"),
        ("/home/u/", ".config"),
        ("", "config.toml"),
        ("/xdg", "/abs/file"),
        ("relative", "./assets/battery-danger.png"),
        ("/", "x"),
        ("/a", ""),
    ];
    for (base, part) in cases {
        let expected = std::path::Path::new(base).join(part).to_string_lossy().to_string();
        assert_eq!(join_path(base, part), expected);
    }
}

#[test]
fn replace_with_an_empty_token_changes_nothing() {
    assert_eq!(replace("abc", "", "x"), "abc");
    assert_eq!(replace("", "", "x"), "");
}
