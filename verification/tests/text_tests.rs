use hkg::text::{first_two_lines, is_white_space, parse_usize, str_eq, trim, usize_to_string};

#[test]
fn trim_removes_white_space_at_both_ends() {
    assert_eq!(trim("  a b \n\t"), "a b");
    assert_eq!(trim(""), "");
    assert_eq!(trim(" \n "), "");
    assert_eq!(trim("\u{3000}標題\u{00A0}"), "標題");
}

#[test]
fn trim_matches_std() {
    for s in ["", "x", "  x", "x  ", "\r\n x y \u{2028}", "\u{85}z\u{85}", "\u{200B}q"] {
        assert_eq!(trim(s), s.trim());
    }
}

#[test]
fn white_space_is_unicode_white_space() {
    assert!(is_white_space(' '));
    assert!(is_white_space('\u{3000}'));
    assert!(is_white_space('\u{85}'));
    assert!(!is_white_space('a'));
    assert!(!is_white_space('\u{200B}'));
}

#[test]
fn parse_usize_reads_decimal_numbers() {
    assert_eq!(parse_usize("0"), Some(0));
    assert_eq!(parse_usize("42"), Some(42));
    assert_eq!(parse_usize("+7"), Some(7));
    assert_eq!(parse_usize("007"), Some(7));
    assert_eq!(parse_usize(""), None);
    assert_eq!(parse_usize("+"), None);
    assert_eq!(parse_usize("-1"), None);
    assert_eq!(parse_usize("1 "), None);
    assert_eq!(parse_usize("12a"), None);
}

#[test]
fn parse_usize_rejects_overflow() {
    let max = usize::MAX.to_string();
    assert_eq!(parse_usize(&max), Some(usize::MAX));
    let over = format!("{}0", usize::MAX);
    assert_eq!(parse_usize(&over), None);
}

#[test]
fn usize_to_string_writes_decimal() {
    assert_eq!(usize_to_string(0), "0");
    assert_eq!(usize_to_string(9), "9");
    assert_eq!(usize_to_string(10), "10");
    assert_eq!(usize_to_string(1234567), "1234567");
    assert_eq!(usize_to_string(usize::MAX), usize::MAX.to_string());
}

#[test]
fn usize_to_string_then_parse_gives_the_number_back() {
    for n in [0usize, 1, 99, 100, 65535, usize::MAX] {
        assert_eq!(parse_usize(&usize_to_string(n)), Some(n));
    }
}

#[test]
fn first_two_lines_splits_and_trims() {
    assert_eq!(
        first_two_lines(" 1/2/2017 \n 11:30 \n x"),
        Some((String::from("1/2/2017"), String::from("11:30")))
    );
    assert_eq!(first_two_lines("a\n"), Some((String::from("a"), String::from(""))));
    assert_eq!(first_two_lines("only one line"), None);
    assert_eq!(first_two_lines(""), None);
}

#[test]
fn str_eq_compares_characters() {
    assert!(str_eq("abc", "abc"));
    assert!(!str_eq("abc", "abd"));
    assert!(!str_eq("ab", "abc"));
    assert!(str_eq("", ""));
}
