use kreta_proxy::text::{
    chars_of, contains_chars, decimal_string, find_char, is_white_space_char,
    parse_unsigned_within, remove_char, text_contains, trim_bounds,
};

fn chars(s: &str) -> Vec<char> {
    s.chars().collect()
}

#[test]
fn characters_of_a_text() {
    assert_eq!(chars_of("aő\u{10000}z"), vec!['a', 'ő', '\u{10000}', 'z']);
    assert!(chars_of("").is_empty());
}

#[test]
fn finds_a_pattern_anywhere() {
    assert!(text_contains("abcabd", "abd"));
    assert!(text_contains("abcabd", "abc"));
    assert!(text_contains("abcabd", ""));
    assert!(text_contains("", ""));
    assert!(text_contains("aab", "ab"));
    assert!(!text_contains("abcabd", "abe"));
    assert!(!text_contains("ab", "abc"));
    assert!(!text_contains("", "a"));
    assert!(contains_chars(&chars("xőy"), &chars("őy")));
    for (text, pattern) in [("aaa", "aa"), ("mississippi", "issip"), ("mississippi", "ssissi")] {
        assert_eq!(text_contains(text, pattern), text.contains(pattern));
    }
}

#[test]
fn finds_the_first_of_a_character() {
    assert_eq!(find_char(&chars("a:b:c"), ':'), Some(1));
    assert_eq!(find_char(&chars(":"), ':'), Some(0));
    assert_eq!(find_char(&chars("abc"), ':'), None);
    assert_eq!(find_char(&chars(""), ':'), None);
    assert_eq!(find_char(&chars("őő:"), ':'), Some(2));
}

#[test]
fn white_space_is_what_the_standard_says() {
    for code in 0..=0x3001u32 {
        if let Some(c) = char::from_u32(code) {
            assert_eq!(is_white_space_char(c), c.is_whitespace(), "{:x}", code);
        }
    }
    assert!(!is_white_space_char('\u{feff}'));
    assert!(!is_white_space_char('\u{200b}'));
}

#[test]
fn trims_both_ends() {
    for (text, from) in [
        ("  a b  ", 0usize), ("a", 0), ("", 0), ("   ", 0), ("x: y ", 2), ("\t\u{a0}é\u{2003}", 0),
        ("ab", 2), (" a", 1),
    ] {
        let all = chars(text);
        let (start, end) = trim_bounds(&all, from);
        let got: String = all[start..end].iter().collect();
        let tail: String = all[from..].iter().collect();
        assert_eq!(got, tail.trim(), "{:?}", text);
    }
}

#[test]
fn takes_a_character_out() {
    assert_eq!(remove_char(&chars("8%0%"), '%'), chars("80"));
    assert_eq!(remove_char(&chars("%%"), '%'), chars(""));
    assert_eq!(remove_char(&chars("abc"), '%'), chars("abc"));
}

#[test]
fn reads_unsigned_decimals() {
    assert_eq!(parse_unsigned_within(&chars("0"), 100), Some(0));
    assert_eq!(parse_unsigned_within(&chars("100"), 100), Some(100));
    assert_eq!(parse_unsigned_within(&chars("101"), 100), None);
    assert_eq!(parse_unsigned_within(&chars("+42"), 100), Some(42));
    assert_eq!(parse_unsigned_within(&chars("0042"), 100), Some(42));
    assert_eq!(parse_unsigned_within(&chars(""), 100), None);
    assert_eq!(parse_unsigned_within(&chars("+"), 100), None);
    assert_eq!(parse_unsigned_within(&chars("4 2"), 100), None);
    assert_eq!(parse_unsigned_within(&chars("42+"), 100), None);
    assert_eq!(parse_unsigned_within(&chars("4294967295"), u32::MAX), Some(u32::MAX));
    assert_eq!(parse_unsigned_within(&chars("4294967296"), u32::MAX), None);
    assert_eq!(parse_unsigned_within(&chars("99999999999999999999999"), u32::MAX), None);
    assert_eq!(parse_unsigned_within(&chars("7"), 0), None);
    assert_eq!(parse_unsigned_within(&chars("0"), 0), Some(0));
}

#[test]
fn writes_decimals() {
    assert_eq!(decimal_string(0), "0");
    assert_eq!(decimal_string(7), "7");
    assert_eq!(decimal_string(10), "10");
    assert_eq!(decimal_string(1234567890), "1234567890");
    assert_eq!(decimal_string(u64::MAX), "18446744073709551615");
}
