use fastclient::text::{
    chars_of, i64_text, is_blank, is_whitespace, text_contains, text_ends_with, text_eq,
    text_eq_ignore_ascii_case, text_has_char, text_starts_with, trim, u64_text, usize_text,
};

#[test]
fn trim_removes_unicode_whitespace_at_both_ends() {
    assert_eq!(trim("  hello \t\n"), "hello");
    assert_eq!(trim("\u{3000}x y\u{2029}\u{a0}"), "x y");
    assert_eq!(trim(""), "");
    assert_eq!(trim(" \r\n\t "), "");
    assert_eq!(trim("inner  space"), "inner  space");
}

#[test]
fn trim_twice_is_trim_once() {
    for s in ["  a b  ", "\u{85}z\u{1680}", "", "   ", "x"] {
        let once = trim(s);
        assert_eq!(trim(&once), once);
    }
}

#[test]
fn whitespace_matches_std() {
    for c in ['\t', '\n', ' ', '\u{85}', '\u{a0}', '\u{2000}', '\u{200a}', '\u{3000}', 'a', '\u{200b}', '_'] {
        assert_eq!(is_whitespace(c), c.is_whitespace(), "{:?}", c);
    }
}

#[test]
fn blank_texts() {
    assert!(is_blank("   "));
    assert!(is_blank(""));
    assert!(!is_blank(" a "));
}

#[test]
fn substring_search() {
    assert!(text_contains("hello world", "o w"));
    assert!(text_contains("abc", ""));
    assert!(!text_contains("abc", "abcd"));
    assert!(!text_contains("abc", "ac"));
    assert!(text_has_char("a@b", '@'));
    assert!(!text_has_char("ab", '@'));
    assert!(text_starts_with("https://x", "https://"));
    assert!(!text_starts_with("http", "https://"));
    assert!(text_ends_with("data.csv", ".csv"));
    assert!(!text_ends_with("csv", ".csv"));
}

#[test]
fn equality_and_ascii_case() {
    assert!(text_eq("abc", "abc"));
    assert!(!text_eq("abc", "abd"));
    assert!(text_eq_ignore_ascii_case("LocalBusiness", "localbusiness"));
    assert!(!text_eq_ignore_ascii_case("\u{c4}", "\u{e4}"));
    assert!(!text_eq_ignore_ascii_case("Store", "Stores"));
    assert_eq!(chars_of("h\u{e9}"), vec!['h', '\u{e9}']);
}

#[test]
fn decimal_rendering() {
    assert_eq!(u64_text(0), "0");
    assert_eq!(u64_text(1234567890), "1234567890");
    assert_eq!(u64_text(u64::MAX), u64::MAX.to_string());
    assert_eq!(i64_text(-42), "-42");
    assert_eq!(i64_text(7), "7");
    assert_eq!(i64_text(i64::MIN), "-9223372036854775808");
    assert_eq!(usize_text(10), "10");
}
