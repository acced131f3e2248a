use peer_web::text::{
    byte_len, contains_char, contains_text, decimal_text, eq_ignore_ascii_case, prefix_bytes,
    starts_with_text, text_eq, text_lt, trim,
};

#[test]
fn trimming_uses_unicode_white_space() {
    assert_eq!(trim("  a b \t\n"), "a b");
    assert_eq!(trim("\u{00A0}x\u{3000}"), "x");
    assert_eq!(trim("   "), "");
    assert_eq!(trim(""), "");
}

#[test]
fn byte_lengths() {
    assert_eq!(byte_len("abc"), 3);
    assert_eq!(byte_len("é"), 2);
    assert_eq!(byte_len("€"), 3);
    assert_eq!(byte_len("😀"), 4);
    assert_eq!(prefix_bytes("2024-01-01T00", 10), Some("2024-01-01"));
    assert_eq!(prefix_bytes("short", 10), None);
    assert_eq!(prefix_bytes("ééééééé", 5), None);
    assert_eq!(prefix_bytes("ééééééé", 6), Some("ééé"));
}

#[test]
fn comparisons() {
    assert!(text_eq("abc", "abc"));
    assert!(!text_eq("abc", "abd"));
    assert!(eq_ignore_ascii_case("SuCcEsS", "success"));
    assert!(!eq_ignore_ascii_case("succes", "success"));
    assert!(text_lt("a", "b"));
    assert!(text_lt("ab", "abc"));
    assert!(!text_lt("abc", "abc"));
    assert!(!text_lt("b", "a"));
}

#[test]
fn searching() {
    assert!(contains_text("error 31001 here", "31001"));
    assert!(!contains_text("error", "31001"));
    assert!(contains_text("x", ""));
    assert!(starts_with_text("media/pic", "media/"));
    assert!(!starts_with_text("pic", "media/"));
    assert!(contains_char("a,b", ','));
    assert!(!contains_char("ab", ','));
}

#[test]
fn decimals() {
    assert_eq!(decimal_text(0), "0");
    assert_eq!(decimal_text(7), "7");
    assert_eq!(decimal_text(1234567890), "1234567890");
    assert_eq!(decimal_text(u64::MAX), "18446744073709551615");
}
