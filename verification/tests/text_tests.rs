use mxr_tui::input::{plain_or_shift, KeyModifiers};
use mxr_tui::text::{
    ascii_lowercase_str, blank, contains_str, i64_to_decimal, join_strings, parse_i32_str,
    parse_u16, parse_u32_str, starts_with_str, str_eq, trim_str, u64_to_decimal,
};

#[test]
fn trimming_uses_unicode_whitespace() {
    assert_eq!(trim_str("\u{a0} a b \u{3000}"), "a b");
    assert!(blank(" \t\n"));
    assert!(!blank(" x "));
}

#[test]
fn case_and_search() {
    assert_eq!(ascii_lowercase_str("AbÇ-Z"), "abÇ-z");
    assert!(contains_str("hello world", "o w"));
    assert!(contains_str("abc", ""));
    assert!(!contains_str("ab", "abc"));
    assert!(starts_with_str("Account form has problems.", "Account form"));
    assert!(str_eq("é", "é"));
    assert!(!str_eq("a", "b"));
}

#[test]
fn numbers_parse_and_print() {
    assert_eq!(parse_u16("65535"), Some(65535));
    assert_eq!(parse_u16("65536"), None);
    assert_eq!(parse_u16(""), None);
    assert_eq!(parse_u32_str("+0"), Some(0));
    assert_eq!(parse_i32_str("-12"), Some(-12));
    assert_eq!(parse_i32_str("-"), None);
    assert_eq!(u64_to_decimal(0), "0");
    assert_eq!(u64_to_decimal(18_446_744_073_709_551_615), "18446744073709551615");
    assert_eq!(i64_to_decimal(-42), "-42");
}

#[test]
fn joining() {
    let parts = vec!["a".to_string(), "".to_string(), "c".to_string()];
    assert_eq!(join_strings(&parts, "\n"), "a\n\nc");
    assert_eq!(join_strings(&vec![], ", "), "");
}

#[test]
fn plain_or_shift_modifiers() {
    assert!(plain_or_shift(KeyModifiers::none()));
    assert!(plain_or_shift(KeyModifiers::shift()));
    assert!(!plain_or_shift(KeyModifiers { bits: 2 }));
    assert!(!plain_or_shift(KeyModifiers { bits: 3 }));
}
