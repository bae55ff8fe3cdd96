use role_panel::text::parse_hex_i32;
use role_panel::text::parse_u64;
use role_panel::text::split_colons;
use role_panel::text::trim;
use role_panel::text::truncate;
use role_panel::text::truncate_chars;
use role_panel::text::u64_to_string;

#[test]
fn truncate_short_string_returns_unchanged() {
    assert_eq!(truncate("hello", 10), "hello");
    assert_eq!(truncate("", 10), "");
    assert_eq!(truncate("test", 4), "test");
}

#[test]
fn truncate_long_string_cuts_at_limit() {
    assert_eq!(truncate("hello world", 5), "hello");
    assert_eq!(truncate("abcdefghij", 3), "abc");
}

#[test]
fn truncate_exact_length_returns_unchanged() {
    assert_eq!(truncate("hello", 5), "hello");
}

#[test]
fn truncate_chars_counts_characters_not_bytes() {
    assert_eq!(truncate_chars("ロールパネル", 3), "ロール");
    assert_eq!(truncate_chars("abc", 5), "abc");
    assert_eq!(truncate_chars("", 0), "");
}

#[test]
fn parse_u64_accepts_plain_decimal() {
    assert_eq!(parse_u64("0"), Some(0));
    assert_eq!(parse_u64("123"), Some(123));
    assert_eq!(parse_u64("18446744073709551615"), Some(u64::MAX));
}

#[test]
fn parse_u64_rejects_junk_and_overflow() {
    assert_eq!(parse_u64(""), None);
    assert_eq!(parse_u64("12a"), None);
    assert_eq!(parse_u64("-1"), None);
    assert_eq!(parse_u64("18446744073709551616"), None);
}

#[test]
fn parse_hex_accepts_mixed_case() {
    assert_eq!(parse_hex_i32("5865F2"), Some(0x5865F2));
    assert_eq!(parse_hex_i32("ff0000"), Some(0xFF0000));
    assert_eq!(parse_hex_i32("7fffffff"), Some(i32::MAX));
}

#[test]
fn parse_hex_rejects_junk_and_overflow() {
    assert_eq!(parse_hex_i32(""), None);
    assert_eq!(parse_hex_i32("xyz"), None);
    assert_eq!(parse_hex_i32("80000000"), None);
}

#[test]
fn u64_to_string_renders_decimal() {
    assert_eq!(u64_to_string(0), "0");
    assert_eq!(u64_to_string(7), "7");
    assert_eq!(u64_to_string(1040), "1040");
    assert_eq!(u64_to_string(u64::MAX), "18446744073709551615");
}

#[test]
fn split_colons_keeps_empty_parts() {
    assert_eq!(split_colons("a:b:c"), vec!["a", "b", "c"]);
    assert_eq!(split_colons("abc"), vec!["abc"]);
    assert_eq!(split_colons(":a:"), vec!["", "a", ""]);
    assert_eq!(split_colons(""), vec![""]);
}

#[test]
fn trim_strips_surrounding_whitespace() {
    assert_eq!(trim("  Colors  "), "Colors");
    assert_eq!(trim("Colors"), "Colors");
    assert_eq!(trim("   "), "");
}
