use scribe::clock::Timestamp;
use scribe::text::{concat_str, ends_with, is_blank_text, prefix_chars, trim, trim_end_char, trimmed_nonempty};

#[test]
fn trim_removes_unicode_whitespace_at_both_ends() {
    assert_eq!(trim("  a b \t\n"), "a b");
    assert_eq!(trim("\u{3000}x\u{a0}"), "x");
    assert_eq!(trim(""), "");
    assert_eq!(trim(" \n "), "");
    assert_eq!(trim("no-space"), "no-space");
    for s in ["  mixed \u{2003} text\u{85} ", "\u{200b}zero-width", "\u{1680}ogham"] {
        assert_eq!(trim(s), s.trim());
    }
}

#[test]
fn blank_and_nonempty() {
    assert!(is_blank_text(" \t "));
    assert!(is_blank_text(""));
    assert!(!is_blank_text(" x "));
    assert_eq!(trimmed_nonempty(" x ").as_deref(), Some("x"));
    assert!(trimmed_nonempty("  ").is_none());
}

#[test]
fn suffixes_prefixes_and_joins() {
    assert!(ends_with("abc", "bc"));
    assert!(!ends_with("abc", "abcd"));
    assert!(ends_with("abc", ""));
    assert_eq!(trim_end_char("a//", '/'), "a");
    assert_eq!(trim_end_char("//", '/'), "");
    assert_eq!(prefix_chars("héllo", 2), "hé");
    assert_eq!(prefix_chars("hi", 5), "hi");
    assert_eq!(concat_str("a", "b"), "ab");
}

#[test]
fn timestamps_are_checked_and_formatted() {
    assert!(Timestamp::new(0, 1_000_000_000).is_none());
    assert!(Timestamp::new(i64::MAX, 0).is_none());
    let t = Timestamp::new(0, 0).expect("epoch");
    assert_eq!(t.to_rfc3339(), "1970-01-01T00:00:00+00:00");
    assert_eq!(t.to_minute_text(), "1970-01-01 00:00");
    let now = Timestamp::now();
    assert!(now.secs > 1_600_000_000 && now.nanos < 1_000_000_000);
}

#[test]
fn timestamp_range_is_chronos_range() {
    let first = Timestamp::new(-8_334_601_228_800, 0).expect("first second");
    assert!(first.to_rfc3339().contains("262143-01-01T00:00:00"));
    assert!(Timestamp::new(-8_334_601_228_801, 0).is_none());
    let last = Timestamp::new(8_210_266_876_799, 999_999_999).expect("last second");
    assert!(last.to_rfc3339().contains("262142-12-31T23:59:59"));
    assert!(Timestamp::new(8_210_266_876_800, 0).is_none());
}
