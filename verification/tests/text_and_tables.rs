use streamable_mcp::http::is_success;
use streamable_mcp::pending::Table;
use streamable_mcp::text::{
    contains_text, is_white_space, lowercase, same_text, signed_text, starts_with, trim,
    unsigned_text,
};

#[test]
fn numbers_are_written_in_decimal() {
    assert_eq!(unsigned_text(0), "0");
    assert_eq!(unsigned_text(10), "10");
    assert_eq!(unsigned_text(u64::MAX), "18446744073709551615");
    assert_eq!(signed_text(-1), "-1");
    assert_eq!(signed_text(i64::MIN), "-9223372036854775808");
    assert_eq!(signed_text(i64::MAX), "9223372036854775807");
}

#[test]
fn numbers_differ_in_their_notation() {
    let texts: Vec<String> = (0..200).map(unsigned_text).collect();
    for (i, a) in texts.iter().enumerate() {
        for (j, b) in texts.iter().enumerate() {
            assert_eq!(a == b, i == j);
        }
    }
}

#[test]
fn texts_are_compared_and_searched() {
    assert!(same_text("", ""));
    assert!(!same_text("a", "A"));
    assert!(starts_with("application/json; x", "application/json"));
    assert!(!starts_with("app", "application/json"));
    assert!(starts_with("a", ""));
    assert!(contains_text("x text/event-stream y", "text/event-stream"));
    assert!(contains_text("\u{e9}\u{e9}b", "\u{e9}b"));
    assert!(contains_text("", ""));
    assert!(!contains_text("text/event-strea", "text/event-stream"));
    assert!(!contains_text("aab", "ba"));
}

#[test]
fn white_space_is_trimmed() {
    assert_eq!(trim(" \t a b \r\n"), "a b");
    assert_eq!(trim("\u{a0}\u{2003}x\u{3000}"), "x");
    assert_eq!(trim("   "), "");
    assert_eq!(trim(""), "");
    for c in ['\u{9}', '\u{d}', ' ', '\u{85}', '\u{1680}', '\u{200a}', '\u{2028}', '\u{205f}'] {
        assert!(is_white_space(c));
        assert!(c.is_whitespace());
    }
    for c in ['\u{8}', '\u{e}', '\u{200b}', 'x'] {
        assert!(!is_white_space(c));
    }
}

#[test]
fn ascii_letters_are_lowered() {
    assert_eq!(lowercase("Text/HTML; A-Z [\\] @"), "text/html; a-z [\\] @");
    assert_eq!(lowercase("\u{c9}Z"), "\u{c9}z");
}

#[test]
fn success_is_a_range_of_codes() {
    assert!(is_success(200));
    assert!(is_success(299));
    assert!(!is_success(199));
    assert!(!is_success(300));
    assert!(!is_success(404));
}

#[test]
fn table_keeps_one_entry_per_key() {
    let mut table: Table<String, u8> = Table::new();
    assert!(!table.contains(&"a".to_owned()));
    assert_eq!(table.insert("a".to_owned(), 1), None);
    assert_eq!(table.insert("b".to_owned(), 2), None);
    assert_eq!(table.insert("a".to_owned(), 3), Some(1));
    assert!(table.contains(&"a".to_owned()));
    assert_eq!(table.remove(&"a".to_owned()), Some(3));
    assert_eq!(table.remove(&"a".to_owned()), None);
    assert!(!table.contains(&"a".to_owned()));
    assert_eq!(table.remove(&"b".to_owned()), Some(2));
}
