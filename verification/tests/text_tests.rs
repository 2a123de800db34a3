use github_export::text::{
    bool_text, decimal_text, flatten_newlines, join_text, text_eq, text_or, truncate,
};

#[test]
fn decimal_text_writes_digits() {
    assert_eq!(decimal_text(0), "0");
    assert_eq!(decimal_text(7), "7");
    assert_eq!(decimal_text(42), "42");
    assert_eq!(decimal_text(1_296_269), "1296269");
    assert_eq!(decimal_text(u64::MAX), "18446744073709551615");
}

#[test]
fn truncate_keeps_short_text() {
    assert_eq!(truncate("hello", 10), "hello");
    assert_eq!(truncate("hello", 5), "hello");
    assert_eq!(truncate("", 0), "");
}

#[test]
fn truncate_cuts_long_text_and_adds_dots() {
    assert_eq!(truncate("hello world", 5), "hello...");
    assert_eq!(truncate("abc", 0), "...");
}

#[test]
fn truncate_counts_characters_not_bytes() {
    // Four characters, eight bytes.
    assert_eq!(truncate("ÄÖÜß", 4), "ÄÖÜß");
    assert_eq!(truncate("ÄÖÜß", 2), "ÄÖ...");
}

#[test]
fn join_text_places_separator_between() {
    let items = vec!["bug".to_string(), "priority: high".to_string()];
    assert_eq!(join_text(&items, ", "), "bug, priority: high");
    assert_eq!(join_text(&vec!["one".to_string()], ", "), "one");
    assert_eq!(join_text(&Vec::new(), ", "), "");
}

#[test]
fn flatten_newlines_turns_lines_into_spaces() {
    assert_eq!(flatten_newlines("a\nb\n\nc"), "a b  c");
    assert_eq!(flatten_newlines("no breaks"), "no breaks");
}

#[test]
fn bool_text_and_text_or() {
    assert_eq!(bool_text(true), "true");
    assert_eq!(bool_text(false), "false");
    assert_eq!(text_or(&Some("x".to_string()), "N/A"), "x");
    assert_eq!(text_or(&None, "N/A"), "N/A");
}

#[test]
fn text_eq_compares_characters() {
    assert!(text_eq("slow_down", "slow_down"));
    assert!(!text_eq("slow_down", "slow_dow"));
    assert!(text_eq("", ""));
}
