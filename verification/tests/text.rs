use trade_feed::text::{same_text, starts_with};

#[test]
fn same_text_compares_whole_texts() {
    assert!(same_text("ping", "ping"));
    assert!(same_text("", ""));
    assert!(!same_text("ping", "pong"));
    assert!(!same_text("ping", "pin"));
    assert!(!same_text("Ping", "ping"));
}

#[test]
fn starts_with_compares_characters() {
    assert!(starts_with("StatTrak\u{2122} AK-47", "StatTrak\u{2122}"));
    assert!(starts_with("abc", ""));
    assert!(starts_with("abc", "abc"));
    assert!(!starts_with("ab", "abc"));
    assert!(!starts_with("xabc", "abc"));
    assert!(starts_with("\u{2122}\u{e9}x", "\u{2122}\u{e9}"));
    assert!(!starts_with("\u{2122}x", "\u{2123}"));
}
