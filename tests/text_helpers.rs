use clawdbot_server::text::{contains_text, same_text, strip_prefix, trim};

#[test]
fn trim_removes_surrounding_whitespace() {
    assert_eq!(trim("  hello world \n\t"), "hello world");
    assert_eq!(trim("   "), "");
    assert_eq!(trim(""), "");
    assert_eq!(trim("\u{3000}wide\u{00a0}"), "wide");
}

#[test]
fn strip_prefix_only_on_match() {
    assert_eq!(strip_prefix("ClawDBot: hi", "ClawDBot:"), Some(" hi"));
    assert_eq!(strip_prefix("Claw", "ClawDBot:"), None);
    assert_eq!(strip_prefix("abc", ""), Some("abc"));
    assert_eq!(strip_prefix("xbc", "a"), None);
}

#[test]
fn same_text_compares_characters() {
    assert!(same_text("system", "system"));
    assert!(!same_text("system", "System"));
    assert!(!same_text("sys", "system"));
}

#[test]
fn contains_text_finds_inner_occurrence() {
    assert!(contains_text("text/event-stream; charset=utf-8", "text/event-stream"));
    assert!(!contains_text("application/json", "text/event-stream"));
    assert!(contains_text("abc", ""));
}

#[test]
fn trim_agrees_with_char_whitespace() {
    for c in (0u32..=0x10FFFF).filter_map(char::from_u32) {
        let one = c.to_string();
        assert_eq!(trim(&one).is_empty(), c.is_whitespace(), "{:#x}", c as u32);
    }
}
