use atlas_rust_api::text::same_text;

#[test]
fn same_text_holds_of_equal_texts() {
    assert!(same_text("", ""));
    assert!(same_text("/health", "/health"));
    assert!(same_text("\u{e9}t\u{e9}", "\u{e9}t\u{e9}"));
    let owned = String::from("/manuscript/sync");
    assert!(same_text(owned.as_str(), "/manuscript/sync"));
}

#[test]
fn same_text_fails_on_any_difference() {
    assert!(!same_text("", "a"));
    assert!(!same_text("a", ""));
    assert!(!same_text("/health", "/healtH"));
    assert!(!same_text("/health", "/health/"));
    assert!(!same_text("/health/", "/health"));
    assert!(!same_text("xhealth", "/health"));
    assert!(!same_text("e\u{301}", "\u{e9}"));
    assert!(!same_text("\u{e9}", "\u{e8}"));
}

#[test]
fn same_text_agrees_with_equality() {
    let texts = ["", "a", "ab", "ba", "GET", "get", "HEAD", "POST", "\u{e9}", "\u{1f4d6}"];
    for a in texts {
        for b in texts {
            assert_eq!(same_text(a, b), a == b, "{a:?} {b:?}");
        }
    }
}
