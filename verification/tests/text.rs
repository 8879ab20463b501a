use quickemu_catalog::text::{same_bytes, strip_prefix};

#[test]
fn strip_prefix_returns_the_rest() {
    assert_eq!(strip_prefix("linux-ubuntu22", "linux-"), Some("ubuntu22"));
    assert_eq!(strip_prefix("linux-", "linux-"), Some(""));
    assert_eq!(strip_prefix("anything", ""), Some("anything"));
    assert_eq!(strip_prefix("", ""), Some(""));
}

#[test]
fn strip_prefix_refuses_other_texts() {
    assert_eq!(strip_prefix("linux", "linux-"), None);
    assert_eq!(strip_prefix("", "linux-"), None);
    assert_eq!(strip_prefix("Linux-ubuntu22", "linux-"), None);
    assert_eq!(strip_prefix("xlinux-ubuntu22", "linux-"), None);
}

#[test]
fn strip_prefix_agrees_with_std_on_wide_characters() {
    let cases = [
        ("\u{e9}t\u{e9}-1", "\u{e9}t\u{e9}-"),
        ("\u{e9}", "\u{c3}"),
        ("a\u{e9}", "a-"),
        ("\u{65e5}\u{672c}-\u{8a9e}", "\u{65e5}\u{672c}-"),
        ("\u{1f600}-x", "\u{1f600}"),
        ("\u{1f600}", "\u{1f600}-"),
    ];
    for (text, prefix) in cases {
        assert_eq!(strip_prefix(text, prefix), text.strip_prefix(prefix));
    }
}

#[test]
fn same_bytes_compares_length_and_content() {
    assert!(same_bytes(b"", b""));
    assert!(same_bytes(b"abc", b"abc"));
    assert!(!same_bytes(b"abc", b"abd"));
    assert!(!same_bytes(b"abc", b"ab"));
    assert!(!same_bytes(b"", b"a"));
}
