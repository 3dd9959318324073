use cvm::text::{ends_with, same_text};

#[test]
fn ends_with_cases() {
    assert!(ends_with("pkg-linux-amd64", "linux-amd64"));
    assert!(ends_with("abc", ""));
    assert!(ends_with("", ""));
    assert!(!ends_with("", "a"));
    assert!(!ends_with("pkg-linux-amd64.deb", "linux-amd64"));
    assert!(ends_with("päck-ü", "k-ü"));
}

#[test]
fn same_text_cases() {
    assert!(same_text("org.freedesktop.systemd1.NoSuchUnit", "org.freedesktop.systemd1.NoSuchUnit"));
    assert!(!same_text("abc", "abd"));
    assert!(!same_text("abc", "ab"));
    assert!(same_text("", ""));
}
