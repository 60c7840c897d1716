use rust_desktop::text::{contains_fold, contains_str, str_eq};

#[test]
fn str_eq_is_exact() {
    assert!(str_eq("abc", "abc"));
    assert!(!str_eq("abc", "Abc"));
    assert!(!str_eq("abc", "abcd"));
    assert!(str_eq("", ""));
}

#[test]
fn contains_str_is_exact() {
    assert!(contains_str("Google Chrome", "Chrome"));
    assert!(!contains_str("Google Chrome", "chrome"));
    assert!(contains_str("abc", ""));
    assert!(!contains_str("", "a"));
}

#[test]
fn contains_fold_ignores_case() {
    assert!(contains_fold("Google Chrome", "CHROME"));
    assert!(contains_fold("GOOGLE CHROME", "chrome"));
    assert!(contains_fold("abc", ""));
    assert!(contains_fold("", ""));
    assert!(!contains_fold("", "a"));
    assert!(!contains_fold("Terminal", "chrome"));
    assert!(contains_fold("xyz", "Y"));
}

#[test]
fn contains_fold_lowercases_unicode() {
    // Uppercase E-acute in the haystack, lowercase e-acute in the needle.
    assert!(contains_fold("CAF\u{c9}", "caf\u{e9}"));
    assert!(contains_fold("caf\u{e9}", "CAF\u{c9}"));
    // The Kelvin sign lowercases to an ASCII "k".
    assert!(contains_fold("bac\u{212a}space", "backspace"));
}
