use lune_fonts::text::str_eq;

#[test]
fn str_eq_is_exact() {
    assert!(str_eq("", ""));
    assert!(str_eq("Arial", "Arial"));
    assert!(!str_eq("Arial", "arial"));
    assert!(!str_eq("Arial", "Aria"));
    assert!(!str_eq("Aria", "Arial"));
    assert!(!str_eq("", "a"));
    assert!(str_eq("h\u{e9}llo \u{1f600}", "h\u{e9}llo \u{1f600}"));
    assert!(!str_eq("h\u{e9}llo", "hello"));
    assert!(!str_eq("\u{e9}", "e\u{301}"));
}
