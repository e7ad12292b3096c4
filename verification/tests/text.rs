use hlmv::text::{i32_to_decimal, replace_all, same_text, starts_with};

#[test]
fn replace_all_replaces_every_occurrence() {
    assert_eq!(replace_all("a{{X}}b{{X}}", "{{X}}", "1").as_str(), "a1b1");
}

#[test]
fn replace_all_does_not_overlap() {
    assert_eq!(replace_all("aaaa", "aa", "b").as_str(), "bb");
    assert_eq!(replace_all("aaa", "aa", "b").as_str(), "ba");
}

#[test]
fn replace_all_without_occurrence_keeps_text() {
    assert_eq!(replace_all("no marks here", "{{PATH}}", "x").as_str(), "no marks here");
}

#[test]
fn replace_all_agrees_with_std() {
    let cases = [("{{A}}{{A}}", "{{A}}", "{{A}}x"), ("ёж{{B}}ёж", "{{B}}", "💡"), ("", "x", "y")];
    for (s, p, r) in cases {
        assert_eq!(replace_all(s, p, r), s.replace(p, r));
    }
}

#[test]
fn decimal_text_of_integers() {
    assert_eq!(i32_to_decimal(0).as_str(), "0");
    assert_eq!(i32_to_decimal(42).as_str(), "42");
    assert_eq!(i32_to_decimal(-7).as_str(), "-7");
    assert_eq!(i32_to_decimal(i32::MAX), i32::MAX.to_string());
    assert_eq!(i32_to_decimal(i32::MIN), i32::MIN.to_string());
}

#[test]
fn decimal_texts_are_distinct() {
    let a = i32_to_decimal(12);
    let b = i32_to_decimal(-12);
    let c = i32_to_decimal(120);
    assert_ne!(a, b);
    assert_ne!(a, c);
}

#[test]
fn text_comparisons() {
    assert!(same_text("abc", "abc"));
    assert!(!same_text("abc", "abd"));
    assert!(!same_text("ab", "abc"));
    assert!(starts_with("ru_RU.UTF-8", "ru"));
    assert!(!starts_with("r", "ru"));
    assert!(!starts_with("en_US", "ru"));
}
