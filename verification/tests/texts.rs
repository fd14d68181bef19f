//! Text handling.

use sysproxy::text::{
    bracket, contains, decimal_text, is_white_space, join, quote_list, same_text, split, trim,
};

fn strings(items: Vec<&str>) -> Vec<String> {
    items.into_iter().map(|s| s.to_string()).collect()
}

#[test]
fn splitting_agrees_with_the_standard_library() {
    for text in ["", ",", "a", "a,b", ",a,,b,", "\u{e4},\u{6f22}\u{5b57}"] {
        let expected: Vec<String> = text.split(',').map(|s| s.to_string()).collect();
        assert_eq!(split(text, ','), expected);
        assert_eq!(join(&split(text, ','), ","), text);
    }
}

#[test]
fn joining_agrees_with_the_standard_library() {
    for parts in [vec![], vec![""], vec!["a"], vec!["a", "", "b"], vec!["", ""]] {
        let parts = strings(parts);
        assert_eq!(join(&parts, ", "), parts.join(", "));
    }
    assert_eq!(split(&join(&strings(vec!["a", "b"]), ","), ','), strings(vec!["a", "b"]));
}

#[test]
fn white_space_agrees_with_the_standard_library() {
    for c in '\0'..=char::MAX {
        assert_eq!(is_white_space(c), c.is_whitespace(), "{c:?}");
    }
}

#[test]
fn trimming_agrees_with_the_standard_library() {
    for text in ["", " ", "\n a b \t", "a", "\u{a0}\u{3000}x\u{2028}", "x\u{200b}"] {
        assert_eq!(trim(text), text.trim());
    }
}

#[test]
fn searching_agrees_with_the_standard_library() {
    for text in ["", "a", "aab", "abab", "b\u{e4}b"] {
        for needle in ["", "a", "ab", "aab", "bab", "\u{e4}b", "aaba"] {
            assert_eq!(contains(text, needle), text.contains(needle), "{text} {needle}");
        }
    }
}

#[test]
fn decimal_forms_agree_with_the_standard_library() {
    for n in 0..=u16::MAX {
        assert_eq!(decimal_text(n), n.to_string());
    }
}

#[test]
fn equal_texts_are_the_same() {
    assert!(same_text("", ""));
    assert!(same_text("a\u{e4}", "a\u{e4}"));
    assert!(!same_text("a", "ab"));
    assert!(!same_text("ab", "ac"));
}

#[test]
fn quoted_lists_agree_with_the_standard_library() {
    for items in [vec![], vec!["Wi-Fi"], vec!["a\"b", "c\\d", "\n\u{7f}\u{e4}", ""]] {
        assert_eq!(quote_list(&items), format!("{items:?}"));
    }
    assert_eq!(bracket(&strings(vec!["x", "y"])), "[x, y]");
}
