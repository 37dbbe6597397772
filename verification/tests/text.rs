use bookmarks::text::{chars_of, contains, text_le};

#[test]
fn chars_of_keeps_every_character_in_order() {
    assert_eq!(chars_of("a\u{e9}z"), vec!['a', '\u{e9}', 'z']);
    assert_eq!(chars_of(""), Vec::<char>::new());
}

#[test]
fn contains_finds_a_text_at_the_start_in_the_middle_and_at_the_end() {
    assert!(contains("a demo page", "a d"));
    assert!(contains("a demo page", "demo"));
    assert!(contains("a demo page", "page"));
    assert!(contains("demo", "demo"));
}

#[test]
fn contains_rejects_what_is_not_there() {
    assert!(!contains("a demo page", "demos"));
    assert!(!contains("dem", "demo"));
    assert!(!contains("", "d"));
    assert!(!contains("d e m o", "demo"));
}

#[test]
fn contains_finds_the_empty_text_everywhere() {
    assert!(contains("demo", ""));
    assert!(contains("", ""));
}

#[test]
fn contains_tells_upper_from_lower_case() {
    assert!(contains("A Demo page", "Demo"));
    assert!(!contains("A Demo page", "demo"));
    assert!(!contains("a demo page", "Demo"));
}

#[test]
fn contains_finds_a_late_match_after_a_partial_one() {
    assert!(contains("aaab", "aab"));
    assert!(contains("abababc", "ababc"));
}

#[test]
fn contains_counts_characters_not_bytes() {
    assert!(contains("caf\u{e9} demo", "\u{e9} d"));
    assert!(!contains("caf\u{e9}", "e"));
}

#[test]
fn text_le_orders_by_the_first_difference() {
    assert!(text_le("0020aa", "0020ab"));
    assert!(!text_le("0020ab", "0020aa"));
    assert!(text_le("a", "b"));
    assert!(!text_le("b", "a"));
}

#[test]
fn text_le_puts_a_prefix_first() {
    assert!(text_le("", "a"));
    assert!(!text_le("a", ""));
    assert!(text_le("abc", "abcd"));
    assert!(!text_le("abcd", "abc"));
}

#[test]
fn text_le_holds_of_equal_texts() {
    assert!(text_le("", ""));
    assert!(text_le("demo", "demo"));
}

#[test]
fn text_le_puts_upper_case_before_lower_case() {
    assert!(text_le("Z", "a"));
    assert!(!text_le("a", "Z"));
}

#[test]
fn text_le_agrees_with_the_order_of_strings() {
    let words = ["", "a", "ab", "b", "B", "0020", "\u{e9}", "z\u{e9}", "zz"];
    for a in words {
        for b in words {
            assert_eq!(text_le(a, b), a <= b, "{a:?} and {b:?}");
        }
    }
}
