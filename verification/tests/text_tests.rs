use canvas_app::gallery_order::{name_le_exec, natural_le_exec, sort_names};
use canvas_app::text::trim;

#[test]
fn trim_removes_unicode_white_space_at_both_ends_only() {
    assert_eq!(trim("  a b \n"), "a b");
    assert_eq!(trim("   "), "");
    assert_eq!(trim(""), "");
    assert_eq!(trim("\u{3000}x\u{85}"), "x");
    assert_eq!(trim("\u{a0}\t name\u{2029}"), "name");
    assert_eq!(trim("x"), "x");
    assert_eq!(trim("\u{200b}x"), "\u{200b}x", "a zero-width space is not white space");
}

#[test]
fn names_compare_character_by_character() {
    assert!(name_le_exec("a", "b"));
    assert!(!name_le_exec("b", "a"));
    assert!(name_le_exec("a", "ab"));
    assert!(!name_le_exec("ab", "a"));
    assert!(name_le_exec("", "a"));
    assert!(name_le_exec("same", "same"));
    assert!(name_le_exec("B", "a"));
    assert!(name_le_exec("img10", "img2"));
}

#[test]
fn natural_order_reads_digit_runs_as_numbers() {
    assert!(natural_le_exec("img2", "img10"));
    assert!(!natural_le_exec("img10", "img2"));
    assert!(natural_le_exec("a01", "a1") && natural_le_exec("a1", "a01"));
    assert!(natural_le_exec("a1b", "a01c"));
    assert!(natural_le_exec("a", "a1"));
    assert!(natural_le_exec("9", "a"));
    assert!(!natural_le_exec("a", "9"));
    assert!(natural_le_exec("x 2 y 3", "x 2 y 12"));
    assert!(natural_le_exec("", ""));
    assert!(natural_le_exec("007", "8"));
}

#[test]
fn folder_names_are_put_in_natural_order() {
    let names = vec!["b10".to_string(), "b2".to_string(), "a".to_string(), "B".to_string()];
    assert_eq!(sort_names(names), vec!["B", "a", "b2", "b10"]);
    assert!(sort_names(Vec::new()).is_empty());
}
