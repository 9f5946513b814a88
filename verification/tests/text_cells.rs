use framework_plan::escape::{escape_meta_characters, truncate_string};
use framework_plan::show_string::show_footer;

#[test]
fn escape_rewrites_each_control_character() {
    assert_eq!(escape_meta_characters("a\nb"), "a\\\\nb");
    assert_eq!(
        escape_meta_characters("\n\r\t\x07\x08\x0b\x0c"),
        "\\\\n\\\\r\\\\t\\\\a\\\\b\\\\v\\\\f"
    );
}

#[test]
fn escape_keeps_plain_text() {
    assert_eq!(escape_meta_characters("plain text, ok"), "plain text, ok");
    assert_eq!(escape_meta_characters(""), "");
    assert_eq!(escape_meta_characters("back\\slash"), "back\\slash");
}

#[test]
fn escape_is_idempotent() {
    let once = escape_meta_characters("x\ty\r\nz");
    assert_eq!(escape_meta_characters(&once), once);
}

#[test]
fn truncate_without_limit_or_when_short() {
    assert_eq!(truncate_string("hello world", 0), "hello world");
    assert_eq!(truncate_string("hello", 5), "hello");
    assert_eq!(truncate_string("hello", 20), "hello");
}

#[test]
fn truncate_small_limit_cuts_without_dots() {
    assert_eq!(truncate_string("hello world", 1), "h");
    assert_eq!(truncate_string("hello world", 3), "hel");
}

#[test]
fn truncate_adds_dots() {
    assert_eq!(truncate_string("hello world", 4), "h...");
    assert_eq!(truncate_string("hello world", 5), "he...");
}

#[test]
fn truncate_counts_bytes_but_cuts_characters() {
    // "ééé" takes six bytes: over a limit of five, so two characters stay.
    assert_eq!(truncate_string("ééé", 5), "éé...");
    // Two characters of four bytes each, fewer than the three that would be kept.
    assert_eq!(truncate_string("𝄞𝄞", 6), "𝄞𝄞...");
    assert_eq!(truncate_string("éé", 3), "éé");
    assert_eq!(truncate_string("éé", 4), "éé");
}

#[test]
fn truncated_text_has_at_most_limit_characters() {
    for n in 1..12 {
        let t = truncate_string("a quite long piece of text", n);
        assert!(t.chars().count() <= n);
    }
}

#[test]
fn footer_for_one_and_many_rows() {
    assert_eq!(show_footer(1, true), "only showing top 1 row\n");
    assert_eq!(show_footer(20, true), "only showing top 20 rows\n");
    assert_eq!(show_footer(0, true), "only showing top 0 rows\n");
    assert_eq!(show_footer(20, false), "");
    assert_eq!(show_footer(1, false), "");
}
