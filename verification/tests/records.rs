use chat_core::db::{parse_thing, parse_thing_to_record, Thing};
use chat_core::error::AppError;
use chat_core::text::{escape, join, skip_chars, starts_with, text_before, text_eq};

#[test]
fn record_text_splits_at_the_first_colon() {
    let (table, key) = parse_thing_to_record("users:abc").unwrap();
    assert_eq!(table, "users");
    assert_eq!(key, "abc");
    let (table, key) = parse_thing_to_record("a:b:c").unwrap();
    assert_eq!(table, "a");
    assert_eq!(key, "b:c");
}

#[test]
fn record_text_may_have_empty_parts() {
    let (table, key) = parse_thing_to_record(":").unwrap();
    assert_eq!(table, "");
    assert_eq!(key, "");
    let (table, key) = parse_thing_to_record("users:").unwrap();
    assert_eq!(table, "users");
    assert_eq!(key, "");
}

#[test]
fn record_text_without_colon_is_refused() {
    assert_eq!(parse_thing_to_record("users").unwrap_err(), AppError::InvalidId);
    assert_eq!(parse_thing_to_record("").unwrap_err(), AppError::InvalidId);
    assert_eq!(parse_thing("nocolon").unwrap_err(), AppError::InvalidId);
}

#[test]
fn record_text_with_wide_characters() {
    let (table, key) = parse_thing_to_record("usér:ké:y").unwrap();
    assert_eq!(table, "usér");
    assert_eq!(key, "ké:y");
}

#[test]
fn parse_thing_gives_table_and_key() {
    let thing = parse_thing("message:42").unwrap();
    assert_eq!(thing.table, "message");
    assert_eq!(thing.key, "42");
}

#[test]
fn thing_is_written_as_table_and_key() {
    let thing = Thing { table: "users".to_string(), key: "tobie".to_string() };
    assert_eq!(thing.to_sql(), "users:tobie");
}

#[test]
fn thing_with_special_characters_is_quoted() {
    let thing = Thing { table: "users".to_string(), key: "needs escaping".to_string() };
    assert_eq!(thing.to_sql(), "users:`needs escaping`");
}

#[test]
fn same_compares_table_and_key() {
    let a = Thing { table: "users".to_string(), key: "a".to_string() };
    let b = Thing { table: "users".to_string(), key: "b".to_string() };
    let c = Thing { table: "people".to_string(), key: "a".to_string() };
    assert!(a.same(&a.duplicate()));
    assert!(!a.same(&b));
    assert!(!a.same(&c));
}

#[test]
fn texts_are_ordered_like_a_dictionary() {
    assert!(text_before("", ""));
    assert!(text_before("", "a"));
    assert!(!text_before("a", ""));
    assert!(text_before("a", "b"));
    assert!(!text_before("b", "a"));
    assert!(text_before("ab", "abc"));
    assert!(!text_before("abc", "ab"));
    assert!(text_before("abc", "abc"));
    assert!(text_before("Z", "a"));
    assert!(text_before("z", "é"));
}

#[test]
fn thing_has_its_identifier_as_text() {
    let thing = Thing { table: "users".to_string(), key: "needs escaping".to_string() };
    assert_eq!(thing.text(), "users:needs escaping");
    let back = parse_thing(&thing.text()).unwrap();
    assert!(back.same(&thing));
}

#[test]
fn escape_writes_underscores_and_tildes_apart() {
    assert_eq!(escape(""), "");
    assert_eq!(escape("abc"), "abc");
    assert_eq!(escape("a_b"), "a~ub");
    assert_eq!(escape("a~b"), "a~~b");
    assert_eq!(escape("_~_"), "~u~~~u");
    assert_eq!(escape("é_✓"), "é~u✓");
}

#[test]
fn join_keeps_both_parts_apart() {
    assert_eq!(join("a", "b"), "a_b");
    assert_eq!(join("a_", "b"), "a~u_b");
    assert_eq!(join("a", "_b"), "a__b");
    assert_eq!(join("", ""), "_");
    assert_ne!(join("a_", "b"), join("a", "_b"));
    assert_ne!(join("a~u", "b"), join("a_", "b"));
}

#[test]
fn text_helpers_compare_and_cut() {
    assert!(text_eq("abc", "abc"));
    assert!(!text_eq("abc", "abd"));
    assert!(starts_with("Bearer x", "Bearer "));
    assert!(!starts_with("Bear", "Bearer "));
    assert!(starts_with("x", ""));
    assert_eq!(skip_chars("héllo", 2), "llo");
    assert_eq!(skip_chars("abc", 3), "");
}
