//! Reading the memory document that the server returns.

use mewcode_client::memory::{active_profile, memory_content, str_field_of};
use mewcode_client::protocol::JsonValue;

fn doc(fields: Vec<(&str, JsonValue)>) -> JsonValue {
    JsonValue::Object(fields.into_iter().map(|(k, v)| (k.to_string(), v)).collect())
}

#[test]
fn memory_content_reads_the_content_string() {
    let body = doc(vec![
        ("profile", JsonValue::String("work".to_string())),
        ("content", JsonValue::String("remember the milk".to_string())),
    ]);
    assert_eq!(memory_content(&body), "remember the milk");
    assert_eq!(active_profile(&body), "work");
}

#[test]
fn memory_content_is_empty_without_a_string() {
    assert_eq!(memory_content(&doc(vec![])), "");
    assert_eq!(memory_content(&doc(vec![("content", JsonValue::Number("3".to_string()))])), "");
    assert_eq!(memory_content(&JsonValue::Null), "");
    assert_eq!(memory_content(&JsonValue::String("content".to_string())), "");
}

#[test]
fn active_profile_defaults_to_default() {
    assert_eq!(active_profile(&doc(vec![])), "default");
    assert_eq!(active_profile(&doc(vec![("profile", JsonValue::Bool(true))])), "default");
    assert_eq!(active_profile(&JsonValue::Array(vec![])), "default");
}

#[test]
fn a_later_duplicate_field_wins() {
    let body = doc(vec![
        ("content", JsonValue::String("old".to_string())),
        ("content", JsonValue::String("new".to_string())),
    ]);
    assert_eq!(str_field_of(&body, "content"), Some("new".to_string()));
    assert_eq!(str_field_of(&body, "missing"), None);
}
