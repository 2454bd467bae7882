use lancedb::embeddings::EmbeddingsRegistry;
use lancedb::error::Error;
use lancedb::text::{
    clone_string_pairs, clone_strings, clone_text, decimal, same_text, signed_decimal,
};

#[test]
fn errors_have_messages() {
    let text = |e: Error| e.message();
    assert_eq!(text(Error::TableNotFound { name: "t".to_string() }), "Table 't' was not found");
    assert_eq!(text(Error::TableAlreadyExists { name: "t".to_string() }), "Table 't' already exists");
    assert_eq!(text(Error::InvalidTableName { name: "/".to_string() }), "Invalid table name: /");
    assert_eq!(text(Error::InvalidInput { message: "m".to_string() }), "Invalid input, m");
    assert_eq!(text(Error::Schema { message: "m".to_string() }), "Schema error: m");
    assert_eq!(text(Error::Store { message: "m".to_string() }), "m");
    assert_eq!(text(Error::IndexAlreadyExists), "Index already exists");
    assert_eq!(text(Error::Lance { message: "io".to_string() }), "io");
}

#[test]
fn numbers_are_written_in_decimal() {
    assert_eq!(decimal(0), "0");
    assert_eq!(decimal(7), "7");
    assert_eq!(decimal(10), "10");
    assert_eq!(decimal(128), "128");
    assert_eq!(decimal(1_000_000), "1000000");
    assert_eq!(decimal(usize::MAX), usize::MAX.to_string());
    assert_eq!(signed_decimal(0), "0");
    assert_eq!(signed_decimal(16), "16");
    assert_eq!(signed_decimal(-16), "-16");
    assert_eq!(signed_decimal(i32::MAX), i32::MAX.to_string());
    assert_eq!(signed_decimal(i32::MIN), i32::MIN.to_string());
}

#[test]
fn texts_compare_and_copy() {
    assert!(same_text("abc", "abc"));
    assert!(!same_text("abc", "abd"));
    assert!(!same_text("abc", "ab"));
    assert!(same_text("", ""));
    let names = vec!["a".to_string(), "b".to_string()];
    assert_eq!(clone_strings(&names), names);
    let pairs = vec![("a".to_string(), "1".to_string())];
    assert_eq!(clone_string_pairs(&pairs), pairs);
    assert_eq!(clone_text(&Some("x".to_string())), Some("x".to_string()));
    assert_eq!(clone_text(&None), None);
}

#[test]
fn a_registry_maps_names_to_functions() {
    let mut registry: EmbeddingsRegistry<u32> = EmbeddingsRegistry::new();
    assert_eq!(registry.get("openai"), None);
    registry.register("openai", 1);
    registry.register("local", 2);
    assert_eq!(registry.get("openai"), Some(&1));
    assert_eq!(registry.get("local"), Some(&2));
    assert_eq!(registry.get("Local"), None);
}

#[test]
fn registering_again_replaces_silently() {
    let mut registry: EmbeddingsRegistry<&str> = EmbeddingsRegistry::new();
    registry.register("f", "first");
    registry.register("g", "other");
    registry.register("f", "second");
    assert_eq!(registry.get("f"), Some(&"second"));
    assert_eq!(registry.get("g"), Some(&"other"));
}

