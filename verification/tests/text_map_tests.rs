use memory_rs::error::Error;
use memory_rs::text::{copy_words, join};
use memory_rs::text_map::TextMap;

#[test]
fn map_keeps_insertion_order_and_one_value_per_key() {
    let mut map: TextMap<String> = TextMap::new();
    assert_eq!(map.len(), 0);
    assert_eq!(map.insert("b".to_string(), "1".to_string()), None);
    assert_eq!(map.insert("a".to_string(), "2".to_string()), None);
    assert_eq!(map.insert("b".to_string(), "3".to_string()), Some("1".to_string()));
    assert_eq!(map.len(), 2);
    assert_eq!(map.key_at(0), "b");
    assert_eq!(map.value_at(0), "3");
    assert_eq!(map.key_at(1), "a");
    assert_eq!(map.position("a"), Some(1));
    assert_eq!(map.position("c"), None);
    assert!(map.contains_key("a"));
    assert!(!map.contains_key("A"));
    assert!(!map.contains_key("ab"));
    assert!(!map.contains_key(""));
    assert_eq!(map.get("a"), Some(&"2".to_string()));
    assert_eq!(map.get("c"), None);
}

#[test]
fn map_remove_and_clear() {
    let mut map: TextMap<String> = TextMap::default();
    map.insert("a".to_string(), "1".to_string());
    map.insert("b".to_string(), "2".to_string());
    map.insert("c".to_string(), "3".to_string());
    assert_eq!(map.remove("b"), Some("2".to_string()));
    assert_eq!(map.remove("b"), None);
    assert_eq!(map.len(), 2);
    assert_eq!(map.key_at(1), "c");
    *map.value_at_mut(1) = "9".to_string();
    assert_eq!(map.get("c"), Some(&"9".to_string()));
    let copy = map.clone();
    map.clear();
    assert_eq!(map.len(), 0);
    assert_eq!(copy.len(), 2);
    assert_eq!(copy.get("a"), Some(&"1".to_string()));
}

#[test]
fn text_helpers() {
    assert_eq!(copy_words(&vec![1, 2, 3]), vec![1, 2, 3]);
    assert_eq!(join(&vec!["a".to_string(), "b".to_string(), "c".to_string()], ", "), "a, b, c");
    assert_eq!(join(&vec!["a".to_string()], ", "), "a");
    assert_eq!(join(&Vec::new(), ", "), "");
}

#[test]
fn errors_are_made_and_described() {
    assert!(matches!(Error::config("m"), Error::ConfigError(m) if m == "m"));
    assert!(matches!(Error::vector_store("m"), Error::VectorStoreError(m) if m == "m"));
    assert!(matches!(Error::llm("m"), Error::LlmError(m) if m == "m"));
    assert!(matches!(Error::embedding("m"), Error::EmbeddingError(m) if m == "m"));
    assert!(matches!(Error::memory("m"), Error::MemoryError(m) if m == "m"));
    assert!(matches!(Error::invalid_arg("m"), Error::InvalidArgument(m) if m == "m"));
    assert!(matches!(Error::not_found("m"), Error::NotFound(m) if m == "m"));
    assert!(matches!(Error::internal("m"), Error::InternalError(m) if m == "m"));
    assert!(matches!(Error::timeout("m"), Error::Timeout(m) if m == "m"));
    assert!(matches!(Error::auth("m"), Error::AuthenticationError(m) if m == "m"));
    assert_eq!(Error::config("m").describe(), "Configuration error: m");
    assert_eq!(Error::vector_store("m").describe(), "Vector store error: m");
    assert_eq!(Error::llm("m").describe(), "LLM error: m");
    assert_eq!(Error::embedding("m").describe(), "Embedding error: m");
    assert_eq!(Error::memory("m").describe(), "Memory error: m");
    assert_eq!(Error::SerializationError("m".to_string()).describe(), "Serialization error: m");
    assert_eq!(Error::RequestError("m".to_string()).describe(), "Request error: m");
    assert_eq!(Error::QdrantError("m".to_string()).describe(), "Qdrant error: m");
    assert_eq!(Error::invalid_arg("m").describe(), "Invalid argument: m");
    assert_eq!(Error::not_found("m").describe(), "Not found: m");
    assert_eq!(Error::internal("m").describe(), "Internal error: m");
    assert_eq!(Error::timeout("m").describe(), "Timeout: m");
    assert_eq!(Error::auth("m").describe(), "Authentication error: m");
}
