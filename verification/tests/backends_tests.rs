use memory_rs::vector_store::backends::{BackendConfig, BackendType};

#[test]
fn test_backend_type_names() {
    assert_eq!(BackendType::Qdrant.name(), "qdrant");
    assert_eq!(BackendType::Milvus.name(), "milvus");
    assert_eq!(BackendType::PostgreSQL.name(), "postgresql");
}

#[test]
fn test_backend_config() {
    let config = BackendConfig::new(BackendType::Qdrant, "http://localhost:6334".to_string())
        .with_api_key("test-key".to_string())
        .with_config("dimension".to_string(), "384".to_string());

    assert_eq!(config.backend_type, BackendType::Qdrant);
    assert_eq!(config.api_key, Some("test-key".to_string()));
    assert_eq!(config.get_config("dimension"), Some("384"));
}

#[test]
fn test_backend_descriptions() {
    assert!(!BackendType::Qdrant.description().is_empty());
    assert!(!BackendType::Milvus.description().is_empty());
    assert!(!BackendType::PostgreSQL.description().is_empty());
}

#[test]
fn backend_descriptions_are_exact() {
    assert_eq!(BackendType::Qdrant.description(), "Open-source vector database");
    assert_eq!(BackendType::Milvus.description(), "Open-source vector database");
    assert_eq!(BackendType::PostgreSQL.description(), "PostgreSQL with pgvector extension");
}

#[test]
fn backend_config_missing_and_overwritten_settings() {
    let config = BackendConfig::new(BackendType::Milvus, "e".to_string())
        .with_config("a".to_string(), "1".to_string())
        .with_config("a".to_string(), "2".to_string());
    assert_eq!(config.endpoint, "e");
    assert_eq!(config.api_key, None);
    assert_eq!(config.get_config("a"), Some("2"));
    assert_eq!(config.get_config("b"), None);
}
