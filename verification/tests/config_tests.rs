use memory_rs::config::MemoryConfig;

#[test]
fn test_config_defaults() {
    let config = MemoryConfig::new("http://localhost:6334".to_string(), "test-key".to_string());

    assert_eq!(config.get_llm_model(), "ibm/granite-4-h-small");
    assert_eq!(config.get_vector_dimension(), 384);
    assert_eq!(config.get_collection_prefix(), "mem0");
    assert!(config.is_telemetry_enabled());
    assert_eq!(config.get_batch_size(), 32);
}

#[test]
fn test_config_builder() {
    let config = MemoryConfig::new("http://localhost:6334".to_string(), "test-key".to_string())
        .with_vector_dimension(768)
        .with_collection_prefix("custom".to_string())
        .with_telemetry(false);

    assert_eq!(config.get_vector_dimension(), 768);
    assert_eq!(config.get_collection_prefix(), "custom");
    assert!(!config.is_telemetry_enabled());
}

#[test]
fn config_new_keeps_its_arguments() {
    let config = MemoryConfig::new("url".to_string(), "key".to_string());
    assert_eq!(config.vector_store_url, "url");
    assert_eq!(config.watsonx_api_key, "key");
    assert_eq!(config.watsonx_project_id, None);
    assert_eq!(config.embedding_model, None);
}

#[test]
fn config_setters_set_one_field_each() {
    let config = MemoryConfig::new("url".to_string(), "key".to_string())
        .with_project_id("p".to_string())
        .with_llm_model("m".to_string())
        .with_embedding_model("e".to_string())
        .with_batch_size(7);
    assert_eq!(config.watsonx_project_id, Some("p".to_string()));
    assert_eq!(config.get_llm_model(), "m");
    assert_eq!(config.embedding_model, Some("e".to_string()));
    assert_eq!(config.get_batch_size(), 7);
    assert_eq!(config.get_vector_dimension(), 384);
    assert_eq!(config.vector_store_url, "url");
}

#[test]
fn config_getters_fall_back_to_defaults() {
    let mut config = MemoryConfig::new("url".to_string(), "key".to_string());
    config.llm_model = None;
    config.vector_dimension = None;
    config.collection_prefix = None;
    config.enable_telemetry = None;
    config.batch_size = None;
    assert_eq!(config.get_llm_model(), "ibm/granite-4-h-small");
    assert_eq!(config.get_vector_dimension(), 384);
    assert_eq!(config.get_collection_prefix(), "mem0");
    assert!(config.is_telemetry_enabled());
    assert_eq!(config.get_batch_size(), 32);
}

#[test]
fn config_clone_is_equal_field_by_field() {
    let config = MemoryConfig::new("url".to_string(), "key".to_string()).with_batch_size(5);
    let copy = config.clone();
    assert_eq!(copy.vector_store_url, config.vector_store_url);
    assert_eq!(copy.batch_size, Some(5));
    assert_eq!(copy.llm_model, config.llm_model);
}
