use memory_rs::embeddings::default::DefaultEmbedder;
use memory_rs::llm::openai::{ChatMessage, ChatResponse, Choice, OpenAILLM};
use memory_rs::llm::watsonx::WatsonxLLM;

#[test]
fn test_openai_creation() {
    let llm = OpenAILLM::new("test-key".to_string());
    assert_eq!(llm.get_model(), "gpt-4");
}

#[test]
fn test_openai_with_model() {
    let llm = OpenAILLM::with_model("test-key".to_string(), "gpt-3.5-turbo".to_string());
    assert_eq!(llm.get_model(), "gpt-3.5-turbo");
}

#[test]
fn test_openai_set_model() {
    let mut llm = OpenAILLM::new("test-key".to_string());
    llm.set_model("gpt-3.5-turbo".to_string());
    assert_eq!(llm.get_model(), "gpt-3.5-turbo");
}

#[test]
fn test_watsonx_creation() {
    let llm = WatsonxLLM::with_defaults("test-key".to_string(), "test-project".to_string());

    assert_eq!(llm.model_name(), "ibm/granite-4-h-small");
}

#[test]
fn test_embedder_creation() {
    let embedder =
        DefaultEmbedder::with_defaults("test-key".to_string(), "test-project".to_string());

    assert_eq!(embedder.dimension(), 384);
}

#[test]
fn openai_settings_and_shaping() {
    let llm = OpenAILLM::with_endpoint("k".to_string(), "m".to_string(), "http://e".to_string());
    assert_eq!(llm.api_key(), "k");
    assert_eq!(llm.model_name(), "m");
    assert_eq!(llm.authorization(), "Bearer k");
    assert_eq!(llm.completions_url(), "http://e/chat/completions");
    assert_eq!(llm.models_url(), "http://e/models");
    assert_eq!(
        OpenAILLM::new("k".to_string()).completions_url(),
        "https://api.openai.com/v1/chat/completions"
    );
    let messages = OpenAILLM::request_messages("hi");
    assert_eq!(messages.len(), 2);
    assert_eq!(messages[0].role, "system");
    assert_eq!(messages[0].content, "You are a helpful assistant.");
    assert_eq!(messages[1].role, "user");
    assert_eq!(messages[1].content, "hi");
    let response = ChatResponse {
        choices: vec![
            Choice {
                message: ChatMessage { role: "assistant".to_string(), content: "a".to_string() },
                finish_reason: "stop".to_string(),
            },
            Choice {
                message: ChatMessage { role: "assistant".to_string(), content: "b".to_string() },
                finish_reason: "stop".to_string(),
            },
        ],
        usage: None,
    };
    assert_eq!(OpenAILLM::reply_text(&response), "a");
    assert_eq!(OpenAILLM::reply_text(&ChatResponse { choices: vec![], usage: None }), "");
}

#[test]
fn watsonx_and_embedder_settings() {
    let llm = WatsonxLLM::new("k".to_string(), "p".to_string(), "m".to_string());
    assert_eq!(llm.model_name(), "m");
    assert_eq!(llm.project_id(), "p");
    assert_eq!(llm.authorization(), "Bearer k");
    assert_eq!(WatsonxLLM::url(), "https://api.watsonx.ai/v1/text/generation");
    let embedder = DefaultEmbedder::new("k".to_string(), "p".to_string(), "m".to_string(), 12);
    assert_eq!(embedder.dimension(), 12);
    assert_eq!(embedder.model_id(), "m");
    assert_eq!(embedder.project_id(), "p");
    assert_eq!(embedder.authorization(), "Bearer k");
    assert_eq!(DefaultEmbedder::url(), "https://api.watsonx.ai/v1/embeddings");
    let default = DefaultEmbedder::with_defaults("k".to_string(), "p".to_string());
    assert_eq!(default.model_id(), "sentence-transformers/all-minilm-l6-v2");
}
