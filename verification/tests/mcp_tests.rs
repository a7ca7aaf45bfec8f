use memory_rs::mcp::{
    deleted_message, instructions, responses_of, search_limit, search_responses_of,
    MemoryResponse, SearchMemoryInput, SearchResponse,
};
use memory_rs::memory::{MemoryItem, SearchResultItem};
use memory_rs::stats::type_counts;
use memory_rs::vector_store::Score;

fn item(id: &str, kind: &str) -> MemoryItem {
    MemoryItem::from_parts(
        id.to_string(),
        "now".to_string(),
        "u".to_string(),
        "c".to_string(),
        kind.to_string(),
    )
}

#[test]
fn responses_carry_six_fields() {
    let response = MemoryResponse::from(item("i", "fact"));
    assert_eq!(response.id, "i");
    assert_eq!(response.user_id, "u");
    assert_eq!(response.content, "c");
    assert_eq!(response.memory_type, "fact");
    assert_eq!(response.created_at, "now");
    assert_eq!(response.updated_at, "now");
    let response: MemoryResponse = item("j", "fact").into();
    assert_eq!(response.id, "j");
}

#[test]
fn search_responses_carry_the_score() {
    let response =
        SearchResponse::from(SearchResultItem { memory: item("i", "fact"), score: Score::one() });
    assert_eq!(response.memory.id, "i");
    assert_eq!(response.score, Score::one());
    let all = search_responses_of(vec![
        SearchResultItem { memory: item("a", "fact"), score: Score::one() },
        SearchResultItem { memory: item("b", "fact"), score: Score::zero() },
    ]);
    assert_eq!(all.len(), 2);
    assert_eq!(all[0].memory.id, "a");
    assert_eq!(all[1].memory.id, "b");
    assert_eq!(all[1].score, Score::zero());
}

#[test]
fn lists_of_responses_keep_their_order() {
    let all = responses_of(vec![item("a", "x"), item("b", "y"), item("c", "z")]);
    let ids: Vec<&str> = all.iter().map(|r| r.id.as_str()).collect();
    assert_eq!(ids, vec!["a", "b", "c"]);
    assert!(responses_of(Vec::new()).is_empty());
}

#[test]
fn tool_defaults_and_messages() {
    let asked =
        SearchMemoryInput { user_id: "u".to_string(), query: "q".to_string(), limit: Some(2) };
    assert_eq!(search_limit(&asked), 2);
    let unasked = SearchMemoryInput { user_id: "u".to_string(), query: "q".to_string(), limit: None };
    assert_eq!(search_limit(&unasked), 5);
    assert_eq!(deleted_message("m1"), "Memory m1 deleted successfully");
    assert!(instructions().starts_with("Memory MCP Server - Long-term memory for AI Agents. Use"));
    assert!(instructions().ends_with("semantic embeddings for intelligent retrieval."));
}

#[test]
fn memories_are_counted_by_kind() {
    let memories = vec![item("a", "fact"), item("b", "goal"), item("c", "fact"), item("d", "fact")];
    let counts = type_counts(&memories);
    assert_eq!(counts.len(), 2);
    assert_eq!(counts.key_at(0), "fact");
    assert_eq!(counts.get("fact"), Some(&3));
    assert_eq!(counts.get("goal"), Some(&1));
    assert_eq!(counts.get("other"), None);
    assert_eq!(type_counts(&Vec::new()).len(), 0);
}
