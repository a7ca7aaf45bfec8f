use memory_rs::config::MemoryConfig;
use memory_rs::error::Error;
use memory_rs::memory::{Memory, MemoryItem};
use memory_rs::vector_store::{InMemoryStore, Score};

fn memory() -> Memory {
    let config = MemoryConfig::new("memory.db".to_string(), "key".to_string())
        .with_collection_prefix("memory".to_string());
    Memory::new(config, InMemoryStore::new())
}

fn score(v: f32) -> Score {
    Score::from_bits(v.to_bits())
}

#[test]
fn test_collection_name() {
    let memory = memory();

    assert_eq!(memory.get_collection_name("user_123"), "memory_user_123");
}

#[test]
fn collection_name_with_the_default_prefix() {
    let config = MemoryConfig::new("url".to_string(), "key".to_string());
    let memory = Memory::new(config, InMemoryStore::new());
    assert_eq!(memory.get_collection_name("u1"), "mem0_u1");
}

#[test]
fn add_then_get_all_holds_the_content_and_the_kind() {
    let mut memory = memory();
    let added = memory.add("u", "I like coffee", Some("preference"), vec![1, 2, 3]).unwrap();
    assert_eq!(added.user_id, "u");
    assert_eq!(added.content, "I like coffee");
    assert_eq!(added.memory_type, "preference");
    assert_eq!(added.hash, MemoryItem::compute_hash("I like coffee"));
    assert_eq!(added.created_at, added.updated_at);
    assert_eq!(added.agent_id, None);
    let all = memory.get_all("u").unwrap();
    assert_eq!(all.len(), 1);
    assert_eq!(all[0].id, added.id);
    assert_eq!(all[0].content, "I like coffee");
    assert_eq!(all[0].memory_type, "preference");
    assert_eq!(all[0].hash, "");
    assert_eq!(all[0].created_at, added.created_at);
}

#[test]
fn add_without_a_kind_is_general() {
    let mut memory = memory();
    let added = memory.add("u", "c", None, vec![]).unwrap();
    assert_eq!(added.memory_type, "general");
    assert_eq!(memory.get_all("u").unwrap()[0].memory_type, "general");
}

#[test]
fn users_have_collections_of_their_own() {
    let mut memory = memory();
    memory.add("u1", "one", None, vec![1]).unwrap();
    memory.add("u2", "two", None, vec![2]).unwrap();
    memory.add("u1", "three", None, vec![3]).unwrap();
    assert_eq!(memory.count("u1"), 2);
    assert_eq!(memory.count("u2"), 1);
    assert_eq!(memory.count("u3"), 0);
    let contents: Vec<String> = memory.get_all("u1").unwrap().into_iter().map(|m| m.content).collect();
    assert_eq!(contents, vec!["one".to_string(), "three".to_string()]);
    assert!(memory.get_all("u3").unwrap().is_empty());
    assert_eq!(memory.candidates("u1").unwrap(), vec![vec![1], vec![3]]);
    assert!(memory.candidates("u4").unwrap().is_empty());
}

#[test]
fn identifiers_are_fresh() {
    let mut memory = memory();
    let a = memory.add("u", "c", None, vec![]).unwrap();
    let b = memory.add("u", "c", None, vec![]).unwrap();
    assert_ne!(a.id, b.id);
    assert_eq!(a.id.len(), 36);
    assert_eq!(memory.count("u"), 2);
}

#[test]
fn search_ranks_and_restores_items() {
    let mut memory = memory();
    let a = memory.add("u", "far", Some("fact"), vec![1]).unwrap();
    let b = memory.add("u", "near", Some("fact"), vec![2]).unwrap();
    let c = memory.add("u", "nearest", Some("fact"), vec![3]).unwrap();
    let found = memory.search("u", &vec![score(0.1), score(0.6), score(0.9)], 2).unwrap();
    assert_eq!(found.len(), 2);
    assert_eq!(found[0].memory.id, c.id);
    assert_eq!(found[0].memory.content, "nearest");
    assert_eq!(found[0].memory.hash, "");
    assert_eq!(found[0].score, score(0.9));
    assert_eq!(found[1].memory.id, b.id);
    let found = memory.search("u", &vec![score(-0.5), score(0.6), score(0.9)], 5).unwrap();
    assert_eq!(found.len(), 3);
    assert_eq!(found[2].memory.id, a.id);
}

#[test]
fn search_of_a_new_user_finds_nothing() {
    let mut memory = memory();
    assert!(memory.search("nobody", &Vec::new(), 5).unwrap().is_empty());
    assert!(matches!(
        memory.search("nobody", &vec![score(1.0)], 5),
        Err(Error::InvalidArgument(_))
    ));
}

#[test]
fn update_changes_content_hash_and_time() {
    let mut memory = memory();
    let added = memory.add("u", "old", Some("fact"), vec![1]).unwrap();
    let other = memory.add("u", "other", None, vec![2]).unwrap();
    let updated = memory
        .update_at(&added.id, "new", vec![9], "2030-01-01T00:00:00+00:00".to_string())
        .unwrap();
    assert_eq!(updated.id, added.id);
    assert_eq!(updated.user_id, "u");
    assert_eq!(updated.content, "new");
    assert_eq!(updated.memory_type, "fact");
    assert_eq!(updated.hash, MemoryItem::compute_hash("new"));
    assert_eq!(updated.created_at, added.created_at);
    assert_eq!(updated.updated_at, "2030-01-01T00:00:00+00:00");
    let all = memory.get_all("u").unwrap();
    assert_eq!(all.len(), 2);
    assert_eq!(all[0].content, "new");
    assert_eq!(all[0].updated_at, "2030-01-01T00:00:00+00:00");
    assert_eq!(all[1].id, other.id);
    assert_eq!(all[1].content, "other");
    assert_eq!(memory.candidates("u").unwrap(), vec![vec![9], vec![2]]);
}

#[test]
fn update_now_keeps_the_time_of_creation() {
    let mut memory = memory();
    let added = memory.add("u", "old", None, vec![1]).unwrap();
    let updated = memory.update(&added.id, "new", vec![2]).unwrap();
    assert_eq!(updated.created_at, added.created_at);
    assert!(updated.updated_at >= updated.created_at);
    assert_eq!(updated.content, "new");
}

#[test]
fn update_of_an_unknown_identifier_is_not_found() {
    let mut memory = memory();
    memory.add("u", "c", None, vec![1]).unwrap();
    match memory.update("nope", "new", vec![]) {
        Err(Error::NotFound(message)) => assert_eq!(message, "Memory not found: nope"),
        _ => panic!("an unknown identifier must be reported"),
    }
    assert_eq!(memory.get_all("u").unwrap()[0].content, "c");
}

#[test]
fn delete_removes_the_memory_and_only_it() {
    let mut memory = memory();
    let a = memory.add("u", "a", None, vec![1]).unwrap();
    let b = memory.add("u", "b", None, vec![2]).unwrap();
    memory.delete(&a.id).unwrap();
    let all = memory.get_all("u").unwrap();
    assert_eq!(all.len(), 1);
    assert_eq!(all[0].id, b.id);
    assert!(matches!(memory.delete(&a.id), Err(Error::NotFound(_))));
    assert!(matches!(memory.update(&a.id, "x", vec![]), Err(Error::NotFound(_))));
    assert!(memory.update(&b.id, "x", vec![]).is_ok());
}

#[test]
fn delete_of_an_unknown_identifier_is_not_found() {
    let mut memory = memory();
    match memory.delete("nope") {
        Err(Error::NotFound(message)) => assert_eq!(message, "Memory not found: nope"),
        _ => panic!("an unknown identifier must be reported"),
    }
}

#[test]
fn ensure_collection_makes_the_collection_once() {
    let mut memory = memory();
    memory.ensure_collection("u").unwrap();
    memory.add("u", "c", None, vec![1]).unwrap();
    memory.ensure_collection("u").unwrap();
    assert_eq!(memory.count("u"), 1);
}

#[test]
fn items_are_built_from_their_parts() {
    let item = MemoryItem::from_parts(
        "id".to_string(),
        "now".to_string(),
        "u".to_string(),
        "hello".to_string(),
        "fact".to_string(),
    )
    .with_agent_id("agent".to_string())
    .with_run_id("run".to_string())
    .with_metadata("k".to_string(), "v".to_string());
    assert_eq!(item.id, "id");
    assert_eq!(item.created_at, "now");
    assert_eq!(item.updated_at, "now");
    assert_eq!(item.hash, "2cf24dba5fb0a30e26e83b2ac5b9e29e1b161e5c1fa7425e73043362938b9824");
    assert_eq!(item.agent_id, Some("agent".to_string()));
    assert_eq!(item.run_id, Some("run".to_string()));
    assert_eq!(item.metadata.get("k"), Some(&"v".to_string()));
    let kept = item.to_vector_metadata();
    assert_eq!(kept.id, "id");
    assert_eq!(kept.text, "hello");
    assert_eq!(kept.memory_type, "fact");
    assert_eq!(kept.agent_id, Some("agent".to_string()));
    assert_eq!(kept.custom_metadata.get("k"), Some(&"v".to_string()));
    let back = MemoryItem::from_vector_metadata(kept);
    assert_eq!(back.content, "hello");
    assert_eq!(back.hash, "");
    assert_eq!(back.run_id, Some("run".to_string()));
    assert_eq!(back.metadata.get("k"), Some(&"v".to_string()));
}

#[test]
fn add_item_stores_the_item_as_given() {
    let mut memory = memory();
    let item = MemoryItem::from_parts(
        "fixed".to_string(),
        "t0".to_string(),
        "u".to_string(),
        "c".to_string(),
        "fact".to_string(),
    );
    let stored = memory.add_item(item, vec![7]).unwrap();
    assert_eq!(stored.id, "fixed");
    assert_eq!(memory.get_all("u").unwrap()[0].id, "fixed");
    assert!(memory.delete("fixed").is_ok());
    assert_eq!(memory.count("u"), 0);
}

#[test]
fn a_new_item_has_an_identifier_and_a_time() {
    let item = MemoryItem::new("u".to_string(), "c".to_string(), "fact".to_string());
    assert_eq!(item.id.len(), 36);
    assert!(item.created_at.ends_with("+00:00"));
    assert_eq!(item.created_at, item.updated_at);
    assert_eq!(item.hash.len(), 64);
    assert_eq!(item.metadata.len(), 0);
}
