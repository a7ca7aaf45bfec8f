use memory_rs::error::Error;
use memory_rs::text_map::TextMap;
use memory_rs::vector_store::{InMemoryStore, Score, VectorMetadata};

fn bits(v: &[f32]) -> Vec<u32> {
    v.iter().map(|x| x.to_bits()).collect()
}

fn cosine(a: &[f32], b: &[f32]) -> f32 {
    if a.is_empty() || b.is_empty() || a.len() != b.len() {
        return 0.0;
    }
    let dot: f32 = a.iter().zip(b.iter()).map(|(x, y)| x * y).sum();
    let na: f32 = a.iter().map(|x| x * x).sum::<f32>().sqrt();
    let nb: f32 = b.iter().map(|x| x * x).sum::<f32>().sqrt();
    if na == 0.0 || nb == 0.0 {
        return 0.0;
    }
    dot / (na * nb)
}

fn scores(store: &InMemoryStore, name: &str, query: &[f32]) -> Vec<Score> {
    store
        .vectors(name)
        .unwrap()
        .iter()
        .map(|v| {
            let stored: Vec<f32> = v.iter().map(|b| f32::from_bits(*b)).collect();
            Score::from_bits(cosine(query, &stored).to_bits())
        })
        .collect()
}

fn metadata(id: &str, text: &str) -> VectorMetadata {
    VectorMetadata {
        id: id.to_string(),
        user_id: "user1".to_string(),
        agent_id: None,
        run_id: None,
        text: text.to_string(),
        memory_type: "fact".to_string(),
        created_at: "2024-01-01".to_string(),
        updated_at: "2024-01-01".to_string(),
        custom_metadata: Default::default(),
    }
}

#[test]
fn test_create_collection() {
    let mut store = InMemoryStore::new();
    let result = store.create_collection("test_collection", 384);
    assert!(result.is_ok());
    assert!(store.collection_exists("test_collection").unwrap());
}

#[test]
fn test_upsert_and_search() {
    let mut store = InMemoryStore::new();
    store.create_collection("test", 3).unwrap();

    let metadata = VectorMetadata {
        id: "1".to_string(),
        user_id: "user1".to_string(),
        agent_id: None,
        run_id: None,
        text: "hello world".to_string(),
        memory_type: "fact".to_string(),
        created_at: "2024-01-01".to_string(),
        updated_at: "2024-01-01".to_string(),
        custom_metadata: Default::default(),
    };

    store
        .upsert("test", vec![("1".to_string(), bits(&[1.0, 0.0, 0.0]), metadata)])
        .unwrap();

    let given = scores(&store, "test", &[1.0, 0.0, 0.0]);
    let results = store.search("test", &given, 10, None).unwrap();
    assert_eq!(results.len(), 1);
    assert!(f32::from_bits(results[0].score.to_bits()) > 0.99);
}

#[test]
fn test_delete() {
    let mut store = InMemoryStore::new();
    store.create_collection("test", 3).unwrap();

    let metadata = VectorMetadata {
        id: "1".to_string(),
        user_id: "user1".to_string(),
        agent_id: None,
        run_id: None,
        text: "test".to_string(),
        memory_type: "fact".to_string(),
        created_at: "2024-01-01".to_string(),
        updated_at: "2024-01-01".to_string(),
        custom_metadata: Default::default(),
    };

    store
        .upsert("test", vec![("1".to_string(), bits(&[1.0, 0.0, 0.0]), metadata)])
        .unwrap();

    assert_eq!(store.count("test").unwrap(), 1);
    store.delete("test", vec!["1".to_string()]).unwrap();
    assert_eq!(store.count("test").unwrap(), 0);
}

#[test]
fn search_returns_the_two_nearest_of_three() {
    let mut store = InMemoryStore::new();
    store.create_collection("mem_u1", 2).unwrap();
    store
        .upsert(
            "mem_u1",
            vec![
                ("a".to_string(), bits(&[0.0, 1.0]), metadata("a", "far")),
                ("b".to_string(), bits(&[1.0, 0.0]), metadata("b", "same")),
                ("c".to_string(), bits(&[1.0, 1.0]), metadata("c", "near")),
            ],
        )
        .unwrap();
    let given = scores(&store, "mem_u1", &[1.0, 0.0]);
    let results = store.search("mem_u1", &given, 2, None).unwrap();
    let ids: Vec<&str> = results.iter().map(|r| r.id.as_str()).collect();
    assert_eq!(ids, vec!["b", "c"]);
    assert_eq!(results[0].metadata.text, "same");
    assert_eq!(f32::from_bits(results[0].score.to_bits()), 1.0);
    assert!(f32::from_bits(results[1].score.to_bits()) < 1.0);
    assert!(f32::from_bits(results[1].score.to_bits()) > 0.7);
}

#[test]
fn deleted_collection_counts_zero_and_is_not_found() {
    let mut store = InMemoryStore::new();
    store.create_collection("mem_u1", 2).unwrap();
    store
        .upsert("mem_u1", vec![("a".to_string(), bits(&[0.0, 1.0]), metadata("a", "x"))])
        .unwrap();
    store.delete_collection("mem_u1").unwrap();
    assert_eq!(store.count("mem_u1").unwrap(), 0);
    assert!(!store.collection_exists("mem_u1").unwrap());
    let found = store.search("mem_u1", &Vec::new(), 5, None);
    match found {
        Err(Error::VectorStoreError(message)) => {
            assert_eq!(message, "Collection not found: mem_u1")
        }
        _ => panic!("a missing collection must be reported"),
    }
    assert!(store.get_all("mem_u1").unwrap().is_empty());
    assert!(store.get_by_id("mem_u1", "a").unwrap().is_none());
    assert!(matches!(store.vectors("mem_u1"), Err(Error::VectorStoreError(_))));
}

#[test]
fn search_needs_one_score_per_entry() {
    let mut store = InMemoryStore::new();
    store
        .upsert("c", vec![("a".to_string(), bits(&[1.0]), metadata("a", "x"))])
        .unwrap();
    let found = store.search("c", &Vec::new(), 5, None);
    match found {
        Err(Error::InvalidArgument(message)) => {
            assert_eq!(message, "one score per entry is required")
        }
        _ => panic!("a list of scores of the wrong length must be refused"),
    }
}

#[test]
fn create_collection_leaves_an_existing_collection_alone() {
    let mut store = InMemoryStore::new();
    store
        .upsert("c", vec![("a".to_string(), bits(&[1.0]), metadata("a", "x"))])
        .unwrap();
    store.create_collection("c", 99).unwrap();
    assert_eq!(store.count("c").unwrap(), 1);
    assert_eq!(store.count("other").unwrap(), 0);
}

#[test]
fn upsert_makes_the_collection_and_overwrites_by_id() {
    let mut store = InMemoryStore::new();
    assert!(!store.collection_exists("c").unwrap());
    store
        .upsert(
            "c",
            vec![
                ("a".to_string(), bits(&[1.0]), metadata("a", "first")),
                ("b".to_string(), bits(&[2.0]), metadata("b", "second")),
                ("a".to_string(), bits(&[3.0]), metadata("a", "third")),
            ],
        )
        .unwrap();
    assert!(store.collection_exists("c").unwrap());
    assert_eq!(store.count("c").unwrap(), 2);
    let all = store.get_all("c").unwrap();
    let texts: Vec<&str> = all.iter().map(|m| m.text.as_str()).collect();
    assert_eq!(texts, vec!["third", "second"]);
    assert_eq!(store.vectors("c").unwrap(), vec![bits(&[3.0]), bits(&[2.0])]);
    assert_eq!(store.get_by_id("c", "b").unwrap().unwrap().text, "second");
    assert!(store.get_by_id("c", "z").unwrap().is_none());
}

#[test]
fn upsert_twice_is_the_same_as_once() {
    let mut store = InMemoryStore::new();
    store
        .upsert("c", vec![("a".to_string(), bits(&[1.0]), metadata("a", "x"))])
        .unwrap();
    store
        .upsert("c", vec![("a".to_string(), bits(&[1.0]), metadata("a", "x"))])
        .unwrap();
    assert_eq!(store.count("c").unwrap(), 1);
    assert_eq!(store.vectors("c").unwrap(), vec![bits(&[1.0])]);
}

#[test]
fn delete_passes_over_what_is_not_there() {
    let mut store = InMemoryStore::new();
    store
        .upsert(
            "c",
            vec![
                ("a".to_string(), bits(&[1.0]), metadata("a", "x")),
                ("b".to_string(), bits(&[2.0]), metadata("b", "y")),
            ],
        )
        .unwrap();
    store.delete("c", vec!["zzz".to_string(), "a".to_string(), "a".to_string()]).unwrap();
    assert_eq!(store.count("c").unwrap(), 1);
    assert_eq!(store.get_all("c").unwrap()[0].id, "b");
    assert!(store.delete("nowhere", vec!["a".to_string()]).is_ok());
    assert!(!store.collection_exists("nowhere").unwrap());
}

#[test]
fn delete_collection_leaves_the_others() {
    let mut store = InMemoryStore::new();
    store.create_collection("one", 1).unwrap();
    store
        .upsert("two", vec![("a".to_string(), bits(&[1.0]), metadata("a", "x"))])
        .unwrap();
    store.create_collection("three", 1).unwrap();
    store.delete_collection("one").unwrap();
    store.delete_collection("never").unwrap();
    assert!(!store.collection_exists("one").unwrap());
    assert_eq!(store.count("two").unwrap(), 1);
    assert!(store.collection_exists("three").unwrap());
}

#[test]
fn search_applies_threshold_order_and_limit() {
    let mut store = InMemoryStore::new();
    let mut batch = Vec::new();
    for id in ["a", "b", "c", "d", "e"] {
        batch.push((id.to_string(), bits(&[1.0]), metadata(id, id)));
    }
    store.upsert("c", batch).unwrap();
    let given: Vec<Score> = [0.2f32, 0.9, 0.5, 0.9, -0.3]
        .iter()
        .map(|s| Score::from_bits(s.to_bits()))
        .collect();
    let threshold = Some(Score::from_bits(0.3f32.to_bits()));
    let results = store.search("c", &given, 10, threshold).unwrap();
    let ids: Vec<&str> = results.iter().map(|r| r.id.as_str()).collect();
    assert_eq!(ids, vec!["b", "d", "c"]);
    let results = store.search("c", &given, 2, threshold).unwrap();
    let ids: Vec<&str> = results.iter().map(|r| r.id.as_str()).collect();
    assert_eq!(ids, vec!["b", "d"]);
    let results = store.search("c", &given, 0, None).unwrap();
    assert!(results.is_empty());
    let results = store.search("c", &given, 10, None).unwrap();
    let ids: Vec<&str> = results.iter().map(|r| r.id.as_str()).collect();
    assert_eq!(ids, vec!["b", "d", "c", "a", "e"]);
    for pair in results.windows(2) {
        assert!(
            f32::from_bits(pair[0].score.to_bits()) >= f32::from_bits(pair[1].score.to_bits())
        );
    }
}

#[test]
fn search_keeps_scores_that_are_not_numbers() {
    let mut store = InMemoryStore::new();
    let mut batch = Vec::new();
    for id in ["a", "b", "c"] {
        batch.push((id.to_string(), bits(&[1.0]), metadata(id, id)));
    }
    store.upsert("c", batch).unwrap();
    let given: Vec<Score> = [0.1f32, f32::NAN, 0.8]
        .iter()
        .map(|s| Score::from_bits(s.to_bits()))
        .collect();
    let threshold = Some(Score::from_bits(0.5f32.to_bits()));
    let results = store.search("c", &given, 10, threshold).unwrap();
    let ids: Vec<&str> = results.iter().map(|r| r.id.as_str()).collect();
    assert_eq!(ids, vec!["b", "c"]);
    let results = store.search("c", &given, 10, None).unwrap();
    assert_eq!(results.len(), 3);
}

#[test]
fn metadata_keeps_its_named_values() {
    let mut store = InMemoryStore::new();
    let mut custom: TextMap<String> = TextMap::new();
    custom.insert("k".to_string(), "v".to_string());
    let mut m = metadata("a", "x");
    m.custom_metadata = custom;
    m.agent_id = Some("agent".to_string());
    store.upsert("c", vec![("a".to_string(), bits(&[1.0]), m)]).unwrap();
    let back = store.get_by_id("c", "a").unwrap().unwrap();
    assert_eq!(back.custom_metadata.get("k"), Some(&"v".to_string()));
    assert_eq!(back.agent_id, Some("agent".to_string()));
    assert_eq!(back.run_id, None);
}
