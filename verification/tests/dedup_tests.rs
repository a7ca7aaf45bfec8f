use memory_rs::memory::dedup::{DeduplicationStrategy, Deduplicator};
use memory_rs::vector_store::Score;

#[test]
fn test_exact_deduplication() {
    let mut dedup = Deduplicator::new(DeduplicationStrategy::Exact);

    let content = "I like coffee";
    dedup.register(content, "id_1".to_string());

    assert!(dedup.is_duplicate(content));
    assert_eq!(dedup.get_duplicate(content), Some("id_1".to_string()));
}

#[test]
fn test_no_deduplication() {
    let dedup = Deduplicator::new(DeduplicationStrategy::Off);

    let content = "I like coffee";
    assert!(!dedup.is_duplicate(content));
}

#[test]
fn test_hash_computation() {
    let content = "I like coffee";
    let hash1 = Deduplicator::compute_hash(content);
    let hash2 = Deduplicator::compute_hash(content);

    assert_eq!(hash1, hash2);
}

#[test]
fn test_cache_size() {
    let mut dedup = Deduplicator::new(DeduplicationStrategy::Exact);

    dedup.register("content1", "id_1".to_string());
    dedup.register("content2", "id_2".to_string());

    assert_eq!(dedup.cache_size(), 2);

    dedup.clear();
    assert_eq!(dedup.cache_size(), 0);
}

#[test]
fn content_is_no_duplicate_before_it_is_registered() {
    let mut dedup = Deduplicator::new(DeduplicationStrategy::Exact);
    assert!(!dedup.is_duplicate("c"));
    assert_eq!(dedup.get_duplicate("c"), None);
    dedup.register("c", "id".to_string());
    assert!(dedup.is_duplicate("c"));
    assert!(!dedup.is_duplicate("d"));
}

#[test]
fn without_a_strategy_nothing_is_kept() {
    let mut dedup = Deduplicator::new(DeduplicationStrategy::Off);
    dedup.register("c", "id".to_string());
    assert!(!dedup.is_duplicate("c"));
    assert_eq!(dedup.get_duplicate("c"), None);
    assert_eq!(dedup.cache_size(), 0);
}

#[test]
fn registering_again_takes_the_later_identifier() {
    let mut dedup = Deduplicator::new(DeduplicationStrategy::Similarity);
    dedup.register("c", "first".to_string());
    dedup.register("c", "second".to_string());
    assert_eq!(dedup.cache_size(), 1);
    assert_eq!(dedup.get_duplicate("c"), Some("second".to_string()));
}

#[test]
fn thresholds() {
    let dedup = Deduplicator::new(DeduplicationStrategy::Similarity);
    assert_eq!(dedup.similarity_threshold().to_bits(), 0.95f32.to_bits());
    assert!(dedup.is_similar(Score::from_bits(0.95f32.to_bits())));
    assert!(dedup.is_similar(Score::from_bits(1.0f32.to_bits())));
    assert!(!dedup.is_similar(Score::from_bits(0.94f32.to_bits())));
    assert!(!dedup.is_similar(Score::from_bits(f32::NAN.to_bits())));
    let strict =
        Deduplicator::with_threshold(DeduplicationStrategy::Similarity, Score::from_bits(0.5f32.to_bits()));
    assert!(strict.is_similar(Score::from_bits(0.6f32.to_bits())));
    assert!(!strict.is_similar(Score::from_bits(0.4f32.to_bits())));
}

#[test]
fn dedup_hash_is_the_content_hash() {
    assert_eq!(
        Deduplicator::compute_hash("hello"),
        "2cf24dba5fb0a30e26e83b2ac5b9e29e1b161e5c1fa7425e73043362938b9824"
    );
}
