use memory_rs::embeddings::local::LocalEmbedder;

fn numbers(bytes: &[u8]) -> Vec<f32> {
    bytes.iter().map(|b| (*b as f32 / 255.0 - 0.5) * 2.0).collect()
}

#[test]
fn test_local_embedder_creation() {
    let embedder = LocalEmbedder::with_defaults();
    assert_eq!(embedder.dimension(), 384);
}

#[test]
fn test_embed() {
    let embedder = LocalEmbedder::new(128);
    let embedding = numbers(&embedder.embed("hello world"));
    assert_eq!(embedding.len(), 128);
    assert!(embedding.iter().all(|v| *v >= -1.0 && *v <= 1.0));
}

#[test]
fn test_embed_batch() {
    let embedder = LocalEmbedder::new(64);
    let embeddings = embedder.embed_batch(vec!["hello", "world", "test"]);
    assert_eq!(embeddings.len(), 3);
    assert!(embeddings.iter().all(|e| e.len() == 64));
}

#[test]
fn test_deterministic() {
    let embedder = LocalEmbedder::new(256);
    let emb1 = embedder.embed("same text");
    let emb2 = embedder.embed("same text");
    assert_eq!(emb1, emb2);
}

#[test]
fn test_different_text() {
    let embedder = LocalEmbedder::new(256);
    let emb1 = embedder.embed("text one");
    let emb2 = embedder.embed("text two");
    assert_ne!(emb1, emb2);
}

#[test]
fn embedding_spreads_the_digest() {
    // SHA-256 of "hello world" begins b9 4d 27 b9 and ends ef cd e9.
    let digest = LocalEmbedder::text_to_embedding("hello world", 32);
    assert_eq!(&digest[..4], &[0xb9, 0x4d, 0x27, 0xb9]);
    assert_eq!(&digest[29..], &[0xef, 0xcd, 0xe9]);
    let doubled = LocalEmbedder::text_to_embedding("hello world", 64);
    for i in 0..64 {
        assert_eq!(doubled[i], digest[i / 2]);
    }
    let short = LocalEmbedder::text_to_embedding("hello world", 3);
    assert_eq!(short, vec![digest[0], digest[10], digest[21]]);
    assert!(LocalEmbedder::text_to_embedding("hello world", 0).is_empty());
}

#[test]
fn batch_is_each_text_in_turn() {
    let embedder = LocalEmbedder::new(8);
    let batch = embedder.embed_batch(vec!["a", "b"]);
    assert_eq!(batch[0], embedder.embed("a"));
    assert_eq!(batch[1], embedder.embed("b"));
    assert!(embedder.embed_batch(Vec::new()).is_empty());
}
