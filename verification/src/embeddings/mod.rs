//! Embeddings: the cache that saves computing them twice, the local
//! embedder's digest step, and the settings of the remote embedder.

pub mod cache;
pub mod default;
pub mod local;

pub use cache::EmbeddingCache;
pub use default::DefaultEmbedder;
pub use local::LocalEmbedder;
