//! Long-term memory for software agents.
//!
//! Short text records are kept per user and found again by similarity. The
//! crate holds the storage engine and what surrounds it:
//!
//! - [`vector_store`]: named collections of vectors with their metadata,
//!   the ranking of scored entries, and the shaping of what remote stores
//!   are sent;
//! - [`memory`]: memory items, the orchestrator that keeps one collection
//!   per user, the deduplicator and batches;
//! - [`embeddings`]: the bounded cache of embeddings and the local
//!   embedder;
//! - [`text_map`]: the insertion-ordered map keyed by text that the others
//!   are built on.
//!
//! Numbers with a fraction are held as bit patterns and never computed
//! with: embeddings and similarity scores are handed in by the caller.
//! Every function is verified against its contract; the few calls into
//! other crates are each wrapped in a function whose contract says what is
//! taken on trust.

pub mod clock;
pub mod config;
pub mod distributed;
pub mod embeddings;
pub mod error;
pub mod filtering;
pub mod graph;
pub mod llm;
pub mod mcp;
pub mod memory;
pub mod stats;
pub mod text;
pub mod text_map;
pub mod utils;
pub mod vector_store;

pub use config::MemoryConfig;
pub use distributed::{DistributedConfig, NodeRole, ShardingStrategy};
pub use error::{Error, Result};
pub use filtering::{AggregationQuery, FilterQuery, QueryBuilder, TimeFilter};
pub use memory::Memory;
