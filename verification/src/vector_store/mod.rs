//! The vector store: named collections of vectors with their metadata.

pub mod backends;
pub mod pinecone;
pub mod ranking;
pub mod score;
pub mod store;
pub mod weaviate;
pub mod wire;

pub use backends::{BackendConfig, BackendType};
pub use score::Score;
pub use store::InMemoryStore;

use crate::text::{clone_opt_text, opt_text};
use crate::text_map::TextMap;
use vstd::prelude::*;

verus! {

/// What is stored beside a vector: the record it stands for.
#[derive(Debug)]
pub struct VectorMetadata {
    /// Identifier of the record.
    pub id: String,
    /// The user the record belongs to.
    pub user_id: String,
    /// The agent it belongs to, if any.
    pub agent_id: Option<String>,
    /// The run it belongs to, if any.
    pub run_id: Option<String>,
    /// The text of the record.
    pub text: String,
    /// Its kind: fact, insight, preference and so on.
    pub memory_type: String,
    /// When it was created.
    pub created_at: String,
    /// When it was last changed.
    pub updated_at: String,
    /// Further named values.
    pub custom_metadata: TextMap<String>,
}

/// The mathematical content of a `VectorMetadata`.
pub ghost struct MetadataView {
    pub id: Seq<char>,
    pub user_id: Seq<char>,
    pub agent_id: Option<Seq<char>>,
    pub run_id: Option<Seq<char>>,
    pub text: Seq<char>,
    pub memory_type: Seq<char>,
    pub created_at: Seq<char>,
    pub updated_at: Seq<char>,
    pub custom_metadata: Map<Seq<char>, Seq<char>>,
}

impl View for VectorMetadata {
    type V = MetadataView;

    open spec fn view(&self) -> MetadataView {
        MetadataView {
            id: self.id@,
            user_id: self.user_id@,
            agent_id: opt_text(self.agent_id),
            run_id: opt_text(self.run_id),
            text: self.text@,
            memory_type: self.memory_type@,
            created_at: self.created_at@,
            updated_at: self.updated_at@,
            custom_metadata: self.custom_metadata@,
        }
    }
}

impl VectorMetadata {
    /// The named values form a proper map.
    pub open spec fn wf(&self) -> bool {
        self.custom_metadata.wf()
    }
}

impl Clone for VectorMetadata {
    fn clone(&self) -> (copy: Self)
        ensures
            copy@ == self@,
            self.wf() ==> copy.wf(),
    {
        VectorMetadata {
            id: self.id.clone(),
            user_id: self.user_id.clone(),
            agent_id: clone_opt_text(&self.agent_id),
            run_id: clone_opt_text(&self.run_id),
            text: self.text.clone(),
            memory_type: self.memory_type.clone(),
            created_at: self.created_at.clone(),
            updated_at: self.updated_at.clone(),
            custom_metadata: self.custom_metadata.clone(),
        }
    }
}

/// One hit of a search: an entry with its score.
#[derive(Debug)]
pub struct SearchResult {
    /// Identifier of the entry.
    pub id: String,
    /// Its similarity to the query.
    pub score: Score,
    /// What is stored with it.
    pub metadata: VectorMetadata,
}

/// The mathematical content of a `SearchResult`.
pub ghost struct SearchResultView {
    pub id: Seq<char>,
    pub score: Score,
    pub metadata: MetadataView,
}

impl View for SearchResult {
    type V = SearchResultView;

    open spec fn view(&self) -> SearchResultView {
        SearchResultView { id: self.id@, score: self.score, metadata: self.metadata@ }
    }
}

impl Clone for SearchResult {
    fn clone(&self) -> (copy: Self)
        ensures
            copy@ == self@,
    {
        SearchResult { id: self.id.clone(), score: self.score, metadata: self.metadata.clone() }
    }
}

} // verus!
