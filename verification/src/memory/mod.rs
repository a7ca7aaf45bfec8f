//! Memory items and the operations on them.

pub mod batch;
pub mod dedup;
pub mod main;

pub use main::Memory;

use crate::clock::now_rfc3339;
use crate::text::{clone_opt_text, opt_text};
use crate::text_map::TextMap;
use crate::utils::content_hash;
use crate::vector_store::score::Score;
use crate::vector_store::{MetadataView, VectorMetadata};
use vstd::prelude::*;

verus! {

/// One remembered record.
#[derive(Debug)]
pub struct MemoryItem {
    /// Its identifier.
    pub id: String,
    /// The user it belongs to.
    pub user_id: String,
    /// The agent it belongs to, if any.
    pub agent_id: Option<String>,
    /// The run it belongs to, if any.
    pub run_id: Option<String>,
    /// What is remembered.
    pub content: String,
    /// Its kind: fact, insight, preference and so on.
    pub memory_type: String,
    /// Hash of the content. Empty on an item read back from the store, which
    /// does not keep it.
    pub hash: String,
    /// When it was created.
    pub created_at: String,
    /// When it was last changed.
    pub updated_at: String,
    /// Further named values.
    pub metadata: TextMap<String>,
}

/// The mathematical content of a `MemoryItem`.
pub ghost struct ItemView {
    pub id: Seq<char>,
    pub user_id: Seq<char>,
    pub agent_id: Option<Seq<char>>,
    pub run_id: Option<Seq<char>>,
    pub content: Seq<char>,
    pub memory_type: Seq<char>,
    pub hash: Seq<char>,
    pub created_at: Seq<char>,
    pub updated_at: Seq<char>,
    pub metadata: Map<Seq<char>, Seq<char>>,
}

impl ItemView {
    /// The item that is made at `now` under `id`: no agent, no run, no
    /// further values, the hash of its content, created and changed at the
    /// same time.
    pub open spec fn fresh(
        id: Seq<char>,
        now: Seq<char>,
        user_id: Seq<char>,
        content: Seq<char>,
        memory_type: Seq<char>,
    ) -> ItemView {
        ItemView {
            id,
            user_id,
            agent_id: None,
            run_id: None,
            content,
            memory_type,
            hash: content_hash(content),
            created_at: now,
            updated_at: now,
            metadata: Map::empty(),
        }
    }

    /// What the store keeps of an item: everything but the hash.
    pub open spec fn stored(self) -> MetadataView {
        MetadataView {
            id: self.id,
            user_id: self.user_id,
            agent_id: self.agent_id,
            run_id: self.run_id,
            text: self.content,
            memory_type: self.memory_type,
            created_at: self.created_at,
            updated_at: self.updated_at,
            custom_metadata: self.metadata,
        }
    }

    /// The item read back from what the store keeps: the hash is empty.
    pub open spec fn restored(kept: MetadataView) -> ItemView {
        ItemView {
            id: kept.id,
            user_id: kept.user_id,
            agent_id: kept.agent_id,
            run_id: kept.run_id,
            content: kept.text,
            memory_type: kept.memory_type,
            hash: Seq::empty(),
            created_at: kept.created_at,
            updated_at: kept.updated_at,
            metadata: kept.custom_metadata,
        }
    }

    /// The item with new content, changed at `now`.
    pub open spec fn revised(self, content: Seq<char>, now: Seq<char>) -> ItemView {
        ItemView { content, hash: content_hash(content), updated_at: now, ..self }
    }
}

/// Storing an item and reading it back gives the item with an empty hash:
/// nothing else is lost.
pub proof fn lemma_round_trip_loses_hash_only(item: ItemView)
    ensures
        ItemView::restored(item.stored()) == (ItemView { hash: Seq::empty(), ..item }),
        ItemView::restored(item.stored()).stored() == item.stored(),
{
}

impl View for MemoryItem {
    type V = ItemView;

    open spec fn view(&self) -> ItemView {
        ItemView {
            id: self.id@,
            user_id: self.user_id@,
            agent_id: opt_text(self.agent_id),
            run_id: opt_text(self.run_id),
            content: self.content@,
            memory_type: self.memory_type@,
            hash: self.hash@,
            created_at: self.created_at@,
            updated_at: self.updated_at@,
            metadata: self.metadata@,
        }
    }
}

impl Clone for MemoryItem {
    fn clone(&self) -> (copy: Self)
        ensures
            copy@ == self@,
            self.wf() ==> copy.wf(),
    {
        MemoryItem {
            id: self.id.clone(),
            user_id: self.user_id.clone(),
            agent_id: clone_opt_text(&self.agent_id),
            run_id: clone_opt_text(&self.run_id),
            content: self.content.clone(),
            memory_type: self.memory_type.clone(),
            hash: self.hash.clone(),
            created_at: self.created_at.clone(),
            updated_at: self.updated_at.clone(),
            metadata: self.metadata.clone(),
        }
    }
}

/// `uuid::Uuid::new_v4`, written as text. The identifier is random:
/// nothing is claimed of it.
#[verifier::external_body]
pub(crate) fn fresh_id() -> (id: String) {
    uuid::Uuid::new_v4().to_string()
}

impl MemoryItem {
    /// The further values form a proper map.
    pub open spec fn wf(&self) -> bool {
        self.metadata.wf()
    }

    /// A new item with a random identifier, made now.
    pub fn new(user_id: String, content: String, memory_type: String) -> (item: Self)
        ensures
            item.wf(),
            item@ == ItemView::fresh(
                item.id@,
                item.created_at@,
                user_id@,
                content@,
                memory_type@,
            ),
    {
        Self::from_parts(fresh_id(), now_rfc3339(), user_id, content, memory_type)
    }

    /// The new item with the identifier `id`, made at `now`.
    pub fn from_parts(
        id: String,
        now: String,
        user_id: String,
        content: String,
        memory_type: String,
    ) -> (item: Self)
        ensures
            item.wf(),
            item@ == ItemView::fresh(id@, now@, user_id@, content@, memory_type@),
    {
        let hash = Self::compute_hash(content.as_str());
        MemoryItem {
            id,
            user_id,
            agent_id: None,
            run_id: None,
            content,
            memory_type,
            hash,
            created_at: now.clone(),
            updated_at: now,
            metadata: TextMap::new(),
        }
    }

    /// The hash of `content`.
    pub fn compute_hash(content: &str) -> (hash: String)
        ensures
            hash@ == content_hash(content@),
            hash@.len() == 64,
    {
        crate::utils::compute_hash(content)
    }

    /// The same item for the agent `agent_id`.
    pub fn with_agent_id(self, agent_id: String) -> (item: Self)
        ensures
            item@ == (ItemView { agent_id: Some(agent_id@), ..self@ }),
            self.wf() ==> item.wf(),
    {
        let mut item = self;
        item.agent_id = Some(agent_id);
        item
    }

    /// The same item for the run `run_id`.
    pub fn with_run_id(self, run_id: String) -> (item: Self)
        ensures
            item@ == (ItemView { run_id: Some(run_id@), ..self@ }),
            self.wf() ==> item.wf(),
    {
        let mut item = self;
        item.run_id = Some(run_id);
        item
    }

    /// The same item with `key` set to `value` among its further values.
    pub fn with_metadata(self, key: String, value: String) -> (item: Self)
        requires
            self.wf(),
        ensures
            item@ == (ItemView { metadata: self@.metadata.insert(key@, value@), ..self@ }),
            item.wf(),
    {
        let mut item = self;
        item.metadata.insert(key, value);
        item
    }

    /// What the store keeps of this item.
    pub fn to_vector_metadata(&self) -> (kept: VectorMetadata)
        ensures
            kept@ == self@.stored(),
            self.wf() ==> kept.wf(),
    {
        VectorMetadata {
            id: self.id.clone(),
            user_id: self.user_id.clone(),
            agent_id: clone_opt_text(&self.agent_id),
            run_id: clone_opt_text(&self.run_id),
            text: self.content.clone(),
            memory_type: self.memory_type.clone(),
            created_at: self.created_at.clone(),
            updated_at: self.updated_at.clone(),
            custom_metadata: self.metadata.clone(),
        }
    }

    /// The item that `kept` stands for, with an empty hash.
    pub fn from_vector_metadata(kept: VectorMetadata) -> (item: Self)
        ensures
            item@ == ItemView::restored(kept@),
            kept.wf() ==> item.wf(),
    {
        MemoryItem {
            id: kept.id,
            user_id: kept.user_id,
            agent_id: kept.agent_id,
            run_id: kept.run_id,
            content: kept.text,
            memory_type: kept.memory_type,
            hash: String::new(),
            created_at: kept.created_at,
            updated_at: kept.updated_at,
            metadata: kept.custom_metadata,
        }
    }
}

/// A memory item with its similarity to a query.
#[derive(Debug)]
pub struct SearchResultItem {
    /// The item.
    pub memory: MemoryItem,
    /// Its similarity to the query.
    pub score: Score,
}

/// The mathematical content of a `SearchResultItem`.
pub ghost struct ScoredItemView {
    pub memory: ItemView,
    pub score: Score,
}

impl View for SearchResultItem {
    type V = ScoredItemView;

    open spec fn view(&self) -> ScoredItemView {
        ScoredItemView { memory: self.memory@, score: self.score }
    }
}

impl Clone for SearchResultItem {
    fn clone(&self) -> (copy: Self)
        ensures
            copy@ == self@,
    {
        SearchResultItem { memory: self.memory.clone(), score: self.score }
    }
}

} // verus!
