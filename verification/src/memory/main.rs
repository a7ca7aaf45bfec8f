//! The orchestrator: one collection per user, and an index from memory
//! identifier to the collection that holds it.
//!
//! Embeddings and similarity scores are computed by the caller and handed
//! in; identifiers and timestamps are made here.

use crate::config::MemoryConfig;
use crate::error::{Error, Result};
use crate::clock::now_rfc3339;
use crate::memory::{ItemView, MemoryItem, ScoredItemView, SearchResultItem};
use crate::text::views;
use crate::text_map::TextMap;
use crate::vector_store::ranking::top;
use crate::vector_store::score::Score;
use crate::vector_store::store::{
    batch_view, hits_of, lemma_put, lemma_without, metadata_of, texts, vectors_of,
    wrong_score_count, CollectionView,
    EntryView, InMemoryStore,
};
use crate::vector_store::{MetadataView, SearchResultView, VectorMetadata};
use vstd::prelude::*;
use vstd::string::StringExecFns;

verus! {

/// The name of a user's collection: the prefix, an underscore, the user.
pub open spec fn collection_name(prefix: Seq<char>, user_id: Seq<char>) -> Seq<char> {
    prefix + "_"@ + user_id
}

/// The kind of a memory that is added without one.
pub open spec fn default_memory_type() -> Seq<char> {
    "general"@
}

/// The message of the error for an identifier that no memory has.
pub open spec fn missing_memory(memory_id: Seq<char>) -> Seq<char> {
    "Memory not found: "@ + memory_id
}

/// The items that a list of stored metadata stands for.
pub open spec fn restored_all(kept: Seq<MetadataView>) -> Seq<ItemView> {
    Seq::new(kept.len(), |k: int| ItemView::restored(kept[k]))
}

/// The scored items that a list of hits stands for.
pub open spec fn scored_items(hits: Seq<SearchResultView>) -> Seq<ScoredItemView> {
    Seq::new(
        hits.len(),
        |k: int| ScoredItemView { memory: ItemView::restored(hits[k].metadata), score: hits[k].score },
    )
}

/// The state of the orchestrator.
pub ghost struct MemoryView {
    /// What collection names begin with.
    pub prefix: Seq<char>,
    /// The tables of the store by collection name.
    pub collections: Map<Seq<char>, CollectionView>,
    /// The collection of each memory that was added and not deleted.
    pub index: Map<Seq<char>, Seq<char>>,
}

impl MemoryView {
    /// The table of the collection `name`; empty if it is not there.
    pub open spec fn table(self, name: Seq<char>) -> CollectionView {
        if self.collections.contains_key(name) {
            self.collections[name]
        } else {
            CollectionView::empty()
        }
    }

    /// The state once the user's collection is there.
    pub open spec fn ensured(self, user_id: Seq<char>) -> MemoryView {
        let name = collection_name(self.prefix, user_id);
        MemoryView { collections: self.collections.insert(name, self.table(name)), ..self }
    }

    /// The state after `item` is stored with its embedding: it stands in
    /// its user's collection and in the index.
    pub open spec fn added(self, item: ItemView, embedding: Seq<u32>) -> MemoryView {
        let name = collection_name(self.prefix, item.user_id);
        MemoryView {
            collections: self.collections.insert(
                name,
                self.table(name).put(
                    item.id,
                    EntryView { vector: embedding, metadata: item.stored() },
                ),
            ),
            index: self.index.insert(item.id, name),
            ..self
        }
    }

    /// Whether a memory with this identifier can be updated and deleted.
    pub open spec fn known(self, memory_id: Seq<char>) -> bool {
        self.index.contains_key(memory_id)
    }

    /// The memory with this identifier as the store holds it.
    pub open spec fn current(self, memory_id: Seq<char>) -> ItemView {
        let table = self.table(self.index[memory_id]);
        ItemView::restored(table.entries[table.ids.index_of(memory_id)].metadata)
    }

    /// The state after the memory gets new content.
    pub open spec fn revised(
        self,
        memory_id: Seq<char>,
        content: Seq<char>,
        now: Seq<char>,
        embedding: Seq<u32>,
    ) -> MemoryView {
        let name = self.index[memory_id];
        MemoryView {
            collections: self.collections.insert(
                name,
                self.table(name).put(
                    memory_id,
                    EntryView {
                        vector: embedding,
                        metadata: self.current(memory_id).revised(content, now).stored(),
                    },
                ),
            ),
            ..self
        }
    }

    /// The state after the memory is deleted.
    pub open spec fn removed(self, memory_id: Seq<char>) -> MemoryView {
        let name = self.index[memory_id];
        MemoryView {
            collections: self.collections.insert(name, self.table(name).without(memory_id)),
            index: self.index.remove(memory_id),
            ..self
        }
    }

    /// Every table is valid, and every indexed memory stands in the
    /// collection that the index names.
    pub open spec fn consistent(self) -> bool {
        &&& forall|n: Seq<char>|
            self.collections.contains_key(n) ==> (#[trigger] self.collections[n]).valid()
        &&& forall|id: Seq<char>|
            self.index.contains_key(id) ==> self.collections.contains_key(
                #[trigger] self.index[id],
            ) && self.collections[self.index[id]].ids.contains(id)
    }
}

/// An item that was added is listed: the metadata of its user's collection
/// holds what the store keeps of it, so reading the collection back gives an
/// item with its content and its kind.
pub proof fn lemma_added_is_listed(state: MemoryView, item: ItemView, embedding: Seq<u32>)
    requires
        state.consistent(),
    ensures
        state.added(item, embedding).consistent(),
        state.added(item, embedding).known(item.id),
        metadata_of(
            state.added(item, embedding).table(collection_name(state.prefix, item.user_id)),
        ).contains(item.stored()),
        restored_all(
            metadata_of(
                state.added(item, embedding).table(collection_name(state.prefix, item.user_id)),
            ),
        ).contains(ItemView::restored(item.stored())),
        ItemView::restored(item.stored()).content == item.content,
        ItemView::restored(item.stored()).memory_type == item.memory_type,
{
    let name = collection_name(state.prefix, item.user_id);
    let entry = EntryView { vector: embedding, metadata: item.stored() };
    let before = state.table(name);
    let after = state.added(item, embedding);
    lemma_put(before, item.id, entry);
    let table = after.table(name);
    assert(table == before.put(item.id, entry));
    let k = table.ids.index_of(item.id);
    assert(table.ids[k] == item.id);
    assert(metadata_of(table)[k] == item.stored());
    assert(restored_all(metadata_of(table))[k] == ItemView::restored(item.stored()));
    assert forall|id: Seq<char>| after.index.contains_key(id) implies after.collections.contains_key(
        #[trigger] after.index[id],
    ) && after.collections[after.index[id]].ids.contains(id) by {
        if id != item.id {
            if state.index[id] == name {
                assert(before.put(item.id, entry).ids.contains(id));
            }
        }
    }
}

/// Adding a memory leaves the other collections as they were.
pub proof fn lemma_added_leaves_others(
    state: MemoryView,
    item: ItemView,
    embedding: Seq<u32>,
    name: Seq<char>,
)
    requires
        name != collection_name(state.prefix, item.user_id),
    ensures
        state.added(item, embedding).table(name) == state.table(name),
{
}

/// A memory that was deleted is gone from its collection and from the
/// index; every other memory stays where it was.
pub proof fn lemma_removed_is_gone(state: MemoryView, memory_id: Seq<char>)
    requires
        state.consistent(),
        state.known(memory_id),
    ensures
        state.removed(memory_id).consistent(),
        !state.removed(memory_id).known(memory_id),
        !state.removed(memory_id).table(state.index[memory_id]).ids.contains(memory_id),
        forall|other: Seq<char>|
            other != memory_id && state.known(other) ==> #[trigger] state.removed(memory_id).known(
                other,
            ) && state.removed(memory_id).current(other) == state.current(other),
{
    let name = state.index[memory_id];
    let before = state.table(name);
    let after = state.removed(memory_id);
    lemma_without(before, memory_id);
    assert forall|id: Seq<char>| after.index.contains_key(id) implies after.collections.contains_key(
        #[trigger] after.index[id],
    ) && after.collections[after.index[id]].ids.contains(id) by {
        if state.index[id] == name {
            assert(before.without(memory_id).ids.contains(id));
        }
    }
    assert forall|other: Seq<char>| other != memory_id && state.known(other) implies #[trigger] after.known(
        other,
    ) && after.current(other) == state.current(other) by {
        if state.index[other] == name {
            assert(before.ids.contains(other));
            assert(before.without(memory_id).ids.contains(other));
        }
    }
}

/// The orchestrator.
#[derive(Debug)]
pub struct Memory {
    config: MemoryConfig,
    vector_store: InMemoryStore,
    index: TextMap<String>,
}

impl View for Memory {
    type V = MemoryView;

    closed spec fn view(&self) -> MemoryView {
        MemoryView {
            prefix: self.config.prefix_in_force(),
            collections: self.vector_store@,
            index: self.index@,
        }
    }
}

impl Memory {
    /// What every orchestrator upholds.
    pub closed spec fn wf(&self) -> bool {
        &&& self.vector_store.wf()
        &&& self.index.wf()
        &&& self@.consistent()
    }

    /// The state of an orchestrator is consistent.
    pub proof fn lemma_consistent(&self)
        requires
            self.wf(),
        ensures
            self@.consistent(),
    {
    }

    /// An orchestrator over `vector_store` with nothing indexed. What the
    /// store already holds can be searched and listed; only memories added
    /// through the orchestrator can be updated and deleted.
    pub fn new(config: MemoryConfig, vector_store: InMemoryStore) -> (memory: Self)
        requires
            vector_store.wf(),
        ensures
            memory.wf(),
            memory@ == (MemoryView {
                prefix: config.prefix_in_force(),
                collections: vector_store@,
                index: Map::empty(),
            }),
    {
        proof {
            vector_store.lemma_tables_valid();
        }
        Memory { config, vector_store, index: TextMap::new() }
    }

    /// The name of the collection of `user_id`.
    pub fn get_collection_name(&self, user_id: &str) -> (name: String)
        ensures
            name@ == collection_name(self@.prefix, user_id@),
    {
        self.config.get_collection_prefix().concat("_").concat(user_id)
    }

    /// Make the collection of `user_id` if it is not there.
    pub fn ensure_collection(&mut self, user_id: &str) -> (done: Result<()>)
        requires
            old(self).wf(),
        ensures
            final(self).wf(),
            done is Ok,
            final(self)@ == old(self)@.ensured(user_id@),
    {
        let name = self.get_collection_name(user_id);
        let dimension = self.config.get_vector_dimension();
        let ghost before = *self;
        let done = self.vector_store.create_collection(name.as_str(), dimension);
        proof {
            self.vector_store.lemma_tables_valid();
            assert(self@.collections =~= before@.ensured(user_id@).collections);
        }
        done
    }

    /// Add a memory for `user_id` with the embedding of its content. The
    /// kind is "general" where none is given. The item gets a random
    /// identifier and the current time.
    pub fn add(
        &mut self,
        user_id: &str,
        content: &str,
        memory_type: Option<&str>,
        embedding: Vec<u32>,
    ) -> (added: Result<MemoryItem>)
        requires
            old(self).wf(),
        ensures
            final(self).wf(),
            added is Ok,
            added->Ok_0.wf(),
            added->Ok_0@ == ItemView::fresh(
                added->Ok_0.id@,
                added->Ok_0.created_at@,
                user_id@,
                content@,
                match memory_type {
                    Some(t) => t@,
                    None => default_memory_type(),
                },
            ),
            final(self)@ == old(self)@.added(added->Ok_0@, embedding@),
    {
        let kind = match memory_type {
            Some(t) => t,
            None => "general",
        };
        let item = MemoryItem::new(user_id.to_owned(), content.to_owned(), kind.to_owned());
        self.add_item(item, embedding)
    }

    /// Store `item` with its embedding in the collection of its user, which
    /// is made first if it is not there, and index it.
    pub fn add_item(&mut self, item: MemoryItem, embedding: Vec<u32>) -> (added: Result<
        MemoryItem,
    >)
        requires
            old(self).wf(),
            item.wf(),
        ensures
            final(self).wf(),
            added is Ok,
            added->Ok_0 == item,
            final(self)@ == old(self)@.added(item@, embedding@),
    {
        let ghost before = *self;
        let name = self.get_collection_name(item.user_id.as_str());
        let kept = item.to_vector_metadata();
        let mut batch: Vec<(String, Vec<u32>, VectorMetadata)> = Vec::new();
        batch.push((item.id.clone(), embedding, kept));
        proof {
            let b = batch_view(batch@);
            assert(b.drop_last() =~= Seq::<(Seq<char>, EntryView)>::empty());
            assert(b.last() == (
                item.id@,
                EntryView { vector: embedding@, metadata: item@.stored() },
            ));
            reveal_with_fuel(CollectionView::put_all, 2);
        }
        let _ = self.vector_store.upsert(name.as_str(), batch);
        self.index.insert(item.id.clone(), name);
        proof {
            lemma_added_is_listed(before@, item@, embedding@);
            assert(self@.collections =~= before@.added(item@, embedding@).collections);
            assert(self@.index =~= before@.added(item@, embedding@).index);
        }
        Ok(item)
    }

    /// The vectors of the collection of `user_id`, in the order of its
    /// table: what a query is scored against. The collection is made first
    /// if it is not there.
    pub fn candidates(&mut self, user_id: &str) -> (found: Result<Vec<Vec<u32>>>)
        requires
            old(self).wf(),
        ensures
            final(self).wf(),
            final(self)@ == old(self)@.ensured(user_id@),
            found is Ok,
            views(found->Ok_0@) == vectors_of(
                old(self)@.table(collection_name(old(self)@.prefix, user_id@)),
            ),
    {
        let _ = self.ensure_collection(user_id);
        let name = self.get_collection_name(user_id);
        match self.vector_store.vectors(name.as_str()) {
            Ok(list) => Ok(list),
            Err(_) => Ok(Vec::new()),
        }
    }

    /// Rank the memories of `user_id` by the given scores, one per memory
    /// in the order of its collection, with no lower bound on the score.
    /// The collection is made first if it is not there.
    pub fn search(&mut self, user_id: &str, scores: &Vec<Score>, limit: usize) -> (found: Result<
        Vec<SearchResultItem>,
    >)
        requires
            old(self).wf(),
        ensures
            final(self).wf(),
            final(self)@ == old(self)@.ensured(user_id@),
            match found {
                Ok(items) => {
                    let table = old(self)@.table(collection_name(old(self)@.prefix, user_id@));
                    &&& scores@.len() == table.ids.len()
                    &&& views(items@) == scored_items(
                        hits_of(table, scores@, top(scores@, None, limit as nat)),
                    )
                },
                Err(e) => {
                    let table = old(self)@.table(collection_name(old(self)@.prefix, user_id@));
                    &&& scores@.len() != table.ids.len()
                    &&& e is InvalidArgument
                    &&& e.message() == wrong_score_count()
                },
            },
    {
        let _ = self.ensure_collection(user_id);
        let name = self.get_collection_name(user_id);
        match self.vector_store.search(name.as_str(), scores, limit, None) {
            Ok(hits) => {
                let ghost wanted = scored_items(views(hits@));
                let ghost all = hits@;
                let mut items: Vec<SearchResultItem> = Vec::new();
                for hit in it: hits
                    invariant
                        it.seq() == all,
                        items@.len() == it.index(),
                        wanted == scored_items(views(all)),
                        forall|k: int| 0 <= k < items@.len() ==> (#[trigger] items@[k])@ == wanted[k],
                {
                    let score = hit.score;
                    items.push(
                        SearchResultItem {
                            memory: MemoryItem::from_vector_metadata(hit.metadata),
                            score,
                        },
                    );
                }
                proof {
                    assert(views(items@) =~= wanted);
                }
                Ok(items)
            },
            Err(e) => Err(e),
        }
    }

    /// Every memory of `user_id`, in the order of its collection, which is
    /// made first if it is not there. The hash of each item is empty.
    pub fn get_all(&mut self, user_id: &str) -> (found: Result<Vec<MemoryItem>>)
        requires
            old(self).wf(),
        ensures
            final(self).wf(),
            final(self)@ == old(self)@.ensured(user_id@),
            found is Ok,
            views(found->Ok_0@) == restored_all(
                metadata_of(old(self)@.table(collection_name(old(self)@.prefix, user_id@))),
            ),
    {
        let _ = self.ensure_collection(user_id);
        let name = self.get_collection_name(user_id);
        let kept = match self.vector_store.get_all(name.as_str()) {
            Ok(list) => list,
            Err(_) => Vec::new(),
        };
        let ghost wanted = restored_all(views(kept@));
        let ghost all = kept@;
        let mut items: Vec<MemoryItem> = Vec::new();
        for one in it: kept
            invariant
                it.seq() == all,
                items@.len() == it.index(),
                wanted == restored_all(views(all)),
                forall|k: int| 0 <= k < items@.len() ==> (#[trigger] items@[k])@ == wanted[k],
        {
            items.push(MemoryItem::from_vector_metadata(one));
        }
        proof {
            assert(views(items@) =~= wanted);
        }
        Ok(items)
    }

    /// The error for an identifier that no memory has.
    fn missing(memory_id: &str) -> (e: Error)
        ensures
            e is NotFound,
            e.message() == missing_memory(memory_id@),
    {
        let text = String::from_str("Memory not found: ").concat(memory_id);
        Error::not_found(text.as_str())
    }

    /// Give the memory `memory_id` new content, with the embedding of that
    /// content, changed now.
    pub fn update(&mut self, memory_id: &str, content: &str, embedding: Vec<u32>) -> (updated: Result<
        MemoryItem,
    >)
        requires
            old(self).wf(),
        ensures
            final(self).wf(),
            match updated {
                Ok(item) => {
                    &&& old(self)@.known(memory_id@)
                    &&& item@ == old(self)@.current(memory_id@).revised(content@, item.updated_at@)
                    &&& final(self)@ == old(self)@.revised(
                        memory_id@,
                        content@,
                        item.updated_at@,
                        embedding@,
                    )
                },
                Err(e) => {
                    &&& !old(self)@.known(memory_id@)
                    &&& e is NotFound
                    &&& e.message() == missing_memory(memory_id@)
                    &&& final(self)@ == old(self)@
                },
            },
    {
        self.update_at(memory_id, content, embedding, now_rfc3339())
    }

    /// Give the memory `memory_id` new content, changed at `now`: its entry
    /// in the collection that the index names gets the new content, time and
    /// embedding. An identifier that is not indexed is not found.
    pub fn update_at(
        &mut self,
        memory_id: &str,
        content: &str,
        embedding: Vec<u32>,
        now: String,
    ) -> (updated: Result<MemoryItem>)
        requires
            old(self).wf(),
        ensures
            final(self).wf(),
            match updated {
                Ok(item) => {
                    &&& old(self)@.known(memory_id@)
                    &&& item@ == old(self)@.current(memory_id@).revised(content@, now@)
                    &&& final(self)@ == old(self)@.revised(memory_id@, content@, now@, embedding@)
                },
                Err(e) => {
                    &&& !old(self)@.known(memory_id@)
                    &&& e is NotFound
                    &&& e.message() == missing_memory(memory_id@)
                    &&& final(self)@ == old(self)@
                },
            },
    {
        let ghost before = *self;
        let name = match self.index.get(memory_id) {
            Some(name) => name.clone(),
            None => {
                return Err(Self::missing(memory_id));
            },
        };
        let kept = match self.vector_store.get_by_id(name.as_str(), memory_id) {
            Ok(Some(kept)) => kept,
            _ => {
                return Err(Self::missing(memory_id));
            },
        };
        let mut item = MemoryItem::from_vector_metadata(kept);
        item.hash = MemoryItem::compute_hash(content);
        item.content = content.to_owned();
        item.updated_at = now;
        let mut batch: Vec<(String, Vec<u32>, VectorMetadata)> = Vec::new();
        batch.push((memory_id.to_owned(), embedding, item.to_vector_metadata()));
        proof {
            let b = batch_view(batch@);
            assert(b.drop_last() =~= Seq::<(Seq<char>, EntryView)>::empty());
            reveal_with_fuel(CollectionView::put_all, 2);
        }
        let _ = self.vector_store.upsert(name.as_str(), batch);
        proof {
            let entry = EntryView { vector: embedding@, metadata: item@.stored() };
            lemma_put(before@.table(name@), memory_id@, entry);
            assert(self@.collections =~= before@.revised(
                memory_id@,
                content@,
                now@,
                embedding@,
            ).collections);
            assert forall|id: Seq<char>| self@.index.contains_key(id) implies self@.collections.contains_key(
                #[trigger] self@.index[id],
            ) && self@.collections[self@.index[id]].ids.contains(id) by {
                if before@.index[id] == name@ {
                    assert(before@.table(name@).put(memory_id@, entry).ids.contains(id));
                }
            }
            self.vector_store.lemma_tables_valid();
        }
        Ok(item)
    }

    /// Delete the memory `memory_id`: its entry leaves the collection that
    /// the index names, and the index forgets it. An identifier that is not
    /// indexed is not found.
    pub fn delete(&mut self, memory_id: &str) -> (done: Result<()>)
        requires
            old(self).wf(),
        ensures
            final(self).wf(),
            match done {
                Ok(_) => old(self)@.known(memory_id@) && final(self)@ == old(self)@.removed(
                    memory_id@,
                ),
                Err(e) => {
                    &&& !old(self)@.known(memory_id@)
                    &&& e is NotFound
                    &&& e.message() == missing_memory(memory_id@)
                    &&& final(self)@ == old(self)@
                },
            },
    {
        let ghost before = *self;
        let name = match self.index.get(memory_id) {
            Some(name) => name.clone(),
            None => {
                return Err(Self::missing(memory_id));
            },
        };
        let mut ids: Vec<String> = Vec::new();
        ids.push(memory_id.to_owned());
        proof {
            let t = texts(ids@);
            assert(t.drop_last() =~= Seq::<Seq<char>>::empty());
            assert(t.last() == memory_id@);
            reveal_with_fuel(CollectionView::without_all, 2);
        }
        let _ = self.vector_store.delete(name.as_str(), ids);
        self.index.remove(memory_id);
        proof {
            lemma_removed_is_gone(before@, memory_id@);
            assert(self@.collections =~= before@.removed(memory_id@).collections);
            assert(self@.index =~= before@.removed(memory_id@).index);
        }
        Ok(())
    }

    /// Number of memories of `user_id`; 0 if the user has no collection.
    pub fn count(&self, user_id: &str) -> (n: usize)
        requires
            self.wf(),
        ensures
            n == self@.table(collection_name(self@.prefix, user_id@)).ids.len(),
    {
        let name = self.get_collection_name(user_id);
        match self.vector_store.count(name.as_str()) {
            Ok(n) => n,
            Err(_) => 0,
        }
    }
}

} // verus!
