//! The in-memory vector store.
//!
//! A store maps collection names to collections. A collection is a table of
//! entries keyed by identifier, kept in the order in which the identifiers
//! first came. Similarity is computed by the caller: a search takes one
//! score per entry, in the order of the table, and ranks them.

use crate::error::{Error, Result};
use crate::text::{copy_words, views};
use crate::text_map::TextMap;
use crate::vector_store::ranking::{positions, rank, top};
use crate::vector_store::score::Score;
use crate::vector_store::{MetadataView, SearchResult, SearchResultView, VectorMetadata};
use vstd::prelude::*;
use vstd::string::StringExecFns;

verus! {

/// A stored vector with its metadata. The components of the vector are
/// IEEE-754 single-precision bit patterns.
#[derive(Debug)]
pub struct VectorEntry {
    pub vector: Vec<u32>,
    pub metadata: VectorMetadata,
}

/// The mathematical content of a `VectorEntry`.
pub ghost struct EntryView {
    pub vector: Seq<u32>,
    pub metadata: MetadataView,
}

impl View for VectorEntry {
    type V = EntryView;

    open spec fn view(&self) -> EntryView {
        EntryView { vector: self.vector@, metadata: self.metadata@ }
    }
}

/// A collection as a table: identifiers, and the entry of each at the same
/// position.
pub ghost struct CollectionView {
    pub ids: Seq<Seq<char>>,
    pub entries: Seq<EntryView>,
}

impl CollectionView {
    /// The collection without entries.
    pub open spec fn empty() -> CollectionView {
        CollectionView { ids: Seq::empty(), entries: Seq::empty() }
    }

    /// One entry per identifier, no identifier twice.
    pub open spec fn valid(self) -> bool {
        self.ids.len() == self.entries.len() && self.ids.no_duplicates()
    }

    /// The table after `entry` is stored under `id`: in the place of the
    /// entry that had this identifier, or else at the end.
    pub open spec fn put(self, id: Seq<char>, entry: EntryView) -> CollectionView {
        if self.ids.contains(id) {
            CollectionView {
                ids: self.ids,
                entries: self.entries.update(self.ids.index_of(id), entry),
            }
        } else {
            CollectionView { ids: self.ids.push(id), entries: self.entries.push(entry) }
        }
    }

    /// The table after a batch is stored, item by item from the first.
    pub open spec fn put_all(self, batch: Seq<(Seq<char>, EntryView)>) -> CollectionView
        decreases batch.len(),
    {
        if batch.len() == 0 {
            self
        } else {
            self.put_all(batch.drop_last()).put(batch.last().0, batch.last().1)
        }
    }

    /// The table without the entry named `id`; unchanged if there is none.
    pub open spec fn without(self, id: Seq<char>) -> CollectionView {
        if self.ids.contains(id) {
            CollectionView {
                ids: self.ids.remove(self.ids.index_of(id)),
                entries: self.entries.remove(self.ids.index_of(id)),
            }
        } else {
            self
        }
    }

    /// The table without the entries named in `ids`.
    pub open spec fn without_all(self, ids: Seq<Seq<char>>) -> CollectionView
        decreases ids.len(),
    {
        if ids.len() == 0 {
            self
        } else {
            self.without_all(ids.drop_last()).without(ids.last())
        }
    }
}

/// After an entry is stored under `id`, the table is valid, holds `id` with
/// that entry, and holds every other identifier with the entry it had.
pub proof fn lemma_put(table: CollectionView, id: Seq<char>, entry: EntryView)
    requires
        table.valid(),
    ensures
        table.put(id, entry).valid(),
        table.put(id, entry).ids.contains(id),
        table.put(id, entry).entries[table.put(id, entry).ids.index_of(id)] == entry,
        forall|other: Seq<char>|
            other != id ==> (#[trigger] table.put(id, entry).ids.contains(other))
                == table.ids.contains(other),
        forall|other: Seq<char>|
            other != id && table.ids.contains(other) ==> table.put(id, entry).entries[(
            #[trigger] table.put(id, entry).ids.index_of(other))] == table.entries[table.ids.index_of(
                other,
            )],
        table.put(id, entry).ids.len() == if table.ids.contains(id) {
            table.ids.len()
        } else {
            table.ids.len() + 1
        },
{
    let after = table.put(id, entry);
    if table.ids.contains(id) {
        let i = table.ids.index_of(id);
        assert(table.ids[i] == id);
        assert forall|other: Seq<char>| other != id && table.ids.contains(other) implies after.entries[(
        #[trigger] after.ids.index_of(other))] == table.entries[table.ids.index_of(other)] by {
            let j = table.ids.index_of(other);
            assert(table.ids[j] == other);
        }
    } else {
        let n = table.ids.len() as int;
        assert(after.ids[n] == id);
        assert(after.ids.contains(id));
        let i = after.ids.index_of(id);
        assert(after.ids[i] == id);
        assert(i == n) by {
            if i < n {
                assert(table.ids[i] == id);
            }
        }
        assert forall|other: Seq<char>| other != id implies (#[trigger] after.ids.contains(other))
            == table.ids.contains(other) by {
            if table.ids.contains(other) {
                let j = table.ids.index_of(other);
                assert(table.ids[j] == other);
                assert(after.ids[j] == other);
            }
            if after.ids.contains(other) {
                let j = after.ids.index_of(other);
                assert(after.ids[j] == other);
                assert(table.ids[j] == other);
            }
        }
        assert forall|other: Seq<char>| other != id && table.ids.contains(other) implies after.entries[(
        #[trigger] after.ids.index_of(other))] == table.entries[table.ids.index_of(other)] by {
            let j = table.ids.index_of(other);
            assert(table.ids[j] == other);
            assert(after.ids[j] == other);
            let k = after.ids.index_of(other);
            assert(after.ids.contains(other));
            assert(after.ids[k] == other);
            assert(k == j);
        }
    }
}

/// Storing the same entry under the same identifier a second time changes
/// nothing.
pub proof fn lemma_put_twice(table: CollectionView, id: Seq<char>, entry: EntryView)
    requires
        table.valid(),
    ensures
        table.put(id, entry).put(id, entry) == table.put(id, entry),
{
    lemma_put(table, id, entry);
    let once = table.put(id, entry);
    assert(once.put(id, entry).entries =~= once.entries);
}

/// After `id` is removed, the table is valid and no longer holds `id`;
/// every other identifier is held as before, with the entry it had.
pub proof fn lemma_without(table: CollectionView, id: Seq<char>)
    requires
        table.valid(),
    ensures
        table.without(id).valid(),
        !table.without(id).ids.contains(id),
        forall|other: Seq<char>|
            other != id ==> (#[trigger] table.without(id).ids.contains(other))
                == table.ids.contains(other),
        forall|other: Seq<char>|
            other != id && table.ids.contains(other) ==> table.without(id).entries[(
            #[trigger] table.without(id).ids.index_of(other))] == table.entries[table.ids.index_of(
                other,
            )],
        table.without(id).ids.len() == if table.ids.contains(id) {
            table.ids.len() - 1
        } else {
            table.ids.len() as int
        },
{
    let after = table.without(id);
    if table.ids.contains(id) {
        let i = table.ids.index_of(id);
        assert(table.ids[i] == id);
        assert(!after.ids.contains(id)) by {
            if after.ids.contains(id) {
                let j = choose|j: int| 0 <= j < after.ids.len() && after.ids[j] == id;
                let j0 = if j < i { j } else { j + 1 };
                assert(table.ids[j0] == id);
            }
        }
        assert forall|other: Seq<char>| other != id implies (#[trigger] after.ids.contains(other))
            == table.ids.contains(other) by {
            if table.ids.contains(other) {
                let j0 = table.ids.index_of(other);
                assert(table.ids[j0] == other);
                let j = if j0 < i { j0 } else { j0 - 1 };
                assert(after.ids[j] == other);
            }
            if after.ids.contains(other) {
                let j = after.ids.index_of(other);
                assert(after.ids[j] == other);
                let j0 = if j < i { j } else { j + 1 };
                assert(table.ids[j0] == other);
            }
        }
        assert forall|other: Seq<char>| other != id && table.ids.contains(other) implies after.entries[(
        #[trigger] after.ids.index_of(other))] == table.entries[table.ids.index_of(other)] by {
            let j0 = table.ids.index_of(other);
            assert(table.ids[j0] == other);
            let j = if j0 < i { j0 } else { j0 - 1 };
            assert(after.ids[j] == other);
            assert(after.ids.contains(other));
            let k = after.ids.index_of(other);
            assert(after.ids[k] == other);
            assert(k == j);
        }
    } else {
        assert forall|other: Seq<char>| other != id && table.ids.contains(other) implies after.entries[(
        #[trigger] after.ids.index_of(other))] == table.entries[table.ids.index_of(other)] by {
        }
    }
}

/// A batch for `upsert` as the table sees it.
pub open spec fn batch_view(batch: Seq<(String, Vec<u32>, VectorMetadata)>) -> Seq<
    (Seq<char>, EntryView),
> {
    Seq::new(
        batch.len(),
        |i: int| (batch[i].0@, EntryView { vector: batch[i].1@, metadata: batch[i].2@ }),
    )
}

/// The characters of each text in a list.
pub open spec fn texts(list: Seq<String>) -> Seq<Seq<char>> {
    Seq::new(list.len(), |i: int| list[i]@)
}

/// The hits that a ranking stands for: for each position in `order`, the
/// identifier, score and metadata of the entry at that position.
pub open spec fn hits_of(table: CollectionView, scores: Seq<Score>, order: Seq<int>) -> Seq<
    SearchResultView,
> {
    Seq::new(
        order.len(),
        |k: int|
            SearchResultView {
                id: table.ids[order[k]],
                score: scores[order[k]],
                metadata: table.entries[order[k]].metadata,
            },
    )
}

/// The metadata of each entry of a table, in the table's order.
pub open spec fn metadata_of(table: CollectionView) -> Seq<MetadataView> {
    Seq::new(table.entries.len(), |k: int| table.entries[k].metadata)
}

/// The vector of each entry of a table, in the table's order.
pub open spec fn vectors_of(table: CollectionView) -> Seq<Seq<u32>> {
    Seq::new(table.entries.len(), |k: int| table.entries[k].vector)
}

/// The message of the error for a list of scores of the wrong length.
pub open spec fn wrong_score_count() -> Seq<char> {
    "one score per entry is required"@
}

/// The table that a stored collection is.
pub open spec fn content(c: TextMap<VectorEntry>) -> CollectionView {
    CollectionView { ids: c.keys(), entries: c.values() }
}

/// A collection and the metadata of each of its entries are proper maps.
pub open spec fn entries_wf(c: TextMap<VectorEntry>) -> bool {
    &&& c.wf()
    &&& forall|j: int| 0 <= j < c.items().len() ==> (#[trigger] c.items()[j]).metadata.wf()
}

/// The message of the error for a collection that is not there.
pub open spec fn missing_collection(name: Seq<char>) -> Seq<char> {
    "Collection not found: "@ + name
}

/// The store: collections by name. Readers take the store by shared
/// reference and may go together; writers take it by exclusive reference.
#[derive(Debug)]
pub struct InMemoryStore {
    collections: TextMap<TextMap<VectorEntry>>,
}

impl View for InMemoryStore {
    type V = Map<Seq<char>, CollectionView>;

    /// The store as a map from collection name to table.
    closed spec fn view(&self) -> Map<Seq<char>, CollectionView> {
        Map::new(
            |n: Seq<char>| self.collections.keys().contains(n),
            |n: Seq<char>| content(self.collections.items()[self.collections.keys().index_of(n)]),
        )
    }
}

impl InMemoryStore {
    /// What every store upholds.
    pub closed spec fn wf(&self) -> bool {
        &&& self.collections.wf()
        &&& forall|i: int|
            0 <= i < self.collections.items().len() ==> entries_wf(
                #[trigger] self.collections.items()[i],
            )
    }

    /// In a store every table is valid.
    pub proof fn lemma_tables_valid(&self)
        requires
            self.wf(),
        ensures
            forall|n: Seq<char>| self@.contains_key(n) ==> (#[trigger] self@[n]).valid(),
    {
        assert forall|n: Seq<char>| self@.contains_key(n) implies (#[trigger] self@[n]).valid() by {
            let i = self.collections.keys().index_of(n);
            assert(self.collections.keys()[i] == n);
            assert(entries_wf(self.collections.items()[i]));
        }
    }

    /// The table at position `i` is the one that the view holds under the
    /// name at that position.
    proof fn lemma_at(&self, i: int)
        requires
            self.collections.wf(),
            0 <= i < self.collections.keys().len(),
        ensures
            self@.contains_key(self.collections.keys()[i]),
            self@[self.collections.keys()[i]] == content(self.collections.items()[i]),
            self.collections.keys().index_of(self.collections.keys()[i]) == i,
    {
        let keys = self.collections.keys();
        assert(keys.contains(keys[i]));
        let j = keys.index_of(keys[i]);
        assert(keys[j] == keys[i]);
    }

    /// A store without collections.
    pub fn new() -> (store: Self)
        ensures
            store.wf(),
            store@ == Map::<Seq<char>, CollectionView>::empty(),
    {
        let store = InMemoryStore { collections: TextMap::new() };
        assert(store@ =~= Map::<Seq<char>, CollectionView>::empty());
        store
    }

    /// Make the collection `name` if it is not there. One that is there is
    /// left as it is. The vector size is taken and not recorded.
    pub fn create_collection(&mut self, collection_name: &str, vector_size: usize) -> (done: Result<
        (),
    >)
        requires
            old(self).wf(),
        ensures
            final(self).wf(),
            done is Ok,
            final(self)@ == if old(self)@.contains_key(collection_name@) {
                old(self)@
            } else {
                old(self)@.insert(collection_name@, CollectionView::empty())
            },
    {
        let _ = self.slot(collection_name);
        Ok(())
    }

    /// Position of the collection `name`, made first if it is not there.
    fn slot(&mut self, name: &str) -> (i: usize)
        requires
            old(self).wf(),
        ensures
            final(self).wf(),
            i < final(self).collections.keys().len(),
            final(self).collections.keys()[i as int] == name@,
            final(self)@ == if old(self)@.contains_key(name@) {
                old(self)@
            } else {
                old(self)@.insert(name@, CollectionView::empty())
            },
    {
        match self.collections.position(name) {
            Some(i) => i,
            None => {
                let ghost before = *self;
                let fresh: TextMap<VectorEntry> = TextMap::new();
                self.collections.insert(name.to_owned(), fresh);
                proof {
                    let keys = self.collections.keys();
                    let n = before.collections.keys().len() as int;
                    assert(keys[n] == name@);
                    assert forall|q: Seq<char>| self@.contains_key(q) <==> before@.insert(
                        name@,
                        CollectionView::empty(),
                    ).contains_key(q) by {
                        if before.collections.keys().contains(q) {
                            let j = before.collections.keys().index_of(q);
                            assert(keys[j] == q);
                        }
                    }
                    assert forall|q: Seq<char>| self@.contains_key(q) implies self@[q]
                        == before@.insert(name@, CollectionView::empty())[q] by {
                        let j = keys.index_of(q);
                        assert(keys[j] == q);
                        self.lemma_at(j);
                        if q != name@ {
                            before.lemma_at(j);
                        } else {
                            assert(j == n);
                            assert(content(fresh) == CollectionView::empty());
                        }
                    }
                    assert(self@ =~= before@.insert(name@, CollectionView::empty()));
                }
                self.collections.len() - 1
            },
        }
    }

    /// Whether the collection `name` is there.
    pub fn collection_exists(&self, collection_name: &str) -> (answer: Result<bool>)
        requires
            self.wf(),
        ensures
            answer == Ok::<bool, Error>(self@.contains_key(collection_name@)),
    {
        Ok(self.collections.contains_key(collection_name))
    }

    /// Number of entries in the collection `name`; 0 if it is not there.
    pub fn count(&self, collection_name: &str) -> (answer: Result<usize>)
        requires
            self.wf(),
        ensures
            answer is Ok,
            answer->Ok_0 == if self@.contains_key(collection_name@) {
                self@[collection_name@].ids.len()
            } else {
                0
            },
    {
        match self.collections.position(collection_name) {
            Some(i) => {
                proof {
                    self.lemma_at(i as int);
                }
                Ok(self.collections.value_at(i).len())
            },
            None => Ok(0),
        }
    }

    /// Remove the collection `name` with all its entries.
    pub fn delete_collection(&mut self, collection_name: &str) -> (done: Result<()>)
        requires
            old(self).wf(),
        ensures
            final(self).wf(),
            done is Ok,
            final(self)@ == old(self)@.remove(collection_name@),
    {
        let ghost before = *self;
        let former = self.collections.remove(collection_name);
        proof {
            let keys = self.collections.keys();
            let old_keys = before.collections.keys();
            if former is Some {
                let i = old_keys.index_of(collection_name@);
                assert(old_keys[i] == collection_name@);
                assert forall|q: Seq<char>| self@.contains_key(q) <==> before@.remove(
                    collection_name@,
                ).contains_key(q) by {
                    if keys.contains(q) {
                        let j = keys.index_of(q);
                        let j0 = if j < i { j } else { j + 1 };
                        assert(old_keys[j0] == q);
                    }
                    if old_keys.contains(q) && q != collection_name@ {
                        let j0 = old_keys.index_of(q);
                        let j = if j0 < i { j0 } else { j0 - 1 };
                        assert(keys[j] == q);
                    }
                }
                assert forall|q: Seq<char>| self@.contains_key(q) implies self@[q]
                    == before@.remove(collection_name@)[q] by {
                    let j = keys.index_of(q);
                    let j0 = if j < i { j } else { j + 1 };
                    assert(keys[j] == q);
                    assert(old_keys[j0] == q);
                    self.lemma_at(j);
                    before.lemma_at(j0);
                }
                assert forall|j: int| 0 <= j < self.collections.items().len() implies entries_wf(
                    #[trigger] self.collections.items()[j],
                ) by {
                    let j0 = if j < i { j } else { j + 1 };
                    assert(self.collections.items()[j] == before.collections.items()[j0]);
                }
            }
            assert(self@ =~= before@.remove(collection_name@));
        }
        Ok(())
    }

    /// Store one entry in the collection at position `i`.
    fn put_entry(&mut self, i: usize, id: String, entry: VectorEntry)
        requires
            old(self).wf(),
            i < old(self).collections.keys().len(),
            entry.metadata.wf(),
        ensures
            final(self).wf(),
            final(self).collections.keys() == old(self).collections.keys(),
            final(self)@ == old(self)@.insert(
                old(self).collections.keys()[i as int],
                old(self)@[old(self).collections.keys()[i as int]].put(id@, entry@),
            ),
    {
        let ghost before = *self;
        let ghost name = self.collections.keys()[i as int];
        let ghost was = self.collections.items()[i as int];
        let table = self.collections.value_at_mut(i);
        let former = table.insert(id, entry);
        proof {
            let now = self.collections.items()[i as int];
            assert(entries_wf(was));
            was.lemma_view();
            assert(content(now) == content(was).put(id@, entry@)) by {
                if was.keys().contains(id@) {
                    assert(former is Some);
                } else {
                    assert(former is None);
                }
            }
            assert(entries_wf(now)) by {
                assert forall|j: int| 0 <= j < now.items().len() implies (
                #[trigger] now.items()[j]).metadata.wf() by {
                    if former is Some {
                        let at = was.keys().index_of(id@);
                        if j != at {
                            assert(now.items()[j] == was.items()[j]);
                        }
                    } else {
                        if j < was.items().len() {
                            assert(now.items()[j] == was.items()[j]);
                        }
                    }
                }
            }
            assert forall|j: int| 0 <= j < self.collections.items().len() implies entries_wf(
                #[trigger] self.collections.items()[j],
            ) by {
                if j != i {
                    assert(self.collections.items()[j] == before.collections.items()[j]);
                }
            }
            before.lemma_at(i as int);
            self.lemma_at(i as int);
            assert forall|q: Seq<char>| self@.contains_key(q) implies self@[q] == before@.insert(
                name,
                before@[name].put(id@, entry@),
            )[q] by {
                let j = self.collections.keys().index_of(q);
                assert(self.collections.keys()[j] == q);
                self.lemma_at(j);
                before.lemma_at(j);
            }
            assert(self@ =~= before@.insert(name, before@[name].put(id@, entry@)));
        }
    }

    /// Store each item of the batch in the collection `name`, which is made
    /// first if it is not there. An item whose identifier is already in the
    /// collection takes the place of the entry that had it.
    pub fn upsert(
        &mut self,
        collection_name: &str,
        vectors: Vec<(String, Vec<u32>, VectorMetadata)>,
    ) -> (done: Result<()>)
        requires
            old(self).wf(),
            forall|k: int| 0 <= k < vectors@.len() ==> (#[trigger] vectors@[k]).2.wf(),
        ensures
            final(self).wf(),
            done is Ok,
            final(self)@ == old(self)@.insert(
                collection_name@,
                (if old(self)@.contains_key(collection_name@) {
                    old(self)@[collection_name@]
                } else {
                    CollectionView::empty()
                }).put_all(batch_view(vectors@)),
            ),
    {
        let ghost before = *self;
        let ghost start = if before@.contains_key(collection_name@) {
            before@[collection_name@]
        } else {
            CollectionView::empty()
        };
        let ghost batch = batch_view(vectors@);
        let i = self.slot(collection_name);
        proof {
            assert(self@ =~= before@.insert(collection_name@, start));
            assert(batch.take(0) =~= Seq::<(Seq<char>, EntryView)>::empty());
        }
        let ghost all = vectors@;
        for item in it: vectors
            invariant
                it.seq() == all,
                self.wf(),
                i < self.collections.keys().len(),
                self.collections.keys()[i as int] == collection_name@,
                batch == batch_view(all),
                forall|k: int| 0 <= k < all.len() ==> (#[trigger] all[k]).2.wf(),
                self@ == before@.insert(
                    collection_name@,
                    start.put_all(batch.take(it.index() as int)),
                ),
        {
            let ghost done = it.index() as int;
            proof {
                assert(item == all[done]);
                assert(batch.take(done + 1).drop_last() =~= batch.take(done));
                assert(batch.take(done + 1).last() == batch[done]);
                self.lemma_at(i as int);
            }
            let (id, vector, metadata) = item;
            self.put_entry(i, id, VectorEntry { vector, metadata });
        }
        proof {
            assert(batch.take(all.len() as int) =~= batch);
        }
        Ok(())
    }

    /// Remove one entry from the collection at position `i`.
    fn drop_entry(&mut self, i: usize, id: &str)
        requires
            old(self).wf(),
            i < old(self).collections.keys().len(),
        ensures
            final(self).wf(),
            final(self).collections.keys() == old(self).collections.keys(),
            final(self)@ == old(self)@.insert(
                old(self).collections.keys()[i as int],
                old(self)@[old(self).collections.keys()[i as int]].without(id@),
            ),
    {
        let ghost before = *self;
        let ghost name = self.collections.keys()[i as int];
        let ghost was = self.collections.items()[i as int];
        let table = self.collections.value_at_mut(i);
        let former = table.remove(id);
        proof {
            let now = self.collections.items()[i as int];
            assert(entries_wf(was));
            was.lemma_view();
            assert(content(now) == content(was).without(id@));
            assert(entries_wf(now)) by {
                assert forall|j: int| 0 <= j < now.items().len() implies (
                #[trigger] now.items()[j]).metadata.wf() by {
                    if former is Some {
                        let at = was.keys().index_of(id@);
                        let j0 = if j < at { j } else { j + 1 };
                        assert(now.items()[j] == was.items()[j0]);
                    }
                }
            }
            assert forall|j: int| 0 <= j < self.collections.items().len() implies entries_wf(
                #[trigger] self.collections.items()[j],
            ) by {
                if j != i {
                    assert(self.collections.items()[j] == before.collections.items()[j]);
                }
            }
            before.lemma_at(i as int);
            self.lemma_at(i as int);
            assert forall|q: Seq<char>| self@.contains_key(q) implies self@[q] == before@.insert(
                name,
                before@[name].without(id@),
            )[q] by {
                let j = self.collections.keys().index_of(q);
                assert(self.collections.keys()[j] == q);
                self.lemma_at(j);
                before.lemma_at(j);
            }
            assert(self@ =~= before@.insert(name, before@[name].without(id@)));
        }
    }

    /// Remove the entries named in `ids` from the collection `name`.
    /// Identifiers that are not there are passed over, and so is a
    /// collection that is not there.
    pub fn delete(&mut self, collection_name: &str, ids: Vec<String>) -> (done: Result<()>)
        requires
            old(self).wf(),
        ensures
            final(self).wf(),
            done is Ok,
            final(self)@ == if old(self)@.contains_key(collection_name@) {
                old(self)@.insert(
                    collection_name@,
                    old(self)@[collection_name@].without_all(texts(ids@)),
                )
            } else {
                old(self)@
            },
    {
        let ghost before = *self;
        match self.collections.position(collection_name) {
            Some(i) => {
                let ghost start = before@[collection_name@];
                let ghost names = texts(ids@);
                proof {
                    before.lemma_at(i as int);
                    assert(names.take(0) =~= Seq::<Seq<char>>::empty());
                    assert(self@ =~= before@.insert(collection_name@, start));
                }
                let mut k: usize = 0;
                while k < ids.len()
                    invariant
                        self.wf(),
                        0 <= k <= ids@.len(),
                        i < self.collections.keys().len(),
                        self.collections.keys()[i as int] == collection_name@,
                        names == texts(ids@),
                        self@ == before@.insert(
                            collection_name@,
                            start.without_all(names.take(k as int)),
                        ),
                    decreases ids@.len() - k,
                {
                    proof {
                        assert(names.take(k + 1).drop_last() =~= names.take(k as int));
                        assert(names.take(k + 1).last() == ids@[k as int]@);
                        self.lemma_at(i as int);
                    }
                    self.drop_entry(i, ids[k].as_str());
                    k += 1;
                    proof {
                        assert(self@ =~= before@.insert(
                            collection_name@,
                            start.without_all(names.take(k as int)),
                        ));
                    }
                }
                proof {
                    assert(names.take(k as int) =~= names);
                }
                Ok(())
            },
            None => Ok(()),
        }
    }

    /// The error for a collection that is not there.
    fn missing(collection_name: &str) -> (e: Error)
        ensures
            e is VectorStoreError,
            e.message() == missing_collection(collection_name@),
    {
        let text = String::from_str("Collection not found: ").concat(collection_name);
        Error::vector_store(text.as_str())
    }

    /// The vector of each entry of the collection `name`, in the order of
    /// its table: what a caller scores a query against.
    pub fn vectors(&self, collection_name: &str) -> (answer: Result<Vec<Vec<u32>>>)
        requires
            self.wf(),
        ensures
            match answer {
                Ok(list) => self@.contains_key(collection_name@) && views(list@) == vectors_of(
                    self@[collection_name@],
                ),
                Err(e) => !self@.contains_key(collection_name@) && e is VectorStoreError
                    && e.message() == missing_collection(collection_name@),
            },
    {
        match self.collections.position(collection_name) {
            Some(i) => {
                proof {
                    self.lemma_at(i as int);
                }
                let table = self.collections.value_at(i);
                assert(entries_wf(*table));
                let mut list: Vec<Vec<u32>> = Vec::new();
                let mut k: usize = 0;
                let n = table.len();
                while k < n
                    invariant
                        table.wf(),
                        n == table.keys().len(),
                        0 <= k <= n,
                        list@.len() == k,
                        forall|j: int| 0 <= j < k ==> (#[trigger] list@[j])@ == table.values()[j].vector,
                    decreases n - k,
                {
                    list.push(copy_words(&table.value_at(k).vector));
                    k += 1;
                }
                proof {
                    assert(views(list@) =~= vectors_of(content(*table)));
                }
                Ok(list)
            },
            None => Err(Self::missing(collection_name)),
        }
    }

    /// The metadata of every entry of the collection `name`, in the order
    /// of its table. A collection that is not there has none.
    pub fn get_all(&self, collection_name: &str) -> (answer: Result<Vec<VectorMetadata>>)
        requires
            self.wf(),
        ensures
            answer is Ok,
            views(answer->Ok_0@) == if self@.contains_key(collection_name@) {
                metadata_of(self@[collection_name@])
            } else {
                Seq::<MetadataView>::empty()
            },
            forall|k: int| 0 <= k < answer->Ok_0@.len() ==> (#[trigger] answer->Ok_0@[k]).wf(),
    {
        let mut list: Vec<VectorMetadata> = Vec::new();
        match self.collections.position(collection_name) {
            Some(i) => {
                proof {
                    self.lemma_at(i as int);
                }
                let table = self.collections.value_at(i);
                assert(entries_wf(*table));
                let mut k: usize = 0;
                let n = table.len();
                while k < n
                    invariant
                        entries_wf(*table),
                        n == table.keys().len(),
                        0 <= k <= n,
                        list@.len() == k,
                        forall|j: int|
                            0 <= j < k ==> (#[trigger] list@[j])@ == table.values()[j].metadata
                                && list@[j].wf(),
                    decreases n - k,
                {
                    let entry = table.value_at(k);
                    assert(entry == table.items()[k as int]);
                    list.push(entry.metadata.clone());
                    k += 1;
                }
                proof {
                    assert(views(list@) =~= metadata_of(content(*table)));
                }
            },
            None => {
                proof {
                    assert(views(list@) =~= Seq::<MetadataView>::empty());
                }
            },
        }
        Ok(list)
    }

    /// The metadata of the entry named `id` in the collection `name`, if
    /// both are there.
    pub fn get_by_id(&self, collection_name: &str, id: &str) -> (answer: Result<
        Option<VectorMetadata>,
    >)
        requires
            self.wf(),
        ensures
            answer is Ok,
            match answer->Ok_0 {
                Some(m) => {
                    &&& self@.contains_key(collection_name@)
                    &&& self@[collection_name@].ids.contains(id@)
                    &&& m@ == self@[collection_name@].entries[self@[collection_name@].ids.index_of(
                        id@,
                    )].metadata
                    &&& m.wf()
                },
                None => !self@.contains_key(collection_name@)
                    || !self@[collection_name@].ids.contains(id@),
            },
    {
        match self.collections.position(collection_name) {
            Some(i) => {
                proof {
                    self.lemma_at(i as int);
                }
                let table = self.collections.value_at(i);
                assert(entries_wf(*table));
                match table.position(id) {
                    Some(k) => {
                        let entry = table.value_at(k);
                        assert(entry == table.items()[k as int]);
                        Ok(Some(entry.metadata.clone()))
                    },
                    None => Ok(None),
                }
            },
            None => Ok(None),
        }
    }

    /// Rank the entries of the collection `name` by the given scores, one
    /// per entry in the order of its table. Entries whose score lies below
    /// the threshold are left out, the rest come by descending score, and at
    /// most `limit` are returned.
    pub fn search(
        &self,
        collection_name: &str,
        scores: &Vec<Score>,
        limit: usize,
        score_threshold: Option<Score>,
    ) -> (answer: Result<Vec<SearchResult>>)
        requires
            self.wf(),
        ensures
            match answer {
                Ok(hits) => {
                    &&& self@.contains_key(collection_name@)
                    &&& scores@.len() == self@[collection_name@].ids.len()
                    &&& views(hits@) == hits_of(
                        self@[collection_name@],
                        scores@,
                        top(scores@, score_threshold, limit as nat),
                    )
                    &&& forall|k: int| 0 <= k < hits@.len() ==> (#[trigger] hits@[k]).metadata.wf()
                },
                Err(e) => if self@.contains_key(collection_name@) {
                    &&& scores@.len() != self@[collection_name@].ids.len()
                    &&& e is InvalidArgument
                    &&& e.message() == wrong_score_count()
                } else {
                    &&& e is VectorStoreError
                    &&& e.message() == missing_collection(collection_name@)
                },
            },
    {
        match self.collections.position(collection_name) {
            Some(i) => {
                proof {
                    self.lemma_at(i as int);
                }
                let table = self.collections.value_at(i);
                assert(entries_wf(*table));
                if scores.len() != table.len() {
                    return Err(Error::invalid_arg("one score per entry is required"));
                }
                let order = rank(scores, score_threshold, limit);
                let ghost wanted = hits_of(
                    content(*table),
                    scores@,
                    top(scores@, score_threshold, limit as nat),
                );
                let mut hits: Vec<SearchResult> = Vec::new();
                let mut k: usize = 0;
                while k < order.len()
                    invariant
                        entries_wf(*table),
                        scores@.len() == table.keys().len(),
                        0 <= k <= order@.len(),
                        hits@.len() == k,
                        positions(order@) == top(scores@, score_threshold, limit as nat),
                        forall|j: int| 0 <= j < order@.len() ==> (#[trigger] order@[j]) < scores@.len(),
                        wanted == hits_of(
                            content(*table),
                            scores@,
                            top(scores@, score_threshold, limit as nat),
                        ),
                        forall|j: int|
                            0 <= j < k ==> (#[trigger] hits@[j])@ == wanted[j]
                                && hits@[j].metadata.wf(),
                    decreases order@.len() - k,
                {
                    let at = order[k];
                    proof {
                        assert(positions(order@)[k as int] == at);
                    }
                    let entry = table.value_at(at);
                    assert(entry == table.items()[at as int]);
                    hits.push(
                        SearchResult {
                            id: table.key_at(at).clone(),
                            score: scores[at],
                            metadata: entry.metadata.clone(),
                        },
                    );
                    k += 1;
                }
                proof {
                    assert(positions(order@).len() == order@.len());
                    assert(views(hits@) =~= wanted);
                }
                Ok(hits)
            },
            None => Err(Self::missing(collection_name)),
        }
    }
}

impl Default for InMemoryStore {
    /// A store without collections.
    fn default() -> (store: Self)
        ensures
            store.wf(),
            store@ == Map::<Seq<char>, CollectionView>::empty(),
    {
        InMemoryStore::new()
    }
}

} // verus!
