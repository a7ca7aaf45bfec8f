//! A bounded cache of embeddings, keyed by the hash of the text and
//! evicting the entry that was used least recently.

use crate::text::copy_words;
use crate::text_map::TextMap;
use crate::utils::{compute_hash, content_hash};
use vstd::prelude::*;

verus! {

/// The cache as a table: keys from the least to the most recently used, and
/// the embedding of each at the same position.
pub ghost struct CacheView {
    pub order: Seq<Seq<char>>,
    pub values: Seq<Seq<u32>>,
}

impl CacheView {
    /// One embedding per key, no key twice.
    pub open spec fn valid(self) -> bool {
        self.order.len() == self.values.len() && self.order.no_duplicates()
    }

    /// Whether `key` is cached.
    pub open spec fn holds(self, key: Seq<char>) -> bool {
        self.order.contains(key)
    }

    /// The embedding cached under `key`.
    pub open spec fn value_of(self, key: Seq<char>) -> Seq<u32> {
        self.values[self.order.index_of(key)]
    }

    /// The table without `key`.
    pub open spec fn without(self, key: Seq<char>) -> CacheView {
        if self.holds(key) {
            CacheView {
                order: self.order.remove(self.order.index_of(key)),
                values: self.values.remove(self.order.index_of(key)),
            }
        } else {
            self
        }
    }

    /// The table with `key` as the most recently used.
    pub open spec fn with_latest(self, key: Seq<char>, value: Seq<u32>) -> CacheView {
        CacheView {
            order: self.without(key).order.push(key),
            values: self.without(key).values.push(value),
        }
    }

    /// The table after a lookup of `key`: a key that is cached becomes the
    /// most recently used, anything else changes nothing.
    pub open spec fn touched(self, key: Seq<char>) -> CacheView {
        if self.holds(key) {
            self.with_latest(key, self.value_of(key))
        } else {
            self
        }
    }

    /// Whether storing `key` makes the least recently used key leave: the
    /// table is at its limit, is not empty, and `key` is new to it.
    pub open spec fn evicts(self, key: Seq<char>, max_size: nat) -> bool {
        self.order.len() >= max_size && self.order.len() > 0 && !self.holds(key)
    }

    /// The table after `value` is stored under `key`.
    pub open spec fn stored(self, key: Seq<char>, value: Seq<u32>, max_size: nat) -> CacheView {
        if self.evicts(key, max_size) {
            CacheView { order: self.order.drop_first(), values: self.values.drop_first() }.with_latest(
                key,
                value,
            )
        } else {
            self.with_latest(key, value)
        }
    }
}

/// The table after each of `keys` is stored in turn, with its value.
pub open spec fn stored_all(
    start: CacheView,
    keys: Seq<Seq<char>>,
    values: Seq<Seq<u32>>,
    max_size: nat,
) -> CacheView
    decreases keys.len(),
{
    if keys.len() == 0 {
        start
    } else {
        stored_all(start, keys.drop_last(), values.drop_last(), max_size).stored(
            keys.last(),
            values.last(),
            max_size,
        )
    }
}

/// Storing a new key in a full cache evicts exactly the least recently
/// used key: it leaves, every other key stays with its embedding, and the
/// new key becomes the most recently used.
pub proof fn lemma_full_cache_evicts_least_recent(
    c: CacheView,
    key: Seq<char>,
    value: Seq<u32>,
    max_size: nat,
)
    requires
        c.valid(),
        max_size > 0,
        c.order.len() == max_size,
        !c.holds(key),
    ensures
        c.stored(key, value, max_size).valid(),
        c.stored(key, value, max_size).order == c.order.drop_first().push(key),
        c.stored(key, value, max_size).values == c.values.drop_first().push(value),
        !c.stored(key, value, max_size).holds(c.order[0]),
        forall|k: Seq<char>|
            c.holds(k) && k != c.order[0] ==> #[trigger] c.stored(key, value, max_size).holds(k)
                && c.stored(key, value, max_size).value_of(k) == c.value_of(k),
{
    let rest = CacheView { order: c.order.drop_first(), values: c.values.drop_first() };
    let after = c.stored(key, value, max_size);
    assert(!rest.holds(key)) by {
        if rest.order.contains(key) {
            let j = choose|j: int| 0 <= j < rest.order.len() && rest.order[j] == key;
            assert(c.order[j + 1] == key);
        }
    }
    assert(after.order =~= c.order.drop_first().push(key));
    assert(after.values =~= c.values.drop_first().push(value));
    assert(!after.holds(c.order[0])) by {
        if after.order.contains(c.order[0]) {
            let j = choose|j: int| 0 <= j < after.order.len() && after.order[j] == c.order[0];
            if j < rest.order.len() {
                assert(c.order[j + 1] == c.order[0]);
            }
        }
    }
    assert forall|k: Seq<char>| c.holds(k) && k != c.order[0] implies #[trigger] after.holds(k)
        && after.value_of(k) == c.value_of(k) by {
        let i = c.order.index_of(k);
        assert(c.order[i] == k);
        assert(after.order[i - 1] == k);
        let j = after.order.index_of(k);
        assert(after.order[j] == k);
        assert(j == i - 1);
    }
}

/// A lookup that hits makes its key the most recently used and keeps the
/// other keys in their order.
pub proof fn lemma_hit_refreshes(c: CacheView, key: Seq<char>)
    requires
        c.valid(),
        c.holds(key),
    ensures
        c.touched(key).valid(),
        c.touched(key).order == c.order.remove(c.order.index_of(key)).push(key),
        c.touched(key).order.last() == key,
        c.touched(key).order.len() == c.order.len(),
        forall|k: Seq<char>|
            c.holds(k) ==> #[trigger] c.touched(key).holds(k) && c.touched(key).value_of(k)
                == c.value_of(k),
{
    let i = c.order.index_of(key);
    let after = c.touched(key);
    assert(c.order[i] == key);
    assert(after.order =~= c.order.remove(i).push(key));
    assert forall|k: Seq<char>| c.holds(k) implies #[trigger] after.holds(k) && after.value_of(k)
        == c.value_of(k) by {
        let a = c.order.index_of(k);
        assert(c.order[a] == k);
        let b = if a < i {
            a
        } else if a == i {
            c.order.len() - 1
        } else {
            a - 1
        };
        assert(after.order[b] == k);
        let j = after.order.index_of(k);
        assert(after.order[j] == k);
        assert(j == b);
    }
}

/// A key that was looked up outlives the keys that were not: in a full
/// cache of at least two keys, after a hit on `key`, storing a new key
/// evicts another key and leaves `key` cached.
pub proof fn lemma_hit_postpones_eviction(
    c: CacheView,
    key: Seq<char>,
    fresh: Seq<char>,
    value: Seq<u32>,
    max_size: nat,
)
    requires
        c.valid(),
        c.order.len() == max_size,
        max_size >= 2,
        c.holds(key),
        !c.holds(fresh),
    ensures
        c.touched(key).stored(fresh, value, max_size).holds(key),
        c.touched(key).stored(fresh, value, max_size).value_of(key) == c.value_of(key),
        !c.touched(key).stored(fresh, value, max_size).holds(c.touched(key).order[0]),
        c.touched(key).order[0] != key,
        c.holds(c.touched(key).order[0]),
{
    lemma_hit_refreshes(c, key);
    let t = c.touched(key);
    assert(!t.holds(fresh)) by {
        if t.order.contains(fresh) {
            let j = choose|j: int| 0 <= j < t.order.len() && t.order[j] == fresh;
            let i = c.order.index_of(key);
            if j < t.order.len() - 1 {
                let j0 = if j < i { j } else { j + 1 };
                assert(c.order[j0] == fresh);
            }
        }
    }
    assert(t.order[t.order.len() - 1] == key);
    assert(t.holds(key));
    lemma_full_cache_evicts_least_recent(t, fresh, value, max_size);
    let i = c.order.index_of(key);
    let first = if 0 < i { 0int } else { 1int };
    assert(t.order[0] == c.order[first]);
    assert(t.order[0] != key);
    assert(t.stored(fresh, value, max_size).holds(key));
    assert(t.stored(fresh, value, max_size).value_of(key) == t.value_of(key));
    assert(t.value_of(key) == c.value_of(key));
}

/// Storing distinct keys in an empty cache keeps the latest `max_size` of
/// them, in the order in which they came.
pub proof fn lemma_distinct_keys_keep_latest(
    keys: Seq<Seq<char>>,
    values: Seq<Seq<u32>>,
    max_size: nat,
)
    requires
        keys.no_duplicates(),
        keys.len() == values.len(),
        max_size > 0,
    ensures
        stored_all(
            CacheView { order: Seq::empty(), values: Seq::empty() },
            keys,
            values,
            max_size,
        ).order == if keys.len() <= max_size {
            keys
        } else {
            keys.skip(keys.len() - max_size)
        },
        stored_all(
            CacheView { order: Seq::empty(), values: Seq::empty() },
            keys,
            values,
            max_size,
        ).valid(),
    decreases keys.len(),
{
    let empty = CacheView { order: Seq::empty(), values: Seq::empty() };
    if keys.len() == 0 {
        assert(keys =~= Seq::<Seq<char>>::empty());
    } else {
        let front = keys.drop_last();
        let key = keys.last();
        lemma_distinct_keys_keep_latest(front, values.drop_last(), max_size);
        let c = stored_all(empty, front, values.drop_last(), max_size);
        assert(!c.holds(key)) by {
            if c.order.contains(key) {
                let j = choose|j: int| 0 <= j < c.order.len() && c.order[j] == key;
                if front.len() <= max_size {
                    assert(keys[j] == key);
                } else {
                    assert(keys[j + front.len() - max_size] == key);
                }
            }
        }
        if front.len() >= max_size {
            lemma_full_cache_evicts_least_recent(c, key, values.last(), max_size);
            assert(c.order.drop_first().push(key) =~= keys.skip(keys.len() - max_size));
        } else {
            assert(c.with_latest(key, values.last()).order =~= keys);
            assert(c.stored(key, values.last(), max_size).valid());
        }
    }
}

/// Cache of embeddings with a fixed limit.
#[derive(Debug)]
pub struct EmbeddingCache {
    cache: TextMap<Vec<u32>>,
    max_size: usize,
}

impl View for EmbeddingCache {
    type V = CacheView;

    closed spec fn view(&self) -> CacheView {
        CacheView { order: self.cache.keys(), values: self.cache.values() }
    }
}

impl EmbeddingCache {
    /// What every cache upholds.
    pub closed spec fn wf(&self) -> bool {
        self.cache.wf()
    }

    /// The limit that the cache was made with.
    pub closed spec fn capacity(&self) -> nat {
        self.max_size as nat
    }

    /// The table of a cache is valid.
    pub proof fn lemma_valid(&self)
        requires
            self.wf(),
        ensures
            self@.valid(),
    {
    }

    /// An empty cache that holds up to `max_size` embeddings.
    pub fn new(max_size: usize) -> (cache: Self)
        ensures
            cache.wf(),
            cache.capacity() == max_size,
            cache@.order == Seq::<Seq<char>>::empty(),
            cache@.values == Seq::<Seq<u32>>::empty(),
    {
        EmbeddingCache { cache: TextMap::new(), max_size }
    }

    /// The key under which `text` is cached: its content hash.
    pub fn compute_hash(text: &str) -> (hash: String)
        ensures
            hash@ == content_hash(text@),
    {
        compute_hash(text)
    }

    /// The embedding cached for `text`, if any. A hit makes the text the
    /// most recently used.
    pub fn get(&mut self, text: &str) -> (found: Option<Vec<u32>>)
        requires
            old(self).wf(),
        ensures
            final(self).wf(),
            final(self).capacity() == old(self).capacity(),
            final(self)@ == old(self)@.touched(content_hash(text@)),
            match found {
                Some(v) => old(self)@.holds(content_hash(text@)) && v@ == old(self)@.value_of(
                    content_hash(text@),
                ),
                None => !old(self)@.holds(content_hash(text@)),
            },
    {
        let hash = compute_hash(text);
        let ghost before = *self;
        match self.cache.remove(hash.as_str()) {
            Some(embedding) => {
                let copy = copy_words(&embedding);
                proof {
                    before.cache.lemma_view();
                }
                self.cache.insert(hash, embedding);
                Some(copy)
            },
            None => None,
        }
    }

    /// Cache `embedding` for `text`, as the most recently used. Where the
    /// cache is full and the text is new, the least recently used entry
    /// leaves first.
    pub fn put(&mut self, text: &str, embedding: Vec<u32>)
        requires
            old(self).wf(),
        ensures
            final(self).wf(),
            final(self).capacity() == old(self).capacity(),
            final(self)@ == old(self)@.stored(
                content_hash(text@),
                embedding@,
                old(self).capacity(),
            ),
    {
        let hash = compute_hash(text);
        let ghost before = *self;
        if self.cache.len() >= self.max_size && self.cache.len() > 0 && !self.cache.contains_key(
            hash.as_str(),
        ) {
            let oldest = self.cache.key_at(0).clone();
            proof {
                assert(before.cache.keys().contains(before.cache.keys()[0]));
                assert(before.cache.keys().index_of(oldest@) == 0) by {
                    let j = before.cache.keys().index_of(oldest@);
                    assert(before.cache.keys()[j] == before.cache.keys()[0]);
                }
            }
            self.cache.remove(oldest.as_str());
            proof {
                assert(self.cache.keys() =~= before.cache.keys().drop_first());
                assert(self.cache.values() =~= before.cache.values().drop_first());
            }
        }
        self.cache.remove(hash.as_str());
        self.cache.insert(hash, embedding);
    }

    /// Drop every entry.
    pub fn clear(&mut self)
        requires
            old(self).wf(),
        ensures
            final(self).wf(),
            final(self).capacity() == old(self).capacity(),
            final(self)@.order == Seq::<Seq<char>>::empty(),
            final(self)@.values == Seq::<Seq<u32>>::empty(),
    {
        self.cache.clear();
    }

    /// Number of cached embeddings.
    pub fn size(&self) -> (n: usize)
        requires
            self.wf(),
        ensures
            n == self@.order.len(),
    {
        self.cache.len()
    }

    /// How full the cache is: the number of entries and the limit. Their
    /// ratio is what the cache reports as its hit rate; it counts no hits.
    pub fn occupancy(&self) -> (parts: (usize, usize))
        requires
            self.wf(),
        ensures
            parts.0 == self@.order.len(),
            parts.1 == self.capacity(),
    {
        (self.cache.len(), self.max_size)
    }

    /// Whether an embedding is cached for `text`. Recency is left as it is.
    pub fn contains(&self, text: &str) -> (answer: bool)
        requires
            self.wf(),
        ensures
            answer == self@.holds(content_hash(text@)),
    {
        let hash = compute_hash(text);
        self.cache.contains_key(hash.as_str())
    }
}

} // verus!
