//! An insertion-ordered map keyed by text.
//!
//! Keys are compared by their characters. No key occurs twice, and a key
//! keeps the position of its first insertion until it is removed.

use crate::text::text_eq;
use vstd::prelude::*;

verus! {

/// One key with its value.
#[derive(Debug)]
pub struct Entry<V> {
    pub key: String,
    pub value: V,
}

/// Insertion-ordered map from text to `V`.
#[derive(Debug)]
pub struct TextMap<V> {
    entries: Vec<Entry<V>>,
}

impl<V: View> View for TextMap<V> {
    type V = Map<Seq<char>, V::V>;

    /// The map as a mathematical map from key text to the view of its value.
    open spec fn view(&self) -> Map<Seq<char>, V::V> {
        Map::new(
            |k: Seq<char>| self.keys().contains(k),
            |k: Seq<char>| self.values()[self.keys().index_of(k)],
        )
    }
}

impl<V: View> TextMap<V> {
    /// The keys in insertion order.
    pub closed spec fn keys(&self) -> Seq<Seq<char>> {
        Seq::new(self.entries@.len(), |i: int| self.entries@[i].key@)
    }

    /// The values, each at the position of its key.
    pub closed spec fn items(&self) -> Seq<V> {
        Seq::new(self.entries@.len(), |i: int| self.entries@[i].value)
    }

    /// The views of the values, each at the position of its key.
    pub open spec fn values(&self) -> Seq<V::V> {
        Seq::new(self.items().len(), |i: int| self.items()[i]@)
    }

    /// What every map upholds: one value per key and no key twice.
    pub open spec fn wf(&self) -> bool {
        &&& self.keys().len() == self.values().len()
        &&& self.keys().no_duplicates()
    }

    /// The facts that tie the view to the two sequences.
    pub proof fn lemma_view(&self)
        requires
            self.wf(),
        ensures
            self@.dom().finite(),
            self@.dom().len() == self.keys().len(),
            self@.dom() == self.keys().to_set(),
            forall|i: int|
                0 <= i < self.keys().len() ==> self@.contains_key(#[trigger] self.keys()[i])
                    && self@[self.keys()[i]] == self.values()[i],
            forall|k: Seq<char>|
                self@.contains_key(k) ==> 0 <= self.keys().index_of(k) < self.keys().len()
                    && self.keys()[self.keys().index_of(k)] == k,
    {
        let keys = self.keys();
        assert(self@.dom() =~= keys.to_set());
        vstd::seq_lib::seq_to_set_is_finite(keys);
        keys.unique_seq_to_set();
        assert forall|i: int| 0 <= i < keys.len() implies self@.contains_key(#[trigger] keys[i])
            && self@[keys[i]] == self.values()[i] by {
            let j = keys.index_of(keys[i]);
            assert(keys.contains(keys[i]));
            assert(keys[j] == keys[i]);
        }
    }

    /// An empty map.
    pub fn new() -> (m: Self)
        ensures
            m.keys() == Seq::<Seq<char>>::empty(),
            m.items() == Seq::<V>::empty(),
            m.values() == Seq::<V::V>::empty(),
            m@ == Map::<Seq<char>, V::V>::empty(),
            m.wf(),
    {
        let m = TextMap { entries: Vec::new() };
        assert(m.keys() =~= Seq::<Seq<char>>::empty());
        assert(m.items() =~= Seq::<V>::empty());
        assert(m.values() =~= Seq::<V::V>::empty());
        assert(m@ =~= Map::<Seq<char>, V::V>::empty());
        m
    }

    /// Number of keys.
    pub fn len(&self) -> (n: usize)
        requires
            self.wf(),
        ensures
            n == self.keys().len(),
            n == self@.dom().len(),
    {
        proof {
            self.lemma_view();
        }
        self.entries.len()
    }

    /// Position of `key` in insertion order, if present.
    pub fn position(&self, key: &str) -> (found: Option<usize>)
        requires
            self.wf(),
        ensures
            match found {
                Some(i) => i < self.keys().len() && self.keys()[i as int] == key@
                    && self.keys().index_of(key@) == i,
                None => !self.keys().contains(key@),
            },
    {
        let mut i: usize = 0;
        while i < self.entries.len()
            invariant
                i <= self.entries@.len(),
                forall|j: int| 0 <= j < i ==> self.keys()[j] != key@,
                self.keys().len() == self.entries@.len(),
                self.wf(),
            decreases self.entries@.len() - i,
        {
            if text_eq(self.entries[i].key.as_str(), key) {
                proof {
                    assert(self.keys()[i as int] == key@);
                    assert(self.keys().contains(key@));
                    let j = self.keys().index_of(key@);
                    assert(self.keys()[j] == key@);
                }
                return Some(i);
            }
            i += 1;
        }
        None
    }

    /// Whether `key` is present.
    pub fn contains_key(&self, key: &str) -> (present: bool)
        requires
            self.wf(),
        ensures
            present == self@.contains_key(key@),
            present == self.keys().contains(key@),
    {
        self.position(key).is_some()
    }

    /// The value stored under `key`, if any.
    pub fn get(&self, key: &str) -> (found: Option<&V>)
        requires
            self.wf(),
        ensures
            match found {
                Some(v) => self@.contains_key(key@) && v@ == self@[key@] && *v
                    == self.items()[self.keys().index_of(key@)],
                None => !self@.contains_key(key@),
            },
    {
        match self.position(key) {
            Some(i) => Some(&self.entries[i].value),
            None => None,
        }
    }

    /// The key at position `i`.
    pub fn key_at(&self, i: usize) -> (key: &String)
        requires
            self.wf(),
            i < self.keys().len(),
        ensures
            key@ == self.keys()[i as int],
    {
        &self.entries[i].key
    }

    /// The value at position `i`.
    pub fn value_at(&self, i: usize) -> (value: &V)
        requires
            self.wf(),
            i < self.keys().len(),
        ensures
            *value == self.items()[i as int],
            value@ == self.values()[i as int],
    {
        &self.entries[i].value
    }

    /// The value at position `i`, to be changed in place. Keys and the other
    /// values stay as they are.
    pub fn value_at_mut(&mut self, i: usize) -> (value: &mut V)
        requires
            old(self).wf(),
            i < old(self).keys().len(),
        ensures
            *value == old(self).items()[i as int],
            final(self).keys() == old(self).keys(),
            final(self).items() == old(self).items().update(i as int, *final(value)),
            final(self).values() == old(self).values().update(i as int, final(value)@),
            final(self).wf(),
    {
        let ghost before = *self;
        let value = &mut self.entries[i].value;
        proof {
            assert(after_borrow(*self).keys() =~= before.keys());
            assert(after_borrow(*self).items() =~= before.items().update(i as int, *final(value)));
            assert(after_borrow(*self).values() =~= before.values().update(
                i as int,
                final(value)@,
            ));
        }
        value
    }

    /// Store `value` under `key`. A key that is already present keeps its
    /// position and hands back its former value; a new key goes last.
    pub fn insert(&mut self, key: String, value: V) -> (former: Option<V>)
        requires
            old(self).wf(),
        ensures
            final(self).wf(),
            final(self)@ == old(self)@.insert(key@, value@),
            match former {
                Some(v) => {
                    &&& old(self)@.contains_key(key@)
                    &&& v == old(self).items()[old(self).keys().index_of(key@)]
                    &&& v@ == old(self)@[key@]
                    &&& final(self).keys() == old(self).keys()
                    &&& final(self).items() == old(self).items().update(
                        old(self).keys().index_of(key@),
                        value,
                    )
                    &&& final(self).values() == old(self).values().update(
                        old(self).keys().index_of(key@),
                        value@,
                    )
                },
                None => {
                    &&& !old(self)@.contains_key(key@)
                    &&& final(self).keys() == old(self).keys().push(key@)
                    &&& final(self).items() == old(self).items().push(value)
                    &&& final(self).values() == old(self).values().push(value@)
                },
            },
    {
        let ghost before = *self;
        match self.position(key.as_str()) {
            Some(i) => {
                let ghost k = key@;
                let ghost shown = value@;
                let ghost held = value;
                let mut value = value;
                core::mem::swap(&mut self.entries[i].value, &mut value);
                proof {
                    assert(self.keys() =~= before.keys());
                    assert(self.items() =~= before.items().update(i as int, held));
                    assert(self.values() =~= before.values().update(i as int, shown));
                    assert(self@ =~= before@.insert(k, shown));
                }
                Some(value)
            },
            None => {
                let ghost k = key@;
                let ghost shown = value@;
                let ghost held = value;
                self.entries.push(Entry { key, value });
                proof {
                    assert(self.keys() =~= before.keys().push(k));
                    assert(self.items() =~= before.items().push(held));
                    assert(self.values() =~= before.values().push(shown));
                    assert(self.keys().no_duplicates());
                    assert forall|q: Seq<char>| self@.contains_key(q) <==> before@.insert(
                        k,
                        shown,
                    ).contains_key(q) by {
                        if before.keys().contains(q) {
                            let j = before.keys().index_of(q);
                            assert(self.keys()[j] == q);
                        }
                        if q == k {
                            assert(self.keys()[before.keys().len() as int] == q);
                        }
                    }
                    assert forall|q: Seq<char>| self@.contains_key(q) implies self@[q]
                        == before@.insert(k, shown)[q] by {
                        let j = self.keys().index_of(q);
                        if q != k {
                            let j0 = before.keys().index_of(q);
                            assert(before.keys()[j0] == q);
                            assert(self.keys()[j0] == q);
                        }
                    }
                    assert(self@ =~= before@.insert(k, shown));
                }
                None
            },
        }
    }

    /// Take `key` out. Later keys move up by one position.
    pub fn remove(&mut self, key: &str) -> (former: Option<V>)
        requires
            old(self).wf(),
        ensures
            final(self).wf(),
            final(self)@ == old(self)@.remove(key@),
            match former {
                Some(v) => {
                    &&& old(self)@.contains_key(key@)
                    &&& v == old(self).items()[old(self).keys().index_of(key@)]
                    &&& v@ == old(self)@[key@]
                    &&& final(self).keys() == old(self).keys().remove(
                        old(self).keys().index_of(key@),
                    )
                    &&& final(self).items() == old(self).items().remove(
                        old(self).keys().index_of(key@),
                    )
                    &&& final(self).values() == old(self).values().remove(
                        old(self).keys().index_of(key@),
                    )
                },
                None => {
                    &&& !old(self)@.contains_key(key@)
                    &&& final(self).keys() == old(self).keys()
                    &&& final(self).items() == old(self).items()
                    &&& final(self).values() == old(self).values()
                },
            },
    {
        let ghost before = *self;
        match self.position(key) {
            Some(i) => {
                let entry = self.entries.remove(i);
                proof {
                    let k = key@;
                    assert(self.keys() =~= before.keys().remove(i as int));
                    assert(self.items() =~= before.items().remove(i as int));
                    assert(self.values() =~= before.values().remove(i as int));
                    assert(self.keys().no_duplicates());
                    assert forall|q: Seq<char>| self@.contains_key(q) <==> before@.remove(
                        k,
                    ).contains_key(q) by {
                        if self.keys().contains(q) {
                            let j = self.keys().index_of(q);
                            let j0 = if j < i { j } else { j + 1 };
                            assert(before.keys()[j0] == q);
                        }
                        if before.keys().contains(q) && q != k {
                            let j0 = before.keys().index_of(q);
                            let j = if j0 < i { j0 } else { j0 - 1 };
                            assert(self.keys()[j] == q);
                        }
                    }
                    assert forall|q: Seq<char>| self@.contains_key(q) implies self@[q]
                        == before@.remove(k)[q] by {
                        let j = self.keys().index_of(q);
                        let j0 = if j < i { j } else { j + 1 };
                        assert(before.keys()[j0] == q);
                        assert(before.keys().index_of(q) == j0);
                    }
                    assert(self@ =~= before@.remove(k));
                }
                Some(entry.value)
            },
            None => {
                proof {
                    assert(self@ =~= before@.remove(key@));
                }
                None
            },
        }
    }

    /// Drop every key.
    pub fn clear(&mut self)
        ensures
            final(self).wf(),
            final(self).keys() == Seq::<Seq<char>>::empty(),
            final(self).items() == Seq::<V>::empty(),
            final(self).values() == Seq::<V::V>::empty(),
            final(self)@ == Map::<Seq<char>, V::V>::empty(),
    {
        self.entries.clear();
        proof {
            assert(self.keys() =~= Seq::<Seq<char>>::empty());
            assert(self.items() =~= Seq::<V>::empty());
            assert(self.values() =~= Seq::<V::V>::empty());
            assert(self@ =~= Map::<Seq<char>, V::V>::empty());
        }
    }
}

impl Clone for TextMap<String> {
    /// A copy with the same keys and values in the same order.
    fn clone(&self) -> (copy: Self)
        ensures
            copy.keys() == self.keys(),
            copy.values() == self.values(),
            copy@ == self@,
            self.wf() ==> copy.wf(),
    {
        let mut entries: Vec<Entry<String>> = Vec::new();
        let mut i: usize = 0;
        while i < self.entries.len()
            invariant
                0 <= i <= self.entries@.len(),
                entries@.len() == i,
                forall|j: int|
                    0 <= j < i ==> (#[trigger] entries@[j]).key@ == self.entries@[j].key@
                        && entries@[j].value@ == self.entries@[j].value@,
            decreases self.entries@.len() - i,
        {
            entries.push(
                Entry { key: self.entries[i].key.clone(), value: self.entries[i].value.clone() },
            );
            i += 1;
        }
        let copy = TextMap { entries };
        proof {
            assert(copy.keys() =~= self.keys());
            assert(copy.values() =~= self.values());
            assert(copy@ =~= self@);
        }
        copy
    }
}

impl<V: View> Default for TextMap<V> {
    /// The empty map.
    fn default() -> (m: Self)
        ensures
            m.keys() == Seq::<Seq<char>>::empty(),
            m.items() == Seq::<V>::empty(),
            m.values() == Seq::<V::V>::empty(),
            m@ == Map::<Seq<char>, V::V>::empty(),
            m.wf(),
    {
        TextMap::new()
    }
}

} // verus!
