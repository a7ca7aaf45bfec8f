//! Figures on the memories of a user.

use crate::memory::MemoryItem;
use crate::text_map::TextMap;
use vstd::prelude::*;

verus! {

/// The kind of each memory of a list.
pub open spec fn kinds(items: Seq<MemoryItem>) -> Seq<Seq<char>> {
    Seq::new(items.len(), |i: int| items[i].memory_type@)
}

/// How often `kind` occurs among `kinds`.
pub open spec fn occurrences(kinds: Seq<Seq<char>>, kind: Seq<char>) -> nat
    decreases kinds.len(),
{
    if kinds.len() == 0 {
        0
    } else {
        occurrences(kinds.drop_last(), kind) + if kinds.last() == kind {
            1nat
        } else {
            0nat
        }
    }
}

/// A kind occurs at most as often as there are memories, and at least once
/// exactly when it is among them.
pub proof fn lemma_occurrences(kinds: Seq<Seq<char>>, kind: Seq<char>)
    ensures
        occurrences(kinds, kind) <= kinds.len(),
        occurrences(kinds, kind) > 0 <==> kinds.contains(kind),
    decreases kinds.len(),
{
    if kinds.len() > 0 {
        let front = kinds.drop_last();
        lemma_occurrences(front, kind);
        if front.contains(kind) {
            let j = choose|j: int| 0 <= j < front.len() && front[j] == kind;
            assert(kinds[j] == kind);
        }
        if kinds.contains(kind) {
            let j = choose|j: int| 0 <= j < kinds.len() && kinds[j] == kind;
            if j < front.len() {
                assert(front[j] == kind);
            } else {
                assert(kinds.last() == kind);
            }
        } else {
            assert(kinds[kinds.len() - 1] != kind);
        }
    }
}

/// The number of memories of each kind, the kinds in the order in which
/// they first occur.
pub fn type_counts(memories: &Vec<MemoryItem>) -> (counts: TextMap<usize>)
    ensures
        counts.wf(),
        forall|kind: Seq<char>| counts@.contains_key(kind) <==> kinds(memories@).contains(kind),
        forall|kind: Seq<char>|
            counts@.contains_key(kind) ==> #[trigger] counts@[kind] == occurrences(
                kinds(memories@),
                kind,
            ),
{
    let mut counts: TextMap<usize> = TextMap::new();
    let ghost all = kinds(memories@);
    let mut i: usize = 0;
    proof {
        assert(all.take(0) =~= Seq::<Seq<char>>::empty());
    }
    while i < memories.len()
        invariant
            0 <= i <= memories@.len(),
            all == kinds(memories@),
            counts.wf(),
            forall|kind: Seq<char>|
                counts@.contains_key(kind) <==> occurrences(all.take(i as int), kind) > 0,
            forall|kind: Seq<char>|
                counts@.contains_key(kind) ==> #[trigger] counts@[kind] == occurrences(
                    all.take(i as int),
                    kind,
                ),
        decreases memories@.len() - i,
    {
        let kind = &memories[i].memory_type;
        let ghost before = counts@;
        let ghost seen = all.take(i as int);
        let ghost next = all.take(i + 1);
        proof {
            assert(next.drop_last() =~= seen);
            assert(next.last() == kind@);
            lemma_occurrences(seen, kind@);
            counts.lemma_view();
        }
        match counts.position(kind.as_str()) {
            Some(at) => {
                let ghost was = counts.values()[at as int];
                proof {
                    assert(before.contains_key(kind@));
                    assert(was == before[kind@]);
                }
                let slot = counts.value_at_mut(at);
                *slot = *slot + 1;
                proof {
                    counts.lemma_view();
                    assert(counts@ =~= before.insert(kind@, (was + 1) as usize));
                }
            },
            None => {
                counts.insert(kind.clone(), 1);
            },
        }
        i += 1;
        proof {
            assert forall|other: Seq<char>| counts@.contains_key(other) implies #[trigger] counts@[other]
                == occurrences(all.take(i as int), other) by {
                if other != kind@ {
                    assert(before.contains_key(other));
                }
            }
        }
    }
    proof {
        assert(all.take(i as int) =~= all);
        assert forall|kind: Seq<char>| counts@.contains_key(kind) <==> all.contains(kind) by {
            lemma_occurrences(all, kind);
        }
    }
    counts
}

} // verus!
