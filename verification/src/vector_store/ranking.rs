//! Ranking of scored entries: drop what lies below a threshold, order the
//! rest by descending score, keep the first few.
//!
//! Entries are named by their position in the list of scores. Scores that
//! are not numbers are in no order with any other score; they count as
//! equal to everything, and equal entries keep their relative order.

use crate::vector_store::score::Score;
use vstd::prelude::*;

verus! {

/// Whether a score survives the threshold: it does unless a threshold is
/// given and the score is strictly below it.
pub open spec fn passes(score: Score, threshold: Option<Score>) -> bool {
    match threshold {
        Some(t) => !score.below(t),
        None => true,
    }
}

/// The positions whose score passes the threshold, in ascending order.
pub open spec fn kept(scores: Seq<Score>, threshold: Option<Score>) -> Seq<int>
    decreases scores.len(),
{
    if scores.len() == 0 {
        Seq::empty()
    } else {
        let rest = kept(scores.drop_last(), threshold);
        if passes(scores.last(), threshold) {
            rest.push(scores.len() - 1)
        } else {
            rest
        }
    }
}

/// `order` with `x` put in: behind every position it is not above, in front
/// of the trailing positions whose score is strictly below its own.
pub open spec fn place(order: Seq<int>, x: int, scores: Seq<Score>) -> Seq<int>
    decreases order.len(),
{
    if order.len() > 0 && scores[order.last()].below(scores[x]) {
        place(order.drop_last(), x, scores).push(order.last())
    } else {
        order.push(x)
    }
}

/// `items` ordered by descending score, each placed in turn.
pub open spec fn ranked(items: Seq<int>, scores: Seq<Score>) -> Seq<int>
    decreases items.len(),
{
    if items.len() == 0 {
        Seq::empty()
    } else {
        place(ranked(items.drop_last(), scores), items.last(), scores)
    }
}

/// The ranking of `scores`: what passes the threshold, by descending score,
/// cut to at most `limit` positions.
pub open spec fn top(scores: Seq<Score>, threshold: Option<Score>, limit: nat) -> Seq<int> {
    let all = ranked(kept(scores, threshold), scores);
    if limit < all.len() {
        all.take(limit as int)
    } else {
        all
    }
}

/// No score in the list is incomparable.
pub open spec fn all_numbers(scores: Seq<Score>) -> bool {
    forall|i: int| 0 <= i < scores.len() ==> !(#[trigger] scores[i]).incomparable()
}

/// Descending by score, and by ascending position among equal scores.
pub open spec fn descending(order: Seq<int>, scores: Seq<Score>) -> bool {
    forall|a: int, b: int|
        0 <= a < b < order.len() ==> {
            ||| scores[#[trigger] order[b]].key() < scores[#[trigger] order[a]].key()
            ||| (scores[order[b]].key() == scores[order[a]].key() && order[a] < order[b])
        }
}

/// What `kept` holds: exactly the passing positions, ascending.
pub proof fn lemma_kept(scores: Seq<Score>, threshold: Option<Score>)
    ensures
        kept(scores, threshold).len() <= scores.len(),
        forall|k: int|
            0 <= k < kept(scores, threshold).len() ==> 0 <= (#[trigger] kept(scores, threshold)[k])
                < scores.len() && passes(scores[kept(scores, threshold)[k]], threshold),
        forall|a: int, b: int|
            0 <= a < b < kept(scores, threshold).len() ==> (#[trigger] kept(scores, threshold)[a])
                < (#[trigger] kept(scores, threshold)[b]),
        forall|i: int|
            0 <= i < scores.len() && passes(#[trigger] scores[i], threshold) ==> kept(
                scores,
                threshold,
            ).contains(i),
    decreases scores.len(),
{
    if scores.len() > 0 {
        let front = scores.drop_last();
        lemma_kept(front, threshold);
        let rest = kept(front, threshold);
        let all = kept(scores, threshold);
        assert forall|i: int| 0 <= i < scores.len() && passes(
            #[trigger] scores[i],
            threshold,
        ) implies all.contains(i) by {
            if i < scores.len() - 1 {
                assert(front[i] == scores[i]);
                assert(rest.contains(i));
                let k = choose|k: int| 0 <= k < rest.len() && rest[k] == i;
                assert(all[k] == i);
            } else {
                assert(all[all.len() - 1] == i);
            }
        }
        assert forall|k: int| 0 <= k < all.len() implies 0 <= (#[trigger] all[k]) < scores.len()
            && passes(scores[all[k]], threshold) by {
            if k < rest.len() {
                assert(all[k] == rest[k]);
                assert(front[rest[k]] == scores[rest[k]]);
            }
        }
    }
}

/// Where `place` puts `x`: at `p`, when everything from `p` on is strictly
/// below `x` and the position before `p`, if any, is not.
pub proof fn lemma_place_at(order: Seq<int>, x: int, scores: Seq<Score>, p: int)
    requires
        0 <= p <= order.len(),
        forall|j: int| p <= j < order.len() ==> scores[#[trigger] order[j]].below(scores[x]),
        p > 0 ==> !scores[order[p - 1]].below(scores[x]),
    ensures
        place(order, x, scores) == order.insert(p, x),
    decreases order.len(),
{
    if p == order.len() {
        assert(order.insert(p, x) =~= order.push(x));
    } else {
        let front = order.drop_last();
        assert(scores[order[order.len() - 1]].below(scores[x]));
        lemma_place_at(front, x, scores, p);
        assert(front.insert(p, x).push(order.last()) =~= order.insert(p, x));
    }
}

/// `place` adds exactly `x`: the result holds `x` and what `order` held.
pub proof fn lemma_place_members(order: Seq<int>, x: int, scores: Seq<Score>)
    ensures
        place(order, x, scores).len() == order.len() + 1,
        place(order, x, scores).to_multiset() == order.to_multiset().insert(x),
    decreases order.len(),
{
    broadcast use vstd::seq_lib::group_to_multiset_ensures;

    if order.len() > 0 && scores[order.last()].below(scores[x]) {
        let front = order.drop_last();
        lemma_place_members(front, x, scores);
        assert(front.push(order.last()) =~= order);
        assert(place(order, x, scores).to_multiset() =~= order.to_multiset().insert(x));
    }
}

/// A ranking rearranges its items: same length, same positions, each as
/// often as before.
pub proof fn lemma_ranked_members(items: Seq<int>, scores: Seq<Score>)
    ensures
        ranked(items, scores).len() == items.len(),
        ranked(items, scores).to_multiset() == items.to_multiset(),
    decreases items.len(),
{
    broadcast use vstd::seq_lib::group_to_multiset_ensures;

    if items.len() > 0 {
        let front = items.drop_last();
        lemma_ranked_members(front, scores);
        lemma_place_members(ranked(front, scores), items.last(), scores);
        assert(front.push(items.last()) =~= items);
    } else {
        assert(items =~= Seq::<int>::empty());
    }
}

/// Placing keeps a descending order descending, when every score involved
/// is a number and `x` lies behind every position already there.
pub proof fn lemma_place_descending(order: Seq<int>, x: int, scores: Seq<Score>)
    requires
        all_numbers(scores),
        0 <= x < scores.len(),
        forall|k: int| 0 <= k < order.len() ==> 0 <= (#[trigger] order[k]) < x,
        descending(order, scores),
    ensures
        descending(place(order, x, scores), scores),
    decreases order.len(),
{
    let result = place(order, x, scores);
    if order.len() > 0 && scores[order.last()].below(scores[x]) {
        let front = order.drop_last();
        let last = order.last();
        assert(forall|k: int| 0 <= k < front.len() ==> front[k] == order[k]);
        lemma_place_descending(front, x, scores);
        lemma_place_members(front, x, scores);
        let inner = place(front, x, scores);
        assert forall|a: int, b: int| 0 <= a < b < result.len() implies {
            ||| scores[#[trigger] result[b]].key() < scores[#[trigger] result[a]].key()
            ||| (scores[result[b]].key() == scores[result[a]].key() && result[a] < result[b])
        } by {
            if b < inner.len() {
                assert(result[a] == inner[a] && result[b] == inner[b]);
            } else {
                assert(result[b] == last);
                assert(result[a] == inner[a]);
                // inner[a] is x or a member of front
                assert(inner.to_multiset().count(inner[a]) > 0) by {
                    broadcast use vstd::seq_lib::group_to_multiset_ensures;
                    assert(inner.contains(inner[a]));
                }
                if inner[a] == x {
                } else {
                    assert(front.to_multiset().count(inner[a]) > 0);
                    assert(front.contains(inner[a])) by {
                        broadcast use vstd::seq_lib::group_to_multiset_ensures;
                    }
                    let k = choose|k: int| 0 <= k < front.len() && front[k] == inner[a];
                    assert(order[k] == inner[a]);
                    assert(order[order.len() - 1] == last);
                }
            }
        }
    } else {
        assert forall|a: int, b: int| 0 <= a < b < result.len() implies {
            ||| scores[#[trigger] result[b]].key() < scores[#[trigger] result[a]].key()
            ||| (scores[result[b]].key() == scores[result[a]].key() && result[a] < result[b])
        } by {
            if b < order.len() {
                assert(result[a] == order[a] && result[b] == order[b]);
            } else {
                assert(result[b] == x);
                assert(result[a] == order[a]);
                // order[a] is not below the last, the last is not below x
                let n = order.len() - 1;
                assert(!scores[order[n]].below(scores[x]));
                if a < n {
                    assert(scores[order[n]].key() <= scores[order[a]].key());
                }
            }
        }
    }
}

/// Ranking ascending positions whose scores are all numbers gives a
/// descending order.
pub proof fn lemma_ranked_descending(items: Seq<int>, scores: Seq<Score>)
    requires
        all_numbers(scores),
        forall|k: int| 0 <= k < items.len() ==> 0 <= (#[trigger] items[k]) < scores.len(),
        forall|a: int, b: int|
            0 <= a < b < items.len() ==> (#[trigger] items[a]) < (#[trigger] items[b]),
    ensures
        descending(ranked(items, scores), scores),
    decreases items.len(),
{
    if items.len() > 0 {
        let front = items.drop_last();
        let x = items.last();
        assert(forall|k: int| 0 <= k < front.len() ==> front[k] == items[k]);
        lemma_ranked_descending(front, scores);
        lemma_ranked_members(front, scores);
        let order = ranked(front, scores);
        assert forall|k: int| 0 <= k < order.len() implies 0 <= (#[trigger] order[k]) < x by {
            broadcast use vstd::seq_lib::group_to_multiset_ensures;

            assert(order.contains(order[k]));
            assert(order.to_multiset().count(order[k]) > 0);
            assert(front.contains(order[k]));
            let j = choose|j: int| 0 <= j < front.len() && front[j] == order[k];
            assert(items[j] == order[k]);
            assert(items[items.len() - 1] == x);
        }
        lemma_place_descending(order, x, scores);
    }
}

/// A ranking gives at most `limit` positions; each names an entry whose
/// score passes the threshold, and none is given twice.
pub proof fn lemma_top_bounded(scores: Seq<Score>, threshold: Option<Score>, limit: nat)
    ensures
        top(scores, threshold, limit).len() <= limit,
        top(scores, threshold, limit).len() <= scores.len(),
        top(scores, threshold, limit).no_duplicates(),
        forall|k: int|
            0 <= k < top(scores, threshold, limit).len() ==> 0 <= (#[trigger] top(
                scores,
                threshold,
                limit,
            )[k]) < scores.len() && passes(scores[top(scores, threshold, limit)[k]], threshold),
{
    broadcast use vstd::seq_lib::group_to_multiset_ensures;

    let items = kept(scores, threshold);
    let all = ranked(items, scores);
    let cut = top(scores, threshold, limit);
    lemma_kept(scores, threshold);
    lemma_ranked_members(items, scores);
    assert(items.no_duplicates());
    items.lemma_multiset_has_no_duplicates();
    all.lemma_multiset_has_no_duplicates_conv();
    assert forall|k: int| 0 <= k < cut.len() implies 0 <= (#[trigger] cut[k]) < scores.len()
        && passes(scores[cut[k]], threshold) by {
        assert(cut[k] == all[k]);
        assert(all.contains(all[k]));
        assert(all.to_multiset().count(all[k]) > 0);
        assert(items.contains(all[k]));
        let j = choose|j: int| 0 <= j < items.len() && items[j] == all[k];
        assert(passes(scores[items[j]], threshold));
    }
}

/// Where every score is a number, a ranking is ordered by non-increasing
/// score, and entries of equal score come in the order of their positions.
pub proof fn lemma_top_descending(scores: Seq<Score>, threshold: Option<Score>, limit: nat)
    requires
        all_numbers(scores),
    ensures
        descending(top(scores, threshold, limit), scores),
        forall|a: int, b: int|
            0 <= a <= b < top(scores, threshold, limit).len() ==> !scores[#[trigger] top(
                scores,
                threshold,
                limit,
            )[a]].below(scores[#[trigger] top(scores, threshold, limit)[b]]),
{
    let items = kept(scores, threshold);
    let all = ranked(items, scores);
    let cut = top(scores, threshold, limit);
    lemma_kept(scores, threshold);
    lemma_ranked_descending(items, scores);
    assert forall|a: int, b: int| 0 <= a < b < cut.len() implies {
        ||| scores[#[trigger] cut[b]].key() < scores[#[trigger] cut[a]].key()
        ||| (scores[cut[b]].key() == scores[cut[a]].key() && cut[a] < cut[b])
    } by {
        assert(cut[a] == all[a] && cut[b] == all[b]);
    }
    assert forall|a: int, b: int| 0 <= a <= b < cut.len() implies !scores[#[trigger] cut[a]].below(
        scores[#[trigger] cut[b]],
    ) by {
        if a < b {
            assert(scores[cut[b]].key() <= scores[cut[a]].key());
        }
    }
}

/// Where every score and the threshold are numbers, no score in a ranking
/// is smaller than the threshold.
pub proof fn lemma_top_meets_threshold(scores: Seq<Score>, threshold: Score, limit: nat)
    requires
        all_numbers(scores),
        !threshold.incomparable(),
    ensures
        forall|k: int|
            0 <= k < top(scores, Some(threshold), limit).len() ==> scores[#[trigger] top(
                scores,
                Some(threshold),
                limit,
            )[k]].key() >= threshold.key(),
{
    lemma_top_bounded(scores, Some(threshold), limit);
}

/// Where every score is a number, nothing that a ranking leaves out for
/// want of room has a higher score than anything it holds.
pub proof fn lemma_top_is_best(scores: Seq<Score>, threshold: Option<Score>, limit: nat, i: int)
    requires
        all_numbers(scores),
        0 <= i < scores.len(),
        passes(scores[i], threshold),
        !top(scores, threshold, limit).contains(i),
    ensures
        forall|k: int|
            0 <= k < top(scores, threshold, limit).len() ==> scores[i].key() <= scores[#[trigger] top(
                scores,
                threshold,
                limit,
            )[k]].key(),
{
    broadcast use vstd::seq_lib::group_to_multiset_ensures;

    let items = kept(scores, threshold);
    let all = ranked(items, scores);
    let cut = top(scores, threshold, limit);
    lemma_kept(scores, threshold);
    lemma_ranked_members(items, scores);
    lemma_ranked_descending(items, scores);
    assert(items.contains(i));
    assert(all.to_multiset().count(i) > 0);
    assert(all.contains(i));
    let j = choose|j: int| 0 <= j < all.len() && all[j] == i;
    assert forall|k: int| 0 <= k < cut.len() implies scores[i].key() <= scores[#[trigger] cut[k]].key() by {
        assert(cut[k] == all[k]);
        if j < cut.len() {
            assert(cut[j] == i);
            assert(cut.contains(i));
        }
        assert(k < j);
    }
}

/// Carry out `place` on a vector of positions.
fn place_into(order: &mut Vec<usize>, x: usize, scores: &Vec<Score>)
    requires
        x < scores.len(),
        forall|k: int| 0 <= k < old(order)@.len() ==> (#[trigger] old(order)@[k]) < scores.len(),
    ensures
        positions(final(order)@) == place(positions(old(order)@), x as int, scores@),
        forall|k: int| 0 <= k < final(order)@.len() ==> (#[trigger] final(order)@[k]) < scores.len(),
{
    let ghost before = order@;
    let mut p: usize = order.len();
    while p > 0 && scores[order[p - 1]].less_than(&scores[x])
        invariant
            order@ == before,
            0 <= p <= order@.len(),
            x < scores.len(),
            forall|k: int| 0 <= k < order@.len() ==> (#[trigger] order@[k]) < scores.len(),
            forall|j: int|
                p <= j < order@.len() ==> scores@[#[trigger] positions(order@)[j]].below(
                    scores@[x as int],
                ),
        decreases p,
    {
        p -= 1;
    }
    proof {
        lemma_place_at(positions(before), x as int, scores@, p as int);
    }
    order.insert(p, x);
    proof {
        assert(positions(order@) =~= positions(before).insert(p as int, x as int));
    }
}

/// Positions as whole numbers.
pub open spec fn positions(order: Seq<usize>) -> Seq<int> {
    Seq::new(order.len(), |k: int| order[k] as int)
}

/// Rank the entries whose scores are `scores`: result `k` is the position
/// of the entry that comes `k`-th, with what lies below `threshold` left
/// out and at most `limit` positions given.
pub fn rank(scores: &Vec<Score>, threshold: Option<Score>, limit: usize) -> (order: Vec<usize>)
    ensures
        positions(order@) == top(scores@, threshold, limit as nat),
        order@.len() <= limit,
        order@.len() <= scores@.len(),
        forall|k: int| 0 <= k < order@.len() ==> (#[trigger] order@[k]) < scores@.len(),
{
    let mut order: Vec<usize> = Vec::new();
    let mut i: usize = 0;
    proof {
        assert(scores@.take(0) =~= Seq::<Score>::empty());
        assert(positions(order@) =~= Seq::<int>::empty());
    }
    while i < scores.len()
        invariant
            0 <= i <= scores@.len(),
            positions(order@) == ranked(kept(scores@.take(i as int), threshold), scores@),
            order@.len() <= i,
            forall|k: int| 0 <= k < order@.len() ==> (#[trigger] order@[k]) < scores@.len(),
        decreases scores@.len() - i,
    {
        let ghost prefix = scores@.take(i as int);
        let ghost next = scores@.take(i + 1);
        proof {
            assert(next.drop_last() =~= prefix);
            assert(next.last() == scores@[i as int]);
            lemma_ranked_members(kept(prefix, threshold), scores@);
        }
        let keep = match threshold {
            Some(t) => !scores[i].less_than(&t),
            None => true,
        };
        if keep {
            proof {
                let items = kept(next, threshold);
                assert(items.drop_last() =~= kept(prefix, threshold));
                assert(items.last() == i);
            }
            place_into(&mut order, i, scores);
            proof {
                lemma_place_members(
                    ranked(kept(prefix, threshold), scores@),
                    i as int,
                    scores@,
                );
            }
        }
        i += 1;
    }
    proof {
        assert(scores@.take(scores@.len() as int) =~= scores@);
        lemma_kept(scores@, threshold);
        lemma_ranked_members(kept(scores@, threshold), scores@);
    }
    let ghost all = order@;
    if limit < order.len() {
        order.truncate(limit);
        proof {
            assert(positions(order@) =~= positions(all).take(limit as int));
        }
    }
    order
}

} // verus!
