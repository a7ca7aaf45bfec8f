//! Operations in batches: what to do, how it went, how to split the work.

use crate::text::{clone_opt_text, opt_text};
use vstd::prelude::*;

verus! {

/// The kind of a batch operation.
#[derive(Debug, Clone, Copy, PartialEq, Eq, Structural)]
pub enum BatchOpType {
    Add,
    Update,
    Delete,
}

/// One operation of a batch.
#[derive(Debug)]
pub struct BatchOp {
    /// What to do.
    pub op_type: BatchOpType,
    /// The memory it is about.
    pub memory_id: String,
    /// The content, for adding and updating.
    pub content: Option<String>,
    /// The kind of memory, for adding.
    pub memory_type: Option<String>,
}

/// The mathematical content of a `BatchOp`.
pub ghost struct BatchOpView {
    pub op_type: BatchOpType,
    pub memory_id: Seq<char>,
    pub content: Option<Seq<char>>,
    pub memory_type: Option<Seq<char>>,
}

impl View for BatchOp {
    type V = BatchOpView;

    open spec fn view(&self) -> BatchOpView {
        BatchOpView {
            op_type: self.op_type,
            memory_id: self.memory_id@,
            content: opt_text(self.content),
            memory_type: opt_text(self.memory_type),
        }
    }
}

impl Clone for BatchOp {
    fn clone(&self) -> (copy: Self)
        ensures
            copy@ == self@,
    {
        BatchOp {
            op_type: self.op_type,
            memory_id: self.memory_id.clone(),
            content: clone_opt_text(&self.content),
            memory_type: clone_opt_text(&self.memory_type),
        }
    }
}

impl BatchOp {
    /// The operation that adds `content` of kind `memory_type`.
    pub fn add(memory_id: String, content: String, memory_type: String) -> (op: Self)
        ensures
            op@ == (BatchOpView {
                op_type: BatchOpType::Add,
                memory_id: memory_id@,
                content: Some(content@),
                memory_type: Some(memory_type@),
            }),
    {
        BatchOp {
            op_type: BatchOpType::Add,
            memory_id,
            content: Some(content),
            memory_type: Some(memory_type),
        }
    }

    /// The operation that gives the memory new content.
    pub fn update(memory_id: String, content: String) -> (op: Self)
        ensures
            op@ == (BatchOpView {
                op_type: BatchOpType::Update,
                memory_id: memory_id@,
                content: Some(content@),
                memory_type: None,
            }),
    {
        BatchOp { op_type: BatchOpType::Update, memory_id, content: Some(content), memory_type: None }
    }

    /// The operation that deletes the memory.
    pub fn delete(memory_id: String) -> (op: Self)
        ensures
            op@ == (BatchOpView {
                op_type: BatchOpType::Delete,
                memory_id: memory_id@,
                content: None,
                memory_type: None,
            }),
    {
        BatchOp { op_type: BatchOpType::Delete, memory_id, content: None, memory_type: None }
    }
}

/// The tally of a batch: how many operations there were, how many went
/// well, how many failed, and the message of each failure in turn.
#[derive(Debug, Clone)]
pub struct BatchResult {
    /// Operations in the batch.
    pub total: usize,
    /// Operations that went well.
    pub successful: usize,
    /// Operations that failed.
    pub failed: usize,
    /// The message of each failure.
    pub errors: Vec<String>,
}

impl BatchResult {
    /// The tally of a batch of `total` operations before any is done.
    pub fn new(total: usize) -> (tally: Self)
        ensures
            tally.total == total,
            tally.successful == 0,
            tally.failed == 0,
            tally.errors@.len() == 0,
    {
        BatchResult { total, successful: 0, failed: 0, errors: Vec::new() }
    }

    /// Count one operation that went well.
    pub fn add_success(&mut self)
        requires
            old(self).successful < usize::MAX,
        ensures
            final(self).successful == old(self).successful + 1,
            final(self).total == old(self).total,
            final(self).failed == old(self).failed,
            final(self).errors == old(self).errors,
    {
        self.successful += 1;
    }

    /// Count one operation that failed, with its message.
    pub fn add_error(&mut self, error: String)
        requires
            old(self).failed < usize::MAX,
        ensures
            final(self).failed == old(self).failed + 1,
            final(self).errors@ == old(self).errors@.push(error),
            final(self).total == old(self).total,
            final(self).successful == old(self).successful,
    {
        self.failed += 1;
        self.errors.push(error);
    }

    /// Whether no operation failed.
    pub fn all_succeeded(&self) -> (answer: bool)
        ensures
            answer == (self.failed == 0),
    {
        self.failed == 0
    }

    /// What the success rate is the ratio of: the operations that went well
    /// and the operations in the batch. An empty batch counts as a rate of
    /// one, given here as one of one.
    pub fn success_parts(&self) -> (parts: (usize, usize))
        ensures
            parts == if self.total == 0 {
                (1usize, 1usize)
            } else {
                (self.successful, self.total)
            },
    {
        if self.total == 0 {
            (1, 1)
        } else {
            (self.successful, self.total)
        }
    }
}

/// How a batch is worked through.
#[derive(Debug)]
pub struct BatchProcessor {
    /// Operations per batch.
    pub batch_size: usize,
    /// Whether work goes on after a failure.
    pub continue_on_error: bool,
}

/// The batches that `ops` falls into: runs of `size` operations each, the
/// last one as long as what is left.
pub open spec fn chunks<T>(ops: Seq<T>, size: nat) -> Seq<Seq<T>>
    decreases ops.len(),
{
    if size == 0 || ops.len() == 0 {
        Seq::empty()
    } else if ops.len() <= size {
        seq![ops]
    } else {
        seq![ops.take(size as int)] + chunks(ops.skip(size as int), size)
    }
}

/// The batch size that suits a number of operations.
pub open spec fn suited_batch_size(op_count: nat) -> nat {
    if op_count < 10 {
        op_count
    } else if op_count < 100 {
        10
    } else if op_count < 1000 {
        32
    } else {
        64
    }
}

/// The views of the operations of each batch.
pub open spec fn batch_views(batches: Seq<Vec<BatchOp>>) -> Seq<Seq<BatchOpView>> {
    Seq::new(batches.len(), |i: int| crate::text::views(batches[i]@))
}

/// Batches hold every operation once, in order: joined together they are
/// the operations that were split.
pub proof fn lemma_chunks_join<T>(ops: Seq<T>, size: nat)
    requires
        size > 0,
    ensures
        chunks(ops, size).flatten() == ops,
        forall|i: int|
            0 <= i < chunks(ops, size).len() ==> 0 < (#[trigger] chunks(ops, size)[i]).len()
                <= size,
        forall|i: int|
            0 <= i < chunks(ops, size).len() - 1 ==> (#[trigger] chunks(ops, size)[i]).len()
                == size,
    decreases ops.len(),
{
    if ops.len() == 0 {
        assert(chunks(ops, size).flatten() =~= ops);
    } else if ops.len() <= size {
        assert(seq![ops].flatten() =~= ops) by {
            assert(seq![ops].drop_first() =~= Seq::<Seq<T>>::empty());
            assert(seq![ops].first() == ops);
            assert(Seq::<Seq<T>>::empty().flatten() =~= Seq::<T>::empty());
            assert(seq![ops].flatten() == ops + Seq::<Seq<T>>::empty().flatten());
        }
    } else {
        let head = ops.take(size as int);
        let tail = ops.skip(size as int);
        lemma_chunks_join(tail, size);
        let rest = chunks(tail, size);
        let all = chunks(ops, size);
        assert(all.first() == head);
        assert(all.drop_first() =~= rest);
        assert(all.flatten() == head + rest.flatten());
        assert(head + tail =~= ops);
        assert forall|i: int| 0 <= i < all.len() implies 0 < (#[trigger] all[i]).len() <= size by {
            if i > 0 {
                assert(all[i] == rest[i - 1]);
            }
        }
        assert forall|i: int| 0 <= i < all.len() - 1 implies (#[trigger] all[i]).len() == size by {
            if i > 0 {
                assert(all[i] == rest[i - 1]);
            }
        }
    }
}

impl BatchProcessor {
    /// A processor for batches of `batch_size` that goes on after failures.
    pub fn new(batch_size: usize) -> (p: Self)
        ensures
            p.batch_size == batch_size,
            p.continue_on_error,
    {
        BatchProcessor { batch_size, continue_on_error: true }
    }

    /// Split `ops` into batches of the processor's size.
    pub fn split_into_batches(&self, ops: Vec<BatchOp>) -> (batches: Vec<Vec<BatchOp>>)
        requires
            self.batch_size > 0,
        ensures
            batch_views(batches@) == chunks(crate::text::views(ops@), self.batch_size as nat),
    {
        let ghost all = crate::text::views(ops@);
        let ghost size = self.batch_size as nat;
        let mut batches: Vec<Vec<BatchOp>> = Vec::new();
        let mut current: Vec<BatchOp> = Vec::new();
        let mut start: usize = 0;
        let mut i: usize = 0;
        proof {
            assert(all.skip(0) =~= all);
            assert(batch_views(batches@) =~= Seq::<Seq<BatchOpView>>::empty());
        }
        while i < ops.len()
            invariant
                0 <= start <= i <= ops@.len(),
                size == self.batch_size,
                size > 0,
                all == crate::text::views(ops@),
                current@.len() == i - start,
                current@.len() < size,
                crate::text::views(current@) == all.subrange(start as int, i as int),
                chunks(all, size) == batch_views(batches@) + chunks(all.skip(start as int), size),
            decreases ops@.len() - i,
        {
            current.push(ops[i].clone());
            i += 1;
            proof {
                assert(crate::text::views(current@) =~= all.subrange(start as int, i as int));
            }
            if current.len() == self.batch_size {
                let ghost rest = all.skip(start as int);
                let ghost before = batch_views(batches@);
                let ghost full = crate::text::views(current@);
                proof {
                    assert(full =~= rest.take(size as int));
                    assert(rest.skip(size as int) =~= all.skip(i as int));
                    if rest.len() <= size {
                        assert(rest =~= full);
                        assert(all.skip(i as int) =~= Seq::<BatchOpView>::empty());
                        assert(chunks(all.skip(i as int), size) =~= Seq::<Seq<BatchOpView>>::empty());
                        assert(chunks(rest, size) =~= seq![full] + chunks(all.skip(i as int), size));
                    }
                }
                batches.push(current);
                current = Vec::new();
                start = i;
                proof {
                    assert(batch_views(batches@) =~= before.push(full));
                    assert(before.push(full) + chunks(all.skip(i as int), size) =~= before + (seq![
                        full,
                    ] + chunks(all.skip(i as int), size)));
                    assert(crate::text::views(current@) =~= all.subrange(start as int, i as int));
                }
            }
        }
        if current.len() > 0 {
            let ghost rest = all.skip(start as int);
            let ghost before = batch_views(batches@);
            let ghost last = crate::text::views(current@);
            proof {
                assert(last =~= rest);
            }
            batches.push(current);
            proof {
                assert(batch_views(batches@) =~= before.push(last));
                assert(before.push(last) =~= before + seq![last]);
            }
        } else {
            proof {
                assert(all.skip(start as int) =~= Seq::<BatchOpView>::empty());
                assert(batch_views(batches@) + Seq::<Seq<BatchOpView>>::empty() =~= batch_views(
                    batches@,
                ));
            }
        }
        batches
    }

    /// The batch size that suits `op_count` operations: the count itself
    /// below ten, then 10, 32 and 64 from ten, a hundred and a thousand on.
    pub fn optimize_batch_size(&self, op_count: usize) -> (size: usize)
        ensures
            size == suited_batch_size(op_count as nat),
    {
        if op_count < 10 {
            op_count
        } else if op_count < 100 {
            10
        } else if op_count < 1000 {
            32
        } else {
            64
        }
    }
}

impl Default for BatchProcessor {
    /// A processor for batches of 32.
    fn default() -> (p: Self)
        ensures
            p.batch_size == 32,
            p.continue_on_error,
    {
        BatchProcessor::new(32)
    }
}

} // verus!
