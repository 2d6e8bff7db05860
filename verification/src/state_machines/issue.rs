//! How a batch of register writes is issued.
use vstd::prelude::*;

verus! {

/// What to do after one write of a batch.
#[derive(Clone, Copy, Debug, PartialEq, Eq, Structural)]
pub enum BatchStep {
    /// Issue the write at this position, after the delay between writes.
    Next(usize),
    /// All writes were accepted.
    Done,
    /// A write was rejected: the rest of the batch is not issued.
    Abort,
}

/// The step before any write of a batch of `count`.
pub fn batch_start(count: usize) -> (r: BatchStep)
    ensures
        r == if count == 0 {
            BatchStep::Done
        } else {
            BatchStep::Next(0)
        },
{
    if count == 0 {
        BatchStep::Done
    } else {
        BatchStep::Next(0)
    }
}

/// The step after the write at `index` of a batch of `count` was accepted or
/// rejected. There is no delay behind the last write.
pub fn after_write(index: usize, count: usize, accepted: bool) -> (r: BatchStep)
    requires
        index < count,
    ensures
        r == batch_after(index as int, count as int, accepted),
{
    if !accepted {
        BatchStep::Abort
    } else if index + 1 < count {
        BatchStep::Next(index + 1)
    } else {
        BatchStep::Done
    }
}

/// The step after the write at `index`.
pub open spec fn batch_after(index: int, count: int, accepted: bool) -> BatchStep {
    if !accepted {
        BatchStep::Abort
    } else if index + 1 < count {
        BatchStep::Next((index + 1) as usize)
    } else {
        BatchStep::Done
    }
}

/// Behind an accepted write comes the next one, up to the last; behind a rejected
/// one comes none.
pub proof fn law_writes_go_in_order(index: int, count: int)
    requires
        0 <= index < count <= usize::MAX,
    ensures
        batch_after(index, count, false) is Abort,
        index + 1 == count ==> batch_after(index, count, true) is Done,
        index + 1 < count ==> (batch_after(index, count, true) matches BatchStep::Next(next)
            && next == index + 1),
{
}

/// How a batch that is due to issue the write at `index` ends, where
/// `accepted[i]` tells what becomes of write `i`: whether all went through, and
/// how many writes were issued.
pub open spec fn batch_run(accepted: Seq<bool>, index: int) -> (bool, int)
    decreases accepted.len() - index,
{
    if index < 0 || index >= accepted.len() {
        (true, accepted.len() as int)
    } else {
        match batch_after(index, accepted.len() as int, accepted[index]) {
            BatchStep::Next(_) => batch_run(accepted, index + 1),
            BatchStep::Done => (true, index + 1),
            BatchStep::Abort => (false, index + 1),
        }
    }
}

/// A batch succeeds exactly if every write is accepted, and nothing is issued
/// behind the first write that is rejected.
pub proof fn law_batch_stops_at_first_rejection(accepted: Seq<bool>, index: int)
    requires
        0 <= index < accepted.len() <= usize::MAX,
    ensures
        batch_run(accepted, index).0 <==> forall|i: int|
            index <= i < accepted.len() ==> #[trigger] accepted[i],
        batch_run(accepted, index).0 ==> batch_run(accepted, index).1 == accepted.len(),
        !batch_run(accepted, index).0 ==> index < batch_run(accepted, index).1 <= accepted.len()
            && !accepted[batch_run(accepted, index).1 - 1] && forall|i: int|
            index <= i < batch_run(accepted, index).1 - 1 ==> #[trigger] accepted[i],
    decreases accepted.len() - index,
{
    if accepted[index] && index + 1 < accepted.len() {
        law_batch_stops_at_first_rejection(accepted, index + 1);
        assert forall|i: int|
            index <= i < batch_run(accepted, index).1 - 1 && !batch_run(
                accepted,
                index,
            ).0 implies #[trigger] accepted[i] by {
            if i > index {
                assert(accepted[i]);
            }
        }
    }
}

} // verus!
