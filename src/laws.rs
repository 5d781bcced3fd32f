use vstd::prelude::*;
use crate::queue::{AdvanceOutcome, EnqueueOutcome, QueueItem, QueueMode, QueueModel};

verus! {

/// One operation on a guild's queue.
pub enum QueueStep<H> {
    Enqueue(QueueItem<H>),
    Advance,
}

/// The state after one operation.
pub open spec fn apply<H>(m: QueueModel<H>, step: QueueStep<H>) -> QueueModel<H> {
    match step {
        QueueStep::Enqueue(item) => m.enqueued(item),
        QueueStep::Advance => m.advanced(),
    }
}

/// The state after a sequence of operations, applied first to last.
pub open spec fn run<H>(m: QueueModel<H>, steps: Seq<QueueStep<H>>) -> QueueModel<H>
    decreases steps.len(),
{
    if steps.len() == 0 {
        m
    } else {
        apply(run(m, steps.drop_last()), steps.last())
    }
}

proof fn lemma_run_wf<H>(m: QueueModel<H>, steps: Seq<QueueStep<H>>)
    requires
        m.wf(),
    ensures
        run(m, steps).wf(),
    decreases steps.len(),
{
    if steps.len() > 0 {
        lemma_run_wf(m, steps.drop_last());
    }
}

/// Whatever enqueues and advances a guild goes through, starting from a
/// well-formed state (an idle one, say), after every one of them there is
/// at most one current track and nothing waits while nothing is current.
pub proof fn lemma_at_most_one_current<H>(m: QueueModel<H>, steps: Seq<QueueStep<H>>)
    requires
        m.wf(),
    ensures
        forall|i: int|
            0 <= i <= steps.len() ==> (#[trigger] run(m, steps.take(i))).wf(),
{
    assert forall|i: int| 0 <= i <= steps.len() implies (#[trigger] run(m, steps.take(i))).wf() by {
        lemma_run_wf(m, steps.take(i));
    }
}

/// Enqueueing `a` then `b` while a track plays puts them at the back in that
/// order; from an empty queue, the next two advances make `a` and then `b`
/// current, in either mode.
pub proof fn lemma_fifo_order<H>(m: QueueModel<H>, a: QueueItem<H>, b: QueueItem<H>)
    requires
        m.current is Some,
    ensures
        m.enqueued(a).enqueued(b).pending == m.pending.push(a).push(b),
        m.enqueued(a).enqueue_outcome() == EnqueueOutcome::Queued,
        m.enqueued(a).enqueued(b).enqueue_outcome() == EnqueueOutcome::Queued,
        m.pending.len() == 0 ==> m.enqueued(a).enqueued(b).advanced().current == Some(a),
        m.pending.len() == 0 ==> m.enqueued(a).enqueued(b).advanced().advanced().current == Some(
            b,
        ),
{
    let s = m.enqueued(a).enqueued(b);
    if m.pending.len() == 0 {
        assert(s.rotated()[0] == a);
        assert(s.advanced().rotated()[0] == b);
    }
}

/// Enqueueing into an idle guild makes the item current and asks for it to
/// start now.
pub proof fn lemma_start_when_idle<H>(m: QueueModel<H>, item: QueueItem<H>)
    requires
        m.current is None,
        m.pending.len() == 0,
    ensures
        m.enqueued(item).current == Some(item),
        m.enqueued(item).pending.len() == 0,
        m.enqueue_outcome() == EnqueueOutcome::StartNow,
{
}

/// In loop mode, with `x` current and `y` alone in the queue, an advance
/// puts `x` at the back before taking `y`: `y` is current and `x` waits.
pub proof fn lemma_loop_rotation<H>(x: QueueItem<H>, y: QueueItem<H>)
    ensures
        ({
            let m = QueueModel { current: Some(x), pending: seq![y], mode: QueueMode::Loop };
            &&& m.advanced().current == Some(y)
            &&& m.advanced().pending == seq![x]
            &&& m.advance_outcome() == AdvanceOutcome::PlayNext
        }),
{
    let m = QueueModel { current: Some(x), pending: seq![y], mode: QueueMode::Loop };
    assert(m.rotated() == seq![y, x]);
    assert(m.rotated().drop_first() == seq![x]);
}

/// In normal mode, with `x` current and an empty queue, an advance drops
/// `x` and leaves the guild idle.
pub proof fn lemma_normal_drain<H>(x: QueueItem<H>)
    ensures
        ({
            let m = QueueModel {
                current: Some(x),
                pending: Seq::<QueueItem<H>>::empty(),
                mode: QueueMode::Normal,
            };
            &&& m.advanced().current is None
            &&& m.advanced().pending.len() == 0
            &&& m.advance_outcome() == AdvanceOutcome::Idle
        }),
{
}

} // verus!
