//! The frame-paced bridge between acquisition and presentation.
//!
//! A blocking producer of unbounded latency (device I/O) feeds a consumer
//! that must never wait beyond its remaining per-frame budget. Samples
//! cross a FIFO hand-off; each frame the consumer takes at most one sample
//! — the oldest buffered one — within its budget, and on timeout reuses
//! the last value it received: stale-but-available beats blocking.
//!
//! This type is the bridge's state and transition rules. The caller runs
//! the two sides on their execution contexts and reports, per frame,
//! whether a sample arrived in time.

use vstd::prelude::*;

verus! {

/// Bridge state: the samples produced but not yet consumed, oldest first,
/// and the last value delivered to the presentation side.
pub struct FrameBridge {
    queued: Vec<u32>,
    held: u32,
}

/// One consume step: with a sample ready, the oldest pending one is
/// delivered and becomes the latest value; on timeout nothing changes and
/// the stale latest value is delivered again.
/// Yields (pending after, latest after, value delivered).
pub open spec fn consume_step(pending: Seq<u32>, latest: u32, ready: bool) -> (
    Seq<u32>,
    u32,
    u32,
) {
    if ready {
        (pending.drop_first(), pending[0], pending[0])
    } else {
        (pending, latest, latest)
    }
}

/// The bridge after `k` consume steps with a sample ready each time:
/// (pending after, latest after, values delivered in order).
pub open spec fn consume_ready_n(pending: Seq<u32>, latest: u32, k: int) -> (
    Seq<u32>,
    u32,
    Seq<u32>,
)
    decreases k,
{
    if k <= 0 {
        (pending, latest, Seq::empty())
    } else {
        let (p, l, vs) = consume_ready_n(pending, latest, k - 1);
        (p.drop_first(), p[0], vs.push(p[0]))
    }
}

impl FrameBridge {
    /// Samples produced but not yet consumed, oldest first.
    pub closed spec fn pending(&self) -> Seq<u32> {
        self.queued@
    }

    /// The last value delivered to the presentation side; starts at the
    /// sentinel 0 until a real sample has been seen.
    pub closed spec fn latest(&self) -> u32 {
        self.held
    }

    pub fn new() -> (b: FrameBridge)
        ensures
            b.pending() == Seq::<u32>::empty(),
            b.latest() == 0,
    {
        FrameBridge { queued: Vec::new(), held: 0 }
    }

    /// Producer side: queue one sample behind those already pending.
    /// Nothing already queued or delivered moves.
    pub fn emit(&mut self, weight: u32)
        ensures
            final(self).pending() == old(self).pending().push(weight),
            final(self).latest() == old(self).latest(),
    {
        self.queued.push(weight);
    }

    /// Consumer side, once per frame. `ready` says whether a sample
    /// arrived within the remaining frame budget; on timeout the previous
    /// value is reused, never a default.
    pub fn frame_consume(&mut self, ready: bool) -> (value: u32)
        requires
            ready ==> old(self).pending().len() > 0,
        ensures
            (final(self).pending(), final(self).latest(), value) == consume_step(
                old(self).pending(),
                old(self).latest(),
                ready,
            ),
    {
        if ready {
            let value = self.queued.remove(0);
            self.held = value;
            proof {
                assert(self.queued@ =~= old(self).pending().drop_first());
            }
            value
        } else {
            self.held
        }
    }
}

/// Samples cross the bridge in the order they were produced: `k` frames
/// that each find a sample ready deliver exactly the `k` oldest pending
/// samples, in order, leave the rest queued, and leave the last delivered
/// sample as the latest value.
pub proof fn lemma_bridge_fifo(pending: Seq<u32>, latest: u32, k: int)
    requires
        0 <= k <= pending.len(),
    ensures
        consume_ready_n(pending, latest, k).2 == pending.take(k),
        consume_ready_n(pending, latest, k).0 == pending.skip(k),
        consume_ready_n(pending, latest, k).1 == if k == 0 {
            latest
        } else {
            pending[k - 1]
        },
    decreases k,
{
    if k <= 0 {
        assert(consume_ready_n(pending, latest, 0).2 =~= pending.take(0));
        assert(consume_ready_n(pending, latest, 0).0 =~= pending.skip(0));
    } else {
        lemma_bridge_fifo(pending, latest, k - 1);
        let (p, l, vs) = consume_ready_n(pending, latest, k - 1);
        assert(p == pending.skip(k - 1));
        assert(p[0] == pending[k - 1]);
        assert(p.drop_first() =~= pending.skip(k));
        assert(vs.push(p[0]) =~= pending.take(k));
    }
}

/// The part of the frame budget still open for waiting on a sample, after
/// the previous frame took `elapsed_ms` to render: never negative, never
/// more than the whole budget.
pub fn remaining_budget(frame_budget_ms: u32, elapsed_ms: u32) -> (r: u32)
    ensures
        r == if elapsed_ms < frame_budget_ms {
            (frame_budget_ms - elapsed_ms) as u32
        } else {
            0u32
        },
{
    if elapsed_ms < frame_budget_ms {
        frame_budget_ms - elapsed_ms
    } else {
        0
    }
}

} // verus!
