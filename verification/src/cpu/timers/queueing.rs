//! Which timers have their overflow in the schedule: those that count cycles and whose
//! overflow ends in an interrupt request, of their own or of a timer above them that
//! counts their overflows.

use super::{reschedule, reschedule_step, TimerView};
use crate::cpu::schedule::Schedule;
use crate::cpu::timers::Timestamp;
use vstd::prelude::*;

verus! {

/// Whether an overflow of timer `i` ends in an interrupt request: the timer runs, and it
/// requests an interrupt itself or the timer above it counts its overflows and ends in
/// one.
pub open spec fn overflow_reaches_irq(ts: Seq<TimerView>, i: int) -> bool
    decreases 4 - i,
{
    if 0 <= i < 4 {
        ts[i].control.running() && (ts[i].control.irq_enabled() || (i < 3 && ts[i + 1].count_up
            && overflow_reaches_irq(ts, i + 1)))
    } else {
        false
    }
}

/// Whether the queue holds the overflows of the timers below `n` that are marked as
/// queued, and of no other timer below `n`.
pub open spec fn queue_matches<S: Schedule>(
    ts: Seq<TimerView>,
    queue: Map<S::EventSlotIndex, Timestamp>,
    n: int,
) -> bool {
    forall|k: int|
        0 <= k < n ==> queue.contains_key(S::timer_slot(k as u8)) == (
        #[trigger] ts[k]).schedule_overflows
}

/// Whether an overflow ends in an interrupt depends on the control registers and the
/// count-up modes alone.
proof fn lemma_reach_depends_on_settings(a: Seq<TimerView>, b: Seq<TimerView>, i: int)
    requires
        a.len() == 4,
        b.len() == 4,
        forall|k: int|
            0 <= k < 4 ==> (#[trigger] a[k]).control == b[k].control && a[k].count_up
                == b[k].count_up,
    ensures
        overflow_reaches_irq(a, i) == overflow_reaches_irq(b, i),
    decreases 4 - i,
{
    if 0 <= i < 3 {
        lemma_reach_depends_on_settings(a, b, i + 1);
    }
}

/// The timers below `n` decide as the rule says, given that `flows_into_irq` tells
/// whether an overflow of timer `n - 1` is counted by a timer above it and ends in an
/// interrupt there.
proof fn lemma_reschedule_below<S: Schedule>(
    ts: Seq<TimerView>,
    queue: Map<S::EventSlotIndex, Timestamp>,
    n: int,
    flows_into_irq: bool,
)
    requires
        ts.len() == 4,
        0 <= n <= 4,
        queue_matches::<S>(ts, queue, n),
        flows_into_irq == (n < 4 && ts[n].count_up && overflow_reaches_irq(ts, n)),
    ensures
        ({
            let (after, queued) = reschedule::<S>(ts, queue, n, flows_into_irq);
            &&& after.len() == 4
            &&& forall|k: int|
                0 <= k < n ==> (#[trigger] after[k]).schedule_overflows == (!ts[k].count_up
                    && overflow_reaches_irq(ts, k))
            &&& forall|k: int|
                0 <= k < 4 ==> (#[trigger] after[k]).control == ts[k].control && after[k].count_up
                    == ts[k].count_up
            &&& forall|k: int| n <= k < 4 ==> #[trigger] after[k] == ts[k]
            &&& queue_matches::<S>(after, queued, n)
            &&& forall|k: int|
                n <= k < 4 ==> queued.contains_key(#[trigger] S::timer_slot(k as u8))
                    == queue.contains_key(S::timer_slot(k as u8))
        }),
    decreases n,
{
    if n > 0 {
        let i = n - 1;
        let (ts1, queue1, flows1) = reschedule_step::<S>(ts, queue, i, flows_into_irq);
        assert forall|k: int| 0 <= k < 4 && k != i implies queue1.contains_key(
            #[trigger] S::timer_slot(k as u8),
        ) == queue.contains_key(S::timer_slot(k as u8)) by {
            S::timer_slots_distinct(k as u8, i as u8);
        }
        lemma_reach_depends_on_settings(ts1, ts, i);
        assert(queue_matches::<S>(ts1, queue1, i)) by {
            assert forall|k: int| 0 <= k < i implies queue1.contains_key(
                S::timer_slot(k as u8),
            ) == (#[trigger] ts1[k]).schedule_overflows by {
                assert(ts1[k] == ts[k]);
                assert(queue.contains_key(S::timer_slot(k as u8)) == ts[k].schedule_overflows);
            }
        }
        lemma_reschedule_below::<S>(ts1, queue1, i, flows1);
        let (after, queued) = reschedule::<S>(ts1, queue1, i, flows1);
        assert forall|k: int| 0 <= k < n implies (#[trigger] after[k]).schedule_overflows == (
        !ts[k].count_up && overflow_reaches_irq(ts, k)) by {
            lemma_reach_depends_on_settings(ts1, ts, k);
            if k < i {
                assert(ts1[k] == ts[k]);
            } else {
                assert(after[k] == ts1[k]);
            }
        }
        assert(queue_matches::<S>(after, queued, n)) by {
            assert forall|k: int| 0 <= k < n implies queued.contains_key(
                S::timer_slot(k as u8),
            ) == (#[trigger] after[k]).schedule_overflows by {
                if k == i {
                    assert(after[i] == ts1[i]);
                    assert(queued.contains_key(S::timer_slot(i as u8)) == queue1.contains_key(
                        S::timer_slot(i as u8),
                    ));
                    assert(queue.contains_key(S::timer_slot(i as u8)) == ts[i].schedule_overflows);
                }
            }
        }
        assert forall|k: int| n <= k < 4 implies queued.contains_key(
            #[trigger] S::timer_slot(k as u8),
        ) == queue.contains_key(S::timer_slot(k as u8)) by {
            assert(queue1.contains_key(S::timer_slot(k as u8)) == queue.contains_key(
                S::timer_slot(k as u8),
            ));
        }
    }
}

/// When the timers decide anew which of them queue their overflows, the overflow of a
/// timer is in the schedule afterwards if and only if the timer counts cycles and its
/// overflow ends in an interrupt request, of its own or of a timer above it; given that
/// the queue held the overflows of exactly the timers that were marked as queued.
pub proof fn lemma_queued_iff_overflow_reaches_irq<S: Schedule>(
    ts: Seq<TimerView>,
    queue: Map<S::EventSlotIndex, Timestamp>,
)
    requires
        ts.len() == 4,
        queue_matches::<S>(ts, queue, 4),
    ensures
        ({
            let (after, queued) = reschedule::<S>(ts, queue, 4, false);
            forall|k: int|
                0 <= k < 4 ==> (#[trigger] after[k]).schedule_overflows == (!ts[k].count_up
                    && overflow_reaches_irq(ts, k)) && queued.contains_key(S::timer_slot(k as u8))
                    == after[k].schedule_overflows
        }),
{
    lemma_reschedule_below::<S>(ts, queue, 4, false);
}

} // verus!
