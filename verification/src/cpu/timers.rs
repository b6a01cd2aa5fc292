//! The timer bank of one CPU: four prescaled 16-bit counters that can cascade and that
//! queue their overflows in the schedule when an interrupt depends on them.
//!
//! There are four free-running prescalers, one per frequency, and a timer picks one by
//! its prescaler setting. A timer therefore never resets its cycle counter: it masks it
//! by the new prescaler, and starts from the masked current time.

pub mod queueing;

use super::irqs::{timer_irq_flag, Irqs};
use super::schedule::{Schedule, ScheduleConst};
use vstd::prelude::*;

verus! {

/// A point in time or a duration, in ticks.
#[derive(Clone, Copy, Debug, PartialEq, Eq, PartialOrd, Ord)]
pub struct Timestamp(pub u64);

impl Timestamp {
    /// The sum of two tick counts. It stays at the largest representable count where the
    /// exact sum would not fit.
    pub fn add(self, rhs: Self) -> (sum: Self)
        ensures
            sum.0 == self.0.saturating_add(rhs.0),
    {
        Timestamp(self.0.saturating_add(rhs.0))
    }
}

/// The control register of a timer.
#[derive(Clone, Copy, Debug, PartialEq, Eq)]
pub struct Control(pub u8);

impl Control {
    pub open spec fn spec_prescaler(self) -> u8 {
        self.0 & 3
    }

    /// Bits 0 and 1: which of the four prescalers feeds the timer.
    #[verifier::when_used_as_spec(spec_prescaler)]
    pub fn prescaler(self) -> (r: u8)
        ensures
            r == self.spec_prescaler(),
            r <= 3,
    {
        proof {
            crate::bits::lemma_and_le_u8(self.0, 3);
        }
        self.0 & 3
    }

    pub open spec fn spec_count_up_timing(self) -> bool {
        self.0 & 4 != 0
    }

    /// Bit 2: count the overflows of the timer below instead of prescaled cycles.
    #[verifier::when_used_as_spec(spec_count_up_timing)]
    pub fn count_up_timing(self) -> (r: bool)
        ensures
            r == self.spec_count_up_timing(),
    {
        self.0 & 4 != 0
    }

    pub open spec fn spec_irq_enabled(self) -> bool {
        self.0 & 0x40 != 0
    }

    /// Bit 6: request an interrupt on overflow.
    #[verifier::when_used_as_spec(spec_irq_enabled)]
    pub fn irq_enabled(self) -> (r: bool)
        ensures
            r == self.spec_irq_enabled(),
    {
        self.0 & 0x40 != 0
    }

    pub open spec fn spec_running(self) -> bool {
        self.0 & 0x80 != 0
    }

    /// Bit 7: the timer counts.
    #[verifier::when_used_as_spec(spec_running)]
    pub fn running(self) -> (r: bool)
        ensures
            r == self.spec_running(),
    {
        self.0 & 0x80 != 0
    }
}

/// The number of a timer: 0 to 3.
#[derive(Clone, Copy, Debug, PartialEq, Eq)]
pub struct Index {
    value: u8,
}

impl Index {
    #[verifier::type_invariant]
    spec fn in_range(self) -> bool {
        self.value <= 3
    }

    pub closed spec fn view(self) -> u8 {
        self.value
    }

    pub fn new(value: u8) -> (index: Self)
        requires
            value <= 3,
        ensures
            index@ == value,
    {
        Index { value }
    }

    pub fn get(self) -> (value: u8)
        ensures
            value == self@,
            value <= 3,
    {
        proof {
            use_type_invariant(self);
        }
        self.value
    }
}

/// The state of one timer, as contracts see it.
pub struct TimerView {
    pub control: Control,
    pub cycle_shift: u8,
    pub count_up: bool,
    pub schedule_overflows: bool,
    pub counter: u16,
    pub reload: u16,
    pub cycle_counter: u16,
    pub last_update_time: Timestamp,
}

/// A stopped timer with every register at zero.
pub open spec fn new_timer() -> TimerView {
    TimerView {
        control: Control(0),
        cycle_shift: 0,
        count_up: false,
        schedule_overflows: false,
        counter: 0,
        reload: 0,
        cycle_counter: 0,
        last_update_time: Timestamp(0),
    }
}

/// The prescaler shift that the two low control bits select.
pub open spec fn prescaler_shift(prescaler: u8) -> u8 {
    if prescaler == 0 {
        0
    } else if prescaler == 1 {
        6
    } else if prescaler == 2 {
        8
    } else {
        10
    }
}

/// The number of cycles per increment at a prescaler shift: two to the power of the shift.
pub open spec fn prescaler_period(cycle_shift: u8) -> int {
    if cycle_shift == 0 {
        1
    } else if cycle_shift == 6 {
        64
    } else if cycle_shift == 8 {
        256
    } else {
        1024
    }
}

/// Whether timer `i` with this control value counts the overflows of the timer below it.
pub open spec fn counts_up(control: Control, i: int) -> bool {
    control.count_up_timing() && control.running() && i != 0
}

/// What holds of timer `i` between any two operations on the bank.
pub open spec fn timer_wf(t: TimerView, i: int) -> bool {
    &&& t.cycle_shift == 0 || t.cycle_shift == 6 || t.cycle_shift == 8 || t.cycle_shift == 10
    &&& t.control.running() ==> t.cycle_counter < prescaler_period(t.cycle_shift)
    &&& t.count_up == counts_up(t.control, i)
    &&& t.schedule_overflows ==> t.control.running() && !t.count_up
}

/// What holds of the bank between any two operations on it.
pub open spec fn timers_wf(ts: Seq<TimerView>) -> bool {
    &&& ts.len() == 4
    &&& forall|i: int| 0 <= i < 4 ==> timer_wf(#[trigger] ts[i], i)
}

/// No timer was brought up to date later than `now`.
pub open spec fn timers_updated_by(ts: Seq<TimerView>, now: Timestamp) -> bool {
    forall|i: int| 0 <= i < ts.len() ==> (#[trigger] ts[i]).last_update_time.0 <= now.0
}

/// The cycles left until the timer overflows, from its last update.
pub open spec fn cycles_until_overflow(t: TimerView) -> int {
    (0x1_0000 - t.counter) * prescaler_period(t.cycle_shift) - t.cycle_counter
}

/// The time at which the timer overflows next, if nothing is written in between.
pub open spec fn overflow_time(t: TimerView) -> Timestamp {
    Timestamp(t.last_update_time.0.saturating_add(cycles_until_overflow(t) as u64))
}

/// Timer `i` after `increments` increments, with the timers above it that count its
/// overflows, and the interrupt requests after them.
///
/// An overflowing timer requests its interrupt if enabled, restarts from its reload value
/// and hands every overflow to the next timer if that one counts up.
pub open spec fn inc_timer(ts: Seq<TimerView>, i: int, increments: int, requested: u32) -> (
    Seq<TimerView>,
    u32,
)
    decreases 4 - i,
{
    let t = ts[i];
    let overflow_incs = 0x1_0000 - t.counter;
    if increments >= overflow_incs {
        let requested = if t.control.irq_enabled() {
            requested | timer_irq_flag(i as u8)
        } else {
            requested
        };
        let remaining = increments - overflow_incs;
        let period = 0x1_0000 - t.reload;
        let ts = ts.update(i, TimerView { counter: (t.reload + remaining % period) as u16, ..t });
        if 0 <= i < 3 && ts[i + 1].count_up {
            inc_timer(ts, i + 1, 1 + remaining / period, requested)
        } else {
            (ts, requested)
        }
    } else {
        (ts.update(i, TimerView { counter: (t.counter + increments) as u16, ..t }), requested)
    }
}

/// Timer `i` brought up to `time`: the cycles since its last update go through its
/// prescaler, and the increments that come out are counted.
pub open spec fn run_timer(ts: Seq<TimerView>, i: int, time: Timestamp, requested: u32) -> (
    Seq<TimerView>,
    u32,
)
    recommends
        ts[i].last_update_time.0 <= time.0,
{
    let t = ts[i];
    let cycles = (t.cycle_counter as u64).saturating_add((time.0 - t.last_update_time.0) as u64)
        as int;
    let period = prescaler_period(t.cycle_shift);
    let ts = ts.update(
        i,
        TimerView { cycle_counter: (cycles % period) as u16, last_update_time: time, ..t },
    );
    inc_timer(ts, i, cycles / period, requested)
}

/// The timer that drives timer `i`: the closest one at or below it that counts cycles.
pub open spec fn source_timer(ts: Seq<TimerView>, i: int) -> int
    decreases i,
{
    if i <= 0 || !ts[i].count_up {
        i
    } else {
        source_timer(ts, i - 1)
    }
}

/// The bank brought up to date for a look at timer `i`: its source runs to `time` if it
/// is running.
pub open spec fn update_source(ts: Seq<TimerView>, i: int, time: Timestamp, requested: u32) -> (
    Seq<TimerView>,
    u32,
) {
    let j = source_timer(ts, i);
    if ts[j].control.running() {
        run_timer(ts, j, time, requested)
    } else {
        (ts, requested)
    }
}

/// One step of deciding which timers queue their overflows, for timer `i`, going from
/// timer 3 down. `flows_into_irq` says whether an overflow of timer `i` would end in an
/// interrupt of a timer above it.
pub open spec fn reschedule_step<S: Schedule>(
    ts: Seq<TimerView>,
    queue: Map<S::EventSlotIndex, Timestamp>,
    i: int,
    flows_into_irq: bool,
) -> (Seq<TimerView>, Map<S::EventSlotIndex, Timestamp>, bool) {
    let t = ts[i];
    let flows = t.control.running() && (flows_into_irq || t.control.irq_enabled());
    let schedule_overflows = flows && !t.count_up;
    let next_flows = flows && t.count_up;
    let ts = ts.update(i, TimerView { schedule_overflows, ..t });
    let slot = S::timer_slot(i as u8);
    let queue = if !schedule_overflows && t.schedule_overflows {
        queue.remove(slot)
    } else if schedule_overflows && !t.schedule_overflows {
        queue.insert(slot, overflow_time(t))
    } else {
        queue
    };
    (ts, queue, next_flows)
}

/// The timers below `n` rescheduled, from timer `n - 1` down to timer 0.
pub open spec fn reschedule<S: Schedule>(
    ts: Seq<TimerView>,
    queue: Map<S::EventSlotIndex, Timestamp>,
    n: int,
    flows_into_irq: bool,
) -> (Seq<TimerView>, Map<S::EventSlotIndex, Timestamp>)
    decreases n,
{
    if n <= 0 {
        (ts, queue)
    } else {
        let (ts, queue, flows) = reschedule_step::<S>(ts, queue, n - 1, flows_into_irq);
        reschedule::<S>(ts, queue, n - 1, flows)
    }
}

/// A timer after it takes the control value `value` at time `now`: a timer that starts
/// running loads its reload value, and a running timer restarts its cycle counter from the
/// current time.
pub open spec fn control_applied(prev: TimerView, value: Control, now: Timestamp) -> TimerView {
    let cycle_shift = prescaler_shift(value.prescaler());
    if value.running() {
        TimerView {
            control: value,
            cycle_shift,
            counter: if prev.control.running() {
                prev.counter
            } else {
                prev.reload
            },
            last_update_time: now,
            cycle_counter: (now.0 as int % prescaler_period(cycle_shift)) as u16,
            ..prev
        }
    } else {
        TimerView { control: value, cycle_shift, ..prev }
    }
}

/// The bank and the queue after timer `i` takes the control value `value` at time `now`.
///
/// When the running, interrupt or count-up bit changed, every timer decides anew whether
/// to queue its overflows. When only the prescaler of a queued timer changed, its overflow
/// is queued anew.
pub open spec fn update_control<S: Schedule>(
    ts: Seq<TimerView>,
    queue: Map<S::EventSlotIndex, Timestamp>,
    i: int,
    value: Control,
    now: Timestamp,
) -> (Seq<TimerView>, Map<S::EventSlotIndex, Timestamp>) {
    let prev = ts[i];
    let ts = ts.update(i, control_applied(prev, value, now));
    let (ts, queue) = if value.0 & 0xC4 != prev.control.0 & 0xC4 {
        reschedule::<S>(ts, queue, 4, false)
    } else {
        (ts, queue)
    };
    let queue = if ts[i].schedule_overflows && prev.schedule_overflows && value.prescaler()
        != prev.control.prescaler() {
        queue.insert(S::timer_slot(i as u8), overflow_time(ts[i]))
    } else {
        queue
    };
    (ts, queue)
}

/// Whether a write of `value` to the control register of timer `i` changes nothing that
/// the timer acts on, so that the value is only stored.
pub open spec fn control_write_is_plain(t: TimerView, i: int, value: Control) -> bool {
    let count_up = counts_up(value, i);
    !Control(value.0 | t.control.0).running() || (count_up == t.count_up && if count_up {
        value.0 & 0xC0 == t.control.0 & 0xC0
    } else {
        value.0 & 0xC3 == t.control.0 & 0xC3
    })
}

/// The bank brought up to date before timer `i` changes its mode to `count_up`: when it
/// starts to count up, it runs to `now` itself if it was running, and then the source of
/// the timer below it; otherwise its own source runs.
pub open spec fn update_for_control_write(
    ts: Seq<TimerView>,
    i: int,
    count_up: bool,
    now: Timestamp,
    requested: u32,
) -> (Seq<TimerView>, u32) {
    if !ts[i].count_up && count_up {
        let (ts, requested) = if ts[i].control.running() {
            run_timer(ts, i, now, requested)
        } else {
            (ts, requested)
        };
        update_source(ts, i - 1, now, requested)
    } else {
        update_source(ts, i, now, requested)
    }
}

/// The bank, the interrupt requests and the queue after a write of `value` to the control
/// register of timer `i` at time `now`. Only bits 0 to 2, 6 and 7 of the value are kept.
pub open spec fn write_control<S: Schedule>(
    ts: Seq<TimerView>,
    requested: u32,
    queue: Map<S::EventSlotIndex, Timestamp>,
    i: int,
    value: Control,
    now: Timestamp,
) -> (Seq<TimerView>, u32, Map<S::EventSlotIndex, Timestamp>) {
    let value = Control(value.0 & 0xC7);
    if control_write_is_plain(ts[i], i, value) {
        (ts.update(i, TimerView { control: value, ..ts[i] }), requested, queue)
    } else {
        let count_up = counts_up(value, i);
        let (ts, requested) = update_for_control_write(ts, i, count_up, now, requested);
        let ts = ts.update(i, TimerView { count_up, ..ts[i] });
        let (ts, queue) = update_control::<S>(ts, queue, i, value, now);
        (ts, requested, queue)
    }
}

/// The bank, the interrupt requests and the queue after a write of `reload` and `control`
/// to timer `i` in one access at time `now`.
pub open spec fn write_control_reload<S: Schedule>(
    ts: Seq<TimerView>,
    requested: u32,
    queue: Map<S::EventSlotIndex, Timestamp>,
    i: int,
    reload: u16,
    control: Control,
    now: Timestamp,
) -> (Seq<TimerView>, u32, Map<S::EventSlotIndex, Timestamp>) {
    let control = Control(control.0 & 0xC7);
    if !Control(control.0 | ts[i].control.0).running() || (reload == ts[i].reload
        && control_write_is_plain(ts[i], i, control)) {
        (ts.update(i, TimerView { control, reload, ..ts[i] }), requested, queue)
    } else {
        let count_up = counts_up(control, i);
        let (ts, requested) = update_for_control_write(ts, i, count_up, now, requested);
        let ts = ts.update(i, TimerView { reload, count_up, ..ts[i] });
        let (ts, queue) = update_control::<S>(ts, queue, i, control, now);
        (ts, requested, queue)
    }
}

/// The two banks differ at most in counters, cycle counters and update times.
pub open spec fn same_settings(a: Seq<TimerView>, b: Seq<TimerView>) -> bool {
    &&& a.len() == b.len()
    &&& forall|k: int|
        0 <= k < a.len() ==> {
            &&& (#[trigger] a[k]).control == b[k].control
            &&& a[k].count_up == b[k].count_up
            &&& a[k].schedule_overflows == b[k].schedule_overflows
            &&& a[k].cycle_shift == b[k].cycle_shift
            &&& a[k].reload == b[k].reload
        }
}

/// A timer in its initial state is well-formed, whichever its number.
proof fn lemma_new_timer_wf(i: int)
    ensures
        timer_wf(new_timer(), i),
{
    assert(0u8 & 0x80 == 0 && 0u8 & 4 == 0) by (bit_vector);
}

/// Two control values that agree in the running, interrupt and count-up bits agree in
/// each of them.
proof fn lemma_control_bits(a: Control, b: Control)
    ensures
        a.0 & 0xC4 == b.0 & 0xC4 ==> a.running() == b.running() && a.irq_enabled()
            == b.irq_enabled() && a.count_up_timing() == b.count_up_timing(),
        a.0 & 0xC0 == b.0 & 0xC0 ==> a.running() == b.running() && a.irq_enabled()
            == b.irq_enabled(),
        a.0 & 0xC3 == b.0 & 0xC3 ==> a.running() == b.running() && a.irq_enabled()
            == b.irq_enabled() && a.prescaler() == b.prescaler(),
        !Control(a.0 | b.0).running() ==> !a.running() && !b.running(),
        Control(a.0 & 0xC7).running() == a.running(),
        Control(a.0 & 0xC7).irq_enabled() == a.irq_enabled(),
        Control(a.0 & 0xC7).count_up_timing() == a.count_up_timing(),
        Control(a.0 & 0xC7).prescaler() == a.prescaler(),
{
    let x = a.0;
    let y = b.0;
    assert((x & 0xC4 == y & 0xC4 ==> ((x & 0x80 != 0) == (y & 0x80 != 0)) && ((x & 0x40 != 0) == (y
        & 0x40 != 0)) && ((x & 4 != 0) == (y & 4 != 0))) && (x & 0xC0 == y & 0xC0 ==> ((x & 0x80
        != 0) == (y & 0x80 != 0)) && ((x & 0x40 != 0) == (y & 0x40 != 0))) && (x & 0xC3 == y
        & 0xC3 ==> ((x & 0x80 != 0) == (y & 0x80 != 0)) && ((x & 0x40 != 0) == (y & 0x40 != 0))
        && (x & 3 == y & 3)) && ((x | y) & 0x80 == 0 ==> x & 0x80 == 0 && y & 0x80 == 0) && ((x
        & 0xC7) & 0x80 == x & 0x80) && ((x & 0xC7) & 0x40 == x & 0x40) && ((x & 0xC7) & 4 == x
        & 4) && ((x & 0xC7) & 3 == x & 3)) by (bit_vector);
}

/// Counting changes the counters and nothing else, and only from timer `i` up.
pub proof fn lemma_inc_timer_frame(ts: Seq<TimerView>, i: int, increments: int, requested: u32)
    requires
        ts.len() == 4,
        0 <= i < 4,
    ensures
        inc_timer(ts, i, increments, requested).0.len() == 4,
        forall|k: int|
            0 <= k < 4 ==> (#[trigger] inc_timer(ts, i, increments, requested).0[k]) == (TimerView {
                counter: inc_timer(ts, i, increments, requested).0[k].counter,
                ..ts[k]
            }),
        forall|k: int| 0 <= k < i ==> (#[trigger] inc_timer(ts, i, increments, requested).0[k]) == ts[k],
        same_settings(inc_timer(ts, i, increments, requested).0, ts),
    decreases 4 - i,
{
    let t = ts[i];
    let overflow_incs = 0x1_0000 - t.counter;
    if increments >= overflow_incs {
        let remaining = increments - overflow_incs;
        let period = 0x1_0000 - t.reload;
        let req1 = if t.control.irq_enabled() {
            requested | timer_irq_flag(i as u8)
        } else {
            requested
        };
        let ts1 = ts.update(i, TimerView { counter: (t.reload + remaining % period) as u16, ..t });
        if i < 3 && ts1[i + 1].count_up {
            lemma_inc_timer_frame(ts1, i + 1, 1 + remaining / period, req1);
        }
    }
}

/// Running a timer changes counters, and of the timer itself the cycle counter and the
/// time of its last update, which becomes `time`.
pub proof fn lemma_run_timer_frame(ts: Seq<TimerView>, i: int, time: Timestamp, requested: u32)
    requires
        ts.len() == 4,
        0 <= i < 4,
    ensures
        run_timer(ts, i, time, requested).0.len() == 4,
        forall|k: int|
            0 <= k < 4 && k != i ==> (#[trigger] run_timer(ts, i, time, requested).0[k])
                == (TimerView { counter: run_timer(ts, i, time, requested).0[k].counter, ..ts[k] }),
        run_timer(ts, i, time, requested).0[i] == (TimerView {
            counter: run_timer(ts, i, time, requested).0[i].counter,
            cycle_counter: run_timer(ts, i, time, requested).0[i].cycle_counter,
            last_update_time: time,
            ..ts[i]
        }),
        same_settings(run_timer(ts, i, time, requested).0, ts),
{
    let t = ts[i];
    let cycles = (t.cycle_counter as u64).saturating_add((time.0 - t.last_update_time.0) as u64)
        as int;
    let period = prescaler_period(t.cycle_shift);
    let ts1 = ts.update(
        i,
        TimerView { cycle_counter: (cycles % period) as u16, last_update_time: time, ..t },
    );
    lemma_inc_timer_frame(ts1, i, cycles / period, requested);
}

/// A timer that runs to a time not after `now` leaves every timer updated by `now`.
proof fn lemma_run_timer_times(
    ts: Seq<TimerView>,
    i: int,
    time: Timestamp,
    now: Timestamp,
    requested: u32,
)
    requires
        ts.len() == 4,
        0 <= i < 4,
        timers_updated_by(ts, now),
        time.0 <= now.0,
    ensures
        timers_updated_by(run_timer(ts, i, time, requested).0, now),
{
    lemma_run_timer_frame(ts, i, time, requested);
    let r = run_timer(ts, i, time, requested).0;
    assert forall|k: int| 0 <= k < r.len() implies (#[trigger] r[k]).last_update_time.0 <= now.0 by {
        if k != i {
            assert(r[k].last_update_time == ts[k].last_update_time);
        }
    }
}

/// The source of a timer lies at or below it.
pub proof fn lemma_source_timer_range(ts: Seq<TimerView>, i: int)
    requires
        0 <= i < 4,
    ensures
        0 <= source_timer(ts, i) <= i,
        source_timer(ts, i) == 0 || !ts[source_timer(ts, i)].count_up,
    decreases i,
{
    if i > 0 && ts[i].count_up {
        lemma_source_timer_range(ts, i - 1);
    }
}

/// Bringing the source of a timer up to `now` leaves every timer updated by `now`.
proof fn lemma_update_source_times(ts: Seq<TimerView>, i: int, now: Timestamp, requested: u32)
    requires
        ts.len() == 4,
        0 <= i < 4,
        timers_updated_by(ts, now),
    ensures
        timers_updated_by(update_source(ts, i, now, requested).0, now),
        same_settings(update_source(ts, i, now, requested).0, ts),
{
    lemma_source_timer_range(ts, i);
    let j = source_timer(ts, i);
    if ts[j].control.running() {
        lemma_run_timer_times(ts, j, now, now, requested);
        lemma_run_timer_frame(ts, j, now, requested);
    }
}

/// A write that is only stored leaves the timer well-formed.
proof fn lemma_plain_write_keeps_wf(t: TimerView, i: int, value: Control, reload: u16)
    requires
        timer_wf(t, i),
        0 <= i < 4,
        control_write_is_plain(t, i, value) || !Control(value.0 | t.control.0).running(),
    ensures
        timer_wf(TimerView { control: value, reload, ..t }, i),
        timer_wf(TimerView { control: value, ..t }, i),
{
    lemma_control_bits(value, t.control);
}

/// Deciding anew which timers queue their overflows changes nothing else of a timer, and
/// only a running timer that counts cycles queues them.
proof fn lemma_reschedule_frame<S: Schedule>(
    ts: Seq<TimerView>,
    queue: Map<S::EventSlotIndex, Timestamp>,
    n: int,
    flows_into_irq: bool,
)
    requires
        ts.len() == 4,
        0 <= n <= 4,
    ensures
        reschedule::<S>(ts, queue, n, flows_into_irq).0.len() == 4,
        forall|k: int|
            0 <= k < 4 ==> (#[trigger] reschedule::<S>(ts, queue, n, flows_into_irq).0[k])
                == (TimerView {
                schedule_overflows: reschedule::<S>(
                    ts,
                    queue,
                    n,
                    flows_into_irq,
                ).0[k].schedule_overflows,
                ..ts[k]
            }),
        forall|k: int|
            0 <= k < n ==> ((#[trigger] reschedule::<S>(
                ts,
                queue,
                n,
                flows_into_irq,
            ).0[k]).schedule_overflows ==> ts[k].control.running() && !ts[k].count_up),
        forall|k: int|
            n <= k < 4 ==> (#[trigger] reschedule::<S>(ts, queue, n, flows_into_irq).0[k]) == ts[k],
    decreases n,
{
    if n > 0 {
        let (ts1, queue1, flows1) = reschedule_step::<S>(ts, queue, n - 1, flows_into_irq);
        lemma_reschedule_frame::<S>(ts1, queue1, n - 1, flows1);
    }
}

/// A control write that is acted on leaves the bank well-formed and updated by `now`.
proof fn lemma_update_control_wf<S: Schedule>(
    ts: Seq<TimerView>,
    queue: Map<S::EventSlotIndex, Timestamp>,
    i: int,
    reload: u16,
    value: Control,
    now: Timestamp,
)
    requires
        timers_wf(ts),
        0 <= i < 4,
    ensures
        timers_wf(
            update_control::<S>(
                ts.update(i, TimerView { reload, count_up: counts_up(value, i), ..ts[i] }),
                queue,
                i,
                value,
                now,
            ).0,
        ),
        timers_updated_by(ts, now) ==> timers_updated_by(
            update_control::<S>(
                ts.update(i, TimerView { reload, count_up: counts_up(value, i), ..ts[i] }),
                queue,
                i,
                value,
                now,
            ).0,
            now,
        ),
{
    let ts0 = ts.update(i, TimerView { reload, count_up: counts_up(value, i), ..ts[i] });
    let prev = ts0[i];
    let ts1 = ts0.update(i, control_applied(prev, value, now));
    lemma_control_bits(value, prev.control);
    lemma_reschedule_frame::<S>(ts1, queue, 4, false);
    let r = update_control::<S>(ts0, queue, i, value, now).0;
    assert(ts1[i].cycle_counter < prescaler_period(ts1[i].cycle_shift) || !value.running()) by {
        if value.running() {
            let p = prescaler_period(prescaler_shift(value.prescaler()));
            assert(now.0 as int % p < p);
        }
    }
    assert forall|k: int| 0 <= k < 4 implies timer_wf(#[trigger] r[k], k) by {
        if k != i {
            assert(timer_wf(ts[k], k));
            assert(ts1[k] == ts[k]);
        } else {
            assert(timer_wf(ts[i], i));
        }
    }
    if timers_updated_by(ts, now) {
        assert forall|k: int| 0 <= k < r.len() implies (#[trigger] r[k]).last_update_time.0
            <= now.0 by {
            if k != i {
                assert(ts1[k] == ts[k]);
            }
        }
    }
}

/// Counting only adds to the interrupt requests.
pub proof fn lemma_inc_timer_requests_grow(
    ts: Seq<TimerView>,
    i: int,
    increments: int,
    requested: u32,
)
    requires
        0 <= i < 4,
    ensures
        requested | inc_timer(ts, i, increments, requested).1 == inc_timer(
            ts,
            i,
            increments,
            requested,
        ).1,
    decreases 4 - i,
{
    let t = ts[i];
    let overflow_incs = 0x1_0000 - t.counter;
    crate::bits::lemma_bit_sets_grow(requested, timer_irq_flag(i as u8), 0, 0);
    if increments >= overflow_incs {
        let remaining = increments - overflow_incs;
        let period = 0x1_0000 - t.reload;
        let req1 = if t.control.irq_enabled() {
            requested | timer_irq_flag(i as u8)
        } else {
            requested
        };
        let ts1 = ts.update(i, TimerView { counter: (t.reload + remaining % period) as u16, ..t });
        if i < 3 && ts1[i + 1].count_up {
            lemma_inc_timer_requests_grow(ts1, i + 1, 1 + remaining / period, req1);
            crate::bits::lemma_bit_sets_grow(
                requested,
                req1,
                inc_timer(ts1, i + 1, 1 + remaining / period, req1).1,
                0,
            );
        }
    }
}

/// Bringing the source of a timer up to date only adds to the interrupt requests.
pub proof fn lemma_update_source_requests_grow(
    ts: Seq<TimerView>,
    i: int,
    now: Timestamp,
    requested: u32,
)
    requires
        0 <= i < 4,
    ensures
        requested | update_source(ts, i, now, requested).1 == update_source(
            ts,
            i,
            now,
            requested,
        ).1,
        requested | run_timer(ts, i, now, requested).1 == run_timer(ts, i, now, requested).1,
{
    lemma_source_timer_range(ts, i);
    let j = source_timer(ts, i);
    crate::bits::lemma_bit_sets_grow(requested, 0, 0, 0);
    let t = ts[j];
    let cycles = (t.cycle_counter as u64).saturating_add((now.0 - t.last_update_time.0) as u64)
        as int;
    let period = prescaler_period(t.cycle_shift);
    let ts1 = ts.update(
        j,
        TimerView { cycle_counter: (cycles % period) as u16, last_update_time: now, ..t },
    );
    lemma_inc_timer_requests_grow(ts1, j, cycles / period, requested);
    let t = ts[i];
    let cycles = (t.cycle_counter as u64).saturating_add((now.0 - t.last_update_time.0) as u64)
        as int;
    let period = prescaler_period(t.cycle_shift);
    let ts1 = ts.update(
        i,
        TimerView { cycle_counter: (cycles % period) as u16, last_update_time: now, ..t },
    );
    lemma_inc_timer_requests_grow(ts1, i, cycles / period, requested);
}

/// Banks with the same settings have the same sources.
proof fn lemma_source_timer_same(a: Seq<TimerView>, b: Seq<TimerView>, i: int)
    requires
        same_settings(a, b),
        0 <= i < a.len(),
    ensures
        source_timer(a, i) == source_timer(b, i),
    decreases i,
{
    if i > 0 && a[i].count_up {
        lemma_source_timer_same(a, b, i - 1);
    }
}

/// Reading a counter is idempotent: a second read at the same time finds the bank as the
/// first read left it, requests no interrupt, and so returns the same value.
pub proof fn lemma_read_counter_idempotent(
    ts: Seq<TimerView>,
    i: int,
    now: Timestamp,
    requested: u32,
)
    requires
        timers_wf(ts),
        0 <= i < 4,
        timers_updated_by(ts, now),
    ensures
        ({
            let (ts1, requested1) = update_source(ts, i, now, requested);
            update_source(ts1, i, now, requested1) == (ts1, requested1)
        }),
{
    let (ts1, r1) = update_source(ts, i, now, requested);
    lemma_source_timer_range(ts, i);
    lemma_update_source_times(ts, i, now, requested);
    lemma_source_timer_same(ts1, ts, i);
    let j = source_timer(ts, i);
    assert(timer_wf(ts[j], j));
    if ts[j].control.running() {
        lemma_run_timer_frame(ts, j, now, requested);
        let t = ts[j];
        let cycles = (t.cycle_counter as u64).saturating_add((now.0 - t.last_update_time.0) as u64)
            as int;
        let period = prescaler_period(t.cycle_shift);
        assert(ts1[j].cycle_counter == (cycles % period) as u16) by {
            let mid = ts.update(
                j,
                TimerView { cycle_counter: (cycles % period) as u16, last_update_time: now, ..t },
            );
            lemma_inc_timer_frame(mid, j, cycles / period, requested);
        }
        let t1 = ts1[j];
        let cycles1 = (t1.cycle_counter as u64).saturating_add(0u64) as int;
        assert(cycles1 == t1.cycle_counter);
        assert(period == 1 || period == 64 || period == 256 || period == 1024);
        assert(0 <= cycles % period < period);
        assert(0 <= cycles1 < period);
        assert(cycles1 % period == cycles1 && cycles1 / period == 0) by {
            vstd::arithmetic::div_mod::lemma_small_mod(cycles1 as nat, period as nat);
            vstd::arithmetic::div_mod::lemma_basic_div(cycles1, period);
        }
        let mid1 = ts1.update(
            j,
            TimerView { cycle_counter: (cycles1 % period) as u16, last_update_time: now, ..t1 },
        );
        assert(mid1 =~= ts1);
        assert(ts1.update(j, TimerView { counter: (t1.counter + 0) as u16, ..t1 }) =~= ts1);
    }
}

/// A timer that runs on its own prescaler counts one increment for every full prescaler
/// period since its last update: as long as it does not overflow, a read returns the
/// counter of the last update plus the cycles since then, its cycle counter included,
/// shifted down by the prescaler shift; and it requests no interrupt.
pub proof fn lemma_read_counter_value(ts: Seq<TimerView>, i: int, now: Timestamp, requested: u32)
    requires
        timers_wf(ts),
        0 <= i < 4,
        ts[i].control.running(),
        !ts[i].count_up,
        ts[i].last_update_time.0 <= now.0,
        ts[i].counter + (ts[i].cycle_counter + (now.0 - ts[i].last_update_time.0))
            / prescaler_period(ts[i].cycle_shift) < 0x1_0000,
    ensures
        update_source(ts, i, now, requested).0[i].counter == ts[i].counter + (ts[i].cycle_counter
            + (now.0 - ts[i].last_update_time.0)) / prescaler_period(ts[i].cycle_shift),
        update_source(ts, i, now, requested).1 == requested,
{
    let t = ts[i];
    let period = prescaler_period(t.cycle_shift);
    let elapsed = t.cycle_counter + (now.0 - t.last_update_time.0);
    assert(timer_wf(t, i));
    assert(elapsed / period >= 0 && (elapsed / period >= 0x1_0000 || elapsed < 0x1_0000 * period)) by {
        assert(period == 1 || period == 64 || period == 256 || period == 1024);
    }
    assert(elapsed < 0x1_0000 * 1024);
    let cycles = (t.cycle_counter as u64).saturating_add((now.0 - t.last_update_time.0) as u64)
        as int;
    assert(cycles == elapsed);
}

/// One timer.
#[derive(Clone, Copy)]
pub struct Timer {
    control: Control,
    cycle_shift: u8,
    count_up: bool,
    schedule_overflows: bool,
    counter: u16,
    reload: u16,
    cycle_counter: u16,
    last_update_time: Timestamp,
}

impl View for Timer {
    type V = TimerView;

    closed spec fn view(&self) -> TimerView {
        TimerView {
            control: self.control,
            cycle_shift: self.cycle_shift,
            count_up: self.count_up,
            schedule_overflows: self.schedule_overflows,
            counter: self.counter,
            reload: self.reload,
            cycle_counter: self.cycle_counter,
            last_update_time: self.last_update_time,
        }
    }
}

impl Timer {
    /// A stopped timer with every register at zero.
    pub fn new() -> (timer: Self)
        ensures
            timer@ == new_timer(),
    {
        Timer {
            control: Control(0),
            cycle_shift: 0,
            count_up: false,
            schedule_overflows: false,
            counter: 0,
            reload: 0,
            cycle_counter: 0,
            last_update_time: Timestamp(0),
        }
    }

    pub fn control(&self) -> (control: Control)
        ensures
            control == self@.control,
    {
        self.control
    }

    pub fn cycle_shift(&self) -> (cycle_shift: u8)
        ensures
            cycle_shift == self@.cycle_shift,
    {
        self.cycle_shift
    }

    pub fn count_up(&self) -> (count_up: bool)
        ensures
            count_up == self@.count_up,
    {
        self.count_up
    }

    pub fn reload(&self) -> (reload: u16)
        ensures
            reload == self@.reload,
    {
        self.reload
    }

    pub fn cycle_counter(&self) -> (cycle_counter: u16)
        ensures
            cycle_counter == self@.cycle_counter,
    {
        self.cycle_counter
    }

    /// The counter as of the timer's last update.
    pub fn counter(&self) -> (counter: u16)
        ensures
            counter == self@.counter,
    {
        self.counter
    }

    /// Whether the timer's overflows are queued in the schedule.
    pub fn schedule_overflows(&self) -> (schedule_overflows: bool)
        ensures
            schedule_overflows == self@.schedule_overflows,
    {
        self.schedule_overflows
    }

    /// The time at which the timer was last brought up to date.
    pub fn last_update_time(&self) -> (time: Timestamp)
        ensures
            time == self@.last_update_time,
    {
        self.last_update_time
    }

    /// The cycles per increment of the timer's prescaler.
    fn period(&self) -> (period: u64)
        ensures
            period == prescaler_period(self@.cycle_shift),
    {
        match self.cycle_shift {
            0 => 1,
            6 => 64,
            8 => 256,
            _ => 1024,
        }
    }

    pub fn cycles_until_overflow(&self) -> (cycles: u32)
        requires
            self@.cycle_counter < prescaler_period(self@.cycle_shift),
        ensures
            cycles == cycles_until_overflow(self@),
    {
        let incs: u32 = 0x1_0000 - self.counter as u32;
        let scaled: u32 = match self.cycle_shift {
            0 => incs,
            6 => incs * 64,
            8 => incs * 256,
            _ => incs * 1024,
        };
        scaled - self.cycle_counter as u32
    }

    /// The time at which the timer overflows next.
    fn overflow_time(&self) -> (time: Timestamp)
        requires
            self@.cycle_counter < prescaler_period(self@.cycle_shift),
        ensures
            time == overflow_time(self@),
    {
        self.last_update_time.add(Timestamp(self.cycles_until_overflow() as u64))
    }
}

/// The four timers of one CPU.
pub struct Timers(pub [Timer; 4]);

impl View for Timers {
    type V = Seq<TimerView>;

    open spec fn view(&self) -> Seq<TimerView> {
        Seq::new(4, |i: int| self.0[i]@)
    }
}

impl Timers {
    /// Four stopped timers. Each timer's slot in the schedule gets its overflow event.
    pub fn new<S: Schedule>(schedule: &mut S) -> (timers: Self)
        ensures
            timers@ == Seq::new(4, |i: int| new_timer()),
            timers_wf(timers@),
            final(schedule).now() == old(schedule).now(),
            final(schedule).target() == old(schedule).target(),
            final(schedule).queue() == old(schedule).queue(),
    {
        let mut i: u8 = 0;
        while i < 4
            invariant
                i <= 4,
                schedule.now() == old(schedule).now(),
                schedule.target() == old(schedule).target(),
                schedule.queue() == old(schedule).queue(),
            decreases 4 - i,
        {
            schedule.set_timer_event(Index::new(i));
            i += 1;
        }
        let timers = Timers([Timer::new(); 4]);
        proof {
            assert(timers@ =~= Seq::new(4, |i: int| new_timer()));
            assert forall|k: int| 0 <= k < 4 implies timer_wf(#[trigger] timers@[k], k) by {
                lemma_new_timer_wf(k);
            }
        }
        timers
    }

    /// Handles the queued overflow of timer `i`, which was due at `event_time`: the timer
    /// runs up to that time unless it already ran further, and its next overflow is queued.
    pub fn handle_scheduled_overflow<S: Schedule, I: Irqs<Schedule = S>>(
        &mut self,
        i: Index,
        event_time: Timestamp,
        schedule: &mut S,
        irqs: &mut I,
    )
        requires
            old(irqs).wf(),
            timers_wf(old(self)@),
            old(self)@[i@ as int].control.running(),
        ensures
            final(irqs).wf(),
            *final(irqs) == old(irqs).raised(final(irqs).requested_flags()),
            timers_wf(final(self)@),
            (final(self)@, final(irqs).requested_flags()) == (if old(self)@[i@
                as int].last_update_time.0 < event_time.0 {
                run_timer(old(self)@, i@ as int, event_time, old(irqs).requested_flags())
            } else {
                (old(self)@, old(irqs).requested_flags())
            }),
            final(schedule).queue() == old(schedule).queue().insert(
                S::timer_slot(i@),
                overflow_time(final(self)@[i@ as int]),
            ),
            final(schedule).now() == old(schedule).now(),
            final(schedule).target().0 <= old(schedule).target().0,
    {
        let idx = i.get() as usize;
        proof {
            irqs.lemma_raised(irqs.requested_flags());
        }
        if self.0[idx].last_update_time.0 < event_time.0 {
            self.run_timer(i, event_time, schedule, irqs);
        }
        assert(timer_wf(self@[idx as int], idx as int));
        let target = self.0[idx].overflow_time();
        schedule.schedule_event(S::timer_event_slot(i), target);
    }

    fn inc_timer<S: Schedule, I: Irqs<Schedule = S>>(
        &mut self,
        i: Index,
        increments: u64,
        schedule: &mut S,
        irqs: &mut I,
    )
        requires
            old(irqs).wf(),
            timers_wf(old(self)@),
        ensures
            final(irqs).wf(),
            *final(irqs) == old(irqs).raised(final(irqs).requested_flags()),
            timers_wf(final(self)@),
            (final(self)@, final(irqs).requested_flags()) == inc_timer(
                old(self)@,
                i@ as int,
                increments as int,
                old(irqs).requested_flags(),
            ),
            same_settings(final(self)@, old(self)@),
            final(schedule).now() == old(schedule).now(),
            final(schedule).queue() == old(schedule).queue(),
            final(schedule).target().0 <= old(schedule).target().0,
        decreases 4 - i@,
    {
        let idx = i.get() as usize;
        let ghost ts0 = self@;
        let ghost irqs0 = *irqs;
        proof {
            lemma_inc_timer_frame(ts0, idx as int, increments as int, irqs.requested_flags());
            irqs0.lemma_raised(irqs0.requested_flags());
        }
        let overflow_incs: u64 = 0x1_0000 - self.0[idx].counter as u64;
        if increments >= overflow_incs {
            if self.0[idx].control.irq_enabled() {
                irqs.request_timer(i, schedule);
                proof {
                    irqs0.lemma_raised(irqs0.requested_flags() | timer_irq_flag(i@));
                }
            }
            let ghost irqs1 = *irqs;
            let remaining = increments - overflow_incs;
            let period: u64 = 0x1_0000 - self.0[idx].reload as u64;
            self.0[idx].counter = (self.0[idx].reload as u64 + remaining % period) as u16;
            proof {
                assert(self@ =~= ts0.update(
                    idx as int,
                    TimerView {
                        counter: (ts0[idx as int].reload + remaining % period) as u16,
                        ..ts0[idx as int]
                    },
                ));
            }
            if i.get() < 3 {
                let next_i = Index::new(i.get() + 1);
                if self.0[next_i.get() as usize].count_up {
                    let overflows = 1 + remaining / period;
                    let ghost ts1 = self@;
                    self.inc_timer(next_i, overflows, schedule, irqs);
                    proof {
                        lemma_inc_timer_requests_grow(
                            ts1,
                            next_i@ as int,
                            overflows as int,
                            irqs1.requested_flags(),
                        );
                        crate::bits::lemma_bit_sets_grow(
                            irqs0.requested_flags(),
                            timer_irq_flag(i@),
                            0,
                            0,
                        );
                        if irqs1 != irqs0 {
                            irqs0.lemma_raised_twice(irqs1.requested_flags(), irqs.requested_flags());
                        } else {
                            irqs0.lemma_raised_twice(irqs0.requested_flags(), irqs.requested_flags());
                        }
                    }
                }
            }
        } else {
            self.0[idx].counter = (self.0[idx].counter as u64 + increments) as u16;
            proof {
                assert(self@ =~= ts0.update(
                    idx as int,
                    TimerView {
                        counter: (ts0[idx as int].counter + increments) as u16,
                        ..ts0[idx as int]
                    },
                ));
            }
        }
    }

    fn run_timer<S: Schedule, I: Irqs<Schedule = S>>(
        &mut self,
        i: Index,
        time: Timestamp,
        schedule: &mut S,
        irqs: &mut I,
    )
        requires
            old(irqs).wf(),
            timers_wf(old(self)@),
            old(self)@[i@ as int].last_update_time.0 <= time.0,
        ensures
            final(irqs).wf(),
            *final(irqs) == old(irqs).raised(final(irqs).requested_flags()),
            timers_wf(final(self)@),
            (final(self)@, final(irqs).requested_flags()) == run_timer(
                old(self)@,
                i@ as int,
                time,
                old(irqs).requested_flags(),
            ),
            same_settings(final(self)@, old(self)@),
            final(schedule).now() == old(schedule).now(),
            final(schedule).queue() == old(schedule).queue(),
            final(schedule).target().0 <= old(schedule).target().0,
    {
        let idx = i.get() as usize;
        let ghost ts0 = self@;
        proof {
            lemma_run_timer_frame(ts0, idx as int, time, irqs.requested_flags());
        }
        let period = self.0[idx].period();
        let cycles = (self.0[idx].cycle_counter as u64).saturating_add(
            time.0 - self.0[idx].last_update_time.0,
        );
        self.0[idx].cycle_counter = (cycles % period) as u16;
        self.0[idx].last_update_time = time;
        proof {
            assert(self@ =~= ts0.update(
                idx as int,
                TimerView {
                    cycle_counter: (cycles % period) as u16,
                    last_update_time: time,
                    ..ts0[idx as int]
                },
            ));
        }
        self.inc_timer(i, cycles / period, schedule, irqs);
    }

    /// Brings the source of timer `i` up to the current time if it is running.
    fn update_source<S: Schedule, I: Irqs<Schedule = S>>(
        &mut self,
        i: Index,
        schedule: &mut S,
        irqs: &mut I,
    )
        requires
            old(irqs).wf(),
            timers_wf(old(self)@),
            timers_updated_by(old(self)@, old(schedule).now()),
        ensures
            final(irqs).wf(),
            *final(irqs) == old(irqs).raised(final(irqs).requested_flags()),
            timers_wf(final(self)@),
            timers_updated_by(final(self)@, final(schedule).now()),
            (final(self)@, final(irqs).requested_flags()) == update_source(
                old(self)@,
                i@ as int,
                old(schedule).now(),
                old(irqs).requested_flags(),
            ),
            same_settings(final(self)@, old(self)@),
            final(schedule).now() == old(schedule).now(),
            final(schedule).queue() == old(schedule).queue(),
            final(schedule).target().0 <= old(schedule).target().0,
    {
        let idx = i.get();
        proof {
            lemma_update_source_times(self@, idx as int, schedule.now(), irqs.requested_flags());
            irqs.lemma_raised(irqs.requested_flags());
        }
        let mut j = i;
        while self.0[j.get() as usize].count_up
            invariant
                self@ == old(self)@,
                timers_wf(self@),
                j@ <= i@,
                source_timer(self@, j@ as int) == source_timer(self@, i@ as int),
            decreases j@,
        {
            assert(timer_wf(self@[0], 0));
            j = Index::new(j.get() - 1);
        }
        if self.0[j.get() as usize].control.running() {
            self.run_timer(j, schedule.cur_time(), schedule, irqs);
        }
    }

    /// The counter of timer `i` at the current time.
    ///
    /// The timer that drives it is brought up to the current time first. That changes
    /// nothing that the emulated program can observe.
    pub fn read_counter<S: Schedule, I: Irqs<Schedule = S>>(
        &mut self,
        i: Index,
        schedule: &mut S,
        irqs: &mut I,
    ) -> (counter: u16)
        requires
            old(irqs).wf(),
            timers_wf(old(self)@),
            timers_updated_by(old(self)@, old(schedule).now()),
        ensures
            final(irqs).wf(),
            *final(irqs) == old(irqs).raised(final(irqs).requested_flags()),
            timers_wf(final(self)@),
            timers_updated_by(final(self)@, final(schedule).now()),
            (final(self)@, final(irqs).requested_flags()) == update_source(
                old(self)@,
                i@ as int,
                old(schedule).now(),
                old(irqs).requested_flags(),
            ),
            counter == final(self)@[i@ as int].counter,
            same_settings(final(self)@, old(self)@),
            final(schedule).now() == old(schedule).now(),
            final(schedule).queue() == old(schedule).queue(),
            final(schedule).target().0 <= old(schedule).target().0,
    {
        self.update_source(i, schedule, irqs);
        self.0[i.get() as usize].counter
    }

    /// Sets the reload value of timer `i`. A running timer that counts cycles is brought
    /// up to the current time first, so that an overflow that was due still takes the old
    /// reload value.
    pub fn write_reload<S: Schedule, I: Irqs<Schedule = S>>(
        &mut self,
        i: Index,
        value: u16,
        schedule: &mut S,
        irqs: &mut I,
    )
        requires
            old(irqs).wf(),
            timers_wf(old(self)@),
            timers_updated_by(old(self)@, old(schedule).now()),
        ensures
            final(irqs).wf(),
            *final(irqs) == old(irqs).raised(final(irqs).requested_flags()),
            timers_wf(final(self)@),
            timers_updated_by(final(self)@, final(schedule).now()),
            ({
                let t = old(self)@[i@ as int];
                let (ts, requested) = if t.control.running() && !t.count_up {
                    run_timer(old(self)@, i@ as int, old(schedule).now(), old(irqs).requested_flags())
                } else {
                    (old(self)@, old(irqs).requested_flags())
                };
                &&& final(self)@ == ts.update(i@ as int, TimerView { reload: value, ..ts[i@ as int] })
                &&& final(irqs).requested_flags() == requested
            }),
            final(schedule).now() == old(schedule).now(),
            final(schedule).queue() == old(schedule).queue(),
            final(schedule).target().0 <= old(schedule).target().0,
    {
        let idx = i.get() as usize;
        proof {
            irqs.lemma_raised(irqs.requested_flags());
        }
        if self.0[idx].control.running() && !self.0[idx].count_up {
            proof {
                lemma_run_timer_times(
                    self@,
                    i@ as int,
                    schedule.now(),
                    schedule.now(),
                    irqs.requested_flags(),
                );
            }
            self.run_timer(i, schedule.cur_time(), schedule, irqs);
        }
        let ghost ts = self@;
        self.0[idx].reload = value;
        proof {
            assert(self@ =~= ts.update(idx as int, TimerView { reload: value, ..ts[idx as int] }));
        }
    }

    fn update_control<S: Schedule>(&mut self, i: Index, value: Control, schedule: &mut S)
        requires
            old(self)@.len() == 4,
            forall|k: int| 0 <= k < 4 && k != i@ ==> timer_wf(#[trigger] old(self)@[k], k),
            old(self)@[i@ as int].schedule_overflows ==> old(self)@[i@ as int].control.running(),
        ensures
            (final(self)@, final(schedule).queue()) == update_control::<S>(
                old(self)@,
                old(schedule).queue(),
                i@ as int,
                value,
                old(schedule).now(),
            ),
            final(schedule).now() == old(schedule).now(),
            final(schedule).target().0 <= old(schedule).target().0,
    {
        let idx = i.get() as usize;
        let ghost ts0 = self@;
        let ghost q0 = schedule.queue();
        let prev_value = self.0[idx].control;
        let prev_scheduled = self.0[idx].schedule_overflows;
        self.0[idx].control = value;
        self.0[idx].cycle_shift = match value.prescaler() {
            0 => 0,
            1 => 6,
            2 => 8,
            _ => 10,
        };
        if value.running() {
            if !prev_value.running() {
                self.0[idx].counter = self.0[idx].reload;
            }
            let now = schedule.cur_time();
            self.0[idx].last_update_time = now;
            let period = self.0[idx].period();
            self.0[idx].cycle_counter = (now.0 % period) as u16;
        }
        let ghost ts1 = self@;
        proof {
            assert(ts1 =~= ts0.update(
                idx as int,
                control_applied(ts0[idx as int], value, schedule.now()),
            ));
            lemma_control_bits(prev_value, value);
            assert(value.running() ==> ts1[idx as int].cycle_counter < prescaler_period(
                ts1[idx as int].cycle_shift,
            ));
            assert forall|k: int| 0 <= k < 4 && (#[trigger] ts1[k]).control.running() implies ts1[k].cycle_counter
                < prescaler_period(ts1[k].cycle_shift) by {
                if k != idx {
                    assert(timer_wf(ts0[k], k));
                }
            }
        }
        if value.0 & 0xC4 != prev_value.0 & 0xC4 {
            let mut flows_into_irq = false;
            let mut n: u8 = 4;
            while n > 0
                invariant
                    n <= 4,
                    self@.len() == 4,
                    reschedule::<S>(self@, schedule.queue(), n as int, flows_into_irq)
                        == reschedule::<S>(ts1, q0, 4, false),
                    schedule.now() == old(schedule).now(),
                    schedule.target().0 <= old(schedule).target().0,
                    forall|k: int|
                        0 <= k < 4 ==> ((#[trigger] self@[k]).control.running()
                            ==> self@[k].cycle_counter < prescaler_period(self@[k].cycle_shift)),
                    forall|k: int|
                        n <= k < 4 ==> ((#[trigger] self@[k]).schedule_overflows
                            ==> self@[k].control.running()),
                    forall|k: int|
                        0 <= k < 4 ==> (#[trigger] self@[k]).control == ts1[k].control,
                decreases n,
            {
                n -= 1;
                let k = Index::new(n);
                let ghost ts = self@;
                let ghost q = schedule.queue();
                let ghost flows_before = flows_into_irq;
                let scheduled_overflows = self.0[n as usize].schedule_overflows;
                self.0[n as usize].schedule_overflows = false;
                if self.0[n as usize].control.running() {
                    flows_into_irq = flows_into_irq || self.0[n as usize].control.irq_enabled();
                    if !self.0[n as usize].count_up {
                        self.0[n as usize].schedule_overflows = flows_into_irq;
                        flows_into_irq = false;
                    }
                } else {
                    flows_into_irq = false;
                }
                proof {
                    assert(self@ =~= reschedule_step::<S>(ts, q, n as int, flows_before).0);
                }
                if !self.0[n as usize].schedule_overflows && scheduled_overflows {
                    schedule.cancel_event(S::timer_event_slot(k));
                } else if self.0[n as usize].schedule_overflows && !scheduled_overflows {
                    let target = self.0[n as usize].overflow_time();
                    schedule.schedule_event(S::timer_event_slot(k), target);
                }
                proof {
                    assert(schedule.queue() == reschedule_step::<S>(ts, q, n as int, flows_before).1);
                    assert(flows_into_irq == reschedule_step::<S>(ts, q, n as int, flows_before).2);
                }
            }
        }
        let ghost q2 = schedule.queue();
        assert(self@[idx as int].control == value);
        assert(self@[idx as int].control.running() ==> self@[idx as int].cycle_counter
            < prescaler_period(self@[idx as int].cycle_shift));
        if self.0[idx].schedule_overflows && prev_scheduled && value.prescaler()
            != prev_value.prescaler() {
            let event_slot = S::timer_event_slot(i);
            schedule.cancel_event(event_slot);
            let target = self.0[idx].overflow_time();
            schedule.schedule_event(event_slot, target);
            proof {
                assert(schedule.queue() =~= q2.insert(
                    S::timer_slot(i@),
                    overflow_time(self@[idx as int]),
                ));
            }
        }
    }

    /// Brings the bank up to date before timer `i` changes its mode to `count_up`.
    fn update_for_control_write<S: Schedule, I: Irqs<Schedule = S>>(
        &mut self,
        i: Index,
        count_up: bool,
        schedule: &mut S,
        irqs: &mut I,
    )
        requires
            old(irqs).wf(),
            timers_wf(old(self)@),
            timers_updated_by(old(self)@, old(schedule).now()),
            count_up ==> i@ != 0,
        ensures
            final(irqs).wf(),
            *final(irqs) == old(irqs).raised(final(irqs).requested_flags()),
            timers_wf(final(self)@),
            timers_updated_by(final(self)@, final(schedule).now()),
            (final(self)@, final(irqs).requested_flags()) == update_for_control_write(
                old(self)@,
                i@ as int,
                count_up,
                old(schedule).now(),
                old(irqs).requested_flags(),
            ),
            same_settings(final(self)@, old(self)@),
            final(schedule).now() == old(schedule).now(),
            final(schedule).queue() == old(schedule).queue(),
            final(schedule).target().0 <= old(schedule).target().0,
    {
        let idx = i.get() as usize;
        let ghost now = schedule.now();
        let ghost ts0 = self@;
        let ghost r0 = irqs.requested_flags();
        let ghost irqs0 = *irqs;
        proof {
            irqs0.lemma_raised(r0);
        }
        if !self.0[idx].count_up && count_up {
            if self.0[idx].control.running() {
                proof {
                    lemma_run_timer_times(ts0, i@ as int, now, now, r0);
                }
                self.run_timer(i, schedule.cur_time(), schedule, irqs);
            }
            let ghost ts1 = self@;
            let ghost irqs1 = *irqs;
            self.update_source(Index::new(i.get() - 1), schedule, irqs);
            proof {
                lemma_update_source_requests_grow(ts1, i@ - 1, now, irqs1.requested_flags());
                irqs0.lemma_raised_twice(irqs1.requested_flags(), irqs.requested_flags());
            }
        } else {
            self.update_source(i, schedule, irqs);
        }
    }

    /// Writes the control register of timer `i`.
    pub fn write_control<S: Schedule, I: Irqs<Schedule = S>>(
        &mut self,
        i: Index,
        value: Control,
        schedule: &mut S,
        irqs: &mut I,
    )
        requires
            old(irqs).wf(),
            timers_wf(old(self)@),
            timers_updated_by(old(self)@, old(schedule).now()),
        ensures
            final(irqs).wf(),
            *final(irqs) == old(irqs).raised(final(irqs).requested_flags()),
            timers_wf(final(self)@),
            timers_updated_by(final(self)@, final(schedule).now()),
            (final(self)@, final(irqs).requested_flags(), final(schedule).queue())
                == write_control::<S>(
                old(self)@,
                old(irqs).requested_flags(),
                old(schedule).queue(),
                i@ as int,
                value,
                old(schedule).now(),
            ),
            final(schedule).now() == old(schedule).now(),
            final(schedule).target().0 <= old(schedule).target().0,
    {
        let idx = i.get() as usize;
        let ghost ts0 = self@;
        proof {
            irqs.lemma_raised(irqs.requested_flags());
        }
        let value = Control(value.0 & 0xC7);
        let count_up = value.count_up_timing() && value.running() && i.get() != 0;
        let same = !Control(value.0 | self.0[idx].control.0).running() || (count_up
            == self.0[idx].count_up && if count_up {
            value.0 & 0xC0 == self.0[idx].control.0 & 0xC0
        } else {
            value.0 & 0xC3 == self.0[idx].control.0 & 0xC3
        });
        if same {
            proof {
                lemma_plain_write_keeps_wf(ts0[idx as int], idx as int, value, 0);
            }
            self.0[idx].control = value;
            proof {
                assert(self@ =~= ts0.update(idx as int, TimerView { control: value, ..ts0[idx as int] }));
            }
            return ;
        }
        self.update_for_control_write(i, count_up, schedule, irqs);
        let ghost ts1 = self@;
        self.0[idx].count_up = count_up;
        proof {
            assert(self@ =~= ts1.update(idx as int, TimerView { count_up, ..ts1[idx as int] }));
        }
        self.update_control(i, value, schedule);
        proof {
            lemma_update_control_wf::<S>(
                ts1,
                old(schedule).queue(),
                idx as int,
                ts1[idx as int].reload,
                value,
                old(schedule).now(),
            );
        }
    }

    /// Writes the reload value and the control register of timer `i` in one access.
    pub fn write_control_reload<S: Schedule, I: Irqs<Schedule = S>>(
        &mut self,
        i: Index,
        reload: u16,
        control: Control,
        schedule: &mut S,
        irqs: &mut I,
    )
        requires
            old(irqs).wf(),
            timers_wf(old(self)@),
            timers_updated_by(old(self)@, old(schedule).now()),
        ensures
            final(irqs).wf(),
            *final(irqs) == old(irqs).raised(final(irqs).requested_flags()),
            timers_wf(final(self)@),
            timers_updated_by(final(self)@, final(schedule).now()),
            (final(self)@, final(irqs).requested_flags(), final(schedule).queue())
                == write_control_reload::<S>(
                old(self)@,
                old(irqs).requested_flags(),
                old(schedule).queue(),
                i@ as int,
                reload,
                control,
                old(schedule).now(),
            ),
            final(schedule).now() == old(schedule).now(),
            final(schedule).target().0 <= old(schedule).target().0,
    {
        let idx = i.get() as usize;
        let ghost ts0 = self@;
        proof {
            irqs.lemma_raised(irqs.requested_flags());
        }
        let control = Control(control.0 & 0xC7);
        let count_up = control.count_up_timing() && control.running() && i.get() != 0;
        let same = !Control(control.0 | self.0[idx].control.0).running() || (reload
            == self.0[idx].reload && count_up == self.0[idx].count_up && if count_up {
            control.0 & 0xC0 == self.0[idx].control.0 & 0xC0
        } else {
            control.0 & 0xC3 == self.0[idx].control.0 & 0xC3
        });
        if same {
            proof {
                lemma_plain_write_keeps_wf(ts0[idx as int], idx as int, control, reload);
            }
            self.0[idx].control = control;
            self.0[idx].reload = reload;
            proof {
                assert(self@ =~= ts0.update(
                    idx as int,
                    TimerView { control, reload, ..ts0[idx as int] },
                ));
            }
            return ;
        }
        self.update_for_control_write(i, count_up, schedule, irqs);
        let ghost ts1 = self@;
        self.0[idx].reload = reload;
        self.0[idx].count_up = count_up;
        proof {
            assert(self@ =~= ts1.update(
                idx as int,
                TimerView { reload, count_up, ..ts1[idx as int] },
            ));
        }
        self.update_control(i, control, schedule);
        proof {
            lemma_update_control_wf::<S>(
                ts1,
                old(schedule).queue(),
                idx as int,
                reload,
                control,
                old(schedule).now(),
            );
        }
    }
}

} // verus!
