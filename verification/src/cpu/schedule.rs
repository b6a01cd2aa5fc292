//! The event schedule: a clock and a fixed set of event slots, each holding at most one
//! pending firing.

use super::timers::{Index, Timestamp};
use vstd::prelude::*;

verus! {

/// The parts of a schedule that do not depend on its state.
pub trait ScheduleConst {
    type Event: Copy;

    type EventSlotIndex: Copy;

    /// The slot that holds the overflow event of timer `i`.
    spec fn timer_slot(i: u8) -> Self::EventSlotIndex;

    /// Distinct timers own distinct slots.
    proof fn timer_slots_distinct(i: u8, j: u8)
        requires
            i <= 3,
            j <= 3,
            i != j,
        ensures
            Self::timer_slot(i) != Self::timer_slot(j),
    ;

    fn timer_event_slot(i: Index) -> (slot: Self::EventSlotIndex)
        ensures
            slot == Self::timer_slot(i@),
    ;
}

/// A clock together with a queue of pending events, one per slot at most.
pub trait Schedule: ScheduleConst {
    /// The current time.
    spec fn now(&self) -> Timestamp;

    /// The time up to which the owning CPU may run without looking at the queue again.
    spec fn target(&self) -> Timestamp;

    /// The pending firings: the slots that are queued, each with its fire time.
    spec fn queue(&self) -> Map<Self::EventSlotIndex, Timestamp>;

    fn cur_time(&self) -> (time: Timestamp)
        ensures
            time == self.now(),
    ;

    /// Advances the clock to `value`; the clock never goes back.
    fn set_cur_time(&mut self, value: Timestamp)
        requires
            old(self).now().0 <= value.0,
        ensures
            final(self).now() == value,
            final(self).target() == old(self).target(),
            final(self).queue() == old(self).queue(),
    ;

    /// Advances the clock to `value` unless it is already past it.
    fn set_cur_time_after(&mut self, value: Timestamp)
        ensures
            final(self).now().0 == (if old(self).now().0 >= value.0 {
                old(self).now().0
            } else {
                value.0
            }),
            final(self).target() == old(self).target(),
            final(self).queue() == old(self).queue(),
    {
        let cur = self.cur_time();
        if cur.0 < value.0 {
            self.set_cur_time(value);
        }
    }

    fn target_time(&self) -> (time: Timestamp)
        ensures
            time == self.target(),
    ;

    fn set_target_time(&mut self, value: Timestamp)
        ensures
            final(self).target() == value,
            final(self).now() == old(self).now(),
            final(self).queue() == old(self).queue(),
    ;

    /// Lowers the target time to `target` unless it is already before it.
    fn set_target_time_before(&mut self, target: Timestamp)
        ensures
            final(self).target().0 == (if old(self).target().0 <= target.0 {
                old(self).target().0
            } else {
                target.0
            }),
            final(self).now() == old(self).now(),
            final(self).queue() == old(self).queue(),
    {
        let cur = self.target_time();
        if target.0 < cur.0 {
            self.set_target_time(target);
        }
    }

    /// Assigns the kind of event that a slot delivers; the queue is untouched.
    fn set_event(&mut self, slot_index: Self::EventSlotIndex, event: Self::Event)
        ensures
            final(self).now() == old(self).now(),
            final(self).target() == old(self).target(),
            final(self).queue() == old(self).queue(),
    ;

    /// Assigns the overflow event of timer `i` to that timer's slot.
    fn set_timer_event(&mut self, i: Index)
        ensures
            final(self).now() == old(self).now(),
            final(self).target() == old(self).target(),
            final(self).queue() == old(self).queue(),
    ;

    /// Queues the slot to fire at `time`, replacing an earlier firing of the same slot. The
    /// target time is lowered to `time` where it lay after it.
    fn schedule_event(&mut self, slot_index: Self::EventSlotIndex, time: Timestamp)
        ensures
            final(self).now() == old(self).now(),
            final(self).target().0 == (if time.0 < old(self).target().0 {
                time.0
            } else {
                old(self).target().0
            }),
            final(self).queue() == old(self).queue().insert(slot_index, time),
    ;

    /// Removes the slot from the queue.
    fn cancel_event(&mut self, slot_index: Self::EventSlotIndex)
        ensures
            final(self).now() == old(self).now(),
            final(self).target() == old(self).target(),
            final(self).queue() == old(self).queue().remove(slot_index),
    ;
}

/// The number of event slots of a scheduler.
pub const EVENT_SLOTS: usize = 14;

/// The kinds of deferred work that a scheduler delivers.
#[derive(Clone, Copy, Debug, PartialEq, Eq)]
pub enum Event {
    /// A timer overflows.
    Timer(Index),
    /// A DMA transfer ends.
    DmaEnd,
    /// The other CPU wrote to the IPC registers.
    Ipc,
    /// The data of a cartridge ROM transfer is ready.
    DsSlotRomDataReady,
    /// A byte of a cartridge SPI transfer is ready.
    DsSlotSpiDataReady,
    /// The divider has its result.
    DivResultReady,
    /// The square root unit has its result.
    SqrtResultReady,
    /// The geometry command queue stalls the CPU.
    GxFifoStall,
    /// The geometry engine finished a command.
    Engine3dCommandFinished,
    /// The LCD enters the horizontal blanking period.
    HBlank,
    /// The LCD enters the vertical blanking period.
    VBlank,
}

/// The number of an event slot: 0 to 13. Timer `i` owns slot `i`.
#[derive(Clone, Copy, Debug, PartialEq, Eq)]
pub struct EventSlotIndex {
    value: u8,
}

impl EventSlotIndex {
    #[verifier::type_invariant]
    spec fn in_range(self) -> bool {
        self.value < 14
    }

    pub closed spec fn view(self) -> u8 {
        self.value
    }

    pub fn new(value: u8) -> (index: Self)
        requires
            value < 14,
        ensures
            index@ == value,
    {
        EventSlotIndex { value }
    }

    pub fn get(self) -> (value: u8)
        ensures
            value == self@,
            value < 14,
    {
        proof {
            use_type_invariant(self);
        }
        self.value
    }

    /// Two slot numbers with the same value are the same slot.
    pub proof fn lemma_view_injective(a: Self, b: Self)
        requires
            a@ == b@,
        ensures
            a == b,
    {
    }
}

/// The slot of the DMA-end event.
pub const SLOT_DMA: u8 = 4;

/// The slot of the IPC event.
pub const SLOT_IPC: u8 = 5;

/// The slot of the cartridge ROM data-ready event.
pub const SLOT_DS_SLOT_ROM: u8 = 6;

/// The slot of the cartridge SPI data-ready event.
pub const SLOT_DS_SLOT_SPI: u8 = 7;

/// The slot of the divider's event.
pub const SLOT_DIV: u8 = 8;

/// The slot of the square root unit's event.
pub const SLOT_SQRT: u8 = 9;

/// The slot of the geometry command queue's stall event.
pub const SLOT_GX_FIFO_STALL: u8 = 10;

/// The slot of the geometry engine's command event.
pub const SLOT_ENGINE_3D: u8 = 11;

/// The slot of the horizontal blanking event.
pub const SLOT_HBLANK: u8 = 12;

/// The slot of the vertical blanking event.
pub const SLOT_VBLANK: u8 = 13;

/// Whether `event` is the event that slot number `slot` delivers. Every slot delivers one
/// kind of event.
pub open spec fn is_slot_event(slot: int, event: Event) -> bool {
    match event {
        Event::Timer(i) => slot == i@ && i@ <= 3,
        Event::DmaEnd => slot == SLOT_DMA,
        Event::Ipc => slot == SLOT_IPC,
        Event::DsSlotRomDataReady => slot == SLOT_DS_SLOT_ROM,
        Event::DsSlotSpiDataReady => slot == SLOT_DS_SLOT_SPI,
        Event::DivResultReady => slot == SLOT_DIV,
        Event::SqrtResultReady => slot == SLOT_SQRT,
        Event::GxFifoStall => slot == SLOT_GX_FIFO_STALL,
        Event::Engine3dCommandFinished => slot == SLOT_ENGINE_3D,
        Event::HBlank => slot == SLOT_HBLANK,
        Event::VBlank => slot == SLOT_VBLANK,
    }
}

/// The state of a scheduler, as contracts see it: the clock, the target time, and for
/// each slot its pending fire time.
pub struct SchedulerView {
    pub cur_time: Timestamp,
    pub target_time: Timestamp,
    pub times: Seq<Option<Timestamp>>,
}

/// The slot that fires first among the slots below `n`: the one with the least fire time,
/// and among those with the same fire time the one with the least number.
pub open spec fn earliest_slot(times: Seq<Option<Timestamp>>, n: int) -> Option<int>
    decreases n,
{
    if n <= 0 {
        None
    } else {
        match earliest_slot(times, n - 1) {
            None => if times[n - 1] is Some {
                Some(n - 1)
            } else {
                None
            },
            Some(e) => if times[n - 1] is Some && times[n - 1].unwrap().0 < times[e].unwrap().0 {
                Some(n - 1)
            } else {
                Some(e)
            },
        }
    }
}

/// Slot `i` fires before slot `j`: at an earlier time, or at the same time with a lower
/// slot number.
pub open spec fn fires_before(times: Seq<Option<Timestamp>>, i: int, j: int) -> bool {
    times[i].unwrap().0 < times[j].unwrap().0 || (times[i].unwrap().0 == times[j].unwrap().0 && i
        < j)
}

/// The earliest slot is pending, and no other pending slot fires before it.
pub proof fn lemma_earliest_slot(times: Seq<Option<Timestamp>>, n: int)
    requires
        0 <= n <= times.len(),
    ensures
        match earliest_slot(times, n) {
            None => forall|j: int| 0 <= j < n ==> (#[trigger] times[j]) is None,
            Some(e) => {
                &&& 0 <= e < n
                &&& times[e] is Some
                &&& forall|j: int|
                    0 <= j < n && j != e && (#[trigger] times[j]) is Some ==> fires_before(
                        times,
                        e,
                        j,
                    )
            },
        },
    decreases n,
{
    if n > 0 {
        lemma_earliest_slot(times, n - 1);
    }
}

/// The slot that `pop_pending_event` delivers: the earliest one, if it is due.
pub open spec fn due_slot(s: SchedulerView) -> Option<int> {
    match earliest_slot(s.times, s.times.len() as int) {
        Some(e) => if s.times[e].unwrap().0 <= s.cur_time.0 {
            Some(e)
        } else {
            None
        },
        None => None,
    }
}

/// The scheduler after `pop_pending_event`: the delivered slot is no longer pending.
pub open spec fn after_pop(s: SchedulerView) -> SchedulerView {
    match due_slot(s) {
        Some(e) => SchedulerView { times: s.times.update(e, None), ..s },
        None => s,
    }
}

/// The time of the next pending event, or the end of time when none is pending.
pub open spec fn next_event_time(s: SchedulerView) -> Timestamp {
    match earliest_slot(s.times, s.times.len() as int) {
        Some(e) => s.times[e].unwrap(),
        None => Timestamp(u64::MAX),
    }
}

/// No event fires before its time, and events fire in the order of their fire times, and
/// in the order of their slot numbers where the times are the same: a delivered event was
/// due, and of two events that are delivered one after the other, with nothing scheduled in
/// between, the first fires before the second.
pub proof fn lemma_pop_order(s: SchedulerView)
    ensures
        due_slot(s) matches Some(e) ==> 0 <= e < s.times.len() && s.times[e] is Some
            && s.times[e].unwrap().0 <= s.cur_time.0,
        due_slot(s) matches Some(e) ==> forall|j: int|
            0 <= j < s.times.len() && j != e && (#[trigger] s.times[j]) is Some ==> fires_before(
                s.times,
                e,
                j,
            ),
        due_slot(s) is None ==> forall|j: int|
            0 <= j < s.times.len() && (#[trigger] s.times[j]) is Some ==> s.times[j].unwrap().0
                > s.cur_time.0,
        due_slot(s) is Some && due_slot(after_pop(s)) is Some ==> ({
            let first = due_slot(s).unwrap();
            let second = due_slot(after_pop(s)).unwrap();
            first != second && fires_before(s.times, first, second)
        }),
{
    let n = s.times.len() as int;
    lemma_earliest_slot(s.times, n);
    lemma_earliest_slot(after_pop(s).times, n);
    if due_slot(s) is None {
        assert forall|j: int| 0 <= j < n && (#[trigger] s.times[j]) is Some implies s.times[j].unwrap().0
            > s.cur_time.0 by {
            let e = earliest_slot(s.times, n).unwrap();
            if j != e {
                assert(fires_before(s.times, e, j));
            }
        }
    }
}

/// A clock and fourteen event slots, each with its own kind of event.
pub struct Scheduler {
    cur_time: Timestamp,
    target_time: Timestamp,
    times: [Option<Timestamp>; 14],
}

impl View for Scheduler {
    type V = SchedulerView;

    closed spec fn view(&self) -> SchedulerView {
        SchedulerView { cur_time: self.cur_time, target_time: self.target_time, times: self.times@ }
    }
}

/// The pending firings of a scheduler as a map from slots to fire times.
pub open spec fn queue_of(times: Seq<Option<Timestamp>>) -> Map<EventSlotIndex, Timestamp> {
    Map::new(
        |slot: EventSlotIndex| slot@ < times.len() && times[slot@ as int] is Some,
        |slot: EventSlotIndex| times[slot@ as int].unwrap(),
    )
}

/// The event that a slot delivers.
fn slot_event(slot: usize) -> (event: Event)
    requires
        slot < 14,
    ensures
        is_slot_event(slot as int, event),
{
    match slot {
        0 => Event::Timer(Index::new(0)),
        1 => Event::Timer(Index::new(1)),
        2 => Event::Timer(Index::new(2)),
        3 => Event::Timer(Index::new(3)),
        4 => Event::DmaEnd,
        5 => Event::Ipc,
        6 => Event::DsSlotRomDataReady,
        7 => Event::DsSlotSpiDataReady,
        8 => Event::DivResultReady,
        9 => Event::SqrtResultReady,
        10 => Event::GxFifoStall,
        11 => Event::Engine3dCommandFinished,
        12 => Event::HBlank,
        _ => Event::VBlank,
    }
}

impl Scheduler {
    /// A scheduler at time zero with nothing pending.
    pub fn new() -> (schedule: Self)
        ensures
            schedule@ == (SchedulerView {
                cur_time: Timestamp(0),
                target_time: Timestamp(0),
                times: Seq::new(14, |i: int| None::<Timestamp>),
            }),
    {
        let schedule = Scheduler {
            cur_time: Timestamp(0),
            target_time: Timestamp(0),
            times: [None; 14],
        };
        assert(schedule@.times =~= Seq::new(14, |i: int| None::<Timestamp>));
        schedule
    }

    /// Every scheduler has fourteen slots.
    pub proof fn lemma_slots(&self)
        ensures
            self@.times.len() == 14,
    {
    }

    /// The slot that fires first, if any is pending.
    fn earliest(&self) -> (slot: Option<usize>)
        ensures
            match slot {
                Some(e) => earliest_slot(self@.times, 14) == Some(e as int) && e < 14,
                None => earliest_slot(self@.times, 14) is None,
            },
    {
        let mut best: Option<usize> = None;
        let mut best_time: u64 = 0;
        let mut n: usize = 0;
        while n < 14
            invariant
                n <= 14,
                match best {
                    Some(e) => earliest_slot(self@.times, n as int) == Some(e as int) && e < n
                        && self@.times[e as int] == Some(Timestamp(best_time)),
                    None => earliest_slot(self@.times, n as int) is None,
                },
            decreases 14 - n,
        {
            match self.times[n] {
                Some(time) => {
                    if best.is_none() || time.0 < best_time {
                        best = Some(n);
                        best_time = time.0;
                    }
                },
                None => {},
            }
            n += 1;
        }
        best
    }

    /// Takes the earliest event out of the queue if it is due, and returns it with its fire
    /// time.
    pub fn pop_pending_event(&mut self) -> (event: Option<(Event, Timestamp)>)
        ensures
            final(self)@ == after_pop(old(self)@),
            match due_slot(old(self)@) {
                Some(e) => event matches Some((kind, time)) && is_slot_event(e, kind) && time
                    == old(self)@.times[e].unwrap(),
                None => event is None,
            },
    {
        proof {
            lemma_earliest_slot(self@.times, 14);
        }
        match self.earliest() {
            Some(e) => {
                let time = self.times[e].unwrap();
                if time.0 <= self.cur_time.0 {
                    self.times[e] = None;
                    Some((slot_event(e), time))
                } else {
                    None
                }
            },
            None => None,
        }
    }

    /// The time of the next pending event, or the end of time when none is pending.
    pub fn next_event_time(&self) -> (time: Timestamp)
        ensures
            time == next_event_time(self@),
    {
        proof {
            lemma_earliest_slot(self@.times, 14);
        }
        match self.earliest() {
            Some(e) => self.times[e].unwrap(),
            None => Timestamp(u64::MAX),
        }
    }

    /// The pending fire time of a slot.
    pub fn event_time(&self, slot_index: EventSlotIndex) -> (time: Option<Timestamp>)
        ensures
            time == self@.times[slot_index@ as int],
    {
        self.times[slot_index.get() as usize]
    }
}

/// The queue of a scheduler says of every slot whether and when it fires.
pub proof fn lemma_queue_determines_times(a: Seq<Option<Timestamp>>, b: Seq<Option<Timestamp>>)
    requires
        a.len() == 14,
        b.len() == 14,
        queue_of(a) == queue_of(b),
    ensures
        a == b,
{
    assert forall|i: int| 0 <= i < 14 implies a[i] == b[i] by {
        let slot = EventSlotIndex { value: i as u8 };
        assert(slot@ as int == i);
        assert(queue_of(a).dom().contains(slot) == (a[i] is Some));
        assert(queue_of(b).dom().contains(slot) == (b[i] is Some));
        if a[i] is Some {
            assert(queue_of(a)[slot] == a[i].unwrap());
            assert(queue_of(b)[slot] == b[i].unwrap());
        }
    }
    assert(a =~= b);
}

/// The pending fire times of the fourteen slots that a queue stands for.
pub closed spec fn times_of(queue: Map<EventSlotIndex, Timestamp>) -> Seq<Option<Timestamp>> {
    Seq::new(
        14,
        |i: int|
            if queue.dom().contains(EventSlotIndex { value: i as u8 }) {
                Some(queue[EventSlotIndex { value: i as u8 }])
            } else {
                None
            },
    )
}

/// A queue stands for the fire times that it was made of.
pub proof fn lemma_times_of_queue(times: Seq<Option<Timestamp>>)
    requires
        times.len() == 14,
    ensures
        times_of(queue_of(times)) == times,
        times_of(queue_of(times)).len() == 14,
{
    assert forall|i: int| 0 <= i < 14 implies times_of(queue_of(times))[i] == times[i] by {
        let slot = EventSlotIndex { value: i as u8 };
        assert(slot@ as int == i);
        assert(queue_of(times).dom().contains(slot) == (times[i] is Some));
    }
    assert(times_of(queue_of(times)) =~= times);
}

/// The queue after a slot is scheduled, and after it is cancelled.
pub proof fn lemma_queue_updates(times: Seq<Option<Timestamp>>, slot: EventSlotIndex, time: Timestamp)
    requires
        times.len() == 14,
        slot@ < 14,
    ensures
        queue_of(times.update(slot@ as int, Some(time))) == queue_of(times).insert(slot, time),
        queue_of(times.update(slot@ as int, None)) == queue_of(times).remove(slot),
{
    assert(queue_of(times.update(slot@ as int, Some(time))) =~= queue_of(times).insert(slot, time));
    assert(queue_of(times.update(slot@ as int, None)) =~= queue_of(times).remove(slot));
}

impl ScheduleConst for Scheduler {
    type Event = Event;

    type EventSlotIndex = EventSlotIndex;

    closed spec fn timer_slot(i: u8) -> EventSlotIndex {
        EventSlotIndex { value: i }
    }

    proof fn timer_slots_distinct(i: u8, j: u8) {
    }

    fn timer_event_slot(i: Index) -> (slot: EventSlotIndex)
        ensures
            slot@ == i@,
    {
        EventSlotIndex { value: i.get() }
    }
}

impl Schedule for Scheduler {
    open spec fn now(&self) -> Timestamp {
        self@.cur_time
    }

    open spec fn target(&self) -> Timestamp {
        self@.target_time
    }

    open spec fn queue(&self) -> Map<EventSlotIndex, Timestamp> {
        queue_of(self@.times)
    }

    fn cur_time(&self) -> (time: Timestamp) {
        self.cur_time
    }

    fn set_cur_time(&mut self, value: Timestamp)
        ensures
            final(self)@ == (SchedulerView { cur_time: value, ..old(self)@ }),
    {
        self.cur_time = value;
    }

    fn set_cur_time_after(&mut self, value: Timestamp)
        ensures
            final(self)@ == (SchedulerView {
                cur_time: if old(self)@.cur_time.0 >= value.0 {
                    old(self)@.cur_time
                } else {
                    value
                },
                ..old(self)@
            }),
    {
        if self.cur_time.0 < value.0 {
            self.cur_time = value;
        }
    }

    fn target_time(&self) -> (time: Timestamp) {
        self.target_time
    }

    fn set_target_time(&mut self, value: Timestamp)
        ensures
            final(self)@ == (SchedulerView { target_time: value, ..old(self)@ }),
    {
        self.target_time = value;
    }

    fn set_target_time_before(&mut self, target: Timestamp)
        ensures
            final(self)@ == (SchedulerView {
                target_time: if old(self)@.target_time.0 <= target.0 {
                    old(self)@.target_time
                } else {
                    target
                },
                ..old(self)@
            }),
    {
        if target.0 < self.target_time.0 {
            self.target_time = target;
        }
    }

    /// Every slot of this scheduler has its event from the start: nothing changes.
    fn set_event(&mut self, slot_index: EventSlotIndex, event: Event)
        ensures
            final(self)@ == old(self)@,
    {
    }

    /// Every slot of this scheduler has its event from the start: nothing changes.
    fn set_timer_event(&mut self, i: Index)
        ensures
            final(self)@ == old(self)@,
    {
    }

    fn schedule_event(&mut self, slot_index: EventSlotIndex, time: Timestamp)
        ensures
            final(self)@ == (SchedulerView {
                target_time: if time.0 < old(self)@.target_time.0 {
                    time
                } else {
                    old(self)@.target_time
                },
                times: old(self)@.times.update(slot_index@ as int, Some(time)),
                ..old(self)@
            }),
    {
        let slot = slot_index.get() as usize;
        proof {
            lemma_queue_updates(self@.times, slot_index, time);
        }
        self.times[slot] = Some(time);
        if time.0 < self.target_time.0 {
            self.target_time = time;
        }
    }

    fn cancel_event(&mut self, slot_index: EventSlotIndex)
        ensures
            final(self)@ == (SchedulerView {
                times: old(self)@.times.update(slot_index@ as int, None),
                ..old(self)@
            }),
    {
        let slot = slot_index.get() as usize;
        proof {
            lemma_queue_updates(self@.times, slot_index, Timestamp(0));
        }
        self.times[slot] = None;
    }
}

} // verus!
