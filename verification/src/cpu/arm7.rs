//! The ARM7 with what belongs to it alone.

pub mod bus;

use crate::cpu::interpreter::arm7::{engine_wf, initial_engine, EngineData, EngineView};
use crate::cpu::irqs::{irqs_wf, woken, IrqController, Irqs, IrqsView};
use crate::cpu::schedule::{lemma_times_of_queue, queue_of, times_of, Schedule, Scheduler};
use crate::cpu::timers::{
    timers_updated_by, timers_wf, Control as TimerControl, Index as TimerIndex, TimerView, Timers,
    Timestamp,
};
use vstd::prelude::*;

verus! {

/// The size of the ARM7's BIOS in bytes.
pub const BIOS_SIZE: usize = 0x4000;

/// The size of the ARM7's own working RAM in bytes.
pub const WRAM_SIZE: usize = 0x1_0000;

/// The state of the ARM7, as contracts see it. The target time of its schedule is left
/// out, as for the ARM9.
pub struct Arm7View {
    pub irqs: IrqsView,
    /// The current time of the CPU's schedule.
    pub now: Timestamp,
    /// The pending fire time of every event slot.
    pub times: Seq<Option<Timestamp>>,
    pub timers: Seq<TimerView>,
    pub wram: Seq<u8>,
    pub bios: Seq<u8>,
    /// The state of the interpreter.
    pub engine: EngineView,
}

/// The ARM7 is well-formed.
pub open spec fn arm7_wf(v: Arm7View) -> bool {
    &&& irqs_wf(v.irqs)
    &&& v.times.len() == 14
    &&& timers_wf(v.timers)
    &&& timers_updated_by(v.timers, v.now)
    &&& v.wram.len() == 0x1_0000
    &&& v.bios.len() == 0x4000
    &&& engine_wf(v.engine)
}

/// The ARM7.
pub struct Arm7 {
    pub irqs: IrqController,
    pub schedule: Scheduler,
    pub timers: Timers,
    pub wram: Vec<u8>,
    pub bios: Vec<u8>,
    pub engine_data: EngineData,
}

impl View for Arm7 {
    type V = Arm7View;

    open spec fn view(&self) -> Arm7View {
        Arm7View {
            irqs: self.irqs@,
            now: self.schedule@.cur_time,
            times: self.schedule@.times,
            timers: self.timers@,
            wram: self.wram@,
            bios: self.bios@,
            engine: self.engine_data@,
        }
    }
}

/// The ARM7 at power-on, with the given BIOS: its clock at zero, no event pending, no
/// interrupt enabled or requested, its timers stopped, and its working RAM zero.
pub open spec fn initial_arm7(bios: Seq<u8>) -> Arm7View {
    Arm7View {
        irqs: IrqsView {
            master_enable: false,
            enabled: 0,
            requested: 0,
            enabled_in_cpsr: false,
            halted: false,
        },
        now: Timestamp(0),
        times: Seq::new(14, |i: int| None::<Timestamp>),
        timers: Seq::new(4, |i: int| crate::cpu::timers::new_timer()),
        wram: Seq::new(0x1_0000, |i: int| 0u8),
        bios,
        engine: initial_engine(crate::cpu::interpreter::regs::startup_regs()),
    }
}

impl Arm7 {
    /// The ARM7 at power-on, with the given BIOS.
    pub fn new(bios: Vec<u8>) -> (arm7: Self)
        requires
            bios.len() == 0x4000,
        ensures
            arm7@ == initial_arm7(bios@),
            arm7_wf(arm7@),
    {
        let mut schedule = Scheduler::new();
        let timers = Timers::new(&mut schedule);
        let arm7 = Arm7 {
            irqs: IrqController::new(),
            schedule,
            timers,
            wram: vec![0u8; 0x1_0000],
            bios,
            engine_data: EngineData::new(),
        };
        proof {
            arm7.schedule.lemma_slots();
            crate::cpu::schedule::lemma_queue_determines_times(
                arm7.schedule@.times,
                Seq::new(14, |i: int| None::<Timestamp>),
            );
            assert(arm7@.wram =~= Seq::new(0x1_0000, |i: int| 0u8));
            assert(arm7@.times =~= Seq::new(14, |i: int| None::<Timestamp>));
        }
        arm7
    }
}

/// The ARM7 with the timers, the interrupt requests and the queue that an operation on
/// the timer bank left.
pub open spec fn with_timers(
    v: Arm7View,
    timers: Seq<TimerView>,
    requested: u32,
    queue: Map<crate::cpu::schedule::EventSlotIndex, Timestamp>,
) -> Arm7View {
    Arm7View {
        timers,
        irqs: woken(IrqsView { requested, ..v.irqs }),
        times: times_of(queue),
        ..v
    }
}

/// The ARM7 after a read of the counter of timer `i`.
pub open spec fn timer_counter_read(v: Arm7View, i: int) -> Arm7View {
    let (timers, requested) = crate::cpu::timers::update_source(
        v.timers,
        i,
        v.now,
        v.irqs.requested,
    );
    with_timers(v, timers, requested, queue_of(v.times))
}

/// The ARM7 after a write of `value` to the reload register of timer `i`.
pub open spec fn timer_reload_written(v: Arm7View, i: int, value: u16) -> Arm7View {
    let t = v.timers[i];
    let (timers, requested) = if t.control.running() && !t.count_up {
        crate::cpu::timers::run_timer(v.timers, i, v.now, v.irqs.requested)
    } else {
        (v.timers, v.irqs.requested)
    };
    with_timers(
        v,
        timers.update(i, TimerView { reload: value, ..timers[i] }),
        requested,
        queue_of(v.times),
    )
}

/// The ARM7 after a write of `value` to the control register of timer `i`.
pub open spec fn timer_control_written(v: Arm7View, i: int, value: TimerControl) -> Arm7View {
    let (timers, requested, queue) = crate::cpu::timers::write_control::<Scheduler>(
        v.timers,
        v.irqs.requested,
        queue_of(v.times),
        i,
        value,
        v.now,
    );
    with_timers(v, timers, requested, queue)
}

/// The ARM7 after a write of `reload` and `control` to timer `i` in one access.
pub open spec fn timer_control_reload_written(
    v: Arm7View,
    i: int,
    reload: u16,
    control: TimerControl,
) -> Arm7View {
    let (timers, requested, queue) = crate::cpu::timers::write_control_reload::<Scheduler>(
        v.timers,
        v.irqs.requested,
        queue_of(v.times),
        i,
        reload,
        control,
        v.now,
    );
    with_timers(v, timers, requested, queue)
}

impl Arm7 {
    /// What an operation on the timer bank made of the ARM7, given what it made of the
    /// timers, the interrupt requests and the queue.
    proof fn lemma_with_timers(&self, before: &Arm7)
        requires
            arm7_wf(before@),
            self.irqs == before.irqs.raised(self.irqs.requested_flags()),
            self.schedule.now() == before.schedule.now(),
            self.engine_data == before.engine_data,
            self.wram == before.wram,
            self.bios == before.bios,
        ensures
            self@ == with_timers(
                before@,
                self.timers@,
                self.irqs.requested_flags(),
                self.schedule.queue(),
            ),
            self@.times.len() == 14,
            irqs_wf(self@.irqs),
    {
        before.irqs.lemma_raised_view(self.irqs.requested_flags());
        self.schedule.lemma_slots();
        lemma_times_of_queue(self.schedule@.times);
    }

    /// The counter of timer `i` at the current time.
    pub fn read_timer_counter(&mut self, i: TimerIndex) -> (counter: u16)
        requires
            arm7_wf(old(self)@),
        ensures
            final(self)@ == timer_counter_read(old(self)@, i@ as int),
            counter == final(self)@.timers[i@ as int].counter,
            arm7_wf(final(self)@),
    {
        let ghost before = *self;
        proof {
            before.schedule.lemma_slots();
            lemma_times_of_queue(before.schedule@.times);
        }
        let counter = self.timers.read_counter(i, &mut self.schedule, &mut self.irqs);
        proof {
            self.lemma_with_timers(&before);
        }
        counter
    }

    /// Writes the reload register of timer `i`.
    pub fn write_timer_reload(&mut self, i: TimerIndex, value: u16)
        requires
            arm7_wf(old(self)@),
        ensures
            final(self)@ == timer_reload_written(old(self)@, i@ as int, value),
            arm7_wf(final(self)@),
    {
        let ghost before = *self;
        proof {
            before.schedule.lemma_slots();
            lemma_times_of_queue(before.schedule@.times);
        }
        self.timers.write_reload(i, value, &mut self.schedule, &mut self.irqs);
        proof {
            self.lemma_with_timers(&before);
        }
    }

    /// Writes the control register of timer `i`.
    pub fn write_timer_control(&mut self, i: TimerIndex, value: TimerControl)
        requires
            arm7_wf(old(self)@),
        ensures
            final(self)@ == timer_control_written(old(self)@, i@ as int, value),
            arm7_wf(final(self)@),
    {
        let ghost before = *self;
        proof {
            before.schedule.lemma_slots();
            lemma_times_of_queue(before.schedule@.times);
        }
        self.timers.write_control(i, value, &mut self.schedule, &mut self.irqs);
        proof {
            self.lemma_with_timers(&before);
        }
    }

    /// Writes the reload and the control register of timer `i` in one access.
    pub fn write_timer_control_reload(&mut self, i: TimerIndex, reload: u16, control: TimerControl)
        requires
            arm7_wf(old(self)@),
        ensures
            final(self)@ == timer_control_reload_written(old(self)@, i@ as int, reload, control),
            arm7_wf(final(self)@),
    {
        let ghost before = *self;
        proof {
            before.schedule.lemma_slots();
            lemma_times_of_queue(before.schedule@.times);
        }
        self.timers.write_control_reload(i, reload, control, &mut self.schedule, &mut self.irqs);
        proof {
            self.lemma_with_timers(&before);
        }
    }
}

/// The ARM7 after the queued overflow of timer `i`, due at `time`, is handled. A timer
/// that does not run any more has nothing to handle.
pub open spec fn timer_overflow_handled(v: Arm7View, i: int, time: Timestamp) -> Arm7View {
    if !v.timers[i].control.running() {
        v
    } else {
        let (timers, requested) = if v.timers[i].last_update_time.0 < time.0 {
            crate::cpu::timers::run_timer(v.timers, i, time, v.irqs.requested)
        } else {
            (v.timers, v.irqs.requested)
        };
        with_timers(
            v,
            timers,
            requested,
            queue_of(v.times).insert(
                <Scheduler as crate::cpu::schedule::ScheduleConst>::timer_slot(i as u8),
                crate::cpu::timers::overflow_time(timers[i]),
            ),
        )
    }
}

impl Arm7 {
    /// Handles the queued overflow of timer `i`, which was due at `time`, not after the
    /// current time.
    pub fn handle_timer_overflow(&mut self, i: TimerIndex, time: Timestamp)
        requires
            arm7_wf(old(self)@),
            time.0 <= old(self)@.now.0,
        ensures
            final(self)@ == timer_overflow_handled(old(self)@, i@ as int, time),
            arm7_wf(final(self)@),
            final(self)@.now == old(self)@.now,
            final(self)@.engine == old(self)@.engine,
    {
        let idx = i.get() as usize;
        if !self.timers.0[idx].control().running() {
            return ;
        }
        let ghost before = *self;
        proof {
            before.schedule.lemma_slots();
            lemma_times_of_queue(before.schedule@.times);
            crate::cpu::timers::lemma_run_timer_frame(
                before.timers@,
                idx as int,
                time,
                before.irqs.requested_flags(),
            );
        }
        self.timers.handle_scheduled_overflow(i, time, &mut self.schedule, &mut self.irqs);
        proof {
            self.lemma_with_timers(&before);
            let r = crate::cpu::timers::run_timer(
                before.timers@,
                idx as int,
                time,
                before.irqs.requested_flags(),
            ).0;
            assert forall|k: int| 0 <= k < 4 implies (#[trigger] self@.timers[k]).last_update_time.0
                <= self@.now.0 by {
                if before.timers@[idx as int].last_update_time.0 < time.0 {
                    assert(r[k].last_update_time == before.timers@[k].last_update_time || k == idx);
                }
            }
        }
    }
}

} // verus!
