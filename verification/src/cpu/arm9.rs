//! The ARM9 with what belongs to it alone.

pub mod bus;
pub mod cp15;
pub mod dma_transfer;

use crate::cpu::dma::{Dma, DmaView};
use crate::cpu::interpreter::arm9::{engine_wf, EngineData, EngineView};
use crate::cpu::irqs::{irqs_wf, IrqController, IrqsView};
use crate::cpu::irqs::{woken, Irqs};
use crate::cpu::schedule::{lemma_times_of_queue, queue_of, times_of, Schedule, Scheduler};
use crate::cpu::timers::{Control as TimerControl, Index as TimerIndex};
use crate::cpu::timers::{timers_updated_by, timers_wf, TimerView, Timers, Timestamp};
use cp15::{cp15_wf, Cp15, Cp15View};
use vstd::prelude::*;

verus! {

/// The size of the ARM9's BIOS in bytes.
pub const BIOS_SIZE: usize = 0x1000;

/// The state of the ARM9, as contracts see it. The target time of its schedule is left
/// out: it says how long the CPU may run until it looks at the schedule again, which is
/// nothing that the emulated machine knows of.
pub struct Arm9View {
    pub irqs: IrqsView,
    /// The current time of the CPU's schedule.
    pub now: Timestamp,
    /// The pending fire time of every event slot.
    pub times: Seq<Option<Timestamp>>,
    pub timers: Seq<TimerView>,
    pub dma: DmaView,
    /// The sixteen bytes of the DMA fill registers.
    pub dma_fill: Seq<u8>,
    pub engine: EngineView,
    pub cp15: Cp15View,
    pub bios: Seq<u8>,
    pub post_boot_flag: u8,
    /// The part of the external memory control register that belongs to the ARM9.
    pub local_ex_mem_control: u8,
    /// Whether the BIOS is emulated at a high level.
    pub hle_bios_enabled: bool,
}

/// The ARM9 is well-formed.
pub open spec fn arm9_wf(v: Arm9View) -> bool {
    &&& irqs_wf(v.irqs)
    &&& v.times.len() == 14
    &&& timers_wf(v.timers)
    &&& timers_updated_by(v.timers, v.now)
    &&& v.dma_fill.len() == 16
    &&& engine_wf(v.engine)
    &&& cp15_wf(v.cp15)
    &&& v.bios.len() == 0x1000
}

/// The ARM9.
pub struct Arm9 {
    pub irqs: IrqController,
    pub schedule: Scheduler,
    pub timers: Timers,
    pub dma: Dma,
    pub dma_fill: [u8; 16],
    pub engine_data: EngineData,
    pub cp15: Cp15,
    pub bios: Vec<u8>,
    pub post_boot_flag: u8,
    pub local_ex_mem_control: u8,
    pub hle_bios_enabled: bool,
}

impl View for Arm9 {
    type V = Arm9View;

    open spec fn view(&self) -> Arm9View {
        Arm9View {
            irqs: self.irqs@,
            now: self.schedule@.cur_time,
            times: self.schedule@.times,
            timers: self.timers@,
            dma: self.dma@,
            dma_fill: self.dma_fill@,
            engine: self.engine_data@,
            cp15: self.cp15@,
            bios: self.bios@,
            post_boot_flag: self.post_boot_flag,
            local_ex_mem_control: self.local_ex_mem_control,
            hle_bios_enabled: self.hle_bios_enabled,
        }
    }
}

/// The halfword that a read from the GBA slot returns when nothing is in it: the low
/// bits of the halfword's number.
pub open spec fn gba_rom_halfword(addr: u32) -> u16 {
    (addr >> 1) as u16
}

/// The ARM9 at power-on, with the given BIOS: its clock at zero, no event pending, no
/// interrupt enabled or requested, its timers stopped, its DMA channels idle, and the
/// BIOS not emulated.
pub open spec fn initial_arm9(bios: Seq<u8>) -> Arm9View {
    Arm9View {
        irqs: IrqsView {
            master_enable: false,
            enabled: 0,
            requested: 0,
            enabled_in_cpsr: false,
            halted: false,
        },
        now: Timestamp(0),
        times: Seq::new(14, |i: int| None::<Timestamp>),
        timers: Seq::new(4, |i: int| crate::cpu::timers::new_timer()),
        dma: crate::cpu::dma::initial_dma(),
        dma_fill: Seq::new(16, |i: int| 0u8),
        engine: crate::cpu::interpreter::arm9::initial_engine(
            crate::cpu::interpreter::regs::startup_regs(),
        ),
        cp15: cp15::initial_cp15(),
        bios,
        post_boot_flag: 0,
        local_ex_mem_control: 0,
        hle_bios_enabled: false,
    }
}

impl Arm9 {
    /// The ARM9 at power-on, with the given BIOS.
    pub fn new(bios: Vec<u8>) -> (arm9: Self)
        requires
            bios.len() == 0x1000,
        ensures
            arm9@ == initial_arm9(bios@),
            arm9_wf(arm9@),
    {
        let mut schedule = Scheduler::new();
        let timers = Timers::new(&mut schedule);
        let engine_data = EngineData::new();
        let arm9 = Arm9 {
            irqs: IrqController::new(),
            schedule,
            timers,
            dma: Dma::new(),
            dma_fill: [0; 16],
            engine_data,
            cp15: Cp15::new(),
            bios,
            post_boot_flag: 0,
            local_ex_mem_control: 0,
            hle_bios_enabled: false,
        };
        proof {
            arm9.schedule.lemma_slots();
            crate::cpu::schedule::lemma_queue_determines_times(
                arm9.schedule@.times,
                Seq::new(14, |i: int| None::<Timestamp>),
            );
            assert(arm9@.dma_fill =~= Seq::new(16, |i: int| 0u8));
            assert(arm9@.times =~= Seq::new(14, |i: int| None::<Timestamp>));
        }
        arm9
    }

    /// The halfword that a read from the GBA slot returns when nothing is in it.
    pub fn gba_rom_halfword(addr: u32) -> (value: u16)
        ensures
            value == gba_rom_halfword(addr),
    {
        #[verifier::truncate]
        ((addr >> 1) as u16)
    }
}

/// The ARM9 with the timers, the interrupt requests and the queue that an operation on
/// the timer bank left.
pub open spec fn with_timers(
    v: Arm9View,
    timers: Seq<TimerView>,
    requested: u32,
    queue: Map<crate::cpu::schedule::EventSlotIndex, Timestamp>,
) -> Arm9View {
    Arm9View {
        timers,
        irqs: woken(IrqsView { requested, ..v.irqs }),
        times: times_of(queue),
        ..v
    }
}

/// The ARM9 after a read of the counter of timer `i`.
pub open spec fn timer_counter_read(v: Arm9View, i: int) -> Arm9View {
    let (timers, requested) = crate::cpu::timers::update_source(
        v.timers,
        i,
        v.now,
        v.irqs.requested,
    );
    with_timers(v, timers, requested, queue_of(v.times))
}

/// The ARM9 after a write of `value` to the reload register of timer `i`.
pub open spec fn timer_reload_written(v: Arm9View, i: int, value: u16) -> Arm9View {
    let t = v.timers[i];
    let (timers, requested) = if t.control.running() && !t.count_up {
        crate::cpu::timers::run_timer(v.timers, i, v.now, v.irqs.requested)
    } else {
        (v.timers, v.irqs.requested)
    };
    with_timers(
        v,
        timers.update(i, TimerView { reload: value, ..timers[i] }),
        requested,
        queue_of(v.times),
    )
}

/// The ARM9 after a write of `value` to the control register of timer `i`.
pub open spec fn timer_control_written(v: Arm9View, i: int, value: TimerControl) -> Arm9View {
    let (timers, requested, queue) = crate::cpu::timers::write_control::<Scheduler>(
        v.timers,
        v.irqs.requested,
        queue_of(v.times),
        i,
        value,
        v.now,
    );
    with_timers(v, timers, requested, queue)
}

/// The ARM9 after a write of `reload` and `control` to timer `i` in one access.
pub open spec fn timer_control_reload_written(
    v: Arm9View,
    i: int,
    reload: u16,
    control: TimerControl,
) -> Arm9View {
    let (timers, requested, queue) = crate::cpu::timers::write_control_reload::<Scheduler>(
        v.timers,
        v.irqs.requested,
        queue_of(v.times),
        i,
        reload,
        control,
        v.now,
    );
    with_timers(v, timers, requested, queue)
}

impl Arm9 {
    /// What an operation on the timer bank made of the ARM9, given what it made of the
    /// timers, the interrupt requests and the queue.
    proof fn lemma_with_timers(&self, before: &Arm9)
        requires
            arm9_wf(before@),
            self.irqs == before.irqs.raised(self.irqs.requested_flags()),
            self.schedule.now() == before.schedule.now(),
            self.dma == before.dma,
            self.dma_fill == before.dma_fill,
            self.engine_data == before.engine_data,
            self.cp15 == before.cp15,
            self.bios == before.bios,
            self.post_boot_flag == before.post_boot_flag,
            self.local_ex_mem_control == before.local_ex_mem_control,
            self.hle_bios_enabled == before.hle_bios_enabled,
        ensures
            self@ == with_timers(
                before@,
                self.timers@,
                self.irqs.requested_flags(),
                self.schedule.queue(),
            ),
            self@.times.len() == 14,
            irqs_wf(self@.irqs),
    {
        before.irqs.lemma_raised_view(self.irqs.requested_flags());
        self.schedule.lemma_slots();
        lemma_times_of_queue(self.schedule@.times);
    }

    /// The counter of timer `i` at the current time.
    pub fn read_timer_counter(&mut self, i: TimerIndex) -> (counter: u16)
        requires
            arm9_wf(old(self)@),
        ensures
            final(self)@ == timer_counter_read(old(self)@, i@ as int),
            counter == final(self)@.timers[i@ as int].counter,
            arm9_wf(final(self)@),
    {
        let ghost before = *self;
        proof {
            before.schedule.lemma_slots();
            lemma_times_of_queue(before.schedule@.times);
        }
        let counter = self.timers.read_counter(i, &mut self.schedule, &mut self.irqs);
        proof {
            self.lemma_with_timers(&before);
        }
        counter
    }

    /// Writes the reload register of timer `i`.
    pub fn write_timer_reload(&mut self, i: TimerIndex, value: u16)
        requires
            arm9_wf(old(self)@),
        ensures
            final(self)@ == timer_reload_written(old(self)@, i@ as int, value),
            arm9_wf(final(self)@),
    {
        let ghost before = *self;
        proof {
            before.schedule.lemma_slots();
            lemma_times_of_queue(before.schedule@.times);
        }
        self.timers.write_reload(i, value, &mut self.schedule, &mut self.irqs);
        proof {
            self.lemma_with_timers(&before);
        }
    }

    /// Writes the control register of timer `i`.
    pub fn write_timer_control(&mut self, i: TimerIndex, value: TimerControl)
        requires
            arm9_wf(old(self)@),
        ensures
            final(self)@ == timer_control_written(old(self)@, i@ as int, value),
            arm9_wf(final(self)@),
    {
        let ghost before = *self;
        proof {
            before.schedule.lemma_slots();
            lemma_times_of_queue(before.schedule@.times);
        }
        self.timers.write_control(i, value, &mut self.schedule, &mut self.irqs);
        proof {
            self.lemma_with_timers(&before);
        }
    }

    /// Writes the reload and the control register of timer `i` in one access.
    pub fn write_timer_control_reload(&mut self, i: TimerIndex, reload: u16, control: TimerControl)
        requires
            arm9_wf(old(self)@),
        ensures
            final(self)@ == timer_control_reload_written(old(self)@, i@ as int, reload, control),
            arm9_wf(final(self)@),
    {
        let ghost before = *self;
        proof {
            before.schedule.lemma_slots();
            lemma_times_of_queue(before.schedule@.times);
        }
        self.timers.write_control_reload(i, reload, control, &mut self.schedule, &mut self.irqs);
        proof {
            self.lemma_with_timers(&before);
        }
    }
}

/// The ARM9 after the queued overflow of timer `i`, due at `time`, is handled. A timer
/// that does not run any more has nothing to handle.
pub open spec fn timer_overflow_handled(v: Arm9View, i: int, time: Timestamp) -> Arm9View {
    if !v.timers[i].control.running() {
        v
    } else {
        let (timers, requested) = if v.timers[i].last_update_time.0 < time.0 {
            crate::cpu::timers::run_timer(v.timers, i, time, v.irqs.requested)
        } else {
            (v.timers, v.irqs.requested)
        };
        with_timers(
            v,
            timers,
            requested,
            queue_of(v.times).insert(
                <Scheduler as crate::cpu::schedule::ScheduleConst>::timer_slot(i as u8),
                crate::cpu::timers::overflow_time(timers[i]),
            ),
        )
    }
}

impl Arm9 {
    /// Handles the queued overflow of timer `i`, which was due at `time`, not after the
    /// current time.
    pub fn handle_timer_overflow(&mut self, i: TimerIndex, time: Timestamp)
        requires
            arm9_wf(old(self)@),
            time.0 <= old(self)@.now.0,
        ensures
            final(self)@ == timer_overflow_handled(old(self)@, i@ as int, time),
            arm9_wf(final(self)@),
            final(self)@.now == old(self)@.now,
            final(self)@.cp15 == old(self)@.cp15,
            final(self)@.engine == old(self)@.engine,
    {
        let idx = i.get() as usize;
        if !self.timers.0[idx].control().running() {
            return ;
        }
        let ghost before = *self;
        proof {
            before.schedule.lemma_slots();
            lemma_times_of_queue(before.schedule@.times);
            crate::cpu::timers::lemma_run_timer_frame(
                before.timers@,
                idx as int,
                time,
                before.irqs.requested_flags(),
            );
        }
        self.timers.handle_scheduled_overflow(i, time, &mut self.schedule, &mut self.irqs);
        proof {
            self.lemma_with_timers(&before);
            let r = crate::cpu::timers::run_timer(
                before.timers@,
                idx as int,
                time,
                before.irqs.requested_flags(),
            ).0;
            assert forall|k: int| 0 <= k < 4 implies (#[trigger] self@.timers[k]).last_update_time.0
                <= self@.now.0 by {
                if before.timers@[idx as int].last_update_time.0 < time.0 {
                    assert(r[k].last_update_time == before.timers@[k].last_update_time || k == idx);
                }
            }
        }
    }
}

} // verus!
