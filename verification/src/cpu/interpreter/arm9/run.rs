//! The run loop of the ARM9: one step at a time, the CPU handles the events that are due,
//! waits for a DMA transfer, takes an interrupt, sleeps, or runs an instruction.

use crate::cpu::arm9::dma_transfer::{dma_transferred, run_dma_transfer};
use crate::cpu::arm9::{timer_overflow_handled, Arm9View};
use crate::cpu::dma::{first_channel, triggered, DmaView, TIMING_DS_SLOT};
use crate::cpu::interpreter::arm9::arm::{arm_executed, arm_request};
use crate::cpu::interpreter::arm9::thumb::{thumb_executed, thumb_request};
use crate::cpu::interpreter::arm9::{
    arm, enter_mode, irq_taken, jumped, mode_entered, set_data_cycles, set_pipeline, set_reg,
    swi_is_emulated, take_irq, thumb, with_data_cycles, with_engine, with_pipeline, with_regs,
    EngineData, EngineView, HleRequest, Interlock,
};
use crate::cpu::interpreter::regs::RegsView;
use crate::cpu::irqs::irq_triggered;
use crate::cpu::psr::Mode;
use crate::cpu::schedule::{
    due_slot, is_slot_event, lemma_pop_order, next_event_time, Event, Schedule, SchedulerView,
    SLOT_DS_SLOT_ROM, SLOT_GX_FIFO_STALL,
};
use crate::cpu::timers::Timestamp;
use crate::ds_slot::{data_ready_handled, irqs_after_transfer, transfer_done};
use crate::emu::{emu_wf, Emu, EmuView};
use vstd::prelude::*;

verus! {

/// Why the interpreter stopped running.
#[derive(Clone, Copy, Debug, PartialEq, Eq)]
pub enum Stop {
    /// The clock reached the time that it was to run to.
    TimeReached,
    /// The interpreter took as many steps as it was allowed.
    OutOfSteps,
    /// The geometry command queue stalls the CPU.
    GxFifoStall,
    /// The emulated BIOS has something to do before the interpreter can go on.
    Hle(HleRequest),
}

/// The schedule of the ARM9 as the machine's state shows it.
pub open spec fn schedule_of(v: EmuView) -> SchedulerView {
    SchedulerView { cur_time: v.arm9.now, target_time: Timestamp(0), times: v.arm9.times }
}

/// The machine after the event of slot `slot` fired, which was due at `time`: a timer's
/// overflow is handled; data that the cartridge has ready starts the DMA channels that
/// wait for it, and the end of a cartridge transfer requests its interrupt; the events of
/// units outside this machine change nothing.
pub open spec fn event_handled(v: EmuView, slot: int, time: Timestamp) -> EmuView {
    if 0 <= slot < 4 {
        EmuView { arm9: timer_overflow_handled(v.arm9, slot, time), ..v }
    } else if slot == SLOT_DS_SLOT_ROM {
        let busy = v.ds_slot.rom_control & 0x8000_0000 != 0;
        EmuView {
            ds_slot: data_ready_handled(v.ds_slot),
            arm9: Arm9View {
                irqs: if busy && transfer_done(v.ds_slot) {
                    irqs_after_transfer(v.ds_slot, v.arm9.irqs)
                } else {
                    v.arm9.irqs
                },
                dma: if busy && !transfer_done(v.ds_slot) {
                    DmaView {
                        running: triggered(
                            v.arm9.dma.channels,
                            v.arm9.dma.running,
                            TIMING_DS_SLOT,
                            4,
                        ),
                        ..v.arm9.dma
                    }
                } else {
                    v.arm9.dma
                },
                ..v.arm9
            },
            ..v
        }
    } else {
        v
    }
}

/// Handles an event that fired.
fn handle_event(emu: &mut Emu, event: Event, time: Timestamp, Ghost(slot): Ghost<int>)
    requires
        emu_wf(old(emu)@),
        is_slot_event(slot, event),
        slot != SLOT_GX_FIFO_STALL,
        time.0 <= old(emu)@.arm9.now.0,
    ensures
        final(emu)@ == event_handled(old(emu)@, slot, time),
        emu_wf(final(emu)@),
{
    match event {
        Event::Timer(i) => {
            emu.arm9.handle_timer_overflow(i, time);
        },
        Event::DsSlotRomDataReady => {
            let ready = emu.ds_slot.handle_rom_data_ready(
                &mut emu.arm9.irqs,
                &mut emu.arm9.schedule,
            );
            if ready {
                emu.arm9.dma.trigger(TIMING_DS_SLOT);
            }
        },
        _ => {},
    }
}

/// The request that the instruction in a pipeline entry leaves for the caller.
pub open spec fn entry_request(before: EmuView, entry: u64, after: EmuView) -> HleRequest {
    if entry & 0x1_0000_0000 == 0 {
        arm_request(before, entry as u32, after)
    } else {
        thumb_request(before, entry as u16, after)
    }
}

/// The machine with the first instruction of the pipeline taken out to run: the second
/// moves up, and the data cycles start from one.
pub open spec fn instruction_taken(v: EmuView) -> EmuView {
    with_data_cycles(with_pipeline(v, 0, v.arm9.engine.pipeline[1]), 1)
}

/// The machine after the next instruction ran: bit 32 of its pipeline entry says whether
/// it is a Thumb instruction.
pub open spec fn instruction_executed(v: EmuView) -> EmuView {
    let entry = v.arm9.engine.pipeline[0];
    if entry & 0x1_0000_0000 == 0 {
        arm_executed(instruction_taken(v), entry as u32)
    } else {
        thumb_executed(instruction_taken(v), entry as u16)
    }
}

/// Runs the next instruction.
pub fn execute_instruction(emu: &mut Emu) -> (request: HleRequest)
    requires
        emu_wf(old(emu)@),
    ensures
        final(emu)@ == instruction_executed(old(emu)@),
        emu_wf(final(emu)@),
        request == entry_request(
            instruction_taken(old(emu)@),
            old(emu)@.arm9.engine.pipeline[0],
            final(emu)@,
        ),
{
    let entry = emu.arm9.engine_data.pipeline[0];
    let next = emu.arm9.engine_data.pipeline[1];
    set_pipeline(emu, 0, next);
    set_data_cycles(emu, 1);
    if entry & 0x1_0000_0000 == 0 {
        arm::handle_instr(emu, #[verifier::truncate] (entry as u32))
    } else {
        thumb::handle_instr(emu, #[verifier::truncate] (entry as u16))
    }
}

/// The earlier of two times.
pub open spec fn earlier(a: Timestamp, b: Timestamp) -> Timestamp {
    if a.0 <= b.0 {
        a
    } else {
        b
    }
}

/// One step of the ARM9 on its way to `end_time`, and why it stops there, if it does.
///
/// An event that is due fires first, the earliest one before the others. Else a DMA
/// channel that is ready runs its transfer while the CPU waits. Else the CPU takes an
/// interrupt if one is requested and let through. Else a halted CPU sleeps until the next
/// event or the end time. Else the next instruction runs.
pub open spec fn stepped(v: EmuView, end_time: Timestamp) -> (Option<Stop>, EmuView) {
    match due_slot(schedule_of(v)) {
        Some(slot) => {
            let popped = EmuView {
                arm9: Arm9View { times: v.arm9.times.update(slot, None), ..v.arm9 },
                ..v
            };
            if slot == SLOT_GX_FIFO_STALL {
                (Some(Stop::GxFifoStall), popped)
            } else {
                (None, event_handled(popped, slot, v.arm9.times[slot].unwrap()))
            }
        },
        None => match first_channel(v.arm9.dma.running) {
            Some(channel) => (None, dma_transferred(v, channel as int)),
            None => if irq_triggered(v.arm9.irqs) {
                (if swi_is_emulated(v) {
                    Some(Stop::Hle(HleRequest::Irq))
                } else {
                    None
                }, irq_taken(v))
            } else if v.arm9.irqs.halted {
                (
                    None,
                    EmuView {
                        arm9: Arm9View {
                            now: earlier(next_event_time(schedule_of(v)), end_time),
                            ..v.arm9
                        },
                        ..v
                    },
                )
            } else {
                let after = instruction_executed(v);
                let request = entry_request(
                    instruction_taken(v),
                    v.arm9.engine.pipeline[0],
                    after,
                );
                (if request is Nothing {
                    None
                } else {
                    Some(Stop::Hle(request))
                }, after)
            },
        },
    }
}

/// Takes one step.
fn step(emu: &mut Emu, end_time: Timestamp) -> (stop: Option<Stop>)
    requires
        emu_wf(old(emu)@),
        old(emu)@.arm9.now.0 < end_time.0,
    ensures
        (stop, final(emu)@) == stepped(old(emu)@, end_time),
        emu_wf(final(emu)@),
{
    proof {
        lemma_pop_order(emu.arm9.schedule@);
    }
    let ghost slot = due_slot(emu.arm9.schedule@);
    match emu.arm9.schedule.pop_pending_event() {
        Some((event, time)) => {
            match event {
                Event::GxFifoStall => {
                    return Some(Stop::GxFifoStall);
                },
                _ => {},
            }
            handle_event(emu, event, time, Ghost(slot.unwrap()));
            return None;
        },
        None => {},
    }
    let next = emu.arm9.schedule.next_event_time();
    let target = if next.0 <= end_time.0 {
        next
    } else {
        end_time
    };
    emu.arm9.schedule.set_target_time(target);
    match emu.arm9.dma.cur_channel() {
        Some(channel) => {
            run_dma_transfer(emu, channel);
            return None;
        },
        None => {},
    }
    if emu.arm9.irqs.triggered() {
        let request = take_irq(emu);
        return match request {
            HleRequest::Nothing => None,
            _ => Some(Stop::Hle(request)),
        };
    }
    if emu.arm9.irqs.halted() {
        emu.arm9.schedule.set_cur_time(target);
        return None;
    }
    let request = execute_instruction(emu);
    match request {
        HleRequest::Nothing => None,
        _ => Some(Stop::Hle(request)),
    }
}

/// Why the ARM9 stops on its way to `end_time` with `budget` steps to take, and the
/// machine when it stops: it takes steps until its clock reaches the end time, a step
/// stops it, or the steps run out.
pub open spec fn ran_until(v: EmuView, end_time: Timestamp, budget: nat) -> (Stop, EmuView)
    decreases budget,
{
    if v.arm9.now.0 >= end_time.0 {
        (Stop::TimeReached, v)
    } else if budget == 0 {
        (Stop::OutOfSteps, v)
    } else {
        let (stop, after) = stepped(v, end_time);
        match stop {
            Some(stop) => (stop, after),
            None => ran_until(after, end_time, (budget - 1) as nat),
        }
    }
}

/// The machine after the events that are due fired while the CPU is stalled, `budget` of
/// them at most.
pub open spec fn events_drained(v: EmuView, budget: nat) -> EmuView
    decreases budget,
{
    if budget == 0 {
        v
    } else {
        match due_slot(schedule_of(v)) {
            Some(slot) => {
                let popped = EmuView {
                    arm9: Arm9View { times: v.arm9.times.update(slot, None), ..v.arm9 },
                    ..v
                };
                events_drained(
                    if slot == SLOT_GX_FIFO_STALL {
                        popped
                    } else {
                        event_handled(popped, slot, v.arm9.times[slot].unwrap())
                    },
                    (budget - 1) as nat,
                )
            },
            None => v,
        }
    }
}

/// The engine as a program that was loaded directly finds it, but for the pipeline and
/// the program counter: registers 0 to 11 zero, the entry address in registers 12 and 14,
/// the stack pointers of the system, interrupt and supervisor modes where the firmware
/// puts them, and no interlocks.
pub open spec fn boot_engine(engine: EngineView, entry_addr: u32) -> EngineView {
    EngineView {
        regs: RegsView {
            cur: Seq::new(
                16,
                |i: int|
                    if i < 12 {
                        0u32
                    } else if i == 13 {
                        0x0300_2F7Cu32
                    } else if i == 15 {
                        engine.regs.cur[15]
                    } else {
                        entry_addr
                    },
            ),
            r13_14: engine.regs.r13_14.update(
                2,
                engine.regs.r13_14[2].update(0, 0x0300_3F80),
            ).update(3, engine.regs.r13_14[3].update(0, 0x0300_3FC0)),
            ..engine.regs
        },
        data_cycles: 1,
        bus_cycle: 0,
        interlocks: Seq::new(16, |i: int| Interlock { port_ab: 0, port_c: 0 }),
        ..engine
    }
}

/// The machine as a program that was loaded directly, without the firmware, finds it:
/// the CPU in system mode, its registers set up, and the pipeline filled from the entry
/// address.
pub open spec fn direct_boot_set_up(v: EmuView, entry_addr: u32) -> EmuView {
    let v = mode_entered(v, 0x1F);
    jumped(with_engine(v, boot_engine(v.arm9.engine, entry_addr)), entry_addr)
}

impl EngineData {
    /// Gets the ARM9 ready for a program that was loaded directly, without the firmware.
    pub fn setup_direct_boot(emu: &mut Emu, entry_addr: u32)
        requires
            emu_wf(old(emu)@),
        ensures
            final(emu)@ == direct_boot_set_up(old(emu)@, entry_addr),
            emu_wf(final(emu)@),
    {
        enter_mode(emu, Mode::system());
        let ghost regs0 = emu@.arm9.engine.regs;
        let mut i: u8 = 0;
        proof {
            assert(regs0.cur =~= Seq::new(
                16,
                |k: int|
                    if k < i {
                        0u32
                    } else {
                        regs0.cur[k]
                    },
            ));
        }
        while i < 12
            invariant
                i <= 12,
                emu_wf(emu@),
                emu@ == with_regs(
                    mode_entered(old(emu)@, 0x1F),
                    RegsView {
                        cur: Seq::new(
                            16,
                            |k: int|
                                if k < i {
                                    0u32
                                } else {
                                    regs0.cur[k]
                                },
                        ),
                        ..regs0
                    },
                ),
                regs0 == mode_entered(old(emu)@, 0x1F).arm9.engine.regs,
            decreases 12 - i,
        {
            set_reg(emu, i, 0);
            i += 1;
            proof {
                assert(emu@.arm9.engine.regs.cur =~= Seq::new(
                    16,
                    |k: int|
                        if k < i {
                            0u32
                        } else {
                            regs0.cur[k]
                        },
                ));
            }
        }
        set_reg(emu, 12, entry_addr);
        set_reg(emu, 13, 0x0300_2F7C);
        set_reg(emu, 14, entry_addr);
        emu.arm9.engine_data.regs.set_banked_r13(2, 0x0300_3F80);
        emu.arm9.engine_data.regs.set_banked_r13(3, 0x0300_3FC0);
        emu.arm9.engine_data.data_cycles = 1;
        emu.arm9.engine_data.bus_cycle = 0;
        emu.arm9.engine_data.interlocks = [Interlock { port_ab: 0, port_c: 0 }; 16];
        proof {
            emu.arm9.engine_data.regs.lemma_wf();
            let v1 = mode_entered(old(emu)@, 0x1F);
            let booted = boot_engine(v1.arm9.engine, entry_addr);
            assert(emu@.arm9.engine.regs.cur =~= booted.regs.cur);
            assert(emu@.arm9.engine.interlocks =~= booted.interlocks);
            assert(emu@.arm9.engine.regs == booted.regs);
            assert(emu@.arm9.engine == booted);
            assert(emu@ == with_engine(v1, booted));
        }
        Self::jump(emu, entry_addr);
    }

    /// Lets time pass up to `end_time` while the CPU is stalled: the events that are
    /// due by then fire, `budget` of them at most.
    pub fn run_stalled_until(emu: &mut Emu, end_time: Timestamp, budget: u64)
        requires
            emu_wf(old(emu)@),
        ensures
            final(emu)@ == events_drained(
                EmuView {
                    arm9: Arm9View {
                        now: if old(emu)@.arm9.now.0 < end_time.0 {
                            end_time
                        } else {
                            old(emu)@.arm9.now
                        },
                        ..old(emu)@.arm9
                    },
                    ..old(emu)@
                },
                budget as nat,
            ),
            emu_wf(final(emu)@),
    {
        emu.arm9.schedule.set_cur_time_after(end_time);
        let ghost start = emu@;
        let mut left = budget;
        while left > 0
            invariant
                emu_wf(emu@),
                events_drained(emu@, left as nat) == events_drained(start, budget as nat),
                start == (EmuView {
                    arm9: Arm9View {
                        now: if old(emu)@.arm9.now.0 < end_time.0 {
                            end_time
                        } else {
                            old(emu)@.arm9.now
                        },
                        ..old(emu)@.arm9
                    },
                    ..old(emu)@
                }),
            decreases left,
        {
            proof {
                lemma_pop_order(emu.arm9.schedule@);
            }
            let ghost slot = due_slot(emu.arm9.schedule@);
            let ghost before = emu@;
            proof {
                assert(due_slot(schedule_of(before)) == slot);
            }
            match emu.arm9.schedule.pop_pending_event() {
                Some((event, time)) => {
                    match event {
                        Event::GxFifoStall => {},
                        _ => {
                            handle_event(emu, event, time, Ghost(slot.unwrap()));
                        },
                    }
                },
                None => {
                    proof {
                        assert(emu@ == before);
                        assert(events_drained(before, left as nat) == before);
                    }
                    return ;
                },
            }
            left -= 1;
        }
    }

    /// Runs the ARM9 until its clock reaches `end_time`, or until something stops it,
    /// and says why it stopped. It takes `budget` steps at most: a program can keep the
    /// CPU busy without letting time pass.
    pub fn run_until(emu: &mut Emu, end_time: Timestamp, budget: u64) -> (stop: Stop)
        requires
            emu_wf(old(emu)@),
        ensures
            (stop, final(emu)@) == ran_until(old(emu)@, end_time, budget as nat),
            emu_wf(final(emu)@),
    {
        let mut left = budget;
        while emu.arm9.schedule.cur_time().0 < end_time.0
            invariant
                emu_wf(emu@),
                ran_until(emu@, end_time, left as nat) == ran_until(
                    old(emu)@,
                    end_time,
                    budget as nat,
                ),
            decreases left,
        {
            if left == 0 {
                return Stop::OutOfSteps;
            }
            match step(emu, end_time) {
                Some(stop) => {
                    return stop;
                },
                None => {},
            }
            left -= 1;
        }
        Stop::TimeReached
    }
}

} // verus!
