//! The run loop of the ARM7: one step at a time, the CPU handles the events that are due,
//! takes an interrupt, sleeps, or runs an instruction.

use crate::cpu::arm7::{timer_overflow_handled, Arm7View};
use crate::cpu::interpreter::arm7::arm::arm_executed;
use crate::cpu::interpreter::arm7::thumb::thumb_executed;
use crate::cpu::interpreter::arm7::{
    arm, cpsr, in_thumb_state, irq_taken, set_pipeline, take_irq, thumb, with_pipeline, EngineData,
};
use crate::cpu::interpreter::arm9::run::{earlier, Stop};
use crate::cpu::irqs::irq_triggered;
use crate::cpu::schedule::{
    due_slot, is_slot_event, lemma_pop_order, next_event_time, Event, Schedule, SchedulerView,
};
use crate::cpu::timers::Timestamp;
use crate::emu::{emu_wf, Emu, EmuView};
use vstd::prelude::*;

verus! {

/// The schedule of the ARM7 as the machine's state shows it.
pub open spec fn schedule_of(v: EmuView) -> SchedulerView {
    SchedulerView { cur_time: v.arm7.now, target_time: Timestamp(0), times: v.arm7.times }
}

/// The machine after the event of slot `slot` of the ARM7's schedule fired, which was due
/// at `time`: a timer's overflow is handled; no other event changes anything.
pub open spec fn event_handled(v: EmuView, slot: int, time: Timestamp) -> EmuView {
    if 0 <= slot < 4 {
        EmuView { arm7: timer_overflow_handled(v.arm7, slot, time), ..v }
    } else {
        v
    }
}

/// Handles an event that fired.
fn handle_event(emu: &mut Emu, event: Event, time: Timestamp, Ghost(slot): Ghost<int>)
    requires
        emu_wf(old(emu)@),
        is_slot_event(slot, event),
        time.0 <= old(emu)@.arm7.now.0,
    ensures
        final(emu)@ == event_handled(old(emu)@, slot, time),
        emu_wf(final(emu)@),
{
    match event {
        Event::Timer(i) => {
            emu.arm7.handle_timer_overflow(i, time);
        },
        _ => {},
    }
}

/// The machine with the first instruction of the pipeline taken out to run: the second
/// moves up.
pub open spec fn instruction_taken(v: EmuView) -> EmuView {
    with_pipeline(v, 0, v.arm7.engine.pipeline[1])
}

/// The machine after the next instruction ran: the status register says whether it is a
/// Thumb instruction.
pub open spec fn instruction_executed(v: EmuView) -> EmuView {
    let entry = v.arm7.engine.pipeline[0];
    if in_thumb_state(v) {
        thumb_executed(instruction_taken(v), entry as u16)
    } else {
        arm_executed(instruction_taken(v), entry)
    }
}

/// Runs the next instruction.
pub fn execute_instruction(emu: &mut Emu)
    requires
        emu_wf(old(emu)@),
    ensures
        final(emu)@ == instruction_executed(old(emu)@),
        emu_wf(final(emu)@),
{
    let entry = emu.arm7.engine_data.pipeline[0];
    let next = emu.arm7.engine_data.pipeline[1];
    set_pipeline(emu, 0, next);
    if cpsr(emu).thumb_state() {
        thumb::handle_instr(emu, #[verifier::truncate] (entry as u16));
    } else {
        arm::handle_instr(emu, entry);
    }
}

/// One step of the ARM7 on its way to `end_time`.
///
/// An event that is due fires first, the earliest one before the others. Else the CPU
/// takes an interrupt if one is requested and let through. Else a halted CPU sleeps until
/// the next event or the end time. Else the next instruction runs.
pub open spec fn stepped(v: EmuView, end_time: Timestamp) -> EmuView {
    match due_slot(schedule_of(v)) {
        Some(slot) => event_handled(
            EmuView { arm7: Arm7View { times: v.arm7.times.update(slot, None), ..v.arm7 }, ..v },
            slot,
            v.arm7.times[slot].unwrap(),
        ),
        None => if irq_triggered(v.arm7.irqs) {
            irq_taken(v)
        } else if v.arm7.irqs.halted {
            EmuView {
                arm7: Arm7View {
                    now: earlier(next_event_time(schedule_of(v)), end_time),
                    ..v.arm7
                },
                ..v
            }
        } else {
            instruction_executed(v)
        },
    }
}

/// Takes one step.
fn step(emu: &mut Emu, end_time: Timestamp)
    requires
        emu_wf(old(emu)@),
        old(emu)@.arm7.now.0 < end_time.0,
    ensures
        final(emu)@ == stepped(old(emu)@, end_time),
        emu_wf(final(emu)@),
{
    proof {
        lemma_pop_order(emu.arm7.schedule@);
    }
    let ghost slot = due_slot(emu.arm7.schedule@);
    match emu.arm7.schedule.pop_pending_event() {
        Some((event, time)) => {
            handle_event(emu, event, time, Ghost(slot.unwrap()));
            return ;
        },
        None => {},
    }
    let next = emu.arm7.schedule.next_event_time();
    let target = if next.0 <= end_time.0 {
        next
    } else {
        end_time
    };
    emu.arm7.schedule.set_target_time(target);
    if emu.arm7.irqs.triggered() {
        take_irq(emu);
    } else if emu.arm7.irqs.halted() {
        emu.arm7.schedule.set_cur_time(target);
    } else {
        execute_instruction(emu);
    }
}

/// Why the ARM7 stops on its way to `end_time` with `budget` steps to take, and the
/// machine when it stops: it takes steps until its clock reaches the end time or the
/// steps run out.
pub open spec fn ran_until(v: EmuView, end_time: Timestamp, budget: nat) -> (Stop, EmuView)
    decreases budget,
{
    if v.arm7.now.0 >= end_time.0 {
        (Stop::TimeReached, v)
    } else if budget == 0 {
        (Stop::OutOfSteps, v)
    } else {
        ran_until(stepped(v, end_time), end_time, (budget - 1) as nat)
    }
}

impl EngineData {
    /// Runs the ARM7 until its clock reaches `end_time`, and says whether it did. It takes
    /// `budget` steps at most: a program can keep the CPU busy without letting time pass.
    pub fn run_until(emu: &mut Emu, end_time: Timestamp, budget: u64) -> (stop: Stop)
        requires
            emu_wf(old(emu)@),
        ensures
            (stop, final(emu)@) == ran_until(old(emu)@, end_time, budget as nat),
            emu_wf(final(emu)@),
    {
        let mut left = budget;
        while emu.arm7.schedule.cur_time().0 < end_time.0
            invariant
                emu_wf(emu@),
                ran_until(emu@, end_time, left as nat) == ran_until(
                    old(emu)@,
                    end_time,
                    budget as nat,
                ),
            decreases left,
        {
            if left == 0 {
                return Stop::OutOfSteps;
            }
            step(emu, end_time);
            left -= 1;
        }
        Stop::TimeReached
    }
}

} // verus!
