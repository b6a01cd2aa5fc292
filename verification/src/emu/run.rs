//! The host loop: it lets the two CPUs run in turns, from one event to the next, so that
//! neither sees the other beyond the earliest event that is pending. The ARM9's clock
//! counts two ticks for each tick of the ARM7's.

use crate::cpu::interpreter::arm7;
use crate::cpu::interpreter::arm9;
use crate::cpu::interpreter::arm9::run::Stop;
use crate::cpu::schedule::{next_event_time, Schedule};
use crate::cpu::timers::Timestamp;
use crate::emu::{emu_wf, Emu, EmuView};
use vstd::prelude::*;

verus! {

/// The time, by the ARM7's clock, up to which the CPUs run in their next turn on the way
/// to `end_time`: the time of the earliest event that is pending for either CPU, but at
/// least one tick from now and not beyond the end time.
pub open spec fn turn_end(v: EmuView, end_time: Timestamp) -> Timestamp {
    let next7 = next_event_time(arm7::run::schedule_of(v)).0;
    let next9 = next_event_time(arm9::run::schedule_of(v)).0 / 2;
    let next = if next7 <= next9 {
        next7
    } else {
        next9
    };
    if next <= v.arm7.now.0 {
        Timestamp((v.arm7.now.0 + 1) as u64)
    } else if next <= end_time.0 {
        Timestamp(next)
    } else {
        end_time
    }
}

/// Why the machine stops on its way to `end_time` by the ARM7's clock, and the machine
/// when it stops. In each of at most `turns` turns, the ARM9 runs up to twice the turn's
/// end by its own clock, then the ARM7 up to the turn's end; each takes `budget` steps at
/// most in a turn. The machine stops when the ARM7's clock reaches the end time, when a
/// CPU stops for a reason of its own, or when the turns run out.
pub open spec fn ran(v: EmuView, end_time: Timestamp, budget: nat, turns: nat) -> (Stop, EmuView)
    decreases turns,
{
    if v.arm7.now.0 >= end_time.0 {
        (Stop::TimeReached, v)
    } else if turns == 0 {
        (Stop::OutOfSteps, v)
    } else {
        let end = turn_end(v, end_time);
        let (stop9, v9) = arm9::run::ran_until(v, Timestamp(end.0.saturating_add(end.0)), budget);
        if stop9 != Stop::TimeReached {
            (stop9, v9)
        } else {
            let (stop7, v7) = arm7::run::ran_until(v9, end, budget);
            if stop7 != Stop::TimeReached {
                (stop7, v7)
            } else {
                ran(v7, end_time, budget, (turns - 1) as nat)
            }
        }
    }
}

impl Emu {
    /// The end of the next turn.
    fn turn_end(&self, end_time: Timestamp) -> (end: Timestamp)
        requires
            emu_wf(self@),
            self@.arm7.now.0 < end_time.0,
        ensures
            end == turn_end(self@, end_time),
    {
        let next7 = self.arm7.schedule.next_event_time().0;
        let next9 = self.arm9.schedule.next_event_time().0 / 2;
        let next = if next7 <= next9 {
            next7
        } else {
            next9
        };
        let now = self.arm7.schedule.cur_time().0;
        if next <= now {
            Timestamp(now + 1)
        } else if next <= end_time.0 {
            Timestamp(next)
        } else {
            end_time
        }
    }

    /// Runs the machine until the ARM7's clock reaches `end_time`, or until something
    /// stops it, and says why it stopped.
    pub fn run(&mut self, end_time: Timestamp, budget: u64, turns: u64) -> (stop: Stop)
        requires
            emu_wf(old(self)@),
        ensures
            (stop, final(self)@) == ran(old(self)@, end_time, budget as nat, turns as nat),
            emu_wf(final(self)@),
    {
        let mut left = turns;
        while self.arm7.schedule.cur_time().0 < end_time.0
            invariant
                emu_wf(self@),
                ran(self@, end_time, budget as nat, left as nat) == ran(
                    old(self)@,
                    end_time,
                    budget as nat,
                    turns as nat,
                ),
            decreases left,
        {
            if left == 0 {
                return Stop::OutOfSteps;
            }
            let end = self.turn_end(end_time);
            let stop9 = arm9::EngineData::run_until(
                self,
                Timestamp(end.0.saturating_add(end.0)),
                budget,
            );
            match stop9 {
                Stop::TimeReached => {},
                _ => {
                    return stop9;
                },
            }
            let stop7 = arm7::EngineData::run_until(self, end, budget);
            match stop7 {
                Stop::TimeReached => {},
                _ => {
                    return stop7;
                },
            }
            left -= 1;
        }
        Stop::TimeReached
    }
}

} // verus!
