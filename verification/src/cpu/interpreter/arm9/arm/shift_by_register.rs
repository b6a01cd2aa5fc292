//! Data processing with a second operand that is shifted by the amount in a register.
//! The instruction takes one cycle more than one with an immediate amount, and its
//! result is at hand one bus cycle after it.

use super::{field, reg_field};
use crate::cpu::interpreter::arm9::alu::{
    alu, is_test, run_alu, shift_by, shifted_by, uses_first_operand,
};
use crate::cpu::interpreter::arm9::{
    add_bus_cycles, add_cycles, apply_reg_interlocks_2, apply_reg_interlocks_3, arm_prefetched,
    cpsr, interlock_applied, interlock_end, later, pipeline_reloaded, prefetch_arm, reg, reg_of,
    reload_pipeline, restore_spsr, set_nzcv, set_reg, spsr_restored, with_bus_cycles_added,
    with_cycles_added, with_interlock, with_nzcv, with_reg, write_reg_interlock_ab, Interlock,
    StateSource,
};
use crate::emu::{emu_wf, Emu, EmuView};
use vstd::prelude::*;

verus! {

/// The value that an instruction with a shift by a register reads from a register: the
/// program counter reads one instruction further on than for other instructions.
pub open spec fn operand_of(v: EmuView, r: int) -> u32 {
    if r == 15 {
        reg_of(v, 15).wrapping_add(4)
    } else {
        reg_of(v, r)
    }
}

/// Reads an operand.
fn operand(emu: &Emu, r: u8) -> (value: u32)
    requires
        r < 16,
    ensures
        value == operand_of(emu@, r as int),
{
    if r == 15 {
        reg(emu, 15).wrapping_add(4)
    } else {
        reg(emu, r)
    }
}

/// The machine after a data processing instruction whose second operand is shifted by
/// the low byte of a register.
///
/// The instruction waits for its operands, for the register with the amount through
/// port C, and takes two bus cycles. A result for the program counter is a jump: with
/// the S bit it also restores the status register from the saved one. Any other
/// instruction fetches the next instruction, sets the flags if it has the S bit or is a
/// test, and writes its result unless it is a test; the result is at hand one bus cycle
/// later.
pub open spec fn shift_processed(v: EmuView, instr: u32) -> EmuView {
    let op = (instr >> 21) & 0xF;
    let s = instr & 0x10_0000 != 0;
    let rn = reg_field(instr, 16) as int;
    let rd = reg_field(instr, 12) as int;
    let rs = reg_field(instr, 8) as int;
    let rm = reg_field(instr, 0) as int;
    let amount = interlock_end(v, rs, true);
    let v = interlock_applied(
        v,
        if uses_first_operand(op) {
            later(later(interlock_end(v, rn, false), interlock_end(v, rm, false)), amount)
        } else {
            later(interlock_end(v, rm, false), amount)
        },
    );
    let v = with_bus_cycles_added(v, 2);
    let cpsr = v.arm9.engine.regs.cpsr;
    let (b, shifter_carry) = shifted_by(
        operand_of(v, rm),
        (instr >> 5) & 3,
        reg_of(v, rs) & 0xFF,
        cpsr & 0x2000_0000 != 0,
    );
    let (result, flags) = alu(
        op,
        operand_of(v, rn),
        b,
        cpsr & 0x2000_0000 != 0,
        cpsr & 0x1000_0000 != 0,
        shifter_carry,
    );
    if rd == 15 && !is_test(op) {
        let v = with_cycles_added(with_reg(v, 15, result), 1);
        if s {
            pipeline_reloaded(spsr_restored(v), StateSource::Cpsr)
        } else {
            pipeline_reloaded(v, StateSource::Arm)
        }
    } else {
        let v = with_cycles_added(arm_prefetched(v, true, true), 1);
        let v = if s || is_test(op) {
            with_nzcv(v, flags)
        } else {
            v
        };
        if is_test(op) {
            v
        } else {
            with_reg(
                with_interlock(
                    v,
                    rd,
                    Interlock {
                        port_ab: v.arm9.engine.bus_cycle.saturating_add(1),
                        ..v.arm9.engine.interlocks[rd]
                    },
                ),
                rd,
                result,
            )
        }
    }
}

/// Runs a data processing instruction with a shift by a register.
pub fn shift_processing(emu: &mut Emu, instr: u32)
    requires
        emu_wf(old(emu)@),
    ensures
        final(emu)@ == shift_processed(old(emu)@, instr),
        emu_wf(final(emu)@),
{
    proof {
        crate::bits::lemma_and_le_u32(instr >> 21, 0xF);
        crate::bits::lemma_and_le_u32(instr >> 5, 3);
    }
    let op = (instr >> 21) & 0xF;
    let s = instr & 0x10_0000 != 0;
    let rn = field(instr, 16);
    let rd = field(instr, 12);
    let rs = field(instr, 8);
    let rm = field(instr, 0);
    let test = op >= 8 && op <= 11;
    proof {
        let a = interlock_end(emu@, rn as int, false);
        let b = interlock_end(emu@, rm as int, false);
        assert(a.saturating_sub(0u64) == a && b.saturating_sub(0u64) == b);
    }
    if op != 13 && op != 15 {
        apply_reg_interlocks_3(emu, 0, true, rn, rm, rs);
    } else {
        apply_reg_interlocks_2(emu, 0, true, rm, rs);
    }
    add_bus_cycles(emu, 2);
    let raw = cpsr(emu).raw();
    let amount = reg(emu, rs) & 0xFF;
    proof {
        crate::bits::lemma_and_le_u32(reg_of(emu@, rs as int), 0xFF);
    }
    let (b, shifter_carry) = shift_by(
        operand(emu, rm),
        (instr >> 5) & 3,
        amount,
        raw & 0x2000_0000 != 0,
    );
    let (result, flags) = run_alu(
        op,
        operand(emu, rn),
        b,
        raw & 0x2000_0000 != 0,
        raw & 0x1000_0000 != 0,
        shifter_carry,
    );
    if rd == 15 && !test {
        set_reg(emu, 15, result);
        add_cycles(emu, 1);
        if s {
            restore_spsr(emu);
            reload_pipeline(emu, StateSource::Cpsr);
        } else {
            reload_pipeline(emu, StateSource::Arm);
        }
    } else {
        prefetch_arm(emu, true, true);
        add_cycles(emu, 1);
        if s || test {
            set_nzcv(emu, flags);
        }
        if !test {
            write_reg_interlock_ab(emu, rd, result, 1);
        }
    }
}

} // verus!
