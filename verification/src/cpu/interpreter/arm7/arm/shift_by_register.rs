//! Data processing with a second operand that is shifted by the amount in a register.

use crate::cpu::interpreter::arm7::{
    add_cycles, arm_prefetched, cpsr, pipeline_reloaded, prefetch_arm, reg, reg_of,
    reload_pipeline, restore_spsr, set_nzcv, set_reg, spsr_restored, with_cycles_added, with_nzcv,
    with_reg,
};
use crate::cpu::interpreter::arm9::alu::{alu, is_test, run_alu, shift_by, shifted_by};
use crate::cpu::interpreter::arm9::arm::{field, reg_field};
use crate::cpu::interpreter::arm9::StateSource;
use crate::emu::{emu_wf, Emu, EmuView};
use vstd::prelude::*;

verus! {

/// The value that an instruction with a shift by a register reads from a register: the
/// program counter reads one instruction further on than for other instructions.
pub open spec fn operand_of(v: EmuView, r: int) -> u32 {
    if r == 15 {
        reg_of(v, 15).wrapping_add(4)
    } else {
        reg_of(v, r)
    }
}

/// Reads an operand.
fn operand(emu: &Emu, r: u8) -> (value: u32)
    requires
        r < 16,
    ensures
        value == operand_of(emu@, r as int),
{
    if r == 15 {
        reg(emu, 15).wrapping_add(4)
    } else {
        reg(emu, r)
    }
}

/// The machine after a data processing instruction whose second operand is shifted by
/// the low byte of a register, which takes one cycle more than other data processing. A
/// result for the program counter is a jump: with the S bit it also restores the status
/// register from the saved one. Any other instruction fetches the next instruction, sets
/// the flags if it has the S bit or is a test, and writes its result unless it is a test.
pub open spec fn shift_processed(v: EmuView, instr: u32) -> EmuView {
    let op = (instr >> 21) & 0xF;
    let s = instr & 0x10_0000 != 0;
    let rd = reg_field(instr, 12) as int;
    let cpsr = v.arm7.engine.regs.cpsr;
    let (b, shifter_carry) = shifted_by(
        operand_of(v, reg_field(instr, 0) as int),
        (instr >> 5) & 3,
        reg_of(v, reg_field(instr, 8) as int) & 0xFF,
        cpsr & 0x2000_0000 != 0,
    );
    let (result, flags) = alu(
        op,
        operand_of(v, reg_field(instr, 16) as int),
        b,
        cpsr & 0x2000_0000 != 0,
        cpsr & 0x1000_0000 != 0,
        shifter_carry,
    );
    let v = with_cycles_added(v, 1);
    if rd == 15 && !is_test(op) {
        let v = with_reg(v, 15, result);
        if s {
            pipeline_reloaded(spsr_restored(v), StateSource::Cpsr)
        } else {
            pipeline_reloaded(v, StateSource::Arm)
        }
    } else {
        let v = arm_prefetched(v, true);
        let v = if s || is_test(op) {
            with_nzcv(v, flags)
        } else {
            v
        };
        if is_test(op) {
            v
        } else {
            with_reg(v, rd, result)
        }
    }
}

/// Runs a data processing instruction with a shift by a register.
pub fn shift_processing(emu: &mut Emu, instr: u32)
    requires
        emu_wf(old(emu)@),
    ensures
        final(emu)@ == shift_processed(old(emu)@, instr),
        emu_wf(final(emu)@),
{
    proof {
        crate::bits::lemma_and_le_u32(instr >> 21, 0xF);
        crate::bits::lemma_and_le_u32(instr >> 5, 3);
    }
    let op = (instr >> 21) & 0xF;
    let s = instr & 0x10_0000 != 0;
    let rd = field(instr, 12);
    let rs = field(instr, 8);
    let test = op >= 8 && op <= 11;
    let raw = cpsr(emu).raw();
    let amount = reg(emu, rs) & 0xFF;
    proof {
        crate::bits::lemma_and_le_u32(reg_of(emu@, rs as int), 0xFF);
    }
    let (b, shifter_carry) = shift_by(
        operand(emu, field(instr, 0)),
        (instr >> 5) & 3,
        amount,
        raw & 0x2000_0000 != 0,
    );
    let (result, flags) = run_alu(
        op,
        operand(emu, field(instr, 16)),
        b,
        raw & 0x2000_0000 != 0,
        raw & 0x1000_0000 != 0,
        shifter_carry,
    );
    add_cycles(emu, 1);
    if rd == 15 && !test {
        set_reg(emu, 15, result);
        if s {
            restore_spsr(emu);
            reload_pipeline(emu, StateSource::Cpsr);
        } else {
            reload_pipeline(emu, StateSource::Arm);
        }
    } else {
        prefetch_arm(emu, true);
        if s || test {
            set_nzcv(emu, flags);
        }
        if !test {
            set_reg(emu, rd, result);
        }
    }
}

} // verus!
