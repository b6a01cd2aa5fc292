//! The Thumb instructions that work on the registers 0 to 7 alone. All of them set the
//! flags.

use crate::cpu::interpreter::arm7::{
    add_cycles, cpsr, prefetch_thumb, reg, reg_of, set_nzcv, set_reg, thumb_prefetched,
    with_cycles_added, with_nzcv, with_reg,
};
use crate::cpu::interpreter::arm9::alu::{
    alu, run_alu, run_thumb_alu, shifted, thumb_alu, thumb_alu_writes,
};
use crate::emu::{emu_wf, Emu, EmuView};
use vstd::prelude::*;

verus! {

/// The number of one of the registers 0 to 7 in an instruction: the three bits from bit
/// `at` on.
pub open spec fn low_reg(instr: u16, at: u16) -> u8 {
    ((instr >> at) & 7) as u8
}

/// Takes the number of one of the registers 0 to 7 out of an instruction.
pub fn low_field(instr: u16, at: u16) -> (r: u8)
    requires
        at < 16,
    ensures
        r == low_reg(instr, at),
        r < 8,
{
    proof {
        crate::bits::lemma_and_le_u16(instr >> at, 7);
    }
    ((instr >> at) & 7) as u8
}

/// The machine after a shift of a register by an immediate: to the left, to the right, or
/// to the right with the sign. The carry flag takes the last bit that is shifted out.
pub open spec fn shift_processed(v: EmuView, instr: u16) -> EmuView {
    let cpsr = v.arm7.engine.regs.cpsr;
    let (value, carry) = shifted(
        reg_of(v, low_reg(instr, 3) as int),
        ((instr >> 11) & 3) as u32,
        ((instr >> 6) & 0x1F) as u32,
        cpsr & 0x2000_0000 != 0,
    );
    let flags = alu(13, 0, value, cpsr & 0x2000_0000 != 0, cpsr & 0x1000_0000 != 0, carry).1;
    with_reg(with_nzcv(thumb_prefetched(v, true), flags), low_reg(instr, 0) as int, value)
}

/// Runs a shift by an immediate.
pub fn shift(emu: &mut Emu, instr: u16)
    requires
        emu_wf(old(emu)@),
    ensures
        final(emu)@ == shift_processed(old(emu)@, instr),
        emu_wf(final(emu)@),
{
    proof {
        crate::bits::lemma_and_le_u16(instr >> 11, 3);
        crate::bits::lemma_and_le_u16(instr >> 6, 0x1F);
    }
    let raw = cpsr(emu).raw();
    let (value, carry) = crate::cpu::interpreter::arm9::alu::shift(
        reg(emu, low_field(instr, 3)),
        ((instr >> 11) & 3) as u32,
        ((instr >> 6) & 0x1F) as u32,
        raw & 0x2000_0000 != 0,
    );
    let (_, flags) = run_alu(13, 0, value, raw & 0x2000_0000 != 0, raw & 0x1000_0000 != 0, carry);
    prefetch_thumb(emu, true);
    set_nzcv(emu, flags);
    set_reg(emu, low_field(instr, 0), value);
}

/// The machine after an addition or subtraction of a register or a three-bit immediate:
/// bit 10 of the instruction chooses the immediate, bit 9 the subtraction.
pub open spec fn add_processed(v: EmuView, instr: u16) -> EmuView {
    let cpsr = v.arm7.engine.regs.cpsr;
    let b = if instr & 0x400 != 0 {
        ((instr >> 6) & 7) as u32
    } else {
        reg_of(v, low_reg(instr, 6) as int)
    };
    let op: u32 = if instr & 0x200 != 0 {
        2
    } else {
        4
    };
    let (result, flags) = alu(
        op,
        reg_of(v, low_reg(instr, 3) as int),
        b,
        cpsr & 0x2000_0000 != 0,
        cpsr & 0x1000_0000 != 0,
        cpsr & 0x2000_0000 != 0,
    );
    with_reg(with_nzcv(thumb_prefetched(v, true), flags), low_reg(instr, 0) as int, result)
}

/// Runs an addition or subtraction.
pub fn add_subtract(emu: &mut Emu, instr: u16)
    requires
        emu_wf(old(emu)@),
    ensures
        final(emu)@ == add_processed(old(emu)@, instr),
        emu_wf(final(emu)@),
{
    let raw = cpsr(emu).raw();
    let b = if instr & 0x400 != 0 {
        ((instr >> 6) & 7) as u32
    } else {
        reg(emu, low_field(instr, 6))
    };
    let op: u32 = if instr & 0x200 != 0 {
        2
    } else {
        4
    };
    let (result, flags) = run_alu(
        op,
        reg(emu, low_field(instr, 3)),
        b,
        raw & 0x2000_0000 != 0,
        raw & 0x1000_0000 != 0,
        raw & 0x2000_0000 != 0,
    );
    prefetch_thumb(emu, true);
    set_nzcv(emu, flags);
    set_reg(emu, low_field(instr, 0), result);
}

/// Whether an operation on two registers takes a cycle more than the fetch of the next
/// instruction: the shifts by a register and the multiplication do.
pub open spec fn takes_a_cycle_more(op: u32) -> bool {
    op == 2 || op == 3 || op == 4 || op == 7 || op == 13
}

/// The machine after an operation on two registers: bits 6 to 9 of the instruction name
/// the operation, which writes its result to the first register unless it is a test.
pub open spec fn alu_processed(v: EmuView, instr: u16) -> EmuView {
    let cpsr = v.arm7.engine.regs.cpsr;
    let op = ((instr >> 6) & 0xF) as u32;
    let rd = low_reg(instr, 0) as int;
    let (result, flags) = thumb_alu(
        op,
        reg_of(v, rd),
        reg_of(v, low_reg(instr, 3) as int),
        cpsr & 0x2000_0000 != 0,
        cpsr & 0x1000_0000 != 0,
    );
    let v = thumb_prefetched(v, true);
    let v = if takes_a_cycle_more(op) {
        with_cycles_added(v, 1)
    } else {
        v
    };
    let v = with_nzcv(v, flags);
    if thumb_alu_writes(op) {
        with_reg(v, rd, result)
    } else {
        v
    }
}

/// Runs an operation on two registers.
pub fn alu_op(emu: &mut Emu, instr: u16)
    requires
        emu_wf(old(emu)@),
    ensures
        final(emu)@ == alu_processed(old(emu)@, instr),
        emu_wf(final(emu)@),
{
    proof {
        crate::bits::lemma_and_le_u16(instr >> 6, 0xF);
    }
    let raw = cpsr(emu).raw();
    let op = ((instr >> 6) & 0xF) as u32;
    let rd = low_field(instr, 0);
    let (result, flags) = run_thumb_alu(
        op,
        reg(emu, rd),
        reg(emu, low_field(instr, 3)),
        raw & 0x2000_0000 != 0,
        raw & 0x1000_0000 != 0,
    );
    prefetch_thumb(emu, true);
    if op == 2 || op == 3 || op == 4 || op == 7 || op == 13 {
        add_cycles(emu, 1);
    }
    set_nzcv(emu, flags);
    if op != 8 && op != 10 && op != 11 {
        set_reg(emu, rd, result);
    }
}

} // verus!
