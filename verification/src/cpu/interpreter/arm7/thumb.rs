//! The Thumb instructions that the ARM7's interpreter runs: shifts, additions,
//! subtractions and the other operations on the registers 0 to 7, moves, compares,
//! additions and subtractions with an eight-bit immediate, branches with and without a
//! condition or a link, and software interrupts. Every other instruction takes the
//! undefined instruction exception.

pub mod branches;
pub mod registers;

use super::{
    cpsr, handle_swi, handle_undefined, pipeline_reloaded, prefetch_thumb, reg, reg_of,
    reload_pipeline, set_nzcv, set_reg, swi_handled, thumb_prefetched, undefined_handled,
    with_nzcv, with_reg,
};
use crate::cpu::interpreter::arm9::alu::{alu, run_alu};
use crate::cpu::interpreter::arm9::thumb::{
    branch_offset, decode, immediate_op, thumb_kind, ThumbKind,
};
use crate::cpu::interpreter::arm9::StateSource;
use crate::emu::{emu_wf, Emu, EmuView};
use vstd::prelude::*;

verus! {

/// The machine after an instruction with an eight-bit immediate: it works on one of the
/// registers 0 to 7 and always sets the flags; all but the compare write the register.
/// The next instruction is fetched meanwhile.
pub open spec fn immediate_processed(v: EmuView, instr: u16) -> EmuView {
    let op = immediate_op(instr);
    let rd = ((instr >> 8) & 7) as int;
    let cpsr = v.arm7.engine.regs.cpsr;
    let carry = cpsr & 0x2000_0000 != 0;
    let (result, flags) = alu(
        op,
        reg_of(v, rd),
        (instr & 0xFF) as u32,
        carry,
        cpsr & 0x1000_0000 != 0,
        carry,
    );
    let v = with_nzcv(thumb_prefetched(v, true), flags);
    if op == 10 {
        v
    } else {
        with_reg(v, rd, result)
    }
}

/// Runs an instruction with an eight-bit immediate.
pub fn immediate(emu: &mut Emu, instr: u16)
    requires
        emu_wf(old(emu)@),
    ensures
        final(emu)@ == immediate_processed(old(emu)@, instr),
        emu_wf(final(emu)@),
{
    proof {
        crate::bits::lemma_and_le_u16(instr >> 8, 7);
        crate::bits::lemma_and_le_u16(instr >> 11, 3);
    }
    let op: u32 = match (instr >> 11) & 3 {
        0 => 13,
        1 => 10,
        2 => 4,
        _ => 2,
    };
    let rd = ((instr >> 8) & 7) as u8;
    let raw = cpsr(emu).raw();
    let carry = raw & 0x2000_0000 != 0;
    let (result, flags) = run_alu(
        op,
        reg(emu, rd),
        (instr & 0xFF) as u32,
        carry,
        raw & 0x1000_0000 != 0,
        carry,
    );
    prefetch_thumb(emu, true);
    set_nzcv(emu, flags);
    if op != 10 {
        set_reg(emu, rd, result);
    }
}

/// The machine after a branch: the pipeline is filled from the target.
pub open spec fn branched(v: EmuView, instr: u16) -> EmuView {
    pipeline_reloaded(
        with_reg(v, 15, reg_of(v, 15).wrapping_add(branch_offset(instr))),
        StateSource::Thumb,
    )
}

/// Runs a branch.
pub fn branch(emu: &mut Emu, instr: u16)
    requires
        emu_wf(old(emu)@),
    ensures
        final(emu)@ == branched(old(emu)@, instr),
        emu_wf(final(emu)@),
{
    let r15 = reg(emu, 15);
    set_reg(emu, 15, r15.wrapping_add(((((instr as u32) << 21) as i32) >> 20) as u32));
    reload_pipeline(emu, StateSource::Thumb);
}

/// The machine after a branch to a register: the pipeline is filled from the address in
/// it, whose bit 0 selects the instruction set.
pub open spec fn branched_to_register(v: EmuView, instr: u16) -> EmuView {
    let rm = ((instr >> 3) & 0xF) as int;
    pipeline_reloaded(with_reg(v, 15, reg_of(v, rm)), StateSource::R15Bit0)
}

/// Runs a branch to a register.
pub fn branch_exchange(emu: &mut Emu, instr: u16)
    requires
        emu_wf(old(emu)@),
    ensures
        final(emu)@ == branched_to_register(old(emu)@, instr),
        emu_wf(final(emu)@),
{
    proof {
        crate::bits::lemma_and_le_u16(instr >> 3, 0xF);
    }
    let rm = ((instr >> 3) & 0xF) as u8;
    let target = reg(emu, rm);
    set_reg(emu, 15, target);
    reload_pipeline(emu, StateSource::R15Bit0);
}

/// The machine after the Thumb instruction `instr` ran. A breakpoint is an undefined
/// instruction to the ARM7.
pub open spec fn thumb_executed(v: EmuView, instr: u16) -> EmuView {
    match thumb_kind(instr) {
        ThumbKind::ShiftImmediate => registers::shift_processed(v, instr),
        ThumbKind::AddSubtract => registers::add_processed(v, instr),
        ThumbKind::Immediate => immediate_processed(v, instr),
        ThumbKind::Alu => registers::alu_processed(v, instr),
        ThumbKind::ConditionalBranch => branches::branched_if(v, instr),
        ThumbKind::LinkHigh => branches::link_prepared(v, instr),
        ThumbKind::LinkLow => branches::linked(v, instr),
        ThumbKind::Branch => branched(v, instr),
        ThumbKind::Bx => branched_to_register(v, instr),
        ThumbKind::Swi => swi_handled(v, true),
        ThumbKind::Bkpt => undefined_handled(v, true),
        ThumbKind::Undefined => undefined_handled(v, true),
    }
}

/// Runs the Thumb instruction `instr`.
pub fn handle_instr(emu: &mut Emu, instr: u16)
    requires
        emu_wf(old(emu)@),
    ensures
        final(emu)@ == thumb_executed(old(emu)@, instr),
        emu_wf(final(emu)@),
{
    match decode(instr) {
        ThumbKind::ShiftImmediate => registers::shift(emu, instr),
        ThumbKind::AddSubtract => registers::add_subtract(emu, instr),
        ThumbKind::Immediate => immediate(emu, instr),
        ThumbKind::Alu => registers::alu_op(emu, instr),
        ThumbKind::ConditionalBranch => branches::branch_if(emu, instr),
        ThumbKind::LinkHigh => branches::prepare_link(emu, instr),
        ThumbKind::LinkLow => branches::link(emu, instr),
        ThumbKind::Branch => branch(emu, instr),
        ThumbKind::Bx => branch_exchange(emu, instr),
        ThumbKind::Swi => handle_swi(emu, true),
        ThumbKind::Bkpt => handle_undefined(emu, true),
        ThumbKind::Undefined => handle_undefined(emu, true),
    }
}

} // verus!
