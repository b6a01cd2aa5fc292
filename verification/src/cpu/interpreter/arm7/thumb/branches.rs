//! Thumb branches under a condition and with a link. A branch with a link is two
//! instructions: the first puts the upper part of the distance into the link register,
//! the second adds the lower part and jumps.

use crate::cpu::interpreter::arm7::{
    cpsr, pipeline_reloaded, prefetch_thumb, reg, reg_of, reload_pipeline, set_reg,
    thumb_prefetched, with_reg,
};
use crate::cpu::interpreter::arm9::alu::{check_condition, condition_passed};
use crate::cpu::interpreter::arm9::thumb::branches::{
    conditional_offset, link_high_offset, link_low_offset,
};
use crate::cpu::interpreter::arm9::StateSource;
use crate::emu::{emu_wf, Emu, EmuView};
use vstd::prelude::*;

verus! {

/// The machine after a branch under a condition: if the condition in bits 8 to 11 of the
/// instruction holds, the pipeline is filled from the target; else the next instruction
/// is fetched.
pub open spec fn branched_if(v: EmuView, instr: u16) -> EmuView {
    if condition_passed(v.arm7.engine.regs.cpsr, ((instr >> 8) & 0xF) as u32) {
        pipeline_reloaded(
            with_reg(v, 15, reg_of(v, 15).wrapping_add(conditional_offset(instr))),
            StateSource::Thumb,
        )
    } else {
        thumb_prefetched(v, true)
    }
}

/// Runs a branch under a condition.
pub fn branch_if(emu: &mut Emu, instr: u16)
    requires
        emu_wf(old(emu)@),
    ensures
        final(emu)@ == branched_if(old(emu)@, instr),
        emu_wf(final(emu)@),
{
    if check_condition(cpsr(emu).raw(), ((instr >> 8) & 0xF) as u32) {
        let r15 = reg(emu, 15);
        set_reg(emu, 15, r15.wrapping_add(((((instr as u32) << 24) as i32) >> 23) as u32));
        reload_pipeline(emu, StateSource::Thumb);
    } else {
        prefetch_thumb(emu, true);
    }
}

/// The machine after the first half of a branch with link: the link register holds the
/// program counter plus the upper part of the distance.
pub open spec fn link_prepared(v: EmuView, instr: u16) -> EmuView {
    thumb_prefetched(with_reg(v, 14, reg_of(v, 15).wrapping_add(link_high_offset(instr))), true)
}

/// Runs the first half of a branch with link.
pub fn prepare_link(emu: &mut Emu, instr: u16)
    requires
        emu_wf(old(emu)@),
    ensures
        final(emu)@ == link_prepared(old(emu)@, instr),
        emu_wf(final(emu)@),
{
    let r15 = reg(emu, 15);
    set_reg(emu, 14, r15.wrapping_add(((((instr as u32) << 21) as i32) >> 9) as u32));
    prefetch_thumb(emu, true);
}

/// The machine after the second half of a branch with link: the pipeline is filled from
/// the link register plus the lower part of the distance, and the link register holds the
/// address of the instruction after the branch, with bit 0 set for the Thumb state.
pub open spec fn linked(v: EmuView, instr: u16) -> EmuView {
    let target = reg_of(v, 14).wrapping_add(link_low_offset(instr));
    pipeline_reloaded(
        with_reg(with_reg(v, 14, reg_of(v, 15).wrapping_sub(2) | 1), 15, target),
        StateSource::Thumb,
    )
}

/// Runs the second half of a branch with link.
pub fn link(emu: &mut Emu, instr: u16)
    requires
        emu_wf(old(emu)@),
    ensures
        final(emu)@ == linked(old(emu)@, instr),
        emu_wf(final(emu)@),
{
    let target = reg(emu, 14).wrapping_add(((instr & 0x7FF) as u32) << 1);
    let r15 = reg(emu, 15);
    set_reg(emu, 14, r15.wrapping_sub(2) | 1);
    set_reg(emu, 15, target);
    reload_pipeline(emu, StateSource::Thumb);
}

} // verus!
