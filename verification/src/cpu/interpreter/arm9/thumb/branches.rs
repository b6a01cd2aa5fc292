//! Thumb branches under a condition and with a link. A branch with a link is two
//! instructions: the first puts the upper part of the distance into the link register,
//! the second adds the lower part and jumps.

use crate::cpu::interpreter::arm9::alu::{check_condition, condition_passed};
use crate::cpu::interpreter::arm9::{
    add_bus_cycles, apply_reg_interlock_1, cpsr, interlock_applied, interlock_end,
    pipeline_reloaded, prefetch_thumb, reg, reg_of, reload_pipeline, set_reg, thumb_prefetched,
    with_bus_cycles_added, with_interlock, with_reg, write_reg_clear_interlock_ab, Interlock,
    StateSource,
};
use crate::emu::{emu_wf, Emu, EmuView};
use vstd::prelude::*;

verus! {

/// The distance of a branch under a condition: the eight low bits of the instruction as
/// a signed number of halfwords.
pub open spec fn conditional_offset(instr: u16) -> u32 {
    (((((instr as u32) << 24) as i32) >> 23) as u32)
}

/// The upper part of the distance of a branch with link: the eleven low bits of the
/// first instruction as a signed number of 4 KiB.
pub open spec fn link_high_offset(instr: u16) -> u32 {
    (((((instr as u32) << 21) as i32) >> 9) as u32)
}

/// The lower part of the distance of a branch with link: the eleven low bits of the
/// second instruction as a number of halfwords.
pub open spec fn link_low_offset(instr: u16) -> u32 {
    ((instr & 0x7FF) as u32) << 1
}

/// The machine after a branch under a condition: if the condition in bits 8 to 11 of the
/// instruction holds, the pipeline is filled from the target, which takes two bus
/// cycles; else the next instruction is fetched.
pub open spec fn branched_if(v: EmuView, instr: u16) -> EmuView {
    if condition_passed(v.arm9.engine.regs.cpsr, ((instr >> 8) & 0xF) as u32) {
        pipeline_reloaded(
            with_reg(
                with_bus_cycles_added(v, 2),
                15,
                reg_of(v, 15).wrapping_add(conditional_offset(instr)),
            ),
            StateSource::Thumb,
        )
    } else {
        thumb_prefetched(with_bus_cycles_added(v, 1), true, true)
    }
}

/// Runs a branch under a condition.
pub fn branch_if(emu: &mut Emu, instr: u16)
    requires
        emu_wf(old(emu)@),
    ensures
        final(emu)@ == branched_if(old(emu)@, instr),
        emu_wf(final(emu)@),
{
    if check_condition(cpsr(emu).raw(), ((instr >> 8) & 0xF) as u32) {
        let r15 = reg(emu, 15);
        add_bus_cycles(emu, 2);
        set_reg(emu, 15, r15.wrapping_add(((((instr as u32) << 24) as i32) >> 23) as u32));
        reload_pipeline(emu, StateSource::Thumb);
    } else {
        add_bus_cycles(emu, 1);
        prefetch_thumb(emu, true, true);
    }
}

/// The machine after the first half of a branch with link: the link register holds the
/// program counter plus the upper part of the distance.
pub open spec fn link_prepared(v: EmuView, instr: u16) -> EmuView {
    let lr = reg_of(v, 15).wrapping_add(link_high_offset(instr));
    let v = thumb_prefetched(with_bus_cycles_added(v, 1), true, true);
    with_reg(
        with_interlock(v, 14, Interlock { port_ab: 0, ..v.arm9.engine.interlocks[14] }),
        14,
        lr,
    )
}

/// Runs the first half of a branch with link.
pub fn prepare_link(emu: &mut Emu, instr: u16)
    requires
        emu_wf(old(emu)@),
    ensures
        final(emu)@ == link_prepared(old(emu)@, instr),
        emu_wf(final(emu)@),
{
    let r15 = reg(emu, 15);
    add_bus_cycles(emu, 1);
    prefetch_thumb(emu, true, true);
    write_reg_clear_interlock_ab(
        emu,
        14,
        r15.wrapping_add(((((instr as u32) << 21) as i32) >> 9) as u32),
    );
}

/// The machine after the second half of a branch with link: the instruction waits for
/// the link register; the pipeline is filled from the link register plus the lower part
/// of the distance, and the link register holds the address of the instruction after the
/// branch, with bit 0 set for the Thumb state.
pub open spec fn linked(v: EmuView, instr: u16) -> EmuView {
    let v = with_bus_cycles_added(interlock_applied(v, interlock_end(v, 14, false)), 2);
    let target = reg_of(v, 14).wrapping_add(link_low_offset(instr));
    pipeline_reloaded(
        with_reg(
            with_reg(
                with_interlock(v, 14, Interlock { port_ab: 0, ..v.arm9.engine.interlocks[14] }),
                14,
                reg_of(v, 15).wrapping_sub(2) | 1,
            ),
            15,
            target,
        ),
        StateSource::Thumb,
    )
}

/// Runs the second half of a branch with link.
pub fn link(emu: &mut Emu, instr: u16)
    requires
        emu_wf(old(emu)@),
    ensures
        final(emu)@ == linked(old(emu)@, instr),
        emu_wf(final(emu)@),
{
    apply_reg_interlock_1(emu, false, 14);
    add_bus_cycles(emu, 2);
    let target = reg(emu, 14).wrapping_add(((instr & 0x7FF) as u32) << 1);
    let r15 = reg(emu, 15);
    write_reg_clear_interlock_ab(emu, 14, r15.wrapping_sub(2) | 1);
    set_reg(emu, 15, target);
    reload_pipeline(emu, StateSource::Thumb);
}

} // verus!
