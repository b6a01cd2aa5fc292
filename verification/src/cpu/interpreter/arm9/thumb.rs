//! The Thumb instructions that the interpreter runs: shifts, additions, subtractions and
//! the other operations on the registers 0 to 7, moves, compares, additions and
//! subtractions with an eight-bit immediate, branches with and without a condition or a
//! link, and software interrupts. Every other instruction takes the undefined instruction
//! exception.

pub mod branches;
pub mod registers;

use super::alu::{alu, run_alu};
use super::{
    add_bus_cycles, apply_reg_interlock_1, cpsr, handle_prefetch_abort, handle_swi,
    handle_undefined, interlock_applied, interlock_end, pipeline_reloaded, prefetch_abort_handled,
    prefetch_thumb, reg, reg_of, reload_pipeline, set_nzcv, set_reg, swi_handled, swi_is_emulated,
    thumb_prefetched, undefined_handled, with_bus_cycles_added, with_interlock, with_nzcv, with_reg,
    write_reg_clear_interlock_ab, HleRequest, Interlock, StateSource,
};
use crate::emu::{emu_wf, Emu, EmuView};
use vstd::prelude::*;

verus! {

/// The kinds of Thumb instructions that the interpreter tells apart.
#[derive(Clone, Copy, Debug, PartialEq, Eq, Structural)]
pub enum ThumbKind {
    /// A shift of a register by an immediate.
    ShiftImmediate,
    /// An addition or subtraction of a register or a three-bit immediate.
    AddSubtract,
    /// A move, compare, addition or subtraction with an eight-bit immediate.
    Immediate,
    /// An operation on two registers.
    Alu,
    /// A branch under a condition.
    ConditionalBranch,
    /// The first half of a branch with link, which holds the upper part of the distance.
    LinkHigh,
    /// The second half of a branch with link, which holds the lower part of the distance
    /// and jumps.
    LinkLow,
    /// A branch.
    Branch,
    /// A branch to a register, which also selects the instruction set.
    Bx,
    /// A software interrupt.
    Swi,
    /// A breakpoint: it stands for an instruction that could not be fetched.
    Bkpt,
    /// Anything else.
    Undefined,
}

/// The kind of a Thumb instruction.
pub open spec fn thumb_kind(instr: u16) -> ThumbKind {
    if instr & 0xF800 == 0x1800 {
        ThumbKind::AddSubtract
    } else if instr & 0xE000 == 0 {
        ThumbKind::ShiftImmediate
    } else if instr & 0xE000 == 0x2000 {
        ThumbKind::Immediate
    } else if instr & 0xFC00 == 0x4000 {
        ThumbKind::Alu
    } else if instr & 0xF800 == 0xE000 {
        ThumbKind::Branch
    } else if instr & 0xFF87 == 0x4700 {
        ThumbKind::Bx
    } else if instr & 0xFF00 == 0xDF00 {
        ThumbKind::Swi
    } else if instr & 0xF000 == 0xD000 && instr & 0x0F00 != 0x0E00 {
        ThumbKind::ConditionalBranch
    } else if instr & 0xF800 == 0xF000 {
        ThumbKind::LinkHigh
    } else if instr & 0xF800 == 0xF800 {
        ThumbKind::LinkLow
    } else if instr & 0xFF00 == 0xBE00 {
        ThumbKind::Bkpt
    } else {
        ThumbKind::Undefined
    }
}

/// Tells the kind of a Thumb instruction.
pub fn decode(instr: u16) -> (kind: ThumbKind)
    ensures
        kind == thumb_kind(instr),
{
    if instr & 0xF800 == 0x1800 {
        ThumbKind::AddSubtract
    } else if instr & 0xE000 == 0 {
        ThumbKind::ShiftImmediate
    } else if instr & 0xE000 == 0x2000 {
        ThumbKind::Immediate
    } else if instr & 0xFC00 == 0x4000 {
        ThumbKind::Alu
    } else if instr & 0xF800 == 0xE000 {
        ThumbKind::Branch
    } else if instr & 0xFF87 == 0x4700 {
        ThumbKind::Bx
    } else if instr & 0xFF00 == 0xDF00 {
        ThumbKind::Swi
    } else if instr & 0xF000 == 0xD000 && instr & 0x0F00 != 0x0E00 {
        ThumbKind::ConditionalBranch
    } else if instr & 0xF800 == 0xF000 {
        ThumbKind::LinkHigh
    } else if instr & 0xF800 == 0xF800 {
        ThumbKind::LinkLow
    } else if instr & 0xFF00 == 0xBE00 {
        ThumbKind::Bkpt
    } else {
        ThumbKind::Undefined
    }
}

/// The data processing operation that an immediate instruction stands for: a move, a
/// compare, an addition or a subtraction.
pub open spec fn immediate_op(instr: u16) -> u32 {
    let op = (instr >> 11) & 3;
    if op == 0 {
        13
    } else if op == 1 {
        10
    } else if op == 2 {
        4
    } else {
        2
    }
}

/// The machine after an instruction with an eight-bit immediate: it works on one of the
/// registers 0 to 7 and always sets the flags. All but the move wait for the register;
/// all but the compare write it.
pub open spec fn immediate_processed(v: EmuView, instr: u16) -> EmuView {
    let op = immediate_op(instr);
    let rd = ((instr >> 8) & 7) as int;
    let v = if op != 13 {
        interlock_applied(v, interlock_end(v, rd, false))
    } else {
        v
    };
    let v = with_bus_cycles_added(v, 1);
    let cpsr = v.arm9.engine.regs.cpsr;
    let carry = cpsr & 0x2000_0000 != 0;
    let (result, flags) = alu(
        op,
        reg_of(v, rd),
        (instr & 0xFF) as u32,
        carry,
        cpsr & 0x1000_0000 != 0,
        carry,
    );
    let v = with_nzcv(thumb_prefetched(v, true, true), flags);
    if op == 10 {
        v
    } else {
        with_reg(
            with_interlock(v, rd, Interlock { port_ab: 0, ..v.arm9.engine.interlocks[rd] }),
            rd,
            result,
        )
    }
}

/// Runs an instruction with an eight-bit immediate.
pub fn immediate(emu: &mut Emu, instr: u16)
    requires
        emu_wf(old(emu)@),
    ensures
        final(emu)@ == immediate_processed(old(emu)@, instr),
        emu_wf(final(emu)@),
{
    proof {
        crate::bits::lemma_and_le_u16(instr >> 8, 7);
        crate::bits::lemma_and_le_u16(instr >> 11, 3);
    }
    let op: u32 = match (instr >> 11) & 3 {
        0 => 13,
        1 => 10,
        2 => 4,
        _ => 2,
    };
    let rd = ((instr >> 8) & 7) as u8;
    if op != 13 {
        apply_reg_interlock_1(emu, false, rd);
    }
    add_bus_cycles(emu, 1);
    let raw = cpsr(emu).raw();
    let carry = raw & 0x2000_0000 != 0;
    let (result, flags) = run_alu(
        op,
        reg(emu, rd),
        (instr & 0xFF) as u32,
        carry,
        raw & 0x1000_0000 != 0,
        carry,
    );
    prefetch_thumb(emu, true, true);
    set_nzcv(emu, flags);
    if op != 10 {
        write_reg_clear_interlock_ab(emu, rd, result);
    }
}

/// The distance of a branch: the eleven low bits of the instruction as a signed number
/// of halfwords.
pub open spec fn branch_offset(instr: u16) -> u32 {
    (((((instr as u32) << 21) as i32) >> 20) as u32)
}

/// The machine after a branch: the pipeline is filled from the target, which takes two
/// bus cycles.
pub open spec fn branched(v: EmuView, instr: u16) -> EmuView {
    pipeline_reloaded(
        with_reg(
            with_bus_cycles_added(v, 2),
            15,
            reg_of(v, 15).wrapping_add(branch_offset(instr)),
        ),
        StateSource::Thumb,
    )
}

/// Runs a branch.
pub fn branch(emu: &mut Emu, instr: u16)
    requires
        emu_wf(old(emu)@),
    ensures
        final(emu)@ == branched(old(emu)@, instr),
        emu_wf(final(emu)@),
{
    let r15 = reg(emu, 15);
    add_bus_cycles(emu, 2);
    set_reg(emu, 15, r15.wrapping_add(((((instr as u32) << 21) as i32) >> 20) as u32));
    reload_pipeline(emu, StateSource::Thumb);
}

/// The machine after a branch to a register: the instruction waits for the register,
/// and the pipeline is filled from the address in it, whose bit 0 selects the
/// instruction set.
pub open spec fn branched_to_register(v: EmuView, instr: u16) -> EmuView {
    let rm = ((instr >> 3) & 0xF) as int;
    let v = with_bus_cycles_added(interlock_applied(v, interlock_end(v, rm, false)), 2);
    pipeline_reloaded(with_reg(v, 15, reg_of(v, rm)), StateSource::R15Bit0)
}

/// Runs a branch to a register.
pub fn branch_exchange(emu: &mut Emu, instr: u16)
    requires
        emu_wf(old(emu)@),
    ensures
        final(emu)@ == branched_to_register(old(emu)@, instr),
        emu_wf(final(emu)@),
{
    proof {
        crate::bits::lemma_and_le_u16(instr >> 3, 0xF);
    }
    let rm = ((instr >> 3) & 0xF) as u8;
    apply_reg_interlock_1(emu, false, rm);
    add_bus_cycles(emu, 2);
    let target = reg(emu, rm);
    set_reg(emu, 15, target);
    reload_pipeline(emu, StateSource::R15Bit0);
}

/// The machine after the Thumb instruction `instr` ran.
pub open spec fn thumb_executed(v: EmuView, instr: u16) -> EmuView {
    match thumb_kind(instr) {
        ThumbKind::ShiftImmediate => registers::shift_processed(v, instr),
        ThumbKind::AddSubtract => registers::add_processed(v, instr),
        ThumbKind::Immediate => immediate_processed(v, instr),
        ThumbKind::Alu => registers::alu_processed(v, instr),
        ThumbKind::ConditionalBranch => branches::branched_if(v, instr),
        ThumbKind::LinkHigh => branches::link_prepared(v, instr),
        ThumbKind::LinkLow => branches::linked(v, instr),
        ThumbKind::Branch => branched(v, instr),
        ThumbKind::Bx => branched_to_register(v, instr),
        ThumbKind::Swi => swi_handled(v, true),
        ThumbKind::Bkpt => prefetch_abort_handled(v, true),
        ThumbKind::Undefined => undefined_handled(v, true),
    }
}

/// What the caller has to do after the Thumb instruction `instr` ran: the BIOS function
/// of a software interrupt that went to the emulated BIOS, on the arguments in registers 0
/// to 3.
pub open spec fn thumb_request(before: EmuView, instr: u16, after: EmuView) -> HleRequest {
    if thumb_kind(instr) == ThumbKind::Swi && swi_is_emulated(before) {
        HleRequest::Swi {
            number: instr as u8,
            r0_3: [reg_of(after, 0), reg_of(after, 1), reg_of(after, 2), reg_of(after, 3)],
        }
    } else {
        HleRequest::Nothing
    }
}

/// Runs the Thumb instruction `instr`. Returns what the caller has to do for a software
/// interrupt that goes to the emulated BIOS.
pub fn handle_instr(emu: &mut Emu, instr: u16) -> (request: HleRequest)
    requires
        emu_wf(old(emu)@),
    ensures
        final(emu)@ == thumb_executed(old(emu)@, instr),
        emu_wf(final(emu)@),
        request == thumb_request(old(emu)@, instr, final(emu)@),
{
    match decode(instr) {
        ThumbKind::ShiftImmediate => registers::shift(emu, instr),
        ThumbKind::AddSubtract => registers::add_subtract(emu, instr),
        ThumbKind::Immediate => immediate(emu, instr),
        ThumbKind::Alu => registers::alu_op(emu, instr),
        ThumbKind::ConditionalBranch => branches::branch_if(emu, instr),
        ThumbKind::LinkHigh => branches::prepare_link(emu, instr),
        ThumbKind::LinkLow => branches::link(emu, instr),
        ThumbKind::Branch => branch(emu, instr),
        ThumbKind::Bx => branch_exchange(emu, instr),
        ThumbKind::Swi => {
            return handle_swi(emu, true, #[verifier::truncate] (instr as u8));
        },
        ThumbKind::Bkpt => handle_prefetch_abort(emu, true),
        ThumbKind::Undefined => handle_undefined(emu, true),
    }
    HleRequest::Nothing
}

} // verus!
