//! The ARM instructions that the ARM7's interpreter runs: data processing with an
//! immediate or a shifted register, multiplications, reads and writes of the status
//! registers, loads and stores of words and bytes with an immediate offset, branches, and
//! software interrupts. Every other instruction takes the undefined instruction
//! exception.

pub mod multiply;
pub mod shift_by_register;
pub mod status;

use super::{
    add_cycles, arm_prefetched, cpsr, handle_swi, handle_undefined, pipeline_reloaded,
    prefetch_arm, reg, reg_of, reload_pipeline, restore_spsr, set_nzcv, set_reg, spsr_restored,
    swi_handled, undefined_handled, with_cycles_added, with_nzcv, with_reg,
};
use crate::cpu::arm7::bus::{
    read_32, read_32_of, read_8, read_8_of, write_32, write_8, written_32, written_8,
};
use crate::cpu::interpreter::arm9::alu::{
    alu, check_condition, condition_passed, is_test, rotate_right, rotated_right, run_alu, shift,
    shifted,
};
use crate::cpu::interpreter::arm9::arm::{
    arm_kind, branch_offset, decode, field, reg_field, writes_back, ArmKind,
};
use crate::cpu::interpreter::arm9::StateSource;
use crate::emu::{emu_wf, Emu, EmuView};
use vstd::prelude::*;

verus! {

/// The second operand of a data processing instruction and the carry that the shifter
/// puts out: an eight-bit immediate rotated right by twice the four bits above it, or a
/// register shifted by an immediate.
pub open spec fn operand2(v: EmuView, instr: u32) -> (u32, bool) {
    let carry = v.arm7.engine.regs.cpsr & 0x2000_0000 != 0;
    if instr & 0x0200_0000 != 0 {
        let amount = (((instr >> 8) & 0xF) * 2) as u32;
        let value = rotated_right(instr & 0xFF, amount);
        (value, if amount == 0 {
            carry
        } else {
            value >> 31 != 0
        })
    } else {
        shifted(reg_of(v, reg_field(instr, 0) as int), (instr >> 5) & 3, (instr >> 7) & 0x1F, carry)
    }
}

/// Works out the second operand of a data processing instruction.
fn read_operand2(emu: &Emu, instr: u32) -> (r: (u32, bool))
    ensures
        r == operand2(emu@, instr),
{
    let carry = cpsr(emu).raw() & 0x2000_0000 != 0;
    proof {
        crate::bits::lemma_and_le_u32(instr >> 8, 0xF);
        crate::bits::lemma_and_le_u32(instr >> 7, 0x1F);
    }
    if instr & 0x0200_0000 != 0 {
        let amount = ((instr >> 8) & 0xF) * 2;
        let value = rotate_right(instr & 0xFF, amount);
        (value, if amount == 0 {
            carry
        } else {
            value >> 31 != 0
        })
    } else {
        shift(reg(emu, field(instr, 0)), (instr >> 5) & 3, (instr >> 7) & 0x1F, carry)
    }
}

/// The machine after a data processing instruction.
///
/// A result for the program counter is a jump: with the S bit it also restores the
/// status register from the saved one, as at the end of an exception handler. Any other
/// instruction fetches the next instruction, sets the flags if it has the S bit or is a
/// test, and writes its result unless it is a test.
pub open spec fn data_processed(v: EmuView, instr: u32) -> EmuView {
    let op = (instr >> 21) & 0xF;
    let s = instr & 0x10_0000 != 0;
    let rn = reg_field(instr, 16) as int;
    let rd = reg_field(instr, 12) as int;
    let cpsr = v.arm7.engine.regs.cpsr;
    let (b, shifter_carry) = operand2(v, instr);
    let (result, flags) = alu(
        op,
        reg_of(v, rn),
        b,
        cpsr & 0x2000_0000 != 0,
        cpsr & 0x1000_0000 != 0,
        shifter_carry,
    );
    if rd == 15 && !is_test(op) {
        let v = with_reg(v, 15, result);
        if s {
            pipeline_reloaded(spsr_restored(v), StateSource::Cpsr)
        } else {
            pipeline_reloaded(v, StateSource::Arm)
        }
    } else {
        let v = arm_prefetched(v, true);
        let v = if s || is_test(op) {
            with_nzcv(v, flags)
        } else {
            v
        };
        if is_test(op) {
            v
        } else {
            with_reg(v, rd, result)
        }
    }
}

/// Runs a data processing instruction.
pub fn data_processing(emu: &mut Emu, instr: u32)
    requires
        emu_wf(old(emu)@),
    ensures
        final(emu)@ == data_processed(old(emu)@, instr),
        emu_wf(final(emu)@),
{
    proof {
        crate::bits::lemma_and_le_u32(instr >> 21, 0xF);
    }
    let op = (instr >> 21) & 0xF;
    let s = instr & 0x10_0000 != 0;
    let rn = field(instr, 16);
    let rd = field(instr, 12);
    let test = op >= 8 && op <= 11;
    let raw = cpsr(emu).raw();
    let (b, shifter_carry) = read_operand2(emu, instr);
    let (result, flags) = run_alu(
        op,
        reg(emu, rn),
        b,
        raw & 0x2000_0000 != 0,
        raw & 0x1000_0000 != 0,
        shifter_carry,
    );
    if rd == 15 && !test {
        set_reg(emu, 15, result);
        if s {
            restore_spsr(emu);
            reload_pipeline(emu, StateSource::Cpsr);
        } else {
            reload_pipeline(emu, StateSource::Arm);
        }
    } else {
        prefetch_arm(emu, true);
        if s || test {
            set_nzcv(emu, flags);
        }
        if !test {
            set_reg(emu, rd, result);
        }
    }
}

/// The address that a load or store with an immediate offset reaches from its base
/// register: the base plus or minus the twelve-bit offset.
pub open spec fn offset_address(v: EmuView, instr: u32) -> u32 {
    let base = reg_of(v, reg_field(instr, 16) as int);
    if instr & 0x80_0000 != 0 {
        base.wrapping_add(instr & 0xFFF)
    } else {
        base.wrapping_sub(instr & 0xFFF)
    }
}

/// The address that a load or store accesses: the offset address if the instruction
/// applies the offset before the access, else the base.
pub open spec fn access_address(v: EmuView, instr: u32) -> u32 {
    if instr & 0x100_0000 != 0 {
        offset_address(v, instr)
    } else {
        reg_of(v, reg_field(instr, 16) as int)
    }
}

/// The machine after a load or store of a word or a byte.
///
/// The instruction fetches the next instruction and makes its access, which takes one
/// cycle more. The base register takes the offset address if the instruction says so. A
/// loaded word is rotated so that the addressed byte is its lowest. A load of the program
/// counter is a jump in ARM state.
pub open spec fn load_stored(v: EmuView, instr: u32) -> EmuView {
    let rn = reg_field(instr, 16) as int;
    let rd = reg_field(instr, 12) as int;
    let load = instr & 0x10_0000 != 0;
    let byte = instr & 0x40_0000 != 0;
    let addr = access_address(v, instr);
    let back = offset_address(v, instr);
    let stored = reg_of(v, rd);
    let v = with_cycles_added(arm_prefetched(v, true), 1);
    let v = if writes_back(instr) && !(load && rn == rd) {
        with_reg(v, rn, back)
    } else {
        v
    };
    if load {
        let (value, v) = if byte {
            (read_8_of(v, addr).0 as u32, read_8_of(v, addr).1)
        } else {
            (rotated_right(read_32_of(v, addr).0, ((addr & 3) * 8) as u32), read_32_of(v, addr).1)
        };
        if rd == 15 {
            pipeline_reloaded(with_reg(v, 15, value), StateSource::Arm)
        } else {
            with_reg(v, rd, value)
        }
    } else if byte {
        written_8(v, addr, stored as u8)
    } else {
        written_32(v, addr, stored)
    }
}

/// Runs a load or store.
pub fn load_store(emu: &mut Emu, instr: u32)
    requires
        emu_wf(old(emu)@),
    ensures
        final(emu)@ == load_stored(old(emu)@, instr),
        emu_wf(final(emu)@),
{
    let rn = field(instr, 16);
    let rd = field(instr, 12);
    let load = instr & 0x10_0000 != 0;
    let byte = instr & 0x40_0000 != 0;
    let base = reg(emu, rn);
    let back = if instr & 0x80_0000 != 0 {
        base.wrapping_add(instr & 0xFFF)
    } else {
        base.wrapping_sub(instr & 0xFFF)
    };
    let addr = if instr & 0x100_0000 != 0 {
        back
    } else {
        base
    };
    let stored = reg(emu, rd);
    prefetch_arm(emu, true);
    add_cycles(emu, 1);
    if (instr & 0x100_0000 == 0 || instr & 0x20_0000 != 0) && !(load && rn == rd) {
        set_reg(emu, rn, back);
    }
    if load {
        let value = if byte {
            read_8(emu, addr) as u32
        } else {
            proof {
                crate::bits::lemma_and_le_u32(addr, 3);
            }
            let word = read_32(emu, addr);
            rotate_right(word, (addr & 3) * 8)
        };
        if rd == 15 {
            set_reg(emu, 15, value);
            reload_pipeline(emu, StateSource::Arm);
        } else {
            set_reg(emu, rd, value);
        }
    } else if byte {
        write_8(emu, addr, #[verifier::truncate] (stored as u8));
    } else {
        write_32(emu, addr, stored);
    }
}

/// The machine after a branch: with link, the link register gets the address of the
/// instruction after the branch; the pipeline is filled from the target.
pub open spec fn branched(v: EmuView, instr: u32) -> EmuView {
    let r15 = reg_of(v, 15);
    let v = if instr & 0x100_0000 != 0 {
        with_reg(v, 14, r15.wrapping_sub(4))
    } else {
        v
    };
    pipeline_reloaded(with_reg(v, 15, r15.wrapping_add(branch_offset(instr))), StateSource::Arm)
}

/// Runs a branch.
pub fn branch(emu: &mut Emu, instr: u32)
    requires
        emu_wf(old(emu)@),
    ensures
        final(emu)@ == branched(old(emu)@, instr),
        emu_wf(final(emu)@),
{
    let r15 = reg(emu, 15);
    if instr & 0x100_0000 != 0 {
        set_reg(emu, 14, r15.wrapping_sub(4));
    }
    set_reg(emu, 15, r15.wrapping_add((((instr << 8) as i32) >> 6) as u32));
    reload_pipeline(emu, StateSource::Arm);
}

/// The machine after a branch to a register: the pipeline is filled from the address in
/// it, whose bit 0 selects the instruction set.
pub open spec fn branched_to_register(v: EmuView, instr: u32) -> EmuView {
    pipeline_reloaded(
        with_reg(v, 15, reg_of(v, reg_field(instr, 0) as int)),
        StateSource::R15Bit0,
    )
}

/// Runs a branch to a register.
pub fn branch_exchange(emu: &mut Emu, instr: u32)
    requires
        emu_wf(old(emu)@),
    ensures
        final(emu)@ == branched_to_register(old(emu)@, instr),
        emu_wf(final(emu)@),
{
    let target = reg(emu, field(instr, 0));
    set_reg(emu, 15, target);
    reload_pipeline(emu, StateSource::R15Bit0);
}

/// The machine after the ARM instruction `instr` ran. An instruction whose condition
/// fails only lets the next instruction be fetched. A breakpoint is an undefined
/// instruction to the ARM7.
pub open spec fn arm_executed(v: EmuView, instr: u32) -> EmuView {
    if !condition_passed(v.arm7.engine.regs.cpsr, instr >> 28) {
        arm_prefetched(v, true)
    } else {
        match arm_kind(instr) {
            ArmKind::Swi => swi_handled(v, false),
            ArmKind::Bkpt => undefined_handled(v, false),
            ArmKind::Bx => branched_to_register(v, instr),
            ArmKind::Branch => branched(v, instr),
            ArmKind::Multiply => multiply::multiplied(v, instr),
            ArmKind::StatusRead => status::status_read(v, instr),
            ArmKind::StatusWrite => status::status_written(v, instr),
            ArmKind::DataProcessing => data_processed(v, instr),
            ArmKind::ShiftByRegister => shift_by_register::shift_processed(v, instr),
            ArmKind::LoadStore => load_stored(v, instr),
            ArmKind::Undefined => undefined_handled(v, false),
        }
    }
}

/// Runs the ARM instruction `instr`.
pub fn handle_instr(emu: &mut Emu, instr: u32)
    requires
        emu_wf(old(emu)@),
    ensures
        final(emu)@ == arm_executed(old(emu)@, instr),
        emu_wf(final(emu)@),
{
    if !check_condition(cpsr(emu).raw(), instr >> 28) {
        prefetch_arm(emu, true);
        return ;
    }
    match decode(instr) {
        ArmKind::Swi => handle_swi(emu, false),
        ArmKind::Bkpt => handle_undefined(emu, false),
        ArmKind::Bx => branch_exchange(emu, instr),
        ArmKind::Branch => branch(emu, instr),
        ArmKind::Multiply => multiply::multiply(emu, instr),
        ArmKind::StatusRead => status::read_status(emu, instr),
        ArmKind::StatusWrite => status::write_status(emu, instr),
        ArmKind::DataProcessing => data_processing(emu, instr),
        ArmKind::ShiftByRegister => shift_by_register::shift_processing(emu, instr),
        ArmKind::LoadStore => load_store(emu, instr),
        ArmKind::Undefined => handle_undefined(emu, false),
    }
}

} // verus!
