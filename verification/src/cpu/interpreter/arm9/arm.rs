//! The ARM instructions that the interpreter runs: data processing with an immediate or
//! a shifted register, multiplications, reads and writes of the status registers, loads
//! and stores of words and bytes with an immediate offset, branches, and software
//! interrupts. Every other instruction takes the undefined instruction exception.

pub mod multiply;
pub mod shift_by_register;
pub mod status;

use super::alu::{
    alu, check_condition, condition_passed, is_test, rotate_right, rotated_right, run_alu, shift,
    shifted, uses_first_operand,
};
use super::{
    add_bus_cycles, apply_reg_interlock_1, apply_reg_interlocks_2, arm_prefetched, cpsr,
    data_abort_handled, data_cycles_at, handle_data_abort, handle_prefetch_abort, handle_swi,
    handle_undefined, interlock_applied, interlock_end, interlock_from, later, pipeline_reloaded,
    prefetch_abort_handled, prefetch_arm, privileged, reg, reg_of, reload_pipeline, restore_spsr,
    set_data_cycles, set_nzcv, set_reg, spsr_restored, swi_handled, swi_is_emulated,
    undefined_handled, with_bus_cycles_added, with_data_cycles, with_interlock, with_nzcv, with_reg,
    write_reg_clear_interlock_ab, write_reg_interlock, HleRequest, Interlock, StateSource,
};
use crate::cpu::arm9::bus::fallback::{
    read_32, read_32_of, read_8, read_8_of, write_32, write_8, written_32, written_8,
};
use crate::cpu::arm9::cp15;
use crate::cpu::arm9::cp15::cycles_at;
use crate::emu::{emu_wf, Emu, EmuView};
use vstd::prelude::*;

verus! {

/// The kinds of ARM instructions that the interpreter tells apart.
#[derive(Clone, Copy, Debug, PartialEq, Eq, Structural)]
pub enum ArmKind {
    /// A software interrupt.
    Swi,
    /// A breakpoint: it stands for an instruction that could not be fetched.
    Bkpt,
    /// A branch to a register, which also selects the instruction set.
    Bx,
    /// A branch, with or without link.
    Branch,
    /// A multiplication.
    Multiply,
    /// A read of a status register.
    StatusRead,
    /// A write to a status register.
    StatusWrite,
    /// A data processing instruction with an immediate or a register shifted by an
    /// immediate.
    DataProcessing,
    /// A data processing instruction with a register shifted by a register.
    ShiftByRegister,
    /// A load or store of a word or a byte with an immediate offset.
    LoadStore,
    /// Anything else.
    Undefined,
}

/// The kind of an ARM instruction.
pub open spec fn arm_kind(instr: u32) -> ArmKind {
    if instr & 0x0F00_0000 == 0x0F00_0000 {
        ArmKind::Swi
    } else if instr & 0x0FF0_00F0 == 0x0120_0070 {
        ArmKind::Bkpt
    } else if instr & 0x0FFF_FFF0 == 0x012F_FF10 {
        ArmKind::Bx
    } else if instr & 0x0E00_0000 == 0x0A00_0000 {
        ArmKind::Branch
    } else if instr & 0x0FC0_00F0 == 0x0000_0090 {
        ArmKind::Multiply
    } else if instr & 0x0FBF_0FFF == 0x010F_0000 {
        ArmKind::StatusRead
    } else if instr & 0x0FB0_FFF0 == 0x0120_F000 || instr & 0x0FB0_F000 == 0x0320_F000 {
        ArmKind::StatusWrite
    } else if instr & 0x0C00_0000 == 0 && (instr & 0x0200_0000 != 0 || instr & 0x10 == 0) && !(instr
        & 0x0190_0000 == 0x0100_0000) {
        ArmKind::DataProcessing
    } else if instr & 0x0E00_0090 == 0x0000_0010 && !(instr & 0x0190_0000 == 0x0100_0000) {
        ArmKind::ShiftByRegister
    } else if instr & 0x0E00_0000 == 0x0400_0000 {
        ArmKind::LoadStore
    } else {
        ArmKind::Undefined
    }
}

/// Tells the kind of an ARM instruction.
pub fn decode(instr: u32) -> (kind: ArmKind)
    ensures
        kind == arm_kind(instr),
{
    if instr & 0x0F00_0000 == 0x0F00_0000 {
        ArmKind::Swi
    } else if instr & 0x0FF0_00F0 == 0x0120_0070 {
        ArmKind::Bkpt
    } else if instr & 0x0FFF_FFF0 == 0x012F_FF10 {
        ArmKind::Bx
    } else if instr & 0x0E00_0000 == 0x0A00_0000 {
        ArmKind::Branch
    } else if instr & 0x0FC0_00F0 == 0x0000_0090 {
        ArmKind::Multiply
    } else if instr & 0x0FBF_0FFF == 0x010F_0000 {
        ArmKind::StatusRead
    } else if instr & 0x0FB0_FFF0 == 0x0120_F000 || instr & 0x0FB0_F000 == 0x0320_F000 {
        ArmKind::StatusWrite
    } else if instr & 0x0C00_0000 == 0 && (instr & 0x0200_0000 != 0 || instr & 0x10 == 0) && !(instr
        & 0x0190_0000 == 0x0100_0000) {
        ArmKind::DataProcessing
    } else if instr & 0x0E00_0090 == 0x0000_0010 && !(instr & 0x0190_0000 == 0x0100_0000) {
        ArmKind::ShiftByRegister
    } else if instr & 0x0E00_0000 == 0x0400_0000 {
        ArmKind::LoadStore
    } else {
        ArmKind::Undefined
    }
}

/// A register number in an instruction: the four bits from bit `at` on.
pub open spec fn reg_field(instr: u32, at: u32) -> u8 {
    ((instr >> at) & 0xF) as u8
}

/// Takes a register number out of an instruction.
pub fn field(instr: u32, at: u32) -> (r: u8)
    requires
        at < 32,
    ensures
        r == reg_field(instr, at),
        r < 16,
{
    proof {
        crate::bits::lemma_and_le_u32(instr >> at, 0xF);
    }
    ((instr >> at) & 0xF) as u8
}

/// The second operand of a data processing instruction and the carry that the shifter
/// puts out: an eight-bit immediate rotated right by twice the four bits above it, or a
/// register shifted by an immediate.
pub open spec fn operand2(v: EmuView, instr: u32) -> (u32, bool) {
    let carry = v.arm9.engine.regs.cpsr & 0x2000_0000 != 0;
    if instr & 0x0200_0000 != 0 {
        let amount = (((instr >> 8) & 0xF) * 2) as u32;
        let value = rotated_right(instr & 0xFF, amount);
        (value, if amount == 0 {
            carry
        } else {
            value >> 31 != 0
        })
    } else {
        shifted(reg_of(v, reg_field(instr, 0) as int), (instr >> 5) & 3, (instr >> 7) & 0x1F, carry)
    }
}

/// Works out the second operand of a data processing instruction.
fn read_operand2(emu: &Emu, instr: u32) -> (r: (u32, bool))
    ensures
        r == operand2(emu@, instr),
{
    let carry = cpsr(emu).raw() & 0x2000_0000 != 0;
    proof {
        crate::bits::lemma_and_le_u32(instr >> 8, 0xF);
        crate::bits::lemma_and_le_u32(instr >> 7, 0x1F);
    }
    if instr & 0x0200_0000 != 0 {
        let amount = ((instr >> 8) & 0xF) * 2;
        let value = rotate_right(instr & 0xFF, amount);
        (value, if amount == 0 {
            carry
        } else {
            value >> 31 != 0
        })
    } else {
        shift(reg(emu, field(instr, 0)), (instr >> 5) & 3, (instr >> 7) & 0x1F, carry)
    }
}

/// The machine after a data processing instruction waited for its operands: for its
/// first operand if it reads one, and for the register of its second operand if that is
/// a register.
pub open spec fn operands_awaited(v: EmuView, instr: u32) -> EmuView {
    let op = (instr >> 21) & 0xF;
    let rn = reg_field(instr, 16) as int;
    let rm = reg_field(instr, 0) as int;
    if instr & 0x0200_0000 != 0 {
        if uses_first_operand(op) {
            interlock_applied(v, interlock_end(v, rn, false))
        } else {
            v
        }
    } else if uses_first_operand(op) {
        interlock_applied(v, later(interlock_end(v, rn, false), interlock_end(v, rm, false)))
    } else {
        interlock_applied(v, interlock_end(v, rm, false))
    }
}

/// The machine after a data processing instruction.
///
/// The instruction waits for its operands and takes one bus cycle. A result for the
/// program counter is a jump: with the S bit it also restores the status register from
/// the saved one, as at the end of an exception handler. Any other instruction fetches
/// the next instruction, sets the flags if it has the S bit or is a test, and writes its
/// result unless it is a test.
pub open spec fn data_processed(v: EmuView, instr: u32) -> EmuView {
    let op = (instr >> 21) & 0xF;
    let s = instr & 0x10_0000 != 0;
    let rn = reg_field(instr, 16) as int;
    let rd = reg_field(instr, 12) as int;
    let v = with_bus_cycles_added(operands_awaited(v, instr), 1);
    let cpsr = v.arm9.engine.regs.cpsr;
    let (b, shifter_carry) = operand2(v, instr);
    let (result, flags) = alu(
        op,
        reg_of(v, rn),
        b,
        cpsr & 0x2000_0000 != 0,
        cpsr & 0x1000_0000 != 0,
        shifter_carry,
    );
    if rd == 15 && !is_test(op) {
        let v = with_reg(v, 15, result);
        if s {
            pipeline_reloaded(spsr_restored(v), StateSource::Cpsr)
        } else {
            pipeline_reloaded(v, StateSource::Arm)
        }
    } else {
        let v = arm_prefetched(v, true, true);
        let v = if s || is_test(op) {
            with_nzcv(v, flags)
        } else {
            v
        };
        if is_test(op) {
            v
        } else {
            with_reg(
                with_interlock(
                    v,
                    rd,
                    Interlock { port_ab: 0, ..v.arm9.engine.interlocks[rd] },
                ),
                rd,
                result,
            )
        }
    }
}

/// Runs a data processing instruction.
pub fn data_processing(emu: &mut Emu, instr: u32)
    requires
        emu_wf(old(emu)@),
    ensures
        final(emu)@ == data_processed(old(emu)@, instr),
        emu_wf(final(emu)@),
{
    proof {
        crate::bits::lemma_and_le_u32(instr >> 21, 0xF);
    }
    let op = (instr >> 21) & 0xF;
    let s = instr & 0x10_0000 != 0;
    let rn = field(instr, 16);
    let rd = field(instr, 12);
    let rm = field(instr, 0);
    let uses_rn = op != 13 && op != 15;
    let test = op >= 8 && op <= 11;
    if instr & 0x0200_0000 != 0 {
        if uses_rn {
            apply_reg_interlock_1(emu, false, rn);
        }
    } else if uses_rn {
        proof {
            assert(interlock_end(emu@, rn as int, false).saturating_sub(0u64) == interlock_end(
                emu@,
                rn as int,
                false,
            ));
        }
        apply_reg_interlocks_2(emu, 0, false, rn, rm);
    } else {
        apply_reg_interlock_1(emu, false, rm);
    }
    add_bus_cycles(emu, 1);
    let raw = cpsr(emu).raw();
    let (b, shifter_carry) = read_operand2(emu, instr);
    let (result, flags) = run_alu(
        op,
        reg(emu, rn),
        b,
        raw & 0x2000_0000 != 0,
        raw & 0x1000_0000 != 0,
        shifter_carry,
    );
    if rd == 15 && !test {
        set_reg(emu, 15, result);
        if s {
            restore_spsr(emu);
            reload_pipeline(emu, StateSource::Cpsr);
        } else {
            reload_pipeline(emu, StateSource::Arm);
        }
    } else {
        prefetch_arm(emu, true, true);
        if s || test {
            set_nzcv(emu, flags);
        }
        if !test {
            write_reg_clear_interlock_ab(emu, rd, result);
        }
    }
}

/// The address that a load or store with an immediate offset reaches from its base
/// register: the base plus or minus the twelve-bit offset.
pub open spec fn offset_address(v: EmuView, instr: u32) -> u32 {
    let base = reg_of(v, reg_field(instr, 16) as int);
    if instr & 0x80_0000 != 0 {
        base.wrapping_add(instr & 0xFFF)
    } else {
        base.wrapping_sub(instr & 0xFFF)
    }
}

/// The address that a load or store accesses: the offset address if the instruction
/// applies the offset before the access, else the base.
pub open spec fn access_address(v: EmuView, instr: u32) -> u32 {
    if instr & 0x100_0000 != 0 {
        offset_address(v, instr)
    } else {
        reg_of(v, reg_field(instr, 16) as int)
    }
}

/// Whether a load or store writes the offset address back to its base register.
pub open spec fn writes_back(instr: u32) -> bool {
    instr & 0x100_0000 == 0 || instr & 0x20_0000 != 0
}

/// The machine after a load or store of a word or a byte.
///
/// The instruction waits for its base register, and a store for the register that it
/// stores; it takes one bus cycle and fetches the next instruction. An access that the
/// protection unit does not allow takes the data abort exception. Else the access is
/// made, its wait states are the data cycles that the next fetch can overlap with, and
/// the base register takes the offset address if the instruction says so. A loaded word
/// is rotated so that the addressed byte is its lowest; it is at hand one bus cycle
/// later. A load of the program counter is a jump that also selects the instruction set.
pub open spec fn load_stored(v: EmuView, instr: u32) -> EmuView {
    let rn = reg_field(instr, 16) as int;
    let rd = reg_field(instr, 12) as int;
    let load = instr & 0x10_0000 != 0;
    let byte = instr & 0x40_0000 != 0;
    let v = if load {
        interlock_applied(v, interlock_end(v, rn, false))
    } else {
        interlock_applied(v, later(interlock_end(v, rn, false), interlock_end(v, rd, false)))
    };
    let v = with_bus_cycles_added(v, 1);
    let addr = access_address(v, instr);
    let back = offset_address(v, instr);
    let stored = reg_of(v, rd);
    let v = arm_prefetched(v, false, true);
    let allowed = if load {
        cp15::can_read(v.arm9.cp15, addr, privileged(v))
    } else {
        cp15::can_write(v.arm9.cp15, addr, privileged(v))
    };
    if !allowed {
        data_abort_handled(with_data_cycles(v, 1), false)
    } else {
        let cycles = cycles_at(v.arm9.cp15, addr).data;
        let v = if writes_back(instr) && !(load && rn == rd) {
            with_reg(v, rn, back)
        } else {
            v
        };
        if load {
            let (value, v) = if byte {
                (read_8_of(v, addr).0 as u32, read_8_of(v, addr).1)
            } else {
                (
                    rotated_right(read_32_of(v, addr, false).0, ((addr & 3) * 8) as u32),
                    read_32_of(v, addr, false).1,
                )
            };
            let v = with_data_cycles(v, cycles);
            if rd == 15 {
                pipeline_reloaded(with_reg(v, 15, value), StateSource::R15Bit0)
            } else {
                with_reg(with_interlock(v, rd, interlock_from(v, 1, 1)), rd, value)
            }
        } else {
            with_data_cycles(
                if byte {
                    written_8(v, addr, stored as u8)
                } else {
                    written_32(v, addr, stored)
                },
                cycles,
            )
        }
    }
}

/// Runs a load or store.
pub fn load_store(emu: &mut Emu, instr: u32)
    requires
        emu_wf(old(emu)@),
    ensures
        final(emu)@ == load_stored(old(emu)@, instr),
        emu_wf(final(emu)@),
{
    let rn = field(instr, 16);
    let rd = field(instr, 12);
    let load = instr & 0x10_0000 != 0;
    let byte = instr & 0x40_0000 != 0;
    if load {
        apply_reg_interlock_1(emu, false, rn);
    } else {
        proof {
            assert(interlock_end(emu@, rn as int, false).saturating_sub(0u64) == interlock_end(
                emu@,
                rn as int,
                false,
            ));
        }
        apply_reg_interlocks_2(emu, 0, false, rn, rd);
    }
    add_bus_cycles(emu, 1);
    let base = reg(emu, rn);
    let back = if instr & 0x80_0000 != 0 {
        base.wrapping_add(instr & 0xFFF)
    } else {
        base.wrapping_sub(instr & 0xFFF)
    };
    let addr = if instr & 0x100_0000 != 0 {
        back
    } else {
        base
    };
    let stored = reg(emu, rd);
    prefetch_arm(emu, false, true);
    let is_privileged = cpsr(emu).mode().is_privileged();
    let allowed = if load {
        super::can_read(emu, addr, is_privileged)
    } else {
        super::can_write(emu, addr, is_privileged)
    };
    if !allowed {
        set_data_cycles(emu, 1);
        handle_data_abort(emu, false, addr);
        return ;
    }
    let cycles = data_cycles_at(emu, addr);
    if (instr & 0x100_0000 == 0 || instr & 0x20_0000 != 0) && !(load && rn == rd) {
        set_reg(emu, rn, back);
    }
    if load {
        let value = if byte {
            read_8(emu, addr, false) as u32
        } else {
            proof {
                crate::bits::lemma_and_le_u32(addr, 3);
            }
            let word = read_32(emu, addr, false);
            rotate_right(word, (addr & 3) * 8)
        };
        set_data_cycles(emu, cycles);
        if rd == 15 {
            set_reg(emu, 15, value);
            reload_pipeline(emu, StateSource::R15Bit0);
        } else {
            write_reg_interlock(emu, rd, value, 1, 1);
        }
    } else {
        if byte {
            write_8(emu, addr, #[verifier::truncate] (stored as u8));
        } else {
            write_32(emu, addr, stored);
        }
        set_data_cycles(emu, cycles);
    }
}

/// The distance of a branch: the 24 low bits of the instruction as a signed number of
/// words.
pub open spec fn branch_offset(instr: u32) -> u32 {
    ((((instr << 8) as i32) >> 6) as u32)
}

/// The machine after a branch: with link, the link register gets the address of the
/// instruction after the branch; the pipeline is filled from the target, which takes two
/// bus cycles.
pub open spec fn branched(v: EmuView, instr: u32) -> EmuView {
    let r15 = reg_of(v, 15);
    let v = if instr & 0x100_0000 != 0 {
        with_reg(v, 14, r15.wrapping_sub(4))
    } else {
        v
    };
    pipeline_reloaded(
        with_reg(with_bus_cycles_added(v, 2), 15, r15.wrapping_add(branch_offset(instr))),
        StateSource::Arm,
    )
}

/// Runs a branch.
pub fn branch(emu: &mut Emu, instr: u32)
    requires
        emu_wf(old(emu)@),
    ensures
        final(emu)@ == branched(old(emu)@, instr),
        emu_wf(final(emu)@),
{
    let r15 = reg(emu, 15);
    if instr & 0x100_0000 != 0 {
        set_reg(emu, 14, r15.wrapping_sub(4));
    }
    add_bus_cycles(emu, 2);
    set_reg(emu, 15, r15.wrapping_add((((instr << 8) as i32) >> 6) as u32));
    reload_pipeline(emu, StateSource::Arm);
}

/// The machine after a branch to a register: the instruction waits for the register,
/// and the pipeline is filled from the address in it, whose bit 0 selects the
/// instruction set.
pub open spec fn branched_to_register(v: EmuView, instr: u32) -> EmuView {
    let rm = reg_field(instr, 0) as int;
    let v = with_bus_cycles_added(interlock_applied(v, interlock_end(v, rm, false)), 2);
    pipeline_reloaded(with_reg(v, 15, reg_of(v, rm)), StateSource::R15Bit0)
}

/// Runs a branch to a register.
pub fn branch_exchange(emu: &mut Emu, instr: u32)
    requires
        emu_wf(old(emu)@),
    ensures
        final(emu)@ == branched_to_register(old(emu)@, instr),
        emu_wf(final(emu)@),
{
    let rm = field(instr, 0);
    apply_reg_interlock_1(emu, false, rm);
    add_bus_cycles(emu, 2);
    let target = reg(emu, rm);
    set_reg(emu, 15, target);
    reload_pipeline(emu, StateSource::R15Bit0);
}

/// The machine after an instruction whose condition fails: the next instruction is
/// fetched, and one bus cycle passes.
pub open spec fn skipped(v: EmuView) -> EmuView {
    arm_prefetched(with_bus_cycles_added(v, 1), true, true)
}

/// The machine after the ARM instruction `instr` ran.
pub open spec fn arm_executed(v: EmuView, instr: u32) -> EmuView {
    if !condition_passed(v.arm9.engine.regs.cpsr, instr >> 28) {
        skipped(v)
    } else {
        match arm_kind(instr) {
            ArmKind::Swi => swi_handled(v, false),
            ArmKind::Bkpt => prefetch_abort_handled(v, false),
            ArmKind::Bx => branched_to_register(v, instr),
            ArmKind::Branch => branched(v, instr),
            ArmKind::Multiply => multiply::multiplied(v, instr),
            ArmKind::StatusRead => status::status_read(v, instr),
            ArmKind::StatusWrite => status::status_written(v, instr),
            ArmKind::DataProcessing => data_processed(v, instr),
            ArmKind::ShiftByRegister => shift_by_register::shift_processed(v, instr),
            ArmKind::LoadStore => load_stored(v, instr),
            ArmKind::Undefined => undefined_handled(v, false),
        }
    }
}

/// What the caller has to do after the ARM instruction `instr` ran: the BIOS function of
/// a software interrupt that went to the emulated BIOS, on the arguments in registers 0
/// to 3.
pub open spec fn arm_request(before: EmuView, instr: u32, after: EmuView) -> HleRequest {
    if condition_passed(before.arm9.engine.regs.cpsr, instr >> 28) && arm_kind(instr)
        == ArmKind::Swi && swi_is_emulated(before) {
        HleRequest::Swi {
            number: (instr >> 16) as u8,
            r0_3: [reg_of(after, 0), reg_of(after, 1), reg_of(after, 2), reg_of(after, 3)],
        }
    } else {
        HleRequest::Nothing
    }
}

/// Runs the ARM instruction `instr`. Returns what the caller has to do for a software
/// interrupt that goes to the emulated BIOS.
pub fn handle_instr(emu: &mut Emu, instr: u32) -> (request: HleRequest)
    requires
        emu_wf(old(emu)@),
    ensures
        final(emu)@ == arm_executed(old(emu)@, instr),
        emu_wf(final(emu)@),
        request == arm_request(old(emu)@, instr, final(emu)@),
{
    if !check_condition(cpsr(emu).raw(), instr >> 28) {
        add_bus_cycles(emu, 1);
        prefetch_arm(emu, true, true);
        return HleRequest::Nothing;
    }
    match decode(instr) {
        ArmKind::Swi => {
            return handle_swi(emu, false, #[verifier::truncate] ((instr >> 16) as u8));
        },
        ArmKind::Bkpt => handle_prefetch_abort(emu, false),
        ArmKind::Bx => branch_exchange(emu, instr),
        ArmKind::Branch => branch(emu, instr),
        ArmKind::Multiply => multiply::multiply(emu, instr),
        ArmKind::StatusRead => status::read_status(emu, instr),
        ArmKind::StatusWrite => status::write_status(emu, instr),
        ArmKind::DataProcessing => data_processing(emu, instr),
        ArmKind::ShiftByRegister => shift_by_register::shift_processing(emu, instr),
        ArmKind::LoadStore => load_store(emu, instr),
        ArmKind::Undefined => handle_undefined(emu, false),
    }
    HleRequest::Nothing
}

} // verus!
