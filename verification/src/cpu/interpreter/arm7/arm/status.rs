//! Reads and writes of the status registers. A mode without a saved status register reads
//! the value that was saved last, and a write to its saved status register is lost.

use crate::cpu::interpreter::arm7::{
    arm_prefetched, cpsr, cpsr_written, prefetch_arm, reg, reg_of, set_cpsr_update_control,
    set_reg, with_reg, with_regs,
};
use crate::cpu::interpreter::arm9::alu::{
    rotate_right, rotated_right, status_mask, status_write_mask,
};
use crate::cpu::interpreter::arm9::arm::{field, reg_field};
use crate::cpu::interpreter::regs::RegsView;
use crate::cpu::psr::{bank_of, Psr};
use crate::emu::{emu_wf, Emu, EmuView};
use vstd::prelude::*;

verus! {

/// The machine after a read of a status register into a register: of the saved one if
/// bit 22 of the instruction is set, else of the current one. A value for the program
/// counter is lost.
pub open spec fn status_read(v: EmuView, instr: u32) -> EmuView {
    let rd = reg_field(instr, 12) as int;
    let value = if instr & 0x40_0000 != 0 {
        v.arm7.engine.regs.spsr
    } else {
        v.arm7.engine.regs.cpsr
    };
    let v = arm_prefetched(v, true);
    if rd == 15 {
        v
    } else {
        with_reg(v, rd, value)
    }
}

/// Runs a read of a status register.
pub fn read_status(emu: &mut Emu, instr: u32)
    requires
        emu_wf(old(emu)@),
    ensures
        final(emu)@ == status_read(old(emu)@, instr),
        emu_wf(final(emu)@),
{
    let rd = field(instr, 12);
    let value = if instr & 0x40_0000 != 0 {
        emu.arm7.engine_data.regs.spsr().raw()
    } else {
        cpsr(emu).raw()
    };
    prefetch_arm(emu, true);
    if rd != 15 {
        set_reg(emu, rd, value);
    }
}

/// The value that a write to a status register takes: an eight-bit immediate rotated
/// right by twice the four bits above it, or a register.
pub open spec fn status_value(v: EmuView, instr: u32) -> u32 {
    if instr & 0x0200_0000 != 0 {
        rotated_right(instr & 0xFF, (((instr >> 8) & 0xF) * 2) as u32)
    } else {
        reg_of(v, reg_field(instr, 0) as int)
    }
}

/// The machine after a write to a status register: to the saved one if bit 22 of the
/// instruction is set, else to the current one. Bits 16 to 19 of the instruction name the
/// fields to write; the other bits of the register stay. The current status register
/// takes the new mode and the new interrupt mask with what follows from them.
pub open spec fn status_written(v: EmuView, instr: u32) -> EmuView {
    let saved = instr & 0x40_0000 != 0;
    let regs = v.arm7.engine.regs;
    let value = status_value(v, instr);
    let mask = status_write_mask((instr >> 16) & 0xF, (regs.cpsr & 0x1F) as u8 != 0x10, saved);
    let v = if saved {
        if bank_of((regs.cpsr & 0x1F) as u8) == 0 {
            v
        } else {
            with_regs(v, RegsView { spsr: ((regs.spsr & !mask) | (value & mask)) | 0x10, ..regs })
        }
    } else {
        cpsr_written(v, ((regs.cpsr & !mask) | (value & mask)) | 0x10)
    };
    arm_prefetched(v, true)
}

/// Runs a write to a status register.
pub fn write_status(emu: &mut Emu, instr: u32)
    requires
        emu_wf(old(emu)@),
    ensures
        final(emu)@ == status_written(old(emu)@, instr),
        emu_wf(final(emu)@),
{
    let saved = instr & 0x40_0000 != 0;
    proof {
        crate::bits::lemma_and_le_u32(instr >> 8, 0xF);
    }
    let value = if instr & 0x0200_0000 != 0 {
        rotate_right(instr & 0xFF, ((instr >> 8) & 0xF) * 2)
    } else {
        reg(emu, field(instr, 0))
    };
    let mask = status_mask((instr >> 16) & 0xF, cpsr(emu).mode().is_privileged(), saved);
    if saved {
        if emu.arm7.engine_data.regs.has_spsr() {
            let spsr = emu.arm7.engine_data.regs.spsr().raw();
            emu.arm7.engine_data.regs.set_spsr(Psr::from_raw((spsr & !mask) | (value & mask)));
            proof {
                emu.arm7.engine_data.regs.lemma_wf();
            }
        }
    } else {
        let raw = cpsr(emu).raw();
        set_cpsr_update_control(emu, Psr::from_raw((raw & !mask) | (value & mask)));
    }
    prefetch_arm(emu, true);
}

} // verus!
