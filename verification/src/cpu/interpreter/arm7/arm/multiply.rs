//! Multiplications: the product of two registers, to which a third can be added.

use crate::cpu::interpreter::alu_utils::bit_ops::{nz_flags, set_nz, with_nz};
use crate::cpu::interpreter::arm7::{
    add_cycles, arm_prefetched, prefetch_arm, reg, reg_of, set_reg, with_cycles_added, with_reg,
    with_regs,
};
use crate::cpu::interpreter::arm9::arm::{field, reg_field};
use crate::emu::{emu_wf, Emu, EmuView};
use vstd::prelude::*;

verus! {

/// The machine after a multiplication: the instruction takes one cycle more than the
/// fetch of the next instruction, sets the flags N and Z if it has the S bit, and writes
/// the low word of its result. A result for the program counter is lost.
pub open spec fn multiplied(v: EmuView, instr: u32) -> EmuView {
    let rd = reg_field(instr, 16) as int;
    let product = reg_of(v, reg_field(instr, 0) as int).wrapping_mul(
        reg_of(v, reg_field(instr, 8) as int),
    );
    let result = if instr & 0x20_0000 != 0 {
        product.wrapping_add(reg_of(v, reg_field(instr, 12) as int))
    } else {
        product
    };
    let v = with_cycles_added(arm_prefetched(v, true), 1);
    let v = if instr & 0x10_0000 != 0 {
        with_regs(v, with_nz(v.arm7.engine.regs, nz_flags(result)))
    } else {
        v
    };
    if rd == 15 {
        v
    } else {
        with_reg(v, rd, result)
    }
}

/// Runs a multiplication.
pub fn multiply(emu: &mut Emu, instr: u32)
    requires
        emu_wf(old(emu)@),
    ensures
        final(emu)@ == multiplied(old(emu)@, instr),
        emu_wf(final(emu)@),
{
    let rd = field(instr, 16);
    let product = reg(emu, field(instr, 0)).wrapping_mul(reg(emu, field(instr, 8)));
    let result = if instr & 0x20_0000 != 0 {
        product.wrapping_add(reg(emu, field(instr, 12)))
    } else {
        product
    };
    prefetch_arm(emu, true);
    add_cycles(emu, 1);
    if instr & 0x10_0000 != 0 {
        set_nz(&mut emu.arm7.engine_data.regs, result);
        proof {
            emu.arm7.engine_data.regs.lemma_wf();
        }
    }
    if rd != 15 {
        set_reg(emu, rd, result);
    }
}

} // verus!
