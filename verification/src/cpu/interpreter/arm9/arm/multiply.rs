//! Multiplications: the product of two registers, to which a third can be added. The
//! result is at hand one bus cycle after the instruction, unless the instruction sets
//! the flags, which takes two cycles more.

use super::{field, reg_field};
use crate::cpu::interpreter::alu_utils::bit_ops::{nz_flags, set_nz, with_nz};
use crate::cpu::interpreter::arm9::{
    add_bus_cycles, add_cycles, apply_reg_interlocks_2, apply_reg_interlocks_3, arm_prefetched,
    interlock_applied, interlock_end, later, prefetch_arm, reg, reg_of, with_bus_cycles_added,
    with_cycles_added, with_interlock, with_reg, with_regs, write_reg_clear_interlock_ab,
    write_reg_interlock_ab, Interlock,
};
use crate::emu::{emu_wf, Emu, EmuView};
use vstd::prelude::*;

verus! {

/// The machine after a multiplication.
///
/// The instruction waits for its two factors, and for the register that it adds through
/// port C. Without the S bit it takes two bus cycles, and its result is at hand one bus
/// cycle later. With the S bit it takes four and sets the flags N and Z. A result for
/// the program counter is lost.
pub open spec fn multiplied(v: EmuView, instr: u32) -> EmuView {
    let rd = reg_field(instr, 16) as int;
    let rn = reg_field(instr, 12) as int;
    let rs = reg_field(instr, 8) as int;
    let rm = reg_field(instr, 0) as int;
    let accumulate = instr & 0x20_0000 != 0;
    let s = instr & 0x10_0000 != 0;
    let factors = later(interlock_end(v, rm, false), interlock_end(v, rs, false));
    let v = interlock_applied(
        v,
        if accumulate {
            later(factors, interlock_end(v, rn, true))
        } else {
            factors
        },
    );
    let cycles: u64 = if s {
        4
    } else {
        2
    };
    let v = with_bus_cycles_added(v, cycles);
    let product = reg_of(v, rm).wrapping_mul(reg_of(v, rs));
    let result = if accumulate {
        product.wrapping_add(reg_of(v, rn))
    } else {
        product
    };
    let v = with_cycles_added(arm_prefetched(v, true, true), (cycles - 1) as u64);
    let v = if s {
        with_regs(v, with_nz(v.arm9.engine.regs, nz_flags(result)))
    } else {
        v
    };
    if rd == 15 {
        v
    } else if s {
        with_reg(
            with_interlock(v, rd, Interlock { port_ab: 0, ..v.arm9.engine.interlocks[rd] }),
            rd,
            result,
        )
    } else {
        with_reg(
            with_interlock(
                v,
                rd,
                Interlock {
                    port_ab: v.arm9.engine.bus_cycle.saturating_add(1),
                    ..v.arm9.engine.interlocks[rd]
                },
            ),
            rd,
            result,
        )
    }
}

/// Runs a multiplication.
pub fn multiply(emu: &mut Emu, instr: u32)
    requires
        emu_wf(old(emu)@),
    ensures
        final(emu)@ == multiplied(old(emu)@, instr),
        emu_wf(final(emu)@),
{
    let rd = field(instr, 16);
    let rn = field(instr, 12);
    let rs = field(instr, 8);
    let rm = field(instr, 0);
    let accumulate = instr & 0x20_0000 != 0;
    let s = instr & 0x10_0000 != 0;
    proof {
        let a = interlock_end(emu@, rm as int, false);
        let b = interlock_end(emu@, rs as int, false);
        assert(a.saturating_sub(0u64) == a && b.saturating_sub(0u64) == b);
    }
    if accumulate {
        apply_reg_interlocks_3(emu, 0, true, rm, rs, rn);
    } else {
        apply_reg_interlocks_2(emu, 0, false, rm, rs);
    }
    let cycles: u64 = if s {
        4
    } else {
        2
    };
    add_bus_cycles(emu, cycles);
    let product = reg(emu, rm).wrapping_mul(reg(emu, rs));
    let result = if accumulate {
        product.wrapping_add(reg(emu, rn))
    } else {
        product
    };
    prefetch_arm(emu, true, true);
    add_cycles(emu, cycles - 1);
    if s {
        set_nz(&mut emu.arm9.engine_data.regs, result);
        proof {
            emu.arm9.engine_data.regs.lemma_wf();
        }
    }
    if rd != 15 {
        if s {
            write_reg_clear_interlock_ab(emu, rd, result);
        } else {
            write_reg_interlock_ab(emu, rd, result, 1);
        }
    }
}

} // verus!
