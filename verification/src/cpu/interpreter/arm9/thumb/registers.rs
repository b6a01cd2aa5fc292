//! The Thumb instructions that work on the registers 0 to 7 alone. All of them set the
//! flags.

use crate::cpu::interpreter::arm7::thumb::registers::{low_field, low_reg, takes_a_cycle_more};
use crate::cpu::interpreter::arm9::alu::{
    alu, run_alu, run_thumb_alu, shifted, thumb_alu, thumb_alu_writes,
};
use crate::cpu::interpreter::arm9::{
    add_bus_cycles, add_cycles, apply_reg_interlock_1, apply_reg_interlocks_2, cpsr,
    interlock_applied, interlock_end, later, prefetch_thumb, reg, reg_of, set_nzcv,
    thumb_prefetched, with_bus_cycles_added, with_cycles_added, with_interlock, with_nzcv,
    with_reg, write_reg_clear_interlock_ab, write_reg_interlock_ab, Interlock,
};
use crate::emu::{emu_wf, Emu, EmuView};
use vstd::prelude::*;

verus! {

/// The machine after a shift of a register by an immediate: to the left, to the right, or
/// to the right with the sign. The instruction waits for the register and takes one bus
/// cycle. The carry flag takes the last bit that is shifted out.
pub open spec fn shift_processed(v: EmuView, instr: u16) -> EmuView {
    let rs = low_reg(instr, 3) as int;
    let rd = low_reg(instr, 0) as int;
    let v = with_bus_cycles_added(interlock_applied(v, interlock_end(v, rs, false)), 1);
    let cpsr = v.arm9.engine.regs.cpsr;
    let (value, carry) = shifted(
        reg_of(v, rs),
        ((instr >> 11) & 3) as u32,
        ((instr >> 6) & 0x1F) as u32,
        cpsr & 0x2000_0000 != 0,
    );
    let flags = alu(13, 0, value, cpsr & 0x2000_0000 != 0, cpsr & 0x1000_0000 != 0, carry).1;
    let v = with_nzcv(thumb_prefetched(v, true, true), flags);
    with_reg(
        with_interlock(v, rd, Interlock { port_ab: 0, ..v.arm9.engine.interlocks[rd] }),
        rd,
        value,
    )
}

/// Runs a shift by an immediate.
pub fn shift(emu: &mut Emu, instr: u16)
    requires
        emu_wf(old(emu)@),
    ensures
        final(emu)@ == shift_processed(old(emu)@, instr),
        emu_wf(final(emu)@),
{
    proof {
        crate::bits::lemma_and_le_u16(instr >> 11, 3);
        crate::bits::lemma_and_le_u16(instr >> 6, 0x1F);
    }
    let rs = low_field(instr, 3);
    apply_reg_interlock_1(emu, false, rs);
    add_bus_cycles(emu, 1);
    let raw = cpsr(emu).raw();
    let (value, carry) = crate::cpu::interpreter::arm9::alu::shift(
        reg(emu, rs),
        ((instr >> 11) & 3) as u32,
        ((instr >> 6) & 0x1F) as u32,
        raw & 0x2000_0000 != 0,
    );
    let (_, flags) = run_alu(13, 0, value, raw & 0x2000_0000 != 0, raw & 0x1000_0000 != 0, carry);
    prefetch_thumb(emu, true, true);
    set_nzcv(emu, flags);
    write_reg_clear_interlock_ab(emu, low_field(instr, 0), value);
}

/// The machine after an addition or subtraction of a register or a three-bit immediate:
/// bit 10 of the instruction chooses the immediate, bit 9 the subtraction. The
/// instruction waits for its registers and takes one bus cycle.
pub open spec fn add_processed(v: EmuView, instr: u16) -> EmuView {
    let rs = low_reg(instr, 3) as int;
    let rn = low_reg(instr, 6) as int;
    let rd = low_reg(instr, 0) as int;
    let immediate = instr & 0x400 != 0;
    let v = with_bus_cycles_added(
        interlock_applied(
            v,
            if immediate {
                interlock_end(v, rs, false)
            } else {
                later(interlock_end(v, rs, false), interlock_end(v, rn, false))
            },
        ),
        1,
    );
    let cpsr = v.arm9.engine.regs.cpsr;
    let b = if immediate {
        ((instr >> 6) & 7) as u32
    } else {
        reg_of(v, rn)
    };
    let op: u32 = if instr & 0x200 != 0 {
        2
    } else {
        4
    };
    let (result, flags) = alu(
        op,
        reg_of(v, rs),
        b,
        cpsr & 0x2000_0000 != 0,
        cpsr & 0x1000_0000 != 0,
        cpsr & 0x2000_0000 != 0,
    );
    let v = with_nzcv(thumb_prefetched(v, true, true), flags);
    with_reg(
        with_interlock(v, rd, Interlock { port_ab: 0, ..v.arm9.engine.interlocks[rd] }),
        rd,
        result,
    )
}

/// Runs an addition or subtraction.
pub fn add_subtract(emu: &mut Emu, instr: u16)
    requires
        emu_wf(old(emu)@),
    ensures
        final(emu)@ == add_processed(old(emu)@, instr),
        emu_wf(final(emu)@),
{
    let rs = low_field(instr, 3);
    let rn = low_field(instr, 6);
    let immediate = instr & 0x400 != 0;
    if immediate {
        apply_reg_interlock_1(emu, false, rs);
    } else {
        proof {
            let a = interlock_end(emu@, rs as int, false);
            assert(a.saturating_sub(0u64) == a);
        }
        apply_reg_interlocks_2(emu, 0, false, rs, rn);
    }
    add_bus_cycles(emu, 1);
    let raw = cpsr(emu).raw();
    let b = if immediate {
        ((instr >> 6) & 7) as u32
    } else {
        reg(emu, rn)
    };
    let op: u32 = if instr & 0x200 != 0 {
        2
    } else {
        4
    };
    let (result, flags) = run_alu(
        op,
        reg(emu, rs),
        b,
        raw & 0x2000_0000 != 0,
        raw & 0x1000_0000 != 0,
        raw & 0x2000_0000 != 0,
    );
    prefetch_thumb(emu, true, true);
    set_nzcv(emu, flags);
    write_reg_clear_interlock_ab(emu, low_field(instr, 0), result);
}

/// The machine after an operation on two registers: bits 6 to 9 of the instruction name
/// the operation, which writes its result to the first register unless it is a test.
///
/// The instruction waits for its registers; where it shifts, for the amount through port
/// C. A shift and a multiplication take a bus cycle more than the other operations, and
/// their result is at hand one bus cycle later.
pub open spec fn alu_processed(v: EmuView, instr: u16) -> EmuView {
    let op = ((instr >> 6) & 0xF) as u32;
    let rd = low_reg(instr, 0) as int;
    let rs = low_reg(instr, 3) as int;
    let slow = takes_a_cycle_more(op);
    let v = interlock_applied(
        v,
        later(interlock_end(v, rd, false), interlock_end(v, rs, slow && op != 13)),
    );
    let v = with_bus_cycles_added(
        v,
        if slow {
            2u64
        } else {
            1u64
        },
    );
    let cpsr = v.arm9.engine.regs.cpsr;
    let (result, flags) = thumb_alu(
        op,
        reg_of(v, rd),
        reg_of(v, rs),
        cpsr & 0x2000_0000 != 0,
        cpsr & 0x1000_0000 != 0,
    );
    let v = thumb_prefetched(v, true, true);
    let v = if slow {
        with_cycles_added(v, 1)
    } else {
        v
    };
    let v = with_nzcv(v, flags);
    if !thumb_alu_writes(op) {
        v
    } else {
        with_reg(
            with_interlock(
                v,
                rd,
                Interlock {
                    port_ab: if slow {
                        v.arm9.engine.bus_cycle.saturating_add(1)
                    } else {
                        0
                    },
                    ..v.arm9.engine.interlocks[rd]
                },
            ),
            rd,
            result,
        )
    }
}

/// Runs an operation on two registers.
pub fn alu_op(emu: &mut Emu, instr: u16)
    requires
        emu_wf(old(emu)@),
    ensures
        final(emu)@ == alu_processed(old(emu)@, instr),
        emu_wf(final(emu)@),
{
    proof {
        crate::bits::lemma_and_le_u16(instr >> 6, 0xF);
    }
    let op = ((instr >> 6) & 0xF) as u32;
    let rd = low_field(instr, 0);
    let rs = low_field(instr, 3);
    let slow = op == 2 || op == 3 || op == 4 || op == 7 || op == 13;
    proof {
        let a = interlock_end(emu@, rd as int, false);
        assert(a.saturating_sub(0u64) == a);
    }
    apply_reg_interlocks_2(emu, 0, slow && op != 13, rd, rs);
    add_bus_cycles(
        emu,
        if slow {
            2
        } else {
            1
        },
    );
    let raw = cpsr(emu).raw();
    let (result, flags) = run_thumb_alu(
        op,
        reg(emu, rd),
        reg(emu, rs),
        raw & 0x2000_0000 != 0,
        raw & 0x1000_0000 != 0,
    );
    prefetch_thumb(emu, true, true);
    if slow {
        add_cycles(emu, 1);
    }
    set_nzcv(emu, flags);
    if op != 8 && op != 10 && op != 11 {
        if slow {
            write_reg_interlock_ab(emu, rd, result, 1);
        } else {
            write_reg_clear_interlock_ab(emu, rd, result);
        }
    }
}

} // verus!
