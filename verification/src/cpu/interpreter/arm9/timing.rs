//! What the ARM9's interlocks cost: a register that a load fills is at hand one bus cycle
//! after the load, and an instruction right behind the load that reads it waits.

use crate::cpu::arm9::bus::fallback::{access_keeps, io_read_32_of, read_32_of, read_8_of};
use crate::cpu::arm9::cp15;
use crate::cpu::arm9::cp15::cycles_at;
use crate::cpu::interpreter::arm9::alu::uses_first_operand;
use crate::cpu::interpreter::arm9::arm::{
    access_address, data_processed, load_stored, offset_address, operands_awaited, reg_field,
    writes_back,
};
use crate::cpu::interpreter::arm9::{
    arm_prefetched, interlock_applied, more, privileged, reg_of, with_bus_cycles_added,
    with_interlock, with_reg, Interlock,
};
use crate::emu::{emu_wf, EmuView};
use vstd::prelude::*;

verus! {

/// A read of a word changes neither the ARM9's clock nor its coprocessor nor the state of
/// its interpreter.
pub proof fn lemma_read_keeps(v: EmuView, addr: u32, debug: bool)
    ensures
        access_keeps(v, read_32_of(v, addr, debug).1),
{
    reveal(read_32_of);
    reveal(io_read_32_of);
}

/// A fetch of an instruction changes nothing of the interpreter but the program counter,
/// the second slot of the pipeline and the data cycles, and lets as much time pass as
/// the fetch or the data cycles take, whichever is more.
pub proof fn lemma_prefetch_keeps(v: EmuView, reset_data_cycles: bool, inc_r15: bool)
    requires
        v.arm9.engine.regs.cur.len() == 16,
    ensures
        ({
            let after = arm_prefetched(v, reset_data_cycles, inc_r15);
            let addr = reg_of(v, 15);
            let data_cycles = v.arm9.engine.data_cycles;
            &&& after.arm9.engine.bus_cycle == v.arm9.engine.bus_cycle
            &&& after.arm9.engine.interlocks == v.arm9.engine.interlocks
            &&& after.arm9.engine.regs.cpsr == v.arm9.engine.regs.cpsr
            &&& after.arm9.engine.regs.cur.len() == 16
            &&& after.arm9.cp15 == v.arm9.cp15
            &&& forall|i: int|
                0 <= i < 15 ==> after.arm9.engine.regs.cur[i] == v.arm9.engine.regs.cur[i]
            &&& after.arm9.engine.data_cycles == if reset_data_cycles {
                1u8
            } else {
                data_cycles
            }
            &&& after.arm9.now.0 == v.arm9.now.0.saturating_add(
                if cp15::can_execute(v.arm9.cp15, addr, privileged(v)) {
                    more(cycles_at(v.arm9.cp15, addr).code, data_cycles) as u64
                } else {
                    data_cycles as u64
                },
            )
        }),
{
    let addr = reg_of(v, 15);
    let moved = if inc_r15 {
        with_reg(v, 15, addr.wrapping_add(v.arm9.engine.r15_increment))
    } else {
        v
    };
    lemma_read_keeps(moved, addr, false);
}

/// Whether the protection unit lets a load read its address.
pub open spec fn load_allowed(v: EmuView, load: u32) -> bool {
    cp15::can_read(v.arm9.cp15, access_address(v, load), privileged(v))
}

/// A load of a register other than the program counter, which no interlock holds up and
/// which the protection unit allows, takes one bus cycle, leaves the loaded register at
/// hand one bus cycle later, and leaves the wait states of its access as data cycles.
pub proof fn lemma_load_leaves_interlock(v: EmuView, load: u32)
    requires
        emu_wf(v),
        load & 0x10_0000 != 0,
        reg_field(load, 12) != 15,
        load_allowed(v, load),
        v.arm9.engine.interlocks[reg_field(load, 16) as int].port_ab <= v.arm9.engine.bus_cycle,
        v.arm9.engine.bus_cycle < u64::MAX - 4,
    ensures
        ({
            let loaded = load_stored(v, load);
            let rd = reg_field(load, 12) as int;
            &&& 0 <= rd < 15
            &&& loaded.arm9.engine.bus_cycle == v.arm9.engine.bus_cycle + 1
            &&& loaded.arm9.engine.interlocks.len() == 16
            &&& loaded.arm9.engine.regs.cur.len() == 16
            &&& loaded.arm9.engine.interlocks[rd].port_ab == loaded.arm9.engine.bus_cycle + 1
            &&& loaded.arm9.engine.data_cycles == cycles_at(
                v.arm9.cp15,
                access_address(v, load),
            ).data
            &&& loaded.arm9.now.0 <= v.arm9.now.0 + 255
        }),
{
    let rn = reg_field(load, 16) as int;
    let rd = reg_field(load, 12) as int;
    assert(0 <= rn < 16 && 0 <= rd < 15) by {
        crate::bits::lemma_and_le_u32(load >> 16, 0xF);
        crate::bits::lemma_and_le_u32(load >> 12, 0xF);
    }
    let v1 = with_bus_cycles_added(v, 1);
    lemma_prefetch_keeps(v1, false, true);
    let v2 = arm_prefetched(v1, false, true);
    let addr = access_address(v1, load);
    assert(addr == access_address(v, load));
    let v3 = if writes_back(load) && rn != rd {
        with_reg(v2, rn, offset_address(v1, load))
    } else {
        v2
    };
    lemma_read_keeps(v3, addr, false);
    reveal(read_8_of);
}

/// A move from a register to a register other than the program counter takes one bus
/// cycle after it has waited for its operand, and the time of one fetch.
pub proof fn lemma_move_cycles(v: EmuView, mov: u32)
    requires
        v.arm9.engine.regs.cur.len() == 16,
        v.arm9.engine.interlocks.len() == 16,
        mov & 0x0200_0000 == 0,
        !uses_first_operand((mov >> 21) & 0xF),
        reg_field(mov, 12) != 15,
    ensures
        ({
            let awaited = operands_awaited(v, mov);
            let fetching = with_bus_cycles_added(awaited, 1);
            let after = data_processed(v, mov);
            &&& after.arm9.engine.bus_cycle == arm_prefetched(
                fetching,
                true,
                true,
            ).arm9.engine.bus_cycle
            &&& after.arm9.now == arm_prefetched(fetching, true, true).arm9.now
        }),
{
    assert(reg_field(mov, 12) < 15) by {
        crate::bits::lemma_and_le_u32(mov >> 12, 0xF);
    }
}

/// An instruction right behind a load that reads the loaded register waits one bus
/// cycle for it.
///
/// Take a load of a register other than the program counter, which no interlock holds up
/// and which the protection unit allows, and behind it a move from the loaded register
/// to a register other than the program counter. Compared with the same move on a
/// machine where the register is at hand, the move ends one bus cycle later. Where the
/// load took one data cycle, the clock is one cycle later too.
pub proof fn lemma_load_use_stall(v: EmuView, load: u32, mov: u32)
    requires
        emu_wf(v),
        load & 0x10_0000 != 0,
        reg_field(load, 12) != 15,
        load_allowed(v, load),
        v.arm9.engine.interlocks[reg_field(load, 16) as int].port_ab <= v.arm9.engine.bus_cycle,
        v.arm9.engine.bus_cycle < u64::MAX - 4,
        v.arm9.now.0 < u64::MAX - 1024,
        mov & 0x0200_0000 == 0,
        !uses_first_operand((mov >> 21) & 0xF),
        reg_field(mov, 0) == reg_field(load, 12),
        reg_field(mov, 12) != 15,
    ensures
        ({
            let loaded = load_stored(v, load);
            let rd = reg_field(load, 12) as int;
            let free = with_interlock(loaded, rd, Interlock { port_ab: 0, port_c: 0 });
            &&& operands_awaited(free, mov) == free
            &&& operands_awaited(loaded, mov).arm9.engine.bus_cycle
                == loaded.arm9.engine.bus_cycle + 1
            &&& data_processed(loaded, mov).arm9.engine.bus_cycle == data_processed(
                free,
                mov,
            ).arm9.engine.bus_cycle + 1
            &&& cycles_at(v.arm9.cp15, access_address(v, load)).data == 1 ==> data_processed(
                loaded,
                mov,
            ).arm9.now.0 == data_processed(free, mov).arm9.now.0 + 1
        }),
{
    let rd = reg_field(load, 12) as int;
    lemma_load_leaves_interlock(v, load);
    let loaded = load_stored(v, load);
    let free = with_interlock(loaded, rd, Interlock { port_ab: 0, port_c: 0 });
    lemma_move_cycles(loaded, mov);
    lemma_move_cycles(free, mov);
    let l1 = with_bus_cycles_added(operands_awaited(loaded, mov), 1);
    let f1 = with_bus_cycles_added(operands_awaited(free, mov), 1);
    assert(operands_awaited(free, mov) == free);
    assert(operands_awaited(loaded, mov) == interlock_applied(
        loaded,
        (loaded.arm9.engine.bus_cycle + 1) as u64,
    ));
    lemma_prefetch_keeps(l1, true, true);
    lemma_prefetch_keeps(f1, true, true);
}

} // verus!
