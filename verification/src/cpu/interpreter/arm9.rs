//! The interpreter of the ARM9: its pipeline of two fetched instructions, its register
//! interlocks and its exceptions.

pub mod alu;
pub mod arm;
pub mod run;
pub mod thumb;
pub mod timing;

use crate::cpu::arm9::bus::fallback::{access_keeps, read_32, read_32_of, write_32, written_32};
use crate::cpu::arm9::cp15;
use crate::cpu::arm9::cp15::cycles_at;
use crate::cpu::arm9::Arm9View;
use crate::cpu::interpreter::regs::{mode_switched, regs_wf, startup_regs, Regs, RegsView};
use crate::cpu::irqs::{woken, IrqsView};
use crate::cpu::psr::{bank_of, Mode, Psr};
use crate::cpu::schedule::Schedule;
use crate::cpu::timers::Timestamp;
use crate::emu::{emu_wf, Emu, EmuView};
use vstd::prelude::*;

verus! {

/// The bus cycles at which the value of a register is at hand: at the ALU's ports A and
/// B, and at its port C, which takes a result one cycle earlier.
#[derive(Clone, Copy, Debug, PartialEq, Eq)]
pub struct Interlock {
    pub port_ab: u64,
    pub port_c: u64,
}

/// The state of the interpreter, as contracts see it.
pub struct EngineView {
    /// What the program counter advances by with every fetch: 4 in ARM state, 2 in Thumb
    /// state.
    pub r15_increment: u32,
    pub regs: RegsView,
    /// The two fetched instructions, the next one to run first. Bit 32 of an entry marks a
    /// Thumb instruction; in Thumb state, the upper half of the second entry's lower word
    /// holds the instruction after it, so that one fetch serves two instructions.
    pub pipeline: Seq<u64>,
    /// The bus cycle that the CPU has reached, by which interlocks are counted.
    pub bus_cycle: u64,
    /// The interlock of each register.
    pub interlocks: Seq<Interlock>,
    /// The cycles that the data accesses of the running instruction take, which the next
    /// fetch can overlap with.
    pub data_cycles: u8,
    /// Where the exception vectors lie: at zero, or at 0xFFFF0000.
    pub exc_vectors_start: u32,
}

/// The interpreter is well-formed: every part of it has its size.
pub open spec fn engine_wf(v: EngineView) -> bool {
    &&& regs_wf(v.regs)
    &&& v.pipeline.len() == 2
    &&& v.interlocks.len() == 16
}

/// The state of the ARM9's interpreter.
pub struct EngineData {
    r15_increment: u32,
    pub regs: Regs,
    pipeline: [u64; 2],
    bus_cycle: u64,
    interlocks: [Interlock; 16],
    data_cycles: u8,
    exc_vectors_start: u32,
}

impl View for EngineData {
    type V = EngineView;

    closed spec fn view(&self) -> EngineView {
        EngineView {
            r15_increment: self.r15_increment,
            regs: self.regs@,
            pipeline: self.pipeline@,
            bus_cycle: self.bus_cycle,
            interlocks: self.interlocks@,
            data_cycles: self.data_cycles,
            exc_vectors_start: self.exc_vectors_start,
        }
    }
}

/// The interpreter at power-on.
pub open spec fn initial_engine(regs: RegsView) -> EngineView {
    EngineView {
        r15_increment: 4,
        regs,
        pipeline: seq![0u64, 0u64],
        bus_cycle: 0,
        interlocks: Seq::new(16, |i: int| Interlock { port_ab: 0, port_c: 0 }),
        data_cycles: 0,
        exc_vectors_start: 0xFFFF_0000,
    }
}

impl EngineData {
    /// The interpreter at power-on: the registers as they start up, an empty pipeline,
    /// no interlocks, and the exception vectors at 0xFFFF0000.
    pub fn new() -> (data: Self)
        ensures
            data@ == initial_engine(startup_regs()),
            engine_wf(data@),
    {
        let data = EngineData {
            r15_increment: 4,
            regs: Regs::startup(),
            pipeline: [0; 2],
            bus_cycle: 0,
            interlocks: [Interlock { port_ab: 0, port_c: 0 }; 16],
            data_cycles: 0,
            exc_vectors_start: 0xFFFF_0000,
        };
        assert(data@.pipeline =~= seq![0u64, 0u64]);
        assert(data@.interlocks =~= Seq::new(16, |i: int| Interlock { port_ab: 0, port_c: 0 }));
        data
    }

    /// The interpreter is well-formed however it came about.
    pub proof fn lemma_wf(&self)
        ensures
            engine_wf(self@),
    {
        self.regs.lemma_wf();
    }
}

/// The breakpoint instruction of the ARM instruction set, which stands in for an
/// instruction that could not be fetched.
pub const ARM_BKPT: u32 = 0xE120_0070;

/// The breakpoint instruction of the Thumb instruction set.
pub const THUMB_BKPT: u16 = 0xBE00;

/// The pipeline entry of a Thumb instruction: the instruction with bit 32 set.
pub open spec fn thumb_entry(bits: u64) -> u64 {
    bits | 0x1_0000_0000
}

/// The pipeline entry of a Thumb instruction.
fn thumb_pipeline_entry(bits: u64) -> (entry: u64)
    ensures
        entry == thumb_entry(bits),
{
    bits | 0x1_0000_0000
}

/// The machine with another state of the ARM9's interpreter.
pub open spec fn with_engine(v: EmuView, engine: EngineView) -> EmuView {
    EmuView { arm9: Arm9View { engine, ..v.arm9 }, ..v }
}

/// The machine with another register file of the ARM9.
pub open spec fn with_regs(v: EmuView, regs: RegsView) -> EmuView {
    with_engine(v, EngineView { regs, ..v.arm9.engine })
}

/// The machine with a register of the ARM9 replaced.
pub open spec fn with_reg(v: EmuView, i: int, value: u32) -> EmuView {
    with_regs(v, RegsView { cur: v.arm9.engine.regs.cur.update(i, value), ..v.arm9.engine.regs })
}

/// The machine with an entry of the ARM9's pipeline replaced.
pub open spec fn with_pipeline(v: EmuView, slot: int, entry: u64) -> EmuView {
    with_engine(
        v,
        EngineView { pipeline: v.arm9.engine.pipeline.update(slot, entry), ..v.arm9.engine },
    )
}

/// The machine with the data cycles of the running instruction replaced.
pub open spec fn with_data_cycles(v: EmuView, data_cycles: u8) -> EmuView {
    with_engine(v, EngineView { data_cycles, ..v.arm9.engine })
}

/// The machine with the interlock of a register replaced.
pub open spec fn with_interlock(v: EmuView, reg: int, interlock: Interlock) -> EmuView {
    with_engine(
        v,
        EngineView { interlocks: v.arm9.engine.interlocks.update(reg, interlock), ..v.arm9.engine },
    )
}

/// The machine with the ARM9's clock advanced by `cycles`.
pub open spec fn with_cycles_added(v: EmuView, cycles: u64) -> EmuView {
    EmuView { arm9: Arm9View { now: Timestamp(v.arm9.now.0.saturating_add(cycles)), ..v.arm9 }, ..v }
}

/// The machine with the ARM9's bus cycle counter advanced by `cycles`.
pub open spec fn with_bus_cycles_added(v: EmuView, cycles: u64) -> EmuView {
    with_engine(
        v,
        EngineView { bus_cycle: v.arm9.engine.bus_cycle.saturating_add(cycles), ..v.arm9.engine },
    )
}

/// Whether the ARM9 is in a privileged mode.
pub open spec fn privileged(v: EmuView) -> bool {
    (v.arm9.engine.regs.cpsr & 0x1F) as u8 != 0x10
}

/// A register of the ARM9.
pub open spec fn reg_of(v: EmuView, i: int) -> u32 {
    v.arm9.engine.regs.cur[i]
}

/// Advances the ARM9's clock by `cycles`.
pub fn add_cycles(emu: &mut Emu, cycles: u64)
    requires
        emu_wf(old(emu)@),
    ensures
        final(emu)@ == with_cycles_added(old(emu)@, cycles),
        emu_wf(final(emu)@),
{
    let now = emu.arm9.schedule.cur_time();
    emu.arm9.schedule.set_cur_time(Timestamp(now.0.saturating_add(cycles)));
}

/// Advances the counter of bus cycles by which interlocks are counted. No instruction
/// needs more than two: an interlock lasts two cycles at most.
pub fn add_bus_cycles(emu: &mut Emu, cycles: u64)
    requires
        emu_wf(old(emu)@),
    ensures
        final(emu)@ == with_bus_cycles_added(old(emu)@, cycles),
        emu_wf(final(emu)@),
{
    emu.arm9.engine_data.bus_cycle = emu.arm9.engine_data.bus_cycle.saturating_add(cycles);
}

/// A register of the ARM9.
pub fn reg(emu: &Emu, i: u8) -> (value: u32)
    requires
        i < 16,
    ensures
        value == reg_of(emu@, i as int),
{
    emu.arm9.engine_data.regs.reg(i)
}

/// Sets a register of the ARM9.
pub fn set_reg(emu: &mut Emu, i: u8, value: u32)
    requires
        emu_wf(old(emu)@),
        i < 16,
    ensures
        final(emu)@ == with_reg(old(emu)@, i as int, value),
        emu_wf(final(emu)@),
{
    emu.arm9.engine_data.regs.set_reg(i, value);
}

/// Sets an entry of the pipeline.
fn set_pipeline(emu: &mut Emu, slot: usize, entry: u64)
    requires
        emu_wf(old(emu)@),
        slot < 2,
    ensures
        final(emu)@ == with_pipeline(old(emu)@, slot as int, entry),
        emu_wf(final(emu)@),
{
    emu.arm9.engine_data.pipeline[slot] = entry;
}

/// Sets the data cycles of the running instruction.
pub fn set_data_cycles(emu: &mut Emu, data_cycles: u8)
    requires
        emu_wf(old(emu)@),
    ensures
        final(emu)@ == with_data_cycles(old(emu)@, data_cycles),
        emu_wf(final(emu)@),
{
    emu.arm9.engine_data.data_cycles = data_cycles;
}

/// Whether the protection unit lets the ARM9 read at `addr`.
pub fn can_read(emu: &Emu, addr: u32, privileged: bool) -> (allowed: bool)
    requires
        emu_wf(emu@),
    ensures
        allowed == cp15::can_read(emu@.arm9.cp15, addr, privileged),
{
    emu.arm9.cp15.can_read(addr, privileged)
}

/// Whether the protection unit lets the ARM9 write at `addr`.
pub fn can_write(emu: &Emu, addr: u32, privileged: bool) -> (allowed: bool)
    requires
        emu_wf(emu@),
    ensures
        allowed == cp15::can_write(emu@.arm9.cp15, addr, privileged),
{
    emu.arm9.cp15.can_write(addr, privileged)
}

/// Whether the protection unit lets the ARM9 fetch an instruction at `addr`.
pub fn can_execute(emu: &Emu, addr: u32, privileged: bool) -> (allowed: bool)
    requires
        emu_wf(emu@),
    ensures
        allowed == cp15::can_execute(emu@.arm9.cp15, addr, privileged),
{
    emu.arm9.cp15.can_execute(addr, privileged)
}

/// The machine after an instruction waited for an interlock that ends at bus cycle
/// `end`: if the CPU has not reached that cycle, the clock advances by the cycles up to
/// the one before it and by the data cycles of the instruction before, which the wait
/// cannot overlap with, and the CPU is at that cycle.
pub open spec fn interlock_applied(v: EmuView, end: u64) -> EmuView {
    let e = v.arm9.engine;
    if e.bus_cycle < end {
        with_engine(
            with_cycles_added(
                v,
                ((end - e.bus_cycle - 1) as u64).saturating_add(e.data_cycles as u64),
            ),
            EngineView { data_cycles: 1, bus_cycle: end, ..e },
        )
    } else {
        v
    }
}

/// The later of two bus cycles.
pub open spec fn later(a: u64, b: u64) -> u64 {
    if a >= b {
        a
    } else {
        b
    }
}

/// The bus cycle at which the interlock of a register ends for a read through port C, or
/// through one of the ports A and B.
pub open spec fn interlock_end(v: EmuView, reg: int, port_c: bool) -> u64 {
    if port_c {
        v.arm9.engine.interlocks[reg].port_c
    } else {
        v.arm9.engine.interlocks[reg].port_ab
    }
}

/// Waits for an interlock that ends at bus cycle `end`.
fn apply_interlock(emu: &mut Emu, end: u64)
    requires
        emu_wf(old(emu)@),
    ensures
        final(emu)@ == interlock_applied(old(emu)@, end),
        emu_wf(final(emu)@),
{
    let bus_cycle = emu.arm9.engine_data.bus_cycle;
    if bus_cycle < end {
        let data_cycles = emu.arm9.engine_data.data_cycles as u64;
        add_cycles(emu, (end - bus_cycle - 1).saturating_add(data_cycles));
        emu.arm9.engine_data.data_cycles = 1;
        emu.arm9.engine_data.bus_cycle = end;
    }
}

/// The bus cycle at which the interlock of a register ends.
fn interlock_end_of(emu: &Emu, reg: u8, port_c: bool) -> (end: u64)
    requires
        emu_wf(emu@),
        reg < 16,
    ensures
        end == interlock_end(emu@, reg as int, port_c),
{
    let interlock = emu.arm9.engine_data.interlocks[reg as usize];
    if port_c {
        interlock.port_c
    } else {
        interlock.port_ab
    }
}

/// Waits until the value of a register is at hand: at port C if `port_c`, else at one
/// of the ports A and B.
pub fn apply_reg_interlock_1(emu: &mut Emu, port_c: bool, reg: u8)
    requires
        emu_wf(old(emu)@),
        reg < 16,
    ensures
        final(emu)@ == interlock_applied(
            old(emu)@,
            interlock_end(old(emu)@, reg as int, port_c),
        ),
        emu_wf(final(emu)@),
{
    let end = interlock_end_of(emu, reg, port_c);
    apply_interlock(emu, end);
}

/// Waits until the values of two registers are at hand: the first at port A or B,
/// `offset_a` cycles after the instruction starts; the second at port C if `b_port_c`,
/// else at port A or B.
pub fn apply_reg_interlocks_2(emu: &mut Emu, offset_a: u8, b_port_c: bool, reg_a: u8, reg_b: u8)
    requires
        emu_wf(old(emu)@),
        reg_a < 16,
        reg_b < 16,
    ensures
        final(emu)@ == interlock_applied(
            old(emu)@,
            later(
                interlock_end(old(emu)@, reg_a as int, false).saturating_sub(offset_a as u64),
                interlock_end(old(emu)@, reg_b as int, b_port_c),
            ),
        ),
        emu_wf(final(emu)@),
{
    let end_a = interlock_end_of(emu, reg_a, false).saturating_sub(offset_a as u64);
    let end_b = interlock_end_of(emu, reg_b, b_port_c);
    apply_interlock(
        emu,
        if end_a >= end_b {
            end_a
        } else {
            end_b
        },
    );
}

/// Waits until the values of three registers are at hand: the first two at port A or B,
/// `offset_ab` cycles after the instruction starts; the third at port C if `c_port_c`,
/// else at port A or B.
pub fn apply_reg_interlocks_3(
    emu: &mut Emu,
    offset_ab: u8,
    c_port_c: bool,
    reg_a: u8,
    reg_b: u8,
    reg_c: u8,
)
    requires
        emu_wf(old(emu)@),
        reg_a < 16,
        reg_b < 16,
        reg_c < 16,
    ensures
        final(emu)@ == interlock_applied(
            old(emu)@,
            later(
                later(
                    interlock_end(old(emu)@, reg_a as int, false).saturating_sub(offset_ab as u64),
                    interlock_end(old(emu)@, reg_b as int, false).saturating_sub(offset_ab as u64),
                ),
                interlock_end(old(emu)@, reg_c as int, c_port_c),
            ),
        ),
        emu_wf(final(emu)@),
{
    let end_a = interlock_end_of(emu, reg_a, false).saturating_sub(offset_ab as u64);
    let end_b = interlock_end_of(emu, reg_b, false).saturating_sub(offset_ab as u64);
    let end_c = interlock_end_of(emu, reg_c, c_port_c);
    let end_ab = if end_a >= end_b {
        end_a
    } else {
        end_b
    };
    apply_interlock(
        emu,
        if end_ab >= end_c {
            end_ab
        } else {
            end_c
        },
    );
}

/// The interlock of a register whose value is at hand `port_ab_offset` bus cycles from
/// now at the ports A and B, and `port_c_offset` bus cycles from now at port C.
pub open spec fn interlock_from(v: EmuView, port_ab_offset: u64, port_c_offset: u64) -> Interlock {
    Interlock {
        port_ab: v.arm9.engine.bus_cycle.saturating_add(port_ab_offset),
        port_c: v.arm9.engine.bus_cycle.saturating_add(port_c_offset),
    }
}

/// Writes a register whose value is at hand at once at the ports A and B. An interlock
/// at port C is never cleared: it lasts one cycle at most, which only the next
/// instruction could notice, and that is the one that writes.
pub fn write_reg_clear_interlock_ab(emu: &mut Emu, reg: u8, value: u32)
    requires
        emu_wf(old(emu)@),
        reg < 16,
    ensures
        final(emu)@ == with_reg(
            with_interlock(
                old(emu)@,
                reg as int,
                Interlock { port_ab: 0, ..old(emu)@.arm9.engine.interlocks[reg as int] },
            ),
            reg as int,
            value,
        ),
        emu_wf(final(emu)@),
{
    emu.arm9.engine_data.interlocks[reg as usize].port_ab = 0;
    set_reg(emu, reg, value);
}

/// Writes a register whose value is at hand `offset` bus cycles from now at the ports A
/// and B.
pub fn write_reg_interlock_ab(emu: &mut Emu, reg: u8, value: u32, offset: u64)
    requires
        emu_wf(old(emu)@),
        reg < 16,
    ensures
        final(emu)@ == with_reg(
            with_interlock(
                old(emu)@,
                reg as int,
                Interlock {
                    port_ab: old(emu)@.arm9.engine.bus_cycle.saturating_add(offset),
                    ..old(emu)@.arm9.engine.interlocks[reg as int]
                },
            ),
            reg as int,
            value,
        ),
        emu_wf(final(emu)@),
{
    emu.arm9.engine_data.interlocks[reg as usize].port_ab =
        emu.arm9.engine_data.bus_cycle.saturating_add(offset);
    set_reg(emu, reg, value);
}

/// Writes a register whose value is at hand `port_ab_offset` and `port_c_offset` bus
/// cycles from now.
pub fn write_reg_interlock(
    emu: &mut Emu,
    reg: u8,
    value: u32,
    port_ab_offset: u64,
    port_c_offset: u64,
)
    requires
        emu_wf(old(emu)@),
        reg < 16,
    ensures
        final(emu)@ == with_reg(
            with_interlock(
                old(emu)@,
                reg as int,
                interlock_from(old(emu)@, port_ab_offset, port_c_offset),
            ),
            reg as int,
            value,
        ),
        emu_wf(final(emu)@),
{
    add_interlock(emu, reg, port_ab_offset, port_c_offset);
    set_reg(emu, reg, value);
}

/// Notes that the value of a register is at hand `port_ab_offset` and `port_c_offset`
/// bus cycles from now.
pub fn add_interlock(emu: &mut Emu, reg: u8, port_ab_offset: u64, port_c_offset: u64)
    requires
        emu_wf(old(emu)@),
        reg < 16,
    ensures
        final(emu)@ == with_interlock(
            old(emu)@,
            reg as int,
            interlock_from(old(emu)@, port_ab_offset, port_c_offset),
        ),
        emu_wf(final(emu)@),
{
    let bus_cycle = emu.arm9.engine_data.bus_cycle;
    emu.arm9.engine_data.interlocks[reg as usize] = Interlock {
        port_ab: bus_cycle.saturating_add(port_ab_offset),
        port_c: bus_cycle.saturating_add(port_c_offset),
    };
}

/// Where a reload of the pipeline takes the instruction set from.
#[derive(Clone, Copy, Debug, PartialEq, Eq, Structural)]
pub enum StateSource {
    /// The ARM instruction set.
    Arm,
    /// The Thumb instruction set.
    Thumb,
    /// The instruction set that the status register names.
    Cpsr,
    /// The instruction set that bit 0 of the target address names, which the status
    /// register takes over.
    R15Bit0,
}

/// The later of two cycle counts.
pub open spec fn more(a: u8, b: u8) -> u8 {
    if a >= b {
        a
    } else {
        b
    }
}

/// The word that an instruction fetch at `addr` returns, if the protection unit allows
/// the fetch, and the machine after it.
pub open spec fn fetch_of(v: EmuView, addr: u32) -> (Option<u32>, EmuView) {
    if cp15::can_execute(v.arm9.cp15, addr, privileged(v)) {
        (Some(read_32_of(v, addr, false).0), read_32_of(v, addr, false).1)
    } else {
        (None, v)
    }
}

/// Fetches an instruction word at `addr`, if the protection unit allows it.
fn fetch(emu: &mut Emu, addr: u32) -> (word: Option<u32>)
    requires
        emu_wf(old(emu)@),
    ensures
        (word, final(emu)@) == fetch_of(old(emu)@, addr),
        emu_wf(final(emu)@),
        access_keeps(old(emu)@, final(emu)@),
{
    let privileged = emu.arm9.engine_data.regs.is_in_priv_mode();
    if can_execute(emu, addr, privileged) {
        Some(read_32(emu, addr, false))
    } else {
        None
    }
}

/// The code wait states of the page of an address.
fn code_cycles(emu: &Emu, addr: u32) -> (cycles: u8)
    requires
        emu_wf(emu@),
    ensures
        cycles == cycles_at(emu@.arm9.cp15, addr).code,
{
    emu.arm9.cp15.cycles(addr).code
}

/// The machine after the ARM instruction at the program counter is fetched into the
/// second slot of the pipeline. With `inc_r15` the program counter moves on. The fetch
/// takes its wait states or the data cycles of the running instruction, whichever are
/// more: the two overlap. Where the fetch is not allowed, a breakpoint instruction takes
/// the slot, so that the abort is taken when the instruction would run. With
/// `reset_data_cycles`, the data cycles start from one again.
pub open spec fn arm_prefetched(v: EmuView, reset_data_cycles: bool, inc_r15: bool) -> EmuView {
    let addr = reg_of(v, 15);
    let data_cycles = v.arm9.engine.data_cycles;
    let code = cycles_at(v.arm9.cp15, addr).code;
    let v = if inc_r15 {
        with_reg(v, 15, addr.wrapping_add(v.arm9.engine.r15_increment))
    } else {
        v
    };
    let (word, v) = fetch_of(v, addr);
    let v = match word {
        None => with_cycles_added(with_pipeline(v, 1, ARM_BKPT as u64), data_cycles as u64),
        Some(instr) => with_cycles_added(
            with_pipeline(v, 1, instr as u64),
            more(code, data_cycles) as u64,
        ),
    };
    if reset_data_cycles {
        with_data_cycles(v, 1)
    } else {
        v
    }
}

/// Fetches the ARM instruction at the program counter into the pipeline.
pub fn prefetch_arm(emu: &mut Emu, reset_data_cycles: bool, inc_r15: bool)
    requires
        emu_wf(old(emu)@),
    ensures
        final(emu)@ == arm_prefetched(old(emu)@, reset_data_cycles, inc_r15),
        emu_wf(final(emu)@),
{
    let addr = reg(emu, 15);
    let data_cycles = emu.arm9.engine_data.data_cycles;
    let code = code_cycles(emu, addr);
    if inc_r15 {
        let inc = emu.arm9.engine_data.r15_increment;
        set_reg(emu, 15, addr.wrapping_add(inc));
    }
    match fetch(emu, addr) {
        None => {
            set_pipeline(emu, 1, ARM_BKPT as u64);
            add_cycles(emu, data_cycles as u64);
        },
        Some(instr) => {
            set_pipeline(emu, 1, instr as u64);
            add_cycles(
                emu,
                (if code >= data_cycles {
                    code
                } else {
                    data_cycles
                }) as u64,
            );
        },
    }
    if reset_data_cycles {
        set_data_cycles(emu, 1);
    }
}

/// The machine after the Thumb instruction at the program counter is fetched into the
/// second slot of the pipeline. One fetch serves two instructions: at an address that is
/// no multiple of four, the instruction comes from the upper half of the word that is in
/// the slot, and only the data cycles of the running instruction pass.
pub open spec fn thumb_prefetched(v: EmuView, reset_data_cycles: bool, inc_r15: bool) -> EmuView {
    let addr = reg_of(v, 15);
    let data_cycles = v.arm9.engine.data_cycles;
    let code = cycles_at(v.arm9.cp15, addr).code;
    let v = if inc_r15 {
        with_reg(v, 15, addr.wrapping_add(v.arm9.engine.r15_increment))
    } else {
        v
    };
    let v = if addr & 2 == 0 {
        let (word, v) = fetch_of(v, addr);
        match word {
            None => with_cycles_added(
                with_pipeline(v, 1, thumb_entry(0xBE00_BE00)),
                data_cycles as u64,
            ),
            Some(instrs) => with_cycles_added(
                with_pipeline(v, 1, thumb_entry(instrs as u64)),
                more(code, data_cycles) as u64,
            ),
        }
    } else {
        with_cycles_added(
            with_pipeline(v, 1, thumb_entry(v.arm9.engine.pipeline[1] >> 16)),
            data_cycles as u64,
        )
    };
    if reset_data_cycles {
        with_data_cycles(v, 1)
    } else {
        v
    }
}

/// Fetches the Thumb instruction at the program counter into the pipeline.
pub fn prefetch_thumb(emu: &mut Emu, reset_data_cycles: bool, inc_r15: bool)
    requires
        emu_wf(old(emu)@),
    ensures
        final(emu)@ == thumb_prefetched(old(emu)@, reset_data_cycles, inc_r15),
        emu_wf(final(emu)@),
{
    let addr = reg(emu, 15);
    let data_cycles = emu.arm9.engine_data.data_cycles;
    let code = code_cycles(emu, addr);
    if inc_r15 {
        let inc = emu.arm9.engine_data.r15_increment;
        set_reg(emu, 15, addr.wrapping_add(inc));
    }
    if addr & 2 == 0 {
        match fetch(emu, addr) {
            None => {
                set_pipeline(emu, 1, thumb_pipeline_entry(0xBE00_BE00));
                add_cycles(emu, data_cycles as u64);
            },
            Some(instrs) => {
                set_pipeline(emu, 1, thumb_pipeline_entry(instrs as u64));
                add_cycles(
                    emu,
                    (if code >= data_cycles {
                        code
                    } else {
                        data_cycles
                    }) as u64,
                );
            },
        }
    } else {
        let entry = emu.arm9.engine_data.pipeline[1];
        set_pipeline(emu, 1, thumb_pipeline_entry(entry >> 16));
        add_cycles(emu, data_cycles as u64);
    }
    if reset_data_cycles {
        set_data_cycles(emu, 1);
    }
}

/// Whether a reload from `source` runs Thumb code, given the target address and the
/// status register.
pub open spec fn reload_is_thumb(v: EmuView, source: StateSource) -> bool {
    match source {
        StateSource::Arm => false,
        StateSource::Thumb => true,
        StateSource::Cpsr => v.arm9.engine.regs.cpsr & 0x20 != 0,
        StateSource::R15Bit0 => reg_of(v, 15) & 1 != 0,
    }
}

/// The machine after one slot of the pipeline is filled on a reload: with the word at
/// `addr`, `shift` bits down, as a Thumb entry if `thumb`; or, where the fetch is not
/// allowed, with the breakpoint entry `bkpt`. The fetch takes its wait states, a fetch
/// that is not allowed one cycle.
pub open spec fn slot_reloaded(
    v: EmuView,
    slot: int,
    addr: u32,
    thumb: bool,
    shift: u32,
    bkpt: u64,
) -> EmuView {
    let code = cycles_at(v.arm9.cp15, addr).code;
    let (word, v) = fetch_of(v, addr);
    match word {
        None => with_cycles_added(with_pipeline(v, slot, bkpt), 1),
        Some(w) => with_cycles_added(
            with_pipeline(
                v,
                slot,
                if thumb {
                    thumb_entry((w >> shift) as u64)
                } else {
                    w as u64
                },
            ),
            code as u64,
        ),
    }
}

/// The machine after the pipeline is filled anew from the address in the program counter:
/// after a jump, an exception, or a change of the instruction set.
///
/// In ARM state, the two words at the address fill the two slots, and the program
/// counter is two words ahead. In Thumb state at a multiple of four, one word fills both
/// slots with its two halves, which takes one cycle more than the fetch; at another
/// address, the upper half of the word that holds the first instruction fills the first
/// slot and the next word the second; either way, the program counter is two halfwords
/// ahead of the first instruction.
pub open spec fn pipeline_reloaded(v: EmuView, source: StateSource) -> EmuView {
    let target = reg_of(v, 15);
    let thumb = reload_is_thumb(v, source);
    let v = if source == StateSource::R15Bit0 {
        with_engine(
            v,
            EngineView {
                r15_increment: if thumb {
                    2
                } else {
                    4
                },
                regs: RegsView {
                    cpsr: if thumb {
                        v.arm9.engine.regs.cpsr | 0x20
                    } else {
                        v.arm9.engine.regs.cpsr & !0x20u32
                    },
                    ..v.arm9.engine.regs
                },
                ..v.arm9.engine
            },
        )
    } else {
        v
    };
    if thumb {
        let addr = target & !1u32;
        if addr & 2 == 0 {
            let code = cycles_at(v.arm9.cp15, addr).code;
            let (word, v) = fetch_of(v, addr);
            let v = match word {
                None => with_cycles_added(
                    with_pipeline(
                        with_pipeline(v, 0, thumb_entry(0xBE00)),
                        1,
                        thumb_entry(0xBE00),
                    ),
                    2,
                ),
                Some(w) => with_cycles_added(
                    with_pipeline(
                        with_pipeline(v, 0, thumb_entry(w as u64)),
                        1,
                        thumb_entry((w >> 16) as u64),
                    ),
                    (code as u64 + 1) as u64,
                ),
            };
            with_reg(v, 15, addr.wrapping_add(4))
        } else {
            let v = slot_reloaded(v, 0, addr, true, 16, thumb_entry(0xBE00));
            let next = addr.wrapping_add(4);
            let v = slot_reloaded(v, 1, next, true, 0, thumb_entry(0xBE00_BE00));
            with_reg(v, 15, next)
        }
    } else {
        let addr = target & !3u32;
        let v = slot_reloaded(v, 0, addr, false, 0, ARM_BKPT as u64);
        let next = addr.wrapping_add(4);
        let v = slot_reloaded(v, 1, next, false, 0, ARM_BKPT as u64);
        with_reg(v, 15, next.wrapping_add(4))
    }
}

/// Fills one slot of the pipeline on a reload.
fn reload_slot(emu: &mut Emu, slot: usize, addr: u32, thumb: bool, shift: u32, bkpt: u64)
    requires
        emu_wf(old(emu)@),
        slot < 2,
        shift == 0 || shift == 16,
    ensures
        final(emu)@ == slot_reloaded(old(emu)@, slot as int, addr, thumb, shift, bkpt),
        emu_wf(final(emu)@),
{
    let code = code_cycles(emu, addr);
    match fetch(emu, addr) {
        None => {
            set_pipeline(emu, slot, bkpt);
            add_cycles(emu, 1);
        },
        Some(w) => {
            set_pipeline(
                emu,
                slot,
                if thumb {
                    thumb_pipeline_entry((w >> shift) as u64)
                } else {
                    w as u64
                },
            );
            add_cycles(emu, code as u64);
        },
    }
}

/// Fills the pipeline anew from the address in the program counter.
pub fn reload_pipeline(emu: &mut Emu, source: StateSource)
    requires
        emu_wf(old(emu)@),
    ensures
        final(emu)@ == pipeline_reloaded(old(emu)@, source),
        emu_wf(final(emu)@),
{
    let target = reg(emu, 15);
    let thumb = match source {
        StateSource::Arm => false,
        StateSource::Thumb => true,
        StateSource::Cpsr => emu.arm9.engine_data.regs.cpsr().thumb_state(),
        StateSource::R15Bit0 => {
            let thumb = target & 1 != 0;
            let cpsr = emu.arm9.engine_data.regs.cpsr().with_thumb_state(thumb);
            emu.arm9.engine_data.regs.set_cpsr(cpsr);
            emu.arm9.engine_data.r15_increment = if thumb {
                2
            } else {
                4
            };
            thumb
        },
    };
    if thumb {
        let addr = target & !1u32;
        if addr & 2 == 0 {
            let code = code_cycles(emu, addr);
            match fetch(emu, addr) {
                None => {
                    set_pipeline(emu, 0, thumb_pipeline_entry(0xBE00));
                    set_pipeline(emu, 1, thumb_pipeline_entry(0xBE00));
                    add_cycles(emu, 2);
                },
                Some(w) => {
                    set_pipeline(emu, 0, thumb_pipeline_entry(w as u64));
                    set_pipeline(emu, 1, thumb_pipeline_entry((w >> 16) as u64));
                    add_cycles(emu, code as u64 + 1);
                },
            }
            set_reg(emu, 15, addr.wrapping_add(4));
        } else {
            reload_slot(emu, 0, addr, true, 16, thumb_pipeline_entry(0xBE00));
            let next = addr.wrapping_add(4);
            reload_slot(emu, 1, next, true, 0, thumb_pipeline_entry(0xBE00_BE00));
            set_reg(emu, 15, next);
        }
    } else {
        let addr = target & !3u32;
        reload_slot(emu, 0, addr, false, 0, ARM_BKPT as u64);
        let next = addr.wrapping_add(4);
        reload_slot(emu, 1, next, false, 0, ARM_BKPT as u64);
        set_reg(emu, 15, next.wrapping_add(4));
    }
}

/// The machine with the interrupt controller told whether the status register lets
/// interrupts through.
pub open spec fn with_irqs_enabled_in_cpsr(v: EmuView, enabled: bool) -> EmuView {
    EmuView {
        arm9: Arm9View {
            irqs: woken(IrqsView { enabled_in_cpsr: enabled, ..v.arm9.irqs }),
            ..v.arm9
        },
        ..v
    }
}

/// Tells the interrupt controller whether the status register lets interrupts through.
fn set_irqs_enabled_in_cpsr(emu: &mut Emu, enabled: bool)
    requires
        emu_wf(old(emu)@),
    ensures
        final(emu)@ == with_irqs_enabled_in_cpsr(old(emu)@, enabled),
        emu_wf(final(emu)@),
{
    emu.arm9.irqs.set_enabled_in_cpsr(enabled, &mut emu.arm9.schedule);
}

/// The machine after the status register takes the raw value `value`: the interrupt
/// controller follows its interrupt mask bit, and the registers follow its mode.
pub open spec fn cpsr_written(v: EmuView, value: u32) -> EmuView {
    let prev = v.arm9.engine.regs.cpsr;
    let v = with_regs(v, RegsView { cpsr: value, ..v.arm9.engine.regs });
    let v = with_irqs_enabled_in_cpsr(v, value & 0x80 == 0);
    with_regs(
        v,
        mode_switched(
            v.arm9.engine.regs,
            bank_of((prev & 0x1F) as u8),
            bank_of((value & 0x1F) as u8),
        ),
    )
}

/// Sets the status register, with what follows from it.
pub fn set_cpsr_update_control(emu: &mut Emu, value: Psr)
    requires
        emu_wf(old(emu)@),
    ensures
        final(emu)@ == cpsr_written(old(emu)@, value@),
        emu_wf(final(emu)@),
{
    let prev = emu.arm9.engine_data.regs.cpsr();
    emu.arm9.engine_data.regs.set_cpsr(value);
    set_irqs_enabled_in_cpsr(emu, !value.irqs_disabled());
    emu.arm9.engine_data.regs.update_mode(prev.mode(), value.mode());
    proof {
        emu.arm9.engine_data.regs.lemma_wf();
    }
}

/// The machine after the status register is restored from the saved one, as at the end
/// of an exception handler. In a mode without a saved status register nothing happens.
pub open spec fn spsr_restored(v: EmuView) -> EmuView {
    if bank_of((v.arm9.engine.regs.cpsr & 0x1F) as u8) == 0 {
        v
    } else {
        let v = cpsr_written(v, v.arm9.engine.regs.spsr);
        with_engine(
            v,
            EngineView {
                r15_increment: if v.arm9.engine.regs.cpsr & 0x20 != 0 {
                    2
                } else {
                    4
                },
                ..v.arm9.engine
            },
        )
    }
}

/// Restores the status register from the saved one.
pub fn restore_spsr(emu: &mut Emu)
    requires
        emu_wf(old(emu)@),
    ensures
        final(emu)@ == spsr_restored(old(emu)@),
        emu_wf(final(emu)@),
{
    if !emu.arm9.engine_data.regs.has_spsr() {
        return ;
    }
    let spsr = emu.arm9.engine_data.regs.spsr();
    set_cpsr_update_control(emu, spsr);
    emu.arm9.engine_data.r15_increment = if emu.arm9.engine_data.regs.cpsr().thumb_state() {
        2
    } else {
        4
    };
}

/// The machine after the ARM9 takes an exception: the status register is saved for the
/// handler's mode, the CPU goes to that mode in ARM state with interrupts masked, the
/// link register gets `lr`, and the program counter the exception's vector, from which
/// the pipeline is filled.
pub open spec fn exception_entered(v: EmuView, mode: u8, vector: u32, lr: u32) -> EmuView {
    let prev = v.arm9.engine.regs.cpsr;
    let cpsr = (((prev & !0x1Fu32) | (mode as u32)) & !0x20u32) | 0x80;
    let v = with_regs(v, RegsView { cpsr, ..v.arm9.engine.regs });
    let v = with_irqs_enabled_in_cpsr(v, false);
    let v = with_engine(v, EngineView { r15_increment: 4, ..v.arm9.engine });
    let regs = mode_switched(v.arm9.engine.regs, bank_of((prev & 0x1F) as u8), bank_of(mode));
    let v = with_regs(
        v,
        RegsView {
            spsr: prev,
            cur: regs.cur.update(14, lr).update(15, v.arm9.engine.exc_vectors_start | vector),
            ..regs
        },
    );
    pipeline_reloaded(v, StateSource::Arm)
}

/// Takes an exception.
fn enter_exception(emu: &mut Emu, mode: Mode, vector: u32, lr: u32)
    requires
        emu_wf(old(emu)@),
    ensures
        final(emu)@ == exception_entered(old(emu)@, mode@, vector, lr),
        emu_wf(final(emu)@),
{
    let prev = emu.arm9.engine_data.regs.cpsr();
    let cpsr = prev.with_mode(mode).with_thumb_state(false).with_irqs_disabled(true);
    emu.arm9.engine_data.regs.set_cpsr(cpsr);
    set_irqs_enabled_in_cpsr(emu, false);
    emu.arm9.engine_data.r15_increment = 4;
    emu.arm9.engine_data.regs.update_mode(prev.mode(), mode);
    emu.arm9.engine_data.regs.set_spsr(prev);
    let vectors = emu.arm9.engine_data.exc_vectors_start;
    proof {
        emu.arm9.engine_data.regs.lemma_wf();
    }
    set_reg(emu, 14, lr);
    set_reg(emu, 15, vectors | vector);
    reload_pipeline(emu, StateSource::Arm);
}

/// The size of an instruction: four bytes in ARM state, two in Thumb state.
pub open spec fn instr_size(thumb: bool) -> u32 {
    if thumb {
        2
    } else {
        4
    }
}

/// The machine after the instruction that just ran was fetched anew, without moving the
/// program counter: the start of every exception that an instruction causes.
pub open spec fn refetched(v: EmuView, thumb: bool) -> EmuView {
    with_bus_cycles_added(
        with_data_cycles(
            if thumb {
                thumb_prefetched(v, false, false)
            } else {
                arm_prefetched(v, false, false)
            },
            1,
        ),
        2,
    )
}

/// Fetches anew at the start of an exception.
fn refetch(emu: &mut Emu, thumb: bool)
    requires
        emu_wf(old(emu)@),
    ensures
        final(emu)@ == refetched(old(emu)@, thumb),
        emu_wf(final(emu)@),
{
    if thumb {
        prefetch_thumb(emu, false, false);
    } else {
        prefetch_arm(emu, false, false);
    }
    set_data_cycles(emu, 1);
    add_bus_cycles(emu, 2);
}

/// The machine after an undefined instruction: the exception goes to the undefined
/// mode and its vector at 4, and returns to the instruction after the undefined one.
pub open spec fn undefined_handled(v: EmuView, thumb: bool) -> EmuView {
    let v = refetched(v, thumb);
    exception_entered(v, 0x1B, 4, reg_of(v, 15).wrapping_sub(instr_size(thumb)))
}

/// Handles an undefined instruction.
pub fn handle_undefined(emu: &mut Emu, thumb: bool)
    requires
        emu_wf(old(emu)@),
    ensures
        final(emu)@ == undefined_handled(old(emu)@, thumb),
        emu_wf(final(emu)@),
{
    refetch(emu, thumb);
    let lr = reg(emu, 15).wrapping_sub(
        if thumb {
            2
        } else {
            4
        },
    );
    enter_exception(emu, Mode::undefined(), 4, lr);
}

/// The machine after an instruction fetch was not allowed: the exception goes to the
/// abort mode and its vector at 0xC, and returns so that the instruction is fetched
/// again.
pub open spec fn prefetch_abort_handled(v: EmuView, thumb: bool) -> EmuView {
    let v = refetched(v, thumb);
    exception_entered(
        v,
        0x17,
        0xC,
        if thumb {
            reg_of(v, 15)
        } else {
            reg_of(v, 15).wrapping_sub(4)
        },
    )
}

/// Handles an instruction fetch that was not allowed.
pub fn handle_prefetch_abort(emu: &mut Emu, thumb: bool)
    requires
        emu_wf(old(emu)@),
    ensures
        final(emu)@ == prefetch_abort_handled(old(emu)@, thumb),
        emu_wf(final(emu)@),
{
    refetch(emu, thumb);
    let r15 = reg(emu, 15);
    enter_exception(
        emu,
        Mode::abort(),
        0xC,
        if thumb {
            r15
        } else {
            r15.wrapping_sub(4)
        },
    );
}

/// The machine after a data access was not allowed: the exception goes to the abort
/// mode and its vector at 0x10. The program counter is three instructions ahead of the
/// one that made the access.
pub open spec fn data_abort_handled(v: EmuView, thumb: bool) -> EmuView {
    exception_entered(
        v,
        0x17,
        0x10,
        if thumb {
            reg_of(v, 15).wrapping_add(2)
        } else {
            reg_of(v, 15).wrapping_sub(4)
        },
    )
}

/// Handles a data access at `addr` that was not allowed.
pub fn handle_data_abort(emu: &mut Emu, thumb: bool, addr: u32)
    requires
        emu_wf(old(emu)@),
    ensures
        final(emu)@ == data_abort_handled(old(emu)@, thumb),
        emu_wf(final(emu)@),
{
    let r15 = reg(emu, 15);
    enter_exception(
        emu,
        Mode::abort(),
        0x10,
        if thumb {
            r15.wrapping_add(2)
        } else {
            r15.wrapping_sub(4)
        },
    );
}

/// The current status register of the ARM9.
pub fn cpsr(emu: &Emu) -> (cpsr: Psr)
    ensures
        cpsr@ == emu@.arm9.engine.regs.cpsr,
{
    emu.arm9.engine_data.regs.cpsr()
}

/// What the caller of the interpreter has to do for it: the BIOS is emulated at a high
/// level outside the interpreter.
#[derive(Clone, Copy, Debug, PartialEq, Eq)]
pub enum HleRequest {
    /// Nothing.
    Nothing,
    /// Run the BIOS function `number` on the arguments `r0_3`, and come back with
    /// `EngineData::return_from_hle_swi`.
    Swi { number: u8, r0_3: [u32; 4] },
    /// Find the interrupt handler of the program and jump to it.
    Irq,
}

/// The machine after four words are written from `addr` on, as the CPU writes them.
pub open spec fn words_written(v: EmuView, addr: u32, words: Seq<u32>, n: int) -> EmuView
    decreases n,
{
    if n <= 0 {
        v
    } else {
        written_32(
            words_written(v, addr, words, n - 1),
            addr.wrapping_add((4 * (n - 1)) as u32),
            words[n - 1],
        )
    }
}

/// Writes words from `addr` on.
fn write_words(emu: &mut Emu, addr: u32, words: &[u32; 6], count: usize)
    requires
        emu_wf(old(emu)@),
        count <= 6,
    ensures
        final(emu)@ == words_written(old(emu)@, addr, words@, count as int),
        emu_wf(final(emu)@),
        access_keeps(old(emu)@, final(emu)@),
{
    let mut n: usize = 0;
    while n < count
        invariant
            n <= count <= 6,
            emu_wf(emu@),
            access_keeps(old(emu)@, emu@),
            emu@ == words_written(old(emu)@, addr, words@, n as int),
        decreases count - n,
    {
        write_32(emu, addr.wrapping_add((4 * n) as u32), words[n]);
        n += 1;
    }
}

/// The word that the CPU reads at `addr` after the `n` words before it were read, and
/// the machine after the reads.
pub open spec fn words_read(v: EmuView, addr: u32, n: int) -> (Seq<u32>, EmuView)
    decreases n,
{
    if n <= 0 {
        (Seq::empty(), v)
    } else {
        let (words, v) = words_read(v, addr, n - 1);
        let (word, v) = read_32_of(v, addr.wrapping_add((4 * (n - 1)) as u32), false);
        (words.push(word), v)
    }
}

/// Reads words from `addr` on.
fn read_words(emu: &mut Emu, addr: u32, count: usize) -> (words: [u32; 6])
    requires
        emu_wf(old(emu)@),
        count <= 6,
    ensures
        words@.subrange(0, count as int) == words_read(old(emu)@, addr, count as int).0,
        final(emu)@ == words_read(old(emu)@, addr, count as int).1,
        emu_wf(final(emu)@),
        access_keeps(old(emu)@, final(emu)@),
{
    let mut words = [0u32; 6];
    let mut n: usize = 0;
    while n < count
        invariant
            n <= count <= 6,
            emu_wf(emu@),
            access_keeps(old(emu)@, emu@),
            words@.subrange(0, n as int) == words_read(old(emu)@, addr, n as int).0,
            emu@ == words_read(old(emu)@, addr, n as int).1,
        decreases count - n,
    {
        let word = read_32(emu, addr.wrapping_add((4 * n) as u32), false);
        let ghost before = words@;
        words[n] = word;
        n += 1;
        proof {
            assert(words@.subrange(0, n as int) =~= before.subrange(0, n - 1).push(word));
        }
    }
    proof {
        assert(words@.subrange(0, 0) =~= Seq::<u32>::empty());
    }
    words
}

/// The machine after the ARM9 goes to the mode `mode` and nothing else about its status
/// register changes.
pub open spec fn mode_entered(v: EmuView, mode: u8) -> EmuView {
    let prev = v.arm9.engine.regs.cpsr;
    with_regs(
        v,
        mode_switched(
            RegsView { cpsr: (prev & !0x1Fu32) | (mode as u32), ..v.arm9.engine.regs },
            bank_of((prev & 0x1F) as u8),
            bank_of(mode),
        ),
    )
}

/// Goes to another mode.
fn enter_mode(emu: &mut Emu, mode: Mode)
    requires
        emu_wf(old(emu)@),
    ensures
        final(emu)@ == mode_entered(old(emu)@, mode@),
        emu_wf(final(emu)@),
{
    let prev = emu.arm9.engine_data.regs.cpsr();
    emu.arm9.engine_data.regs.set_cpsr(prev.with_mode(mode));
    emu.arm9.engine_data.regs.update_mode(prev.mode(), mode);
    proof {
        emu.arm9.engine_data.regs.lemma_wf();
    }
}

/// Sets the saved status register.
fn set_spsr(emu: &mut Emu, spsr: Psr)
    requires
        emu_wf(old(emu)@),
    ensures
        final(emu)@ == with_regs(
            old(emu)@,
            RegsView { spsr: spsr@, ..old(emu)@.arm9.engine.regs },
        ),
        emu_wf(final(emu)@),
{
    emu.arm9.engine_data.regs.set_spsr(spsr);
}

/// The machine after the ARM9 enters the emulated BIOS for a software interrupt that
/// returns to `return_addr`. From the program's code, the CPU goes to supervisor mode as
/// for the exception. Then the BIOS's stack frame is built as the BIOS itself builds it:
/// the saved status register and registers 11, 12 and 14, then, in system mode with
/// interrupts as they were, registers 2 and 14.
pub open spec fn hle_swi_entered(v: EmuView, from_user_code: bool, return_addr: u32) -> EmuView {
    let spsr = if from_user_code {
        v.arm9.engine.regs.cpsr
    } else {
        v.arm9.engine.regs.spsr
    };
    let v = if from_user_code {
        let v = mode_entered(v, 0x13);
        with_regs(
            v,
            RegsView {
                spsr,
                cur: v.arm9.engine.regs.cur.update(14, return_addr),
                ..v.arm9.engine.regs
            },
        )
    } else {
        v
    };
    let base = reg_of(v, 13).wrapping_sub(0x10);
    let v = with_reg(v, 13, base);
    let v = words_written(
        v,
        base,
        seq![spsr, reg_of(v, 11), reg_of(v, 12), reg_of(v, 14), 0u32, 0u32],
        4,
    );
    let new_cpsr = ((spsr & 0x80) | 0x1F) | 0x10;
    let v = with_reg(v, 11, new_cpsr);
    let v = cpsr_written(v, new_cpsr);
    let base = reg_of(v, 13).wrapping_sub(8);
    let v = with_reg(v, 13, base);
    words_written(v, base, seq![reg_of(v, 2), reg_of(v, 14), 0u32, 0u32, 0u32, 0u32], 2)
}

/// Enters the emulated BIOS for the software interrupt `number`. Returns what the
/// caller has to run: the BIOS function, on the arguments in registers 0 to 3.
pub fn enter_hle_swi(emu: &mut Emu, from_user_code: bool, number: u8, return_addr: u32) -> (request:
    HleRequest)
    requires
        emu_wf(old(emu)@),
    ensures
        final(emu)@ == hle_swi_entered(old(emu)@, from_user_code, return_addr),
        emu_wf(final(emu)@),
        request == (HleRequest::Swi {
            number,
            r0_3: [
                reg_of(final(emu)@, 0),
                reg_of(final(emu)@, 1),
                reg_of(final(emu)@, 2),
                reg_of(final(emu)@, 3),
            ],
        }),
{
    let spsr = if from_user_code {
        emu.arm9.engine_data.regs.cpsr()
    } else {
        emu.arm9.engine_data.regs.spsr()
    };
    if from_user_code {
        enter_mode(emu, Mode::supervisor());
        set_reg(emu, 14, return_addr);
        set_spsr(emu, spsr);
    }
    let base = reg(emu, 13).wrapping_sub(0x10);
    set_reg(emu, 13, base);
    let words = [spsr.raw(), reg(emu, 11), reg(emu, 12), reg(emu, 14), 0, 0];
    write_words(emu, base, &words, 4);
    let new_cpsr = Psr::from_raw((spsr.raw() & 0x80) | 0x1F);
    set_reg(emu, 11, new_cpsr.raw());
    set_cpsr_update_control(emu, new_cpsr);
    let base = reg(emu, 13).wrapping_sub(8);
    set_reg(emu, 13, base);
    let words = [reg(emu, 2), reg(emu, 14), 0, 0, 0, 0];
    write_words(emu, base, &words, 2);
    HleRequest::Swi { number, r0_3: [reg(emu, 0), reg(emu, 1), reg(emu, 2), reg(emu, 3)] }
}

/// The machine after the ARM9 returns from the emulated BIOS after a software interrupt:
/// the stack frame is taken down as the BIOS takes it down, the status register is
/// restored, and the pipeline is filled from the return address.
pub open spec fn hle_swi_returned(v: EmuView) -> EmuView {
    let base = reg_of(v, 13);
    let v = with_reg(v, 13, base.wrapping_add(8));
    let (words, v) = words_read(v, base, 2);
    let v = with_reg(with_reg(v, 2, words[0]), 14, words[1]);
    let v = mode_entered(v, 0x13);
    let base = reg_of(v, 13);
    let v = with_reg(v, 13, base.wrapping_add(0x10));
    let (words, v) = words_read(v, base, 4);
    let v = with_regs(
        v,
        RegsView {
            spsr: (words[0] & crate::cpu::psr::PSR_MASK) | 0x10,
            cur: v.arm9.engine.regs.cur.update(11, words[1]).update(12, words[2]).update(
                14,
                words[3],
            ).update(15, words[3]),
            ..v.arm9.engine.regs
        },
    );
    pipeline_reloaded(spsr_restored(v), StateSource::Cpsr)
}

/// Returns from the emulated BIOS after a software interrupt.
pub fn return_from_hle_swi(emu: &mut Emu)
    requires
        emu_wf(old(emu)@),
    ensures
        final(emu)@ == hle_swi_returned(old(emu)@),
        emu_wf(final(emu)@),
{
    let base = reg(emu, 13);
    set_reg(emu, 13, base.wrapping_add(8));
    let words = read_words(emu, base, 2);
    proof {
        assert(words@.subrange(0, 2)[0] == words[0] && words@.subrange(0, 2)[1] == words[1]);
    }
    set_reg(emu, 2, words[0]);
    set_reg(emu, 14, words[1]);
    enter_mode(emu, Mode::supervisor());
    let base = reg(emu, 13);
    set_reg(emu, 13, base.wrapping_add(0x10));
    let words = read_words(emu, base, 4);
    proof {
        let w = words@.subrange(0, 4);
        assert(w[0] == words[0] && w[1] == words[1] && w[2] == words[2] && w[3] == words[3]);
    }
    set_spsr(emu, Psr::from_raw_masked(words[0]));
    set_reg(emu, 11, words[1]);
    set_reg(emu, 12, words[2]);
    set_reg(emu, 14, words[3]);
    set_reg(emu, 15, words[3]);
    restore_spsr(emu);
    reload_pipeline(emu, StateSource::Cpsr);
}

/// The machine after the ARM9 enters the emulated BIOS for an interrupt that returns to
/// `return_addr`. From the program's code, the CPU goes to interrupt mode with interrupts
/// masked, as for the exception. Then the BIOS's stack frame is built: registers 0 to 3
/// and 12, and the return address.
pub open spec fn hle_irq_entered(v: EmuView, from_user_code: bool, return_addr: u32) -> EmuView {
    let v = if from_user_code {
        let prev = v.arm9.engine.regs.cpsr;
        let v = with_regs(v, RegsView { cpsr: prev | 0x80, ..v.arm9.engine.regs });
        let v = with_irqs_enabled_in_cpsr(v, false);
        let v = mode_entered(v, 0x12);
        with_regs(v, RegsView { spsr: prev, ..v.arm9.engine.regs })
    } else {
        v
    };
    let base = reg_of(v, 13).wrapping_sub(0x18);
    let v = with_reg(v, 13, base);
    words_written(
        v,
        base,
        seq![reg_of(v, 0), reg_of(v, 1), reg_of(v, 2), reg_of(v, 3), reg_of(v, 12), return_addr],
        6,
    )
}

/// Enters the emulated BIOS for an interrupt. The caller has to find the program's
/// interrupt handler and jump to it.
pub fn enter_hle_irq(emu: &mut Emu, from_user_code: bool, return_addr: u32) -> (request: HleRequest)
    requires
        emu_wf(old(emu)@),
    ensures
        final(emu)@ == hle_irq_entered(old(emu)@, from_user_code, return_addr),
        emu_wf(final(emu)@),
        request == HleRequest::Irq,
{
    if from_user_code {
        let prev = emu.arm9.engine_data.regs.cpsr();
        emu.arm9.engine_data.regs.set_cpsr(prev.with_irqs_disabled(true));
        set_irqs_enabled_in_cpsr(emu, false);
        enter_mode(emu, Mode::irq());
        set_spsr(emu, prev);
    }
    let base = reg(emu, 13).wrapping_sub(0x18);
    set_reg(emu, 13, base);
    let words = [reg(emu, 0), reg(emu, 1), reg(emu, 2), reg(emu, 3), reg(emu, 12), return_addr];
    write_words(emu, base, &words, 6);
    HleRequest::Irq
}

/// The machine after the ARM9 returns from the emulated BIOS after an interrupt: the
/// stack frame is taken down, the status register is restored, and the pipeline is filled
/// from the return address.
pub open spec fn hle_irq_returned(v: EmuView) -> EmuView {
    let base = reg_of(v, 13);
    let v = with_reg(v, 13, base.wrapping_add(0x18));
    let (words, v) = words_read(v, base, 6);
    let v = with_regs(
        v,
        RegsView {
            cur: v.arm9.engine.regs.cur.update(0, words[0]).update(1, words[1]).update(
                2,
                words[2],
            ).update(3, words[3]).update(12, words[4]).update(14, words[5]).update(
                15,
                words[5].wrapping_sub(4),
            ),
            ..v.arm9.engine.regs
        },
    );
    pipeline_reloaded(spsr_restored(v), StateSource::Cpsr)
}

/// Returns from the emulated BIOS after an interrupt.
pub fn return_from_hle_irq(emu: &mut Emu)
    requires
        emu_wf(old(emu)@),
    ensures
        final(emu)@ == hle_irq_returned(old(emu)@),
        emu_wf(final(emu)@),
{
    let base = reg(emu, 13);
    set_reg(emu, 13, base.wrapping_add(0x18));
    let words = read_words(emu, base, 6);
    proof {
        let w = words@.subrange(0, 6);
        assert(w[0] == words[0] && w[1] == words[1] && w[2] == words[2] && w[3] == words[3] && w[4]
            == words[4] && w[5] == words[5]);
    }
    set_reg(emu, 0, words[0]);
    set_reg(emu, 1, words[1]);
    set_reg(emu, 2, words[2]);
    set_reg(emu, 3, words[3]);
    set_reg(emu, 12, words[4]);
    set_reg(emu, 14, words[5]);
    set_reg(emu, 15, words[5].wrapping_sub(4));
    restore_spsr(emu);
    reload_pipeline(emu, StateSource::Cpsr);
}

/// Whether a software interrupt goes to the emulated BIOS: the BIOS is emulated, and the
/// exception vectors are the BIOS's.
pub open spec fn swi_is_emulated(v: EmuView) -> bool {
    v.arm9.hle_bios_enabled && v.arm9.cp15.control & 0x2000 != 0
}

/// The machine after a software interrupt. Where the BIOS is emulated, the CPU enters
/// the emulated BIOS; else the exception goes to the supervisor mode and its vector at 8.
/// Either way it returns to the instruction after the interrupt.
pub open spec fn swi_handled(v: EmuView, thumb: bool) -> EmuView {
    if swi_is_emulated(v) {
        hle_swi_entered(v, true, reg_of(v, 15).wrapping_sub(instr_size(thumb)))
    } else {
        let v = refetched(v, thumb);
        exception_entered(v, 0x13, 8, reg_of(v, 15).wrapping_sub(instr_size(thumb)))
    }
}

/// Handles the software interrupt `number`.
pub fn handle_swi(emu: &mut Emu, thumb: bool, number: u8) -> (request: HleRequest)
    requires
        emu_wf(old(emu)@),
    ensures
        final(emu)@ == swi_handled(old(emu)@, thumb),
        emu_wf(final(emu)@),
        swi_is_emulated(old(emu)@) ==> request == (HleRequest::Swi {
            number,
            r0_3: [
                reg_of(final(emu)@, 0),
                reg_of(final(emu)@, 1),
                reg_of(final(emu)@, 2),
                reg_of(final(emu)@, 3),
            ],
        }),
        !swi_is_emulated(old(emu)@) ==> request == HleRequest::Nothing,
{
    let size: u32 = if thumb {
        2
    } else {
        4
    };
    if emu.arm9.hle_bios_enabled && emu.arm9.cp15.high_exc_vectors() {
        let return_addr = reg(emu, 15).wrapping_sub(size);
        return enter_hle_swi(emu, true, number, return_addr);
    }
    refetch(emu, thumb);
    let lr = reg(emu, 15).wrapping_sub(size);
    enter_exception(emu, Mode::supervisor(), 8, lr);
    HleRequest::Nothing
}

/// The machine after the ARM9 takes an interrupt. The instruction at the program counter
/// is fetched once more, as the hardware does, before the exception goes to the interrupt
/// mode and its vector at 0x18; it returns to the instruction that did not run. Where the
/// BIOS is emulated, the CPU enters the emulated BIOS instead.
pub open spec fn irq_taken(v: EmuView) -> EmuView {
    let thumb = v.arm9.engine.regs.cpsr & 0x20 != 0;
    let return_addr = if thumb {
        reg_of(v, 15)
    } else {
        reg_of(v, 15).wrapping_sub(4)
    };
    if swi_is_emulated(v) {
        hle_irq_entered(v, true, return_addr)
    } else {
        let v = with_bus_cycles_added(v, 2);
        let addr = reg_of(v, 15);
        let data_cycles = v.arm9.engine.data_cycles;
        let code = cycles_at(v.arm9.cp15, addr).code;
        let (word, v) = fetch_of(v, addr);
        let v = with_cycles_added(
            v,
            more(
                if word is Some {
                    code
                } else {
                    1
                },
                data_cycles,
            ) as u64,
        );
        let v = with_data_cycles(v, 1);
        exception_entered(v, 0x12, 0x18, return_addr)
    }
}

/// Takes an interrupt.
pub fn take_irq(emu: &mut Emu) -> (request: HleRequest)
    requires
        emu_wf(old(emu)@),
    ensures
        final(emu)@ == irq_taken(old(emu)@),
        emu_wf(final(emu)@),
        request == (if swi_is_emulated(old(emu)@) {
            HleRequest::Irq
        } else {
            HleRequest::Nothing
        }),
{
    let thumb = emu.arm9.engine_data.regs.cpsr().thumb_state();
    let r15 = reg(emu, 15);
    let return_addr = if thumb {
        r15
    } else {
        r15.wrapping_sub(4)
    };
    if emu.arm9.hle_bios_enabled && emu.arm9.cp15.high_exc_vectors() {
        return enter_hle_irq(emu, true, return_addr);
    }
    add_bus_cycles(emu, 2);
    let data_cycles = emu.arm9.engine_data.data_cycles;
    let code = code_cycles(emu, r15);
    let cycles = match fetch(emu, r15) {
        Some(_) => code,
        None => 1,
    };
    add_cycles(
        emu,
        (if cycles >= data_cycles {
            cycles
        } else {
            data_cycles
        }) as u64,
    );
    set_data_cycles(emu, 1);
    enter_exception(emu, Mode::irq(), 0x18, return_addr);
    HleRequest::Nothing
}

/// The machine after the program counter is set to `addr` and the pipeline is filled
/// from there; bit 0 of the address selects the instruction set.
pub open spec fn jumped(v: EmuView, addr: u32) -> EmuView {
    pipeline_reloaded(with_reg(v, 15, addr), StateSource::R15Bit0)
}

impl EngineData {
    /// Starts the ARM9 at its reset vector.
    pub fn setup(emu: &mut Emu)
        requires
            emu_wf(old(emu)@),
        ensures
            final(emu)@ == pipeline_reloaded(
                with_reg(with_bus_cycles_added(old(emu)@, 2), 15, 0xFFFF_0000),
                StateSource::Arm,
            ),
            emu_wf(final(emu)@),
    {
        add_bus_cycles(emu, 2);
        set_reg(emu, 15, 0xFFFF_0000);
        reload_pipeline(emu, StateSource::Arm);
    }

    /// Jumps to `addr`; bit 0 of the address selects the instruction set.
    pub fn jump(emu: &mut Emu, addr: u32)
        requires
            emu_wf(old(emu)@),
        ensures
            final(emu)@ == jumped(old(emu)@, addr),
            emu_wf(final(emu)@),
    {
        set_reg(emu, 15, addr);
        reload_pipeline(emu, StateSource::R15Bit0);
    }

    /// Jumps to `addr` with `lr` in the link register.
    pub fn jump_and_link(emu: &mut Emu, addr: u32, lr: u32)
        requires
            emu_wf(old(emu)@),
        ensures
            final(emu)@ == jumped(with_reg(old(emu)@, 14, lr), addr),
            emu_wf(final(emu)@),
    {
        set_reg(emu, 14, lr);
        set_reg(emu, 15, addr);
        reload_pipeline(emu, StateSource::R15Bit0);
    }

    /// The program counter: two instructions ahead of the one that runs next.
    pub fn r15(&self) -> (r15: u32)
        ensures
            r15 == self@.regs.cur[15],
    {
        self.regs.reg(15)
    }

    /// The current status register.
    pub fn cpsr(&self) -> (cpsr: Psr)
        ensures
            cpsr@ == self@.regs.cpsr,
    {
        self.regs.cpsr()
    }

    /// Sets the status register, with what follows from it.
    pub fn set_cpsr(emu: &mut Emu, value: Psr)
        requires
            emu_wf(old(emu)@),
        ensures
            final(emu)@ == cpsr_written(old(emu)@, value@),
            emu_wf(final(emu)@),
    {
        set_cpsr_update_control(emu, value);
    }

    /// The register file.
    pub fn regs(&self) -> (regs: Regs)
        ensures
            regs@ == self@.regs,
    {
        self.regs
    }

    /// Replaces the register file. The program counter of `regs` is two instructions
    /// ahead of the instruction that runs next; the pipeline is filled from that
    /// instruction.
    pub fn set_regs(emu: &mut Emu, regs: &Regs)
        requires
            emu_wf(old(emu)@),
        ensures
            final(emu)@ == pipeline_reloaded(
                with_regs(
                    old(emu)@,
                    RegsView {
                        cur: regs@.cur.update(
                            15,
                            regs@.cur[15].wrapping_sub(
                                if regs@.cpsr & 0x20 != 0 {
                                    4u32
                                } else {
                                    8u32
                                },
                            ),
                        ),
                        ..regs@
                    },
                ),
                StateSource::Cpsr,
            ),
            emu_wf(final(emu)@),
    {
        emu.arm9.engine_data.regs = *regs;
        proof {
            regs.lemma_wf();
        }
        let r15 = reg(emu, 15);
        let back: u32 = if emu.arm9.engine_data.regs.cpsr().thumb_state() {
            4
        } else {
            8
        };
        set_reg(emu, 15, r15.wrapping_sub(back));
        reload_pipeline(emu, StateSource::Cpsr);
    }

    /// Comes back from the BIOS function that a software interrupt asked for, with its
    /// results for registers 0 to 3.
    pub fn return_from_hle_swi(emu: &mut Emu, r0_3: [u32; 4])
        requires
            emu_wf(old(emu)@),
        ensures
            final(emu)@ == hle_swi_returned(
                with_regs(
                    old(emu)@,
                    RegsView {
                        cur: Seq::new(
                            16,
                            |i: int|
                                if i < 4 {
                                    r0_3[i]
                                } else {
                                    old(emu)@.arm9.engine.regs.cur[i]
                                },
                        ),
                        ..old(emu)@.arm9.engine.regs
                    },
                ),
            ),
            emu_wf(final(emu)@),
    {
        emu.arm9.engine_data.regs.set_r0_3(r0_3);
        proof {
            emu.arm9.engine_data.regs.lemma_wf();
        }
        return_from_hle_swi(emu);
    }

    /// Puts the exception vectors at 0xFFFF0000 or at zero.
    pub fn set_high_exc_vectors(&mut self, value: bool)
        ensures
            final(self)@ == (EngineView {
                exc_vectors_start: if value {
                    0xFFFF_0000
                } else {
                    0
                },
                ..old(self)@
            }),
    {
        self.exc_vectors_start = if value {
            0xFFFF_0000
        } else {
            0
        };
    }

    /// Gets the interpreter ready after its state was loaded as a whole: nothing to do.
    pub fn post_load(emu: &mut Emu)
        ensures
            *final(emu) == *old(emu),
    {
    }

    /// Forgets what the interpreter knows of the word at `addr`: it keeps nothing.
    pub fn invalidate_word(&mut self, addr: u32)
        ensures
            *final(self) == *old(self),
    {
    }

    /// Forgets what the interpreter knows of the words in `bounds`: it keeps nothing.
    pub fn invalidate_word_range(&mut self, bounds: (u32, u32))
        ensures
            *final(self) == *old(self),
    {
    }

    /// Keeps loads of the program counter from changing the instruction set, or lets
    /// them: this interpreter runs the program either way.
    pub fn set_t_bit_load_disabled(&mut self, value: bool)
        ensures
            *final(self) == *old(self),
    {
    }
}

/// The machine with the flags N, Z, C and V of the ARM9 replaced.
pub open spec fn with_nzcv(v: EmuView, flags: u32) -> EmuView {
    with_regs(
        v,
        RegsView {
            cpsr: (v.arm9.engine.regs.cpsr & !0xF000_0000u32) | flags,
            ..v.arm9.engine.regs
        },
    )
}

/// Sets the flags N, Z, C and V: the four upper bits of `flags`, of which the other bits
/// are zero.
pub fn set_nzcv(emu: &mut Emu, flags: u32)
    requires
        emu_wf(old(emu)@),
        flags & !0xF000_0000u32 == 0,
    ensures
        final(emu)@ == with_nzcv(old(emu)@, flags),
        emu_wf(final(emu)@),
{
    let cpsr = emu.arm9.engine_data.regs.cpsr().with_nzcv(flags);
    emu.arm9.engine_data.regs.set_cpsr(cpsr);
}

/// The data wait states of the page of an address.
pub fn data_cycles_at(emu: &Emu, addr: u32) -> (cycles: u8)
    requires
        emu_wf(emu@),
    ensures
        cycles == cycles_at(emu@.arm9.cp15, addr).data,
{
    emu.arm9.cp15.cycles(addr).data
}

} // verus!
