//! The interpreter of the ARM7: its pipeline of two fetched instructions and its
//! exceptions. The ARM7 has no interlocks and no protection unit; its exception vectors
//! lie at the bottom of the address space, and every fetch takes one cycle.

pub mod arm;
pub mod run;
pub mod thumb;

use crate::cpu::arm7::bus::{read_16, read_16_of, read_32, read_32_of};
use crate::cpu::arm7::Arm7View;
use crate::cpu::interpreter::arm9::StateSource;
use crate::cpu::interpreter::regs::{mode_switched, regs_wf, startup_regs, Regs, RegsView};
use crate::cpu::irqs::{woken, IrqsView};
use crate::cpu::psr::{bank_of, Mode, Psr};
use crate::cpu::schedule::Schedule;
use crate::cpu::timers::Timestamp;
use crate::emu::{emu_wf, Emu, EmuView};
use vstd::prelude::*;

verus! {

/// The state of the interpreter, as contracts see it.
pub struct EngineView {
    /// What the program counter advances by with every fetch: 4 in ARM state, 2 in Thumb
    /// state.
    pub r15_increment: u32,
    pub regs: RegsView,
    /// The two fetched instructions, the next one to run first.
    pub pipeline: Seq<u32>,
}

/// The interpreter's state is well-formed.
pub open spec fn engine_wf(v: EngineView) -> bool {
    &&& regs_wf(v.regs)
    &&& v.pipeline.len() == 2
}

/// The state of the interpreter.
pub struct EngineData {
    r15_increment: u32,
    pub regs: Regs,
    pipeline: [u32; 2],
}

impl View for EngineData {
    type V = EngineView;

    closed spec fn view(&self) -> EngineView {
        EngineView {
            r15_increment: self.r15_increment,
            regs: self.regs@,
            pipeline: self.pipeline@,
        }
    }
}

/// The interpreter at power-on, with the given registers: in ARM state, with an empty
/// pipeline.
pub open spec fn initial_engine(regs: RegsView) -> EngineView {
    EngineView { r15_increment: 4, regs, pipeline: seq![0u32, 0u32] }
}

impl EngineData {
    /// The interpreter at power-on: the registers as they start up and an empty pipeline.
    pub fn new() -> (data: Self)
        ensures
            data@ == initial_engine(startup_regs()),
            engine_wf(data@),
    {
        let data = EngineData { r15_increment: 4, regs: Regs::startup(), pipeline: [0; 2] };
        assert(data@.pipeline =~= seq![0u32, 0u32]);
        data
    }

    /// The interpreter's state is well-formed however it came about.
    pub proof fn lemma_wf(&self)
        ensures
            engine_wf(self@),
    {
        self.regs.lemma_wf();
    }

    /// The program counter: two instructions ahead of the one that runs next.
    pub fn r15(&self) -> (r15: u32)
        ensures
            r15 == self@.regs.cur[15],
    {
        self.regs.reg(15)
    }

    /// The current status register.
    pub fn cpsr(&self) -> (cpsr: Psr)
        ensures
            cpsr@ == self@.regs.cpsr,
    {
        self.regs.cpsr()
    }

    /// The register file.
    pub fn regs(&self) -> (regs: Regs)
        ensures
            regs@ == self@.regs,
    {
        self.regs
    }
}

/// The machine with another state of the ARM7's interpreter.
pub open spec fn with_engine(v: EmuView, engine: EngineView) -> EmuView {
    EmuView { arm7: Arm7View { engine, ..v.arm7 }, ..v }
}

/// The machine with another register file of the ARM7.
pub open spec fn with_regs(v: EmuView, regs: RegsView) -> EmuView {
    with_engine(v, EngineView { regs, ..v.arm7.engine })
}

/// The machine with a register of the ARM7 replaced.
pub open spec fn with_reg(v: EmuView, i: int, value: u32) -> EmuView {
    with_regs(v, RegsView { cur: v.arm7.engine.regs.cur.update(i, value), ..v.arm7.engine.regs })
}

/// The machine with an entry of the ARM7's pipeline replaced.
pub open spec fn with_pipeline(v: EmuView, slot: int, entry: u32) -> EmuView {
    with_engine(
        v,
        EngineView { pipeline: v.arm7.engine.pipeline.update(slot, entry), ..v.arm7.engine },
    )
}

/// The machine with the ARM7's clock advanced by `cycles`.
pub open spec fn with_cycles_added(v: EmuView, cycles: u64) -> EmuView {
    EmuView { arm7: Arm7View { now: Timestamp(v.arm7.now.0.saturating_add(cycles)), ..v.arm7 }, ..v }
}

/// A register of the ARM7.
pub open spec fn reg_of(v: EmuView, i: int) -> u32 {
    v.arm7.engine.regs.cur[i]
}

/// Whether the ARM7 is in Thumb state.
pub open spec fn in_thumb_state(v: EmuView) -> bool {
    v.arm7.engine.regs.cpsr & 0x20 != 0
}

/// Advances the ARM7's clock by `cycles`.
pub fn add_cycles(emu: &mut Emu, cycles: u64)
    requires
        emu_wf(old(emu)@),
    ensures
        final(emu)@ == with_cycles_added(old(emu)@, cycles),
        emu_wf(final(emu)@),
{
    let now = emu.arm7.schedule.cur_time();
    emu.arm7.schedule.set_cur_time(Timestamp(now.0.saturating_add(cycles)));
}

/// A register of the ARM7.
pub fn reg(emu: &Emu, i: u8) -> (value: u32)
    requires
        i < 16,
    ensures
        value == reg_of(emu@, i as int),
{
    emu.arm7.engine_data.regs.reg(i)
}

/// Sets a register of the ARM7.
pub fn set_reg(emu: &mut Emu, i: u8, value: u32)
    requires
        emu_wf(old(emu)@),
        i < 16,
    ensures
        final(emu)@ == with_reg(old(emu)@, i as int, value),
        emu_wf(final(emu)@),
{
    emu.arm7.engine_data.regs.set_reg(i, value);
}

/// Sets an entry of the pipeline.
fn set_pipeline(emu: &mut Emu, slot: usize, entry: u32)
    requires
        emu_wf(old(emu)@),
        slot < 2,
    ensures
        final(emu)@ == with_pipeline(old(emu)@, slot as int, entry),
        emu_wf(final(emu)@),
{
    emu.arm7.engine_data.pipeline[slot] = entry;
}

/// The current status register of the ARM7.
pub fn cpsr(emu: &Emu) -> (cpsr: Psr)
    ensures
        cpsr@ == emu@.arm7.engine.regs.cpsr,
{
    emu.arm7.engine_data.regs.cpsr()
}

/// The machine after the ARM instruction at the program counter is fetched into the
/// second slot of the pipeline, which takes one cycle. With `inc_r15` the program counter
/// moves on.
pub open spec fn arm_prefetched(v: EmuView, inc_r15: bool) -> EmuView {
    let addr = reg_of(v, 15);
    let v = if inc_r15 {
        with_reg(v, 15, addr.wrapping_add(v.arm7.engine.r15_increment))
    } else {
        v
    };
    let (word, v) = read_32_of(v, addr);
    with_cycles_added(with_pipeline(v, 1, word), 1)
}

/// Fetches the ARM instruction at the program counter into the pipeline.
pub fn prefetch_arm(emu: &mut Emu, inc_r15: bool)
    requires
        emu_wf(old(emu)@),
    ensures
        final(emu)@ == arm_prefetched(old(emu)@, inc_r15),
        emu_wf(final(emu)@),
{
    let addr = reg(emu, 15);
    if inc_r15 {
        let inc = emu.arm7.engine_data.r15_increment;
        set_reg(emu, 15, addr.wrapping_add(inc));
    }
    let word = read_32(emu, addr);
    set_pipeline(emu, 1, word);
    add_cycles(emu, 1);
}

/// The machine after the Thumb instruction at the program counter is fetched into the
/// second slot of the pipeline, which takes one cycle.
pub open spec fn thumb_prefetched(v: EmuView, inc_r15: bool) -> EmuView {
    let addr = reg_of(v, 15);
    let v = if inc_r15 {
        with_reg(v, 15, addr.wrapping_add(v.arm7.engine.r15_increment))
    } else {
        v
    };
    let (halfword, v) = read_16_of(v, addr);
    with_cycles_added(with_pipeline(v, 1, halfword as u32), 1)
}

/// Fetches the Thumb instruction at the program counter into the pipeline.
pub fn prefetch_thumb(emu: &mut Emu, inc_r15: bool)
    requires
        emu_wf(old(emu)@),
    ensures
        final(emu)@ == thumb_prefetched(old(emu)@, inc_r15),
        emu_wf(final(emu)@),
{
    let addr = reg(emu, 15);
    if inc_r15 {
        let inc = emu.arm7.engine_data.r15_increment;
        set_reg(emu, 15, addr.wrapping_add(inc));
    }
    let halfword = read_16(emu, addr);
    set_pipeline(emu, 1, halfword as u32);
    add_cycles(emu, 1);
}

/// Whether a reload from `source` runs Thumb code, given the target address and the
/// status register.
pub open spec fn reload_is_thumb(v: EmuView, source: StateSource) -> bool {
    match source {
        StateSource::Arm => false,
        StateSource::Thumb => true,
        StateSource::Cpsr => in_thumb_state(v),
        StateSource::R15Bit0 => reg_of(v, 15) & 1 != 0,
    }
}

/// The machine after the pipeline is filled anew from the address in the program counter:
/// after a jump, an exception, or a change of the instruction set. The two instructions
/// at the address fill the two slots, which takes two cycles, and the program counter
/// is two instructions ahead of the first.
pub open spec fn pipeline_reloaded(v: EmuView, source: StateSource) -> EmuView {
    let target = reg_of(v, 15);
    let thumb = reload_is_thumb(v, source);
    let v = if source == StateSource::R15Bit0 {
        with_engine(
            v,
            EngineView {
                r15_increment: if thumb {
                    2
                } else {
                    4
                },
                regs: RegsView {
                    cpsr: if thumb {
                        v.arm7.engine.regs.cpsr | 0x20
                    } else {
                        v.arm7.engine.regs.cpsr & !0x20u32
                    },
                    ..v.arm7.engine.regs
                },
                ..v.arm7.engine
            },
        )
    } else {
        v
    };
    if thumb {
        let addr = target & !1u32;
        let (first, v) = read_16_of(v, addr);
        let v = with_pipeline(v, 0, first as u32);
        let next = addr.wrapping_add(2);
        let (second, v) = read_16_of(v, next);
        let v = with_pipeline(v, 1, second as u32);
        with_reg(with_cycles_added(v, 2), 15, next.wrapping_add(2))
    } else {
        let addr = target & !3u32;
        let (first, v) = read_32_of(v, addr);
        let v = with_pipeline(v, 0, first);
        let next = addr.wrapping_add(4);
        let (second, v) = read_32_of(v, next);
        let v = with_pipeline(v, 1, second);
        with_reg(with_cycles_added(v, 2), 15, next.wrapping_add(4))
    }
}

/// Fills the pipeline anew from the address in the program counter.
pub fn reload_pipeline(emu: &mut Emu, source: StateSource)
    requires
        emu_wf(old(emu)@),
    ensures
        final(emu)@ == pipeline_reloaded(old(emu)@, source),
        emu_wf(final(emu)@),
{
    let target = reg(emu, 15);
    let thumb = match source {
        StateSource::Arm => false,
        StateSource::Thumb => true,
        StateSource::Cpsr => emu.arm7.engine_data.regs.cpsr().thumb_state(),
        StateSource::R15Bit0 => {
            let thumb = target & 1 != 0;
            let cpsr = emu.arm7.engine_data.regs.cpsr().with_thumb_state(thumb);
            emu.arm7.engine_data.regs.set_cpsr(cpsr);
            emu.arm7.engine_data.r15_increment = if thumb {
                2
            } else {
                4
            };
            thumb
        },
    };
    if thumb {
        let addr = target & !1u32;
        let first = read_16(emu, addr);
        set_pipeline(emu, 0, first as u32);
        let next = addr.wrapping_add(2);
        let second = read_16(emu, next);
        set_pipeline(emu, 1, second as u32);
        add_cycles(emu, 2);
        set_reg(emu, 15, next.wrapping_add(2));
    } else {
        let addr = target & !3u32;
        let first = read_32(emu, addr);
        set_pipeline(emu, 0, first);
        let next = addr.wrapping_add(4);
        let second = read_32(emu, next);
        set_pipeline(emu, 1, second);
        add_cycles(emu, 2);
        set_reg(emu, 15, next.wrapping_add(4));
    }
}

/// The machine with the interrupt controller told whether the status register lets
/// interrupts through.
pub open spec fn with_irqs_enabled_in_cpsr(v: EmuView, enabled: bool) -> EmuView {
    EmuView {
        arm7: Arm7View {
            irqs: woken(IrqsView { enabled_in_cpsr: enabled, ..v.arm7.irqs }),
            ..v.arm7
        },
        ..v
    }
}

/// Tells the interrupt controller whether the status register lets interrupts through.
fn set_irqs_enabled_in_cpsr(emu: &mut Emu, enabled: bool)
    requires
        emu_wf(old(emu)@),
    ensures
        final(emu)@ == with_irqs_enabled_in_cpsr(old(emu)@, enabled),
        emu_wf(final(emu)@),
{
    emu.arm7.irqs.set_enabled_in_cpsr(enabled, &mut emu.arm7.schedule);
}

/// The machine after the status register takes the raw value `value`: the interrupt
/// controller follows its interrupt mask bit, and the registers follow its mode.
pub open spec fn cpsr_written(v: EmuView, value: u32) -> EmuView {
    let prev = v.arm7.engine.regs.cpsr;
    let v = with_regs(v, RegsView { cpsr: value, ..v.arm7.engine.regs });
    let v = with_irqs_enabled_in_cpsr(v, value & 0x80 == 0);
    with_regs(
        v,
        mode_switched(
            v.arm7.engine.regs,
            bank_of((prev & 0x1F) as u8),
            bank_of((value & 0x1F) as u8),
        ),
    )
}

/// Sets the status register, with what follows from it.
pub fn set_cpsr_update_control(emu: &mut Emu, value: Psr)
    requires
        emu_wf(old(emu)@),
    ensures
        final(emu)@ == cpsr_written(old(emu)@, value@),
        emu_wf(final(emu)@),
{
    let prev = emu.arm7.engine_data.regs.cpsr();
    emu.arm7.engine_data.regs.set_cpsr(value);
    set_irqs_enabled_in_cpsr(emu, !value.irqs_disabled());
    emu.arm7.engine_data.regs.update_mode(prev.mode(), value.mode());
    proof {
        emu.arm7.engine_data.regs.lemma_wf();
    }
}

/// The machine after the status register is restored from the saved one, as at the end
/// of an exception handler. In a mode without a saved status register nothing happens.
pub open spec fn spsr_restored(v: EmuView) -> EmuView {
    if bank_of((v.arm7.engine.regs.cpsr & 0x1F) as u8) == 0 {
        v
    } else {
        let v = cpsr_written(v, v.arm7.engine.regs.spsr);
        with_engine(
            v,
            EngineView {
                r15_increment: if in_thumb_state(v) {
                    2
                } else {
                    4
                },
                ..v.arm7.engine
            },
        )
    }
}

/// Restores the status register from the saved one.
pub fn restore_spsr(emu: &mut Emu)
    requires
        emu_wf(old(emu)@),
    ensures
        final(emu)@ == spsr_restored(old(emu)@),
        emu_wf(final(emu)@),
{
    if !emu.arm7.engine_data.regs.has_spsr() {
        return ;
    }
    let spsr = emu.arm7.engine_data.regs.spsr();
    set_cpsr_update_control(emu, spsr);
    emu.arm7.engine_data.r15_increment = if emu.arm7.engine_data.regs.cpsr().thumb_state() {
        2
    } else {
        4
    };
}

/// The machine after the ARM7 takes an exception: the status register is saved for the
/// handler's mode, the CPU goes to that mode in ARM state with interrupts masked, the
/// link register gets `lr`, and the program counter the exception's vector, from which
/// the pipeline is filled.
pub open spec fn exception_entered(v: EmuView, mode: u8, vector: u32, lr: u32) -> EmuView {
    let prev = v.arm7.engine.regs.cpsr;
    let cpsr = (((prev & !0x1Fu32) | (mode as u32)) & !0x20u32) | 0x80;
    let v = with_regs(v, RegsView { cpsr, ..v.arm7.engine.regs });
    let v = with_irqs_enabled_in_cpsr(v, false);
    let v = with_engine(v, EngineView { r15_increment: 4, ..v.arm7.engine });
    let regs = mode_switched(v.arm7.engine.regs, bank_of((prev & 0x1F) as u8), bank_of(mode));
    let v = with_regs(
        v,
        RegsView { spsr: prev, cur: regs.cur.update(14, lr).update(15, vector), ..regs },
    );
    pipeline_reloaded(v, StateSource::Arm)
}

/// Takes an exception.
fn enter_exception(emu: &mut Emu, mode: Mode, vector: u32, lr: u32)
    requires
        emu_wf(old(emu)@),
    ensures
        final(emu)@ == exception_entered(old(emu)@, mode@, vector, lr),
        emu_wf(final(emu)@),
{
    let prev = emu.arm7.engine_data.regs.cpsr();
    let cpsr = prev.with_mode(mode).with_thumb_state(false).with_irqs_disabled(true);
    emu.arm7.engine_data.regs.set_cpsr(cpsr);
    set_irqs_enabled_in_cpsr(emu, false);
    emu.arm7.engine_data.r15_increment = 4;
    emu.arm7.engine_data.regs.update_mode(prev.mode(), mode);
    emu.arm7.engine_data.regs.set_spsr(prev);
    proof {
        emu.arm7.engine_data.regs.lemma_wf();
    }
    set_reg(emu, 14, lr);
    set_reg(emu, 15, vector);
    reload_pipeline(emu, StateSource::Arm);
}

/// The address of the instruction after the one that runs, which an exception that the
/// instruction causes returns to: the program counter is two instructions ahead.
pub open spec fn next_instr_addr(v: EmuView, thumb: bool) -> u32 {
    reg_of(v, 15).wrapping_sub(
        if thumb {
            2
        } else {
            4
        },
    )
}

/// The machine after an undefined instruction: the exception goes to the undefined
/// mode and its vector at 4, and returns to the instruction after the undefined one.
pub open spec fn undefined_handled(v: EmuView, thumb: bool) -> EmuView {
    exception_entered(v, 0x1B, 4, next_instr_addr(v, thumb))
}

/// Handles an undefined instruction.
pub fn handle_undefined(emu: &mut Emu, thumb: bool)
    requires
        emu_wf(old(emu)@),
    ensures
        final(emu)@ == undefined_handled(old(emu)@, thumb),
        emu_wf(final(emu)@),
{
    let lr = reg(emu, 15).wrapping_sub(
        if thumb {
            2
        } else {
            4
        },
    );
    enter_exception(emu, Mode::undefined(), 4, lr);
}

/// The machine after a software interrupt: the exception goes to the supervisor mode
/// and its vector at 8, and returns to the instruction after the interrupt.
pub open spec fn swi_handled(v: EmuView, thumb: bool) -> EmuView {
    exception_entered(v, 0x13, 8, next_instr_addr(v, thumb))
}

/// Handles a software interrupt.
pub fn handle_swi(emu: &mut Emu, thumb: bool)
    requires
        emu_wf(old(emu)@),
    ensures
        final(emu)@ == swi_handled(old(emu)@, thumb),
        emu_wf(final(emu)@),
{
    let lr = reg(emu, 15).wrapping_sub(
        if thumb {
            2
        } else {
            4
        },
    );
    enter_exception(emu, Mode::supervisor(), 8, lr);
}

/// The machine after the ARM7 takes an interrupt: the exception goes to the interrupt
/// mode and its vector at 0x18. The link register is four bytes ahead of the instruction
/// that did not run, so that the handler returns to it with `SUBS pc, lr, #4`.
pub open spec fn irq_taken(v: EmuView) -> EmuView {
    exception_entered(
        v,
        0x12,
        0x18,
        if in_thumb_state(v) {
            reg_of(v, 15)
        } else {
            reg_of(v, 15).wrapping_sub(4)
        },
    )
}

/// Takes an interrupt.
pub fn take_irq(emu: &mut Emu)
    requires
        emu_wf(old(emu)@),
    ensures
        final(emu)@ == irq_taken(old(emu)@),
        emu_wf(final(emu)@),
{
    let r15 = reg(emu, 15);
    let lr = if cpsr(emu).thumb_state() {
        r15
    } else {
        r15.wrapping_sub(4)
    };
    enter_exception(emu, Mode::irq(), 0x18, lr);
}

/// The machine after the program counter is set to `addr` and the pipeline is filled
/// from there; bit 0 of the address selects the instruction set.
pub open spec fn jumped(v: EmuView, addr: u32) -> EmuView {
    pipeline_reloaded(with_reg(v, 15, addr), StateSource::R15Bit0)
}

impl EngineData {
    /// Starts the ARM7 at its reset vector.
    pub fn setup(emu: &mut Emu)
        requires
            emu_wf(old(emu)@),
        ensures
            final(emu)@ == pipeline_reloaded(with_reg(old(emu)@, 15, 0), StateSource::Arm),
            emu_wf(final(emu)@),
    {
        set_reg(emu, 15, 0);
        reload_pipeline(emu, StateSource::Arm);
    }

    /// Jumps to `addr`; bit 0 of the address selects the instruction set.
    pub fn jump(emu: &mut Emu, addr: u32)
        requires
            emu_wf(old(emu)@),
        ensures
            final(emu)@ == jumped(old(emu)@, addr),
            emu_wf(final(emu)@),
    {
        set_reg(emu, 15, addr);
        reload_pipeline(emu, StateSource::R15Bit0);
    }
}

/// The machine with the flags N, Z, C and V of the ARM7 replaced.
pub open spec fn with_nzcv(v: EmuView, flags: u32) -> EmuView {
    with_regs(
        v,
        RegsView {
            cpsr: (v.arm7.engine.regs.cpsr & !0xF000_0000u32) | flags,
            ..v.arm7.engine.regs
        },
    )
}

/// Sets the flags N, Z, C and V: the four upper bits of `flags`, of which the other bits
/// are zero.
pub fn set_nzcv(emu: &mut Emu, flags: u32)
    requires
        emu_wf(old(emu)@),
        flags & !0xF000_0000u32 == 0,
    ensures
        final(emu)@ == with_nzcv(old(emu)@, flags),
        emu_wf(final(emu)@),
{
    let cpsr = emu.arm7.engine_data.regs.cpsr().with_nzcv(flags);
    emu.arm7.engine_data.regs.set_cpsr(cpsr);
}

} // verus!
