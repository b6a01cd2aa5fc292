//! The ARM9's accesses to memory: bytes, halfwords and words, read and written, by
//! address. An access goes to the region that the top byte of its address selects; within
//! the region of the I/O registers, to the register at its address.
//!
//! Registers are kept as halfwords. A byte read takes its half of the halfword; a word
//! access is two halfword accesses, the lower one first, but for the registers that are
//! words of their own.

use crate::bytes::{le_16, le_32, with_le_16, with_le_32};
use crate::cpu::arm9::{
    gba_rom_halfword, timer_control_reload_written, timer_control_written,
    timer_counter_read, timer_reload_written, Arm9, Arm9View,
};
use crate::cpu::dma;
use crate::cpu::irqs::{acknowledged, woken, IrqFlags, IrqsView};
use crate::cpu::timers;
use crate::ds_slot::{
    irqs_after_transfer, next_word_time, read_continues_transfer, read_ends_transfer,
    rom_control_written, rom_data, rom_data_read, starts_transfer, first_word_time, AuxSpiControl,
    DsSlotView, RomControl,
};
use crate::cpu::schedule::SLOT_DS_SLOT_ROM;
use crate::emu::swram::{location, Control as SwramControl, SwramView};
use crate::cpu::arm7::Arm7View;
use crate::emu::{emu_wf, global_ex_mem_control_written, Emu, EmuView};
use crate::gpu::engine_2d::{register_raw_16, register_read_16, register_written_16};
use crate::gpu::vram::bank_cnt::bank_control_written;
use crate::gpu::vram::{
    bank_len, journal_flagged, usage_len, window_written, BankControl, VramView, A_BG, A_OBJ, B_BG,
    B_OBJ,
};
use crate::gpu::{disp_status_written, power_control_written, GpuView};
use crate::ipc::{
    fifo_control_read, fifo_control_write_requests, fifo_control_written, receive_requests_irq,
    received, received_value, send_requests_irq, sent, sync_read, sync_write_requests_irq,
    FifoControl, IpcView, Sync,
};
use crate::cpu::irqs::{IRQ_IPC_RECV_FIFO_NOT_EMPTY, IRQ_IPC_SEND_FIFO_EMPTY, IRQ_IPC_SYNC};
use vstd::prelude::*;

verus! {

/// What no access to memory changes: the ARM9's clock, its coprocessor and the state
/// of its interpreter.
pub open spec fn access_keeps(before: EmuView, after: EmuView) -> bool {
    &&& after.arm9.now == before.arm9.now
    &&& after.arm9.cp15 == before.arm9.cp15
    &&& after.arm9.engine == before.arm9.engine
    &&& after.arm9.hle_bios_enabled == before.arm9.hle_bios_enabled
}

/// The machine with another ARM9.
pub open spec fn with_arm9(v: EmuView, arm9: Arm9View) -> EmuView {
    EmuView { arm9, ..v }
}

/// The machine with another graphics side.
pub open spec fn with_gpu(v: EmuView, gpu: GpuView) -> EmuView {
    EmuView { gpu, ..v }
}

/// The machine with other video memory.
pub open spec fn with_vram(v: EmuView, vram: VramView) -> EmuView {
    EmuView { gpu: GpuView { vram, ..v.gpu }, ..v }
}

/// The machine with another cartridge slot.
pub open spec fn with_ds_slot(v: EmuView, ds_slot: DsSlotView) -> EmuView {
    EmuView { ds_slot, ..v }
}

/// Whether the engine has a register that can be read at `addr`, which counts from the
/// start of the engine's registers.
pub open spec fn engine_reads_at(addr: u32) -> bool {
    addr <= 0x002 || (0x008 <= addr <= 0x056) || addr == 0x064 || addr == 0x066 || addr == 0x06C
}

/// Whether the engine has a register that can be written at `addr`.
pub open spec fn engine_writes_at(addr: u32) -> bool {
    addr <= 0x002 || (0x008 <= addr <= 0x056) || (0x064 <= addr <= 0x06C)
}

/// The bank and the place in it that shows at `offset` of the LCDC window: the banks
/// lie one after the other, A first.
pub open spec fn lcdc_place(offset: u32) -> Option<(int, int)> {
    if offset < 0x8_0000 {
        Some((offset as int / 0x2_0000, offset as int % 0x2_0000))
    } else if offset < 0x9_0000 {
        Some((4, offset - 0x8_0000))
    } else if offset < 0x9_4000 {
        Some((5, offset - 0x9_0000))
    } else if offset < 0x9_8000 {
        Some((6, offset - 0x9_4000))
    } else if offset < 0xA_0000 {
        Some((7, offset - 0x9_8000))
    } else if offset < 0xA_4000 {
        Some((8, offset - 0xA_0000))
    } else {
        None
    }
}

/// The usage window of the ARM9's video memory region that an address lies in, and the
/// place in it; `None` for the LCDC window. The region is split in five parts of 2 MiB,
/// in which the windows repeat.
pub open spec fn vram_place(addr: u32) -> Option<(int, int)> {
    let part = (addr as int / 0x20_0000) % 8;
    if part == 0 {
        Some((A_BG as int, addr as int % 0x8_0000))
    } else if part == 1 {
        Some((B_BG as int, addr as int % 0x2_0000))
    } else if part == 2 {
        Some((A_OBJ as int, addr as int % 0x4_0000))
    } else if part == 3 {
        Some((B_OBJ as int, addr as int % 0x2_0000))
    } else {
        None
    }
}

/// The bank and the place in it that shows at `offset` of the LCDC window.
fn lcdc_locate(offset: u32, size: usize) -> (place: Option<(usize, usize)>)
    requires
        size == 1 || size == 2 || size == 4,
        offset as int % size as int == 0,
    ensures
        match place {
            Some((bank, at)) => lcdc_place(offset) == Some((bank as int, at as int)) && bank < 9
                && at + size <= bank_len(bank as int),
            None => lcdc_place(offset) is None,
        },
{
    proof {
        crate::bytes::lemma_wrap_aligned(offset as int, 0x2_0000, size as int);
        crate::bytes::lemma_wrap_aligned(offset as int, 0x4000, size as int);
    }
    let offset = offset as usize;
    if offset < 0x8_0000 {
        Some((offset / 0x2_0000, offset % 0x2_0000))
    } else if offset < 0x9_0000 {
        Some((4, offset - 0x8_0000))
    } else if offset < 0x9_4000 {
        Some((5, offset - 0x9_0000))
    } else if offset < 0x9_8000 {
        Some((6, offset - 0x9_4000))
    } else if offset < 0xA_0000 {
        Some((7, offset - 0x9_8000))
    } else if offset < 0xA_4000 {
        Some((8, offset - 0xA_0000))
    } else {
        None
    }
}

/// The usage window of the ARM9's video memory region that an address lies in.
fn vram_locate(addr: u32, size: usize) -> (place: Option<(usize, usize)>)
    requires
        size == 1 || size == 2 || size == 4,
        addr as int % size as int == 0,
    ensures
        match place {
            Some((usage, at)) => vram_place(addr) == Some((usage as int, at as int)) && usage < 4
                && at + size <= usage_len(usage as int) && at % size == 0,
            None => vram_place(addr) is None,
        },
{
    let a = addr as usize;
    let part = (a / 0x20_0000) % 8;
    assert(part == (addr as int / 0x20_0000) % 8);
    assert(usage_len(A_BG as int) == 0x8_0000);
    assert(usage_len(B_BG as int) == 0x2_0000);
    assert(usage_len(A_OBJ as int) == 0x4_0000);
    assert(usage_len(B_OBJ as int) == 0x2_0000);
    match part {
        0 => Some((A_BG, wrap(addr, 0x8_0000, size))),
        1 => Some((B_BG, wrap(addr, 0x2_0000, size))),
        2 => Some((A_OBJ, wrap(addr, 0x4_0000, size))),
        3 => Some((B_OBJ, wrap(addr, 0x2_0000, size))),
        _ => None,
    }
}

/// The place of an address in memory of `len` bytes that repeats.
fn wrap(addr: u32, len: usize, size: usize) -> (at: usize)
    requires
        size == 1 || size == 2 || size == 4,
        addr as int % size as int == 0,
        len > 0,
        len % 4 == 0,
    ensures
        at == addr as int % len as int,
        at + size <= len,
        at % size == 0,
{
    proof {
        crate::bytes::lemma_wrap_aligned(addr as int, len as int, size as int);
    }
    addr as usize % len
}

/// The halfword that the I/O register at `a` holds; `a` is even and counts from the start
/// of the I/O registers. Where no register is, the halfword is zero.
#[verifier::opaque]
pub open spec fn io_halfword(v: EmuView, a: u32) -> u16 {
    if engine_reads_at(a) {
        register_read_16(v.gpu.engine_2d_a, a)
    } else if a == 0x004 {
        v.gpu.disp_status_9
    } else if a == 0x006 {
        v.gpu.vcount
    } else if a == 0x060 {
        v.gpu.rendering_control
    } else if a == 0xb0 {
        v.arm9.dma.channels[0].src_addr as u16
    } else if a == 0xb2 {
        (v.arm9.dma.channels[0].src_addr >> 16) as u16
    } else if a == 0xb4 {
        v.arm9.dma.channels[0].dst_addr as u16
    } else if a == 0xb6 {
        (v.arm9.dma.channels[0].dst_addr >> 16) as u16
    } else if a == 0xb8 {
        v.arm9.dma.channels[0].control.0 as u16
    } else if a == 0xba {
        (v.arm9.dma.channels[0].control.0 >> 16) as u16
    } else if a == 0xbc {
        v.arm9.dma.channels[1].src_addr as u16
    } else if a == 0xbe {
        (v.arm9.dma.channels[1].src_addr >> 16) as u16
    } else if a == 0xc0 {
        v.arm9.dma.channels[1].dst_addr as u16
    } else if a == 0xc2 {
        (v.arm9.dma.channels[1].dst_addr >> 16) as u16
    } else if a == 0xc4 {
        v.arm9.dma.channels[1].control.0 as u16
    } else if a == 0xc6 {
        (v.arm9.dma.channels[1].control.0 >> 16) as u16
    } else if a == 0xc8 {
        v.arm9.dma.channels[2].src_addr as u16
    } else if a == 0xca {
        (v.arm9.dma.channels[2].src_addr >> 16) as u16
    } else if a == 0xcc {
        v.arm9.dma.channels[2].dst_addr as u16
    } else if a == 0xce {
        (v.arm9.dma.channels[2].dst_addr >> 16) as u16
    } else if a == 0xd0 {
        v.arm9.dma.channels[2].control.0 as u16
    } else if a == 0xd2 {
        (v.arm9.dma.channels[2].control.0 >> 16) as u16
    } else if a == 0xd4 {
        v.arm9.dma.channels[3].src_addr as u16
    } else if a == 0xd6 {
        (v.arm9.dma.channels[3].src_addr >> 16) as u16
    } else if a == 0xd8 {
        v.arm9.dma.channels[3].dst_addr as u16
    } else if a == 0xda {
        (v.arm9.dma.channels[3].dst_addr >> 16) as u16
    } else if a == 0xdc {
        v.arm9.dma.channels[3].control.0 as u16
    } else if a == 0xde {
        (v.arm9.dma.channels[3].control.0 >> 16) as u16
    } else if 0x0E0 <= a <= 0x0EE {
        le_16(v.arm9.dma_fill, (a - 0xE0) as int)
    } else if a == 0x100 {
        v.arm9.timers[0].counter
    } else if a == 0x102 {
        v.arm9.timers[0].control.0 as u16
    } else if a == 0x104 {
        v.arm9.timers[1].counter
    } else if a == 0x106 {
        v.arm9.timers[1].control.0 as u16
    } else if a == 0x108 {
        v.arm9.timers[2].counter
    } else if a == 0x10a {
        v.arm9.timers[2].control.0 as u16
    } else if a == 0x10c {
        v.arm9.timers[3].counter
    } else if a == 0x10e {
        v.arm9.timers[3].control.0 as u16
    } else if a == 0x130 {
        v.input_status as u16
    } else if a == 0x132 {
        v.arm9_key_irq_control
    } else if a == 0x180 {
        sync_read(v.ipc, 1)
    } else if a == 0x184 {
        fifo_control_read(v.ipc, 1)
    } else if a == 0x1A0 {
        v.ds_slot.spi_control
    } else if a == 0x1A2 {
        v.ds_slot.spi_data_out as u16
    } else if a == 0x1A4 {
        v.ds_slot.rom_control as u16
    } else if a == 0x1A6 {
        (v.ds_slot.rom_control >> 16) as u16
    } else if 0x1A8 <= a <= 0x1AE {
        le_16(v.ds_slot.rom_cmd, (a - 0x1A8) as int)
    } else if a == 0x204 {
        (v.arm9.local_ex_mem_control as u16) | v.global_ex_mem_control
    } else if a == 0x208 {
        (if v.arm9.irqs.master_enable { 1u16 } else { 0u16 })
    } else if a == 0x210 {
        v.arm9.irqs.enabled as u16
    } else if a == 0x212 {
        (v.arm9.irqs.enabled >> 16) as u16
    } else if a == 0x214 {
        v.arm9.irqs.requested as u16
    } else if a == 0x216 {
        (v.arm9.irqs.requested >> 16) as u16
    } else if a == 0x240 {
        (v.gpu.vram.bank_control[0] as u16) | ((v.gpu.vram.bank_control[1] as u16) << 8)
    } else if a == 0x242 {
        (v.gpu.vram.bank_control[2] as u16) | ((v.gpu.vram.bank_control[3] as u16) << 8)
    } else if a == 0x244 {
        (v.gpu.vram.bank_control[4] as u16) | ((v.gpu.vram.bank_control[5] as u16) << 8)
    } else if a == 0x246 {
        (v.gpu.vram.bank_control[6] as u16) | ((v.swram.control as u16) << 8)
    } else if a == 0x248 {
        (v.gpu.vram.bank_control[7] as u16) | ((v.gpu.vram.bank_control[8] as u16) << 8)
    } else if a == 0x300 {
        v.arm9.post_boot_flag as u16
    } else if a == 0x304 {
        v.gpu.power_control
    } else if 0x1000 <= a && engine_reads_at((a - 0x1000) as u32) {
        register_read_16(v.gpu.engine_2d_b, (a - 0x1000) as u32)
    } else {
        0
    }
}

/// The machine after a read of the I/O register at `a`: a read of a timer's counter
/// brings the timer up to date; every other read changes nothing.
pub open spec fn io_read(v: EmuView, a: u32) -> EmuView {
    if a == 0x100 || a == 0x104 || a == 0x108 || a == 0x10C {
        with_arm9(v, timer_counter_read(v.arm9, (a - 0x100) as int / 4))
    } else {
        v
    }
}

/// Reads the halfword of the I/O register at `a`.
fn io_read_16(emu: &mut Emu, a: u32) -> (value: u16)
    requires
        emu_wf(old(emu)@),
        a % 2 == 0,
    ensures
        final(emu)@ == io_read(old(emu)@, a),
        value == io_halfword(final(emu)@, a),
        emu_wf(final(emu)@),
        access_keeps(old(emu)@, final(emu)@),
{
    reveal(io_halfword);
    if a == 0x100 || a == 0x104 || a == 0x108 || a == 0x10C {
        emu.arm9.read_timer_counter(timers::Index::new(((a - 0x100) / 4) as u8));
    }
    let banks = emu.gpu.vram.bank_control();
    match a {
        0x000..=0x002 | 0x008..=0x056 | 0x064 | 0x066 | 0x06C => emu.gpu.engine_2d_a.read_16(a),
        0x004 => emu.gpu.disp_status_9,
        0x006 => emu.gpu.vcount,
        0x060 => emu.gpu.rendering_control,
        0xb0 => #[verifier::truncate] (emu.arm9.dma.channels[0].src_addr as u16),
        0xb2 => #[verifier::truncate] ((emu.arm9.dma.channels[0].src_addr >> 16) as u16),
        0xb4 => #[verifier::truncate] (emu.arm9.dma.channels[0].dst_addr as u16),
        0xb6 => #[verifier::truncate] ((emu.arm9.dma.channels[0].dst_addr >> 16) as u16),
        0xb8 => #[verifier::truncate] (emu.arm9.dma.channels[0].control.0 as u16),
        0xba => #[verifier::truncate] ((emu.arm9.dma.channels[0].control.0 >> 16) as u16),
        0xbc => #[verifier::truncate] (emu.arm9.dma.channels[1].src_addr as u16),
        0xbe => #[verifier::truncate] ((emu.arm9.dma.channels[1].src_addr >> 16) as u16),
        0xc0 => #[verifier::truncate] (emu.arm9.dma.channels[1].dst_addr as u16),
        0xc2 => #[verifier::truncate] ((emu.arm9.dma.channels[1].dst_addr >> 16) as u16),
        0xc4 => #[verifier::truncate] (emu.arm9.dma.channels[1].control.0 as u16),
        0xc6 => #[verifier::truncate] ((emu.arm9.dma.channels[1].control.0 >> 16) as u16),
        0xc8 => #[verifier::truncate] (emu.arm9.dma.channels[2].src_addr as u16),
        0xca => #[verifier::truncate] ((emu.arm9.dma.channels[2].src_addr >> 16) as u16),
        0xcc => #[verifier::truncate] (emu.arm9.dma.channels[2].dst_addr as u16),
        0xce => #[verifier::truncate] ((emu.arm9.dma.channels[2].dst_addr >> 16) as u16),
        0xd0 => #[verifier::truncate] (emu.arm9.dma.channels[2].control.0 as u16),
        0xd2 => #[verifier::truncate] ((emu.arm9.dma.channels[2].control.0 >> 16) as u16),
        0xd4 => #[verifier::truncate] (emu.arm9.dma.channels[3].src_addr as u16),
        0xd6 => #[verifier::truncate] ((emu.arm9.dma.channels[3].src_addr >> 16) as u16),
        0xd8 => #[verifier::truncate] (emu.arm9.dma.channels[3].dst_addr as u16),
        0xda => #[verifier::truncate] ((emu.arm9.dma.channels[3].dst_addr >> 16) as u16),
        0xdc => #[verifier::truncate] (emu.arm9.dma.channels[3].control.0 as u16),
        0xde => #[verifier::truncate] ((emu.arm9.dma.channels[3].control.0 >> 16) as u16),
        0x0E0..=0x0EE => (emu.arm9.dma_fill[(a - 0xE0) as usize] as u16) | ((emu.arm9.dma_fill[(a - 0xE0) as usize + 1] as u16) << 8),
        0x100 => emu.arm9.timers.0[0].counter(),
        0x102 => emu.arm9.timers.0[0].control().0 as u16,
        0x104 => emu.arm9.timers.0[1].counter(),
        0x106 => emu.arm9.timers.0[1].control().0 as u16,
        0x108 => emu.arm9.timers.0[2].counter(),
        0x10a => emu.arm9.timers.0[2].control().0 as u16,
        0x10c => emu.arm9.timers.0[3].counter(),
        0x10e => emu.arm9.timers.0[3].control().0 as u16,
        0x130 => #[verifier::truncate] (emu.input_status as u16),
        0x132 => emu.arm9_key_irq_control,
        0x180 => emu.ipc.sync(1).0,
        0x184 => emu.ipc.fifo_control(1).0,
        0x1A0 => emu.ds_slot.spi_control.0,
        0x1A2 => emu.ds_slot.spi_data_out as u16,
        0x1A4 => #[verifier::truncate] (emu.ds_slot.rom_control.0 as u16),
        0x1A6 => #[verifier::truncate] ((emu.ds_slot.rom_control.0 >> 16) as u16),
        0x1A8..=0x1AE => (emu.ds_slot.rom_cmd[(a - 0x1A8) as usize] as u16) | ((emu.ds_slot.rom_cmd[(a - 0x1A8) as usize + 1] as u16) << 8),
        0x204 => (emu.arm9.local_ex_mem_control as u16) | emu.global_ex_mem_control,
        0x208 => (if emu.arm9.irqs.master_enable() { 1u16 } else { 0u16 }),
        0x210 => #[verifier::truncate] (emu.arm9.irqs.enabled().0 as u16),
        0x212 => #[verifier::truncate] ((emu.arm9.irqs.enabled().0 >> 16) as u16),
        0x214 => #[verifier::truncate] (emu.arm9.irqs.requested().0 as u16),
        0x216 => #[verifier::truncate] ((emu.arm9.irqs.requested().0 >> 16) as u16),
        0x240 => (banks[0].0 as u16) | ((banks[1].0 as u16) << 8),
        0x242 => (banks[2].0 as u16) | ((banks[3].0 as u16) << 8),
        0x244 => (banks[4].0 as u16) | ((banks[5].0 as u16) << 8),
        0x246 => (banks[6].0 as u16) | ((emu.swram.control().0 as u16) << 8),
        0x248 => (banks[7].0 as u16) | ((banks[8].0 as u16) << 8),
        0x300 => emu.arm9.post_boot_flag as u16,
        0x304 => emu.gpu.power_control,
        0x1000..=0x1002 | 0x1008..=0x1056 | 0x1064 | 0x1066 | 0x106C => emu.gpu.engine_2d_b.read_16(a - 0x1000),
        _ => 0,
    }
}

/// The machine after a write of `value` to the display status register.
pub open spec fn with_disp_status_written(v: EmuView, value: u16) -> EmuView {
    with_gpu(v, GpuView { disp_status_9: disp_status_written(v.gpu.disp_status_9, value), ..v.gpu })
}

/// Writes the display status register.
fn write_disp_status(emu: &mut Emu, value: u16)
    requires
        emu_wf(old(emu)@),
    ensures
        final(emu)@ == with_disp_status_written(old(emu)@, value),
        emu_wf(final(emu)@),
        access_keeps(old(emu)@, final(emu)@),
{
    emu.gpu.write_disp_status_9(value);
}

/// The machine after a write of `value` to the line counter.
pub open spec fn with_vcount_written(v: EmuView, value: u16) -> EmuView {
    with_gpu(v, GpuView { vcount: value & 0x1FF, ..v.gpu })
}

/// Writes the line counter.
fn write_vcount(emu: &mut Emu, value: u16)
    requires
        emu_wf(old(emu)@),
    ensures
        final(emu)@ == with_vcount_written(old(emu)@, value),
        emu_wf(final(emu)@),
        access_keeps(old(emu)@, final(emu)@),
{
    emu.gpu.write_vcount(value);
}

/// The machine after a write of `value` to the 3D engine's rendering control register.
pub open spec fn with_rendering_control_written(v: EmuView, value: u16) -> EmuView {
    with_gpu(v, GpuView { rendering_control: value & 0x4FFF, ..v.gpu })
}

/// Writes the 3D engine's rendering control register.
fn write_rendering_control(emu: &mut Emu, value: u16)
    requires
        emu_wf(old(emu)@),
    ensures
        final(emu)@ == with_rendering_control_written(old(emu)@, value),
        emu_wf(final(emu)@),
        access_keeps(old(emu)@, final(emu)@),
{
    emu.gpu.write_rendering_control(value);
}

/// The machine after a write of `value` to a register of engine A.
pub open spec fn with_engine_a_written(v: EmuView, a: u32, value: u16) -> EmuView {
    with_gpu(v, GpuView { engine_2d_a: register_written_16(v.gpu.engine_2d_a, a, value, true), ..v.gpu })
}

/// Writes a register of engine A.
fn write_engine_a(emu: &mut Emu, a: u32, value: u16)
    requires
        emu_wf(old(emu)@),
    ensures
        final(emu)@ == with_engine_a_written(old(emu)@, a, value),
        emu_wf(final(emu)@),
        access_keeps(old(emu)@, final(emu)@),
{
    emu.gpu.engine_2d_a.write_16(a, value);
}

/// The machine after a write of `value` to a register of engine B.
pub open spec fn with_engine_b_written(v: EmuView, a: u32, value: u16) -> EmuView {
    with_gpu(v, GpuView { engine_2d_b: register_written_16(v.gpu.engine_2d_b, a, value, false), ..v.gpu })
}

/// Writes a register of engine B.
fn write_engine_b(emu: &mut Emu, a: u32, value: u16)
    requires
        emu_wf(old(emu)@),
    ensures
        final(emu)@ == with_engine_b_written(old(emu)@, a, value),
        emu_wf(final(emu)@),
        access_keeps(old(emu)@, final(emu)@),
{
    emu.gpu.engine_2d_b.write_16(a, value);
}

/// The machine after a write of `value` to the source address of a DMA channel.
pub open spec fn with_dma_src_written(v: EmuView, i: int, value: u32) -> EmuView {
    with_arm9(v, Arm9View { dma: dma::src_addr_written(v.arm9.dma, i, value), ..v.arm9 })
}

/// Writes the source address of a DMA channel.
fn write_dma_src(emu: &mut Emu, i: dma::Index, value: u32)
    requires
        emu_wf(old(emu)@),
    ensures
        final(emu)@ == with_dma_src_written(old(emu)@, i@ as int, value),
        emu_wf(final(emu)@),
        access_keeps(old(emu)@, final(emu)@),
{
    emu.arm9.dma.write_src_addr(i, value);
}

/// The machine after a write of `value` to the destination address of a DMA channel.
pub open spec fn with_dma_dst_written(v: EmuView, i: int, value: u32) -> EmuView {
    with_arm9(v, Arm9View { dma: dma::dst_addr_written(v.arm9.dma, i, value), ..v.arm9 })
}

/// Writes the destination address of a DMA channel.
fn write_dma_dst(emu: &mut Emu, i: dma::Index, value: u32)
    requires
        emu_wf(old(emu)@),
    ensures
        final(emu)@ == with_dma_dst_written(old(emu)@, i@ as int, value),
        emu_wf(final(emu)@),
        access_keeps(old(emu)@, final(emu)@),
{
    emu.arm9.dma.write_dst_addr(i, value);
}

/// The machine after a write of `value` to the lower half of the control register of a DMA channel.
pub open spec fn with_dma_control_low_written(v: EmuView, i: int, value: u16) -> EmuView {
    with_arm9(v, Arm9View { dma: dma::control_low_written(v.arm9.dma, i, value), ..v.arm9 })
}

/// Writes the lower half of the control register of a DMA channel.
fn write_dma_control_low(emu: &mut Emu, i: dma::Index, value: u16)
    requires
        emu_wf(old(emu)@),
    ensures
        final(emu)@ == with_dma_control_low_written(old(emu)@, i@ as int, value),
        emu_wf(final(emu)@),
        access_keeps(old(emu)@, final(emu)@),
{
    emu.arm9.dma.write_control_low(i, value);
}

/// The machine after a write of `value` to the control register of a DMA channel.
pub open spec fn with_dma_control_written(v: EmuView, i: int, value: u32) -> EmuView {
    with_arm9(v, Arm9View { dma: dma::channel_control_written(v.arm9.dma, i, dma::Control(value)), ..v.arm9 })
}

/// Writes the control register of a DMA channel.
fn write_dma_control(emu: &mut Emu, i: dma::Index, value: u32)
    requires
        emu_wf(old(emu)@),
    ensures
        final(emu)@ == with_dma_control_written(old(emu)@, i@ as int, value),
        emu_wf(final(emu)@),
        access_keeps(old(emu)@, final(emu)@),
{
    emu.arm9.dma.write_control(i, dma::Control(value));
}

/// The machine after a write of `value` to a byte of the DMA fill registers.
pub open spec fn with_dma_fill_written(v: EmuView, at: usize, value: u8) -> EmuView {
    with_arm9(v, Arm9View { dma_fill: v.arm9.dma_fill.update(at as int, value), ..v.arm9 })
}

/// Writes a byte of the DMA fill registers.
fn write_dma_fill(emu: &mut Emu, at: usize, value: u8)
    requires
        emu_wf(old(emu)@),
        at < 16,
    ensures
        final(emu)@ == with_dma_fill_written(old(emu)@, at, value),
        emu_wf(final(emu)@),
        access_keeps(old(emu)@, final(emu)@),
{
    emu.arm9.dma_fill[at] = value;
}

/// The machine after a write of `value` to the reload register of a timer.
pub open spec fn with_timer_reload_written(v: EmuView, i: int, value: u16) -> EmuView {
    with_arm9(v, timer_reload_written(v.arm9, i, value))
}

/// Writes the reload register of a timer.
fn write_timer_reload(emu: &mut Emu, i: timers::Index, value: u16)
    requires
        emu_wf(old(emu)@),
    ensures
        final(emu)@ == with_timer_reload_written(old(emu)@, i@ as int, value),
        emu_wf(final(emu)@),
        access_keeps(old(emu)@, final(emu)@),
{
    emu.arm9.write_timer_reload(i, value);
}

/// The machine after a write of `value` to the control register of a timer.
pub open spec fn with_timer_control_written(v: EmuView, i: int, value: u8) -> EmuView {
    with_arm9(v, timer_control_written(v.arm9, i, timers::Control(value)))
}

/// Writes the control register of a timer.
fn write_timer_control(emu: &mut Emu, i: timers::Index, value: u8)
    requires
        emu_wf(old(emu)@),
    ensures
        final(emu)@ == with_timer_control_written(old(emu)@, i@ as int, value),
        emu_wf(final(emu)@),
        access_keeps(old(emu)@, final(emu)@),
{
    emu.arm9.write_timer_control(i, timers::Control(value));
}

/// The machine after a write of `control` to the reload and the control register of a timer.
pub open spec fn with_timer_control_reload_written(v: EmuView, i: int, reload: u16, control: u8) -> EmuView {
    with_arm9(v, timer_control_reload_written(v.arm9, i, reload, timers::Control(control)))
}

/// Writes the reload and the control register of a timer.
fn write_timer_control_reload(emu: &mut Emu, i: timers::Index, reload: u16, control: u8)
    requires
        emu_wf(old(emu)@),
    ensures
        final(emu)@ == with_timer_control_reload_written(old(emu)@, i@ as int, reload, control),
        emu_wf(final(emu)@),
        access_keeps(old(emu)@, final(emu)@),
{
    emu.arm9.write_timer_control_reload(i, reload, timers::Control(control));
}

/// The machine after a write of `value` to the key interrupt control register.
pub open spec fn with_key_irq_control_written(v: EmuView, value: u16) -> EmuView {
    EmuView { arm9_key_irq_control: value, ..v }
}

/// Writes the key interrupt control register.
fn write_key_irq_control(emu: &mut Emu, value: u16)
    requires
        emu_wf(old(emu)@),
    ensures
        final(emu)@ == with_key_irq_control_written(old(emu)@, value),
        emu_wf(final(emu)@),
        access_keeps(old(emu)@, final(emu)@),
{
    emu.write_arm9_key_irq_control(value);
}

/// The machine after a write of `value` to the IPC sync register.
pub open spec fn with_ipc_sync_written(v: EmuView, value: u16) -> EmuView {
    EmuView {
        ipc: IpcView { sync: v.ipc.sync.update(1, value & 0x4F00), ..v.ipc },
        arm7: Arm7View {
            irqs: if sync_write_requests_irq(v.ipc, 1, value) {
                woken(IrqsView { requested: v.arm7.irqs.requested | IRQ_IPC_SYNC, ..v.arm7.irqs })
            } else {
                v.arm7.irqs
            },
            ..v.arm7
        },
        ..v
    }
}

/// Writes the IPC sync register.
fn write_ipc_sync(emu: &mut Emu, value: u16)
    requires
        emu_wf(old(emu)@),
    ensures
        final(emu)@ == with_ipc_sync_written(old(emu)@, value),
        emu_wf(final(emu)@),
        access_keeps(old(emu)@, final(emu)@),
{
    emu.ipc.write_sync(1, Sync(value), &mut emu.arm7.irqs, &mut emu.arm7.schedule);
}

/// The machine after a write of `value` to the IPC queue control register.
pub open spec fn with_ipc_fifo_control_written(v: EmuView, value: u16) -> EmuView {
    EmuView {
        ipc: fifo_control_written(v.ipc, 1, value),
        arm9: Arm9View {
            irqs: if fifo_control_write_requests(v.ipc, 1, value) != 0 {
                woken(
                    IrqsView {
                        requested: v.arm9.irqs.requested | fifo_control_write_requests(
                            v.ipc,
                            1,
                            value,
                        ),
                        ..v.arm9.irqs
                    },
                )
            } else {
                v.arm9.irqs
            },
            ..v.arm9
        },
        ..v
    }
}

/// Writes the IPC queue control register.
fn write_ipc_fifo_control(emu: &mut Emu, value: u16)
    requires
        emu_wf(old(emu)@),
    ensures
        final(emu)@ == with_ipc_fifo_control_written(old(emu)@, value),
        emu_wf(final(emu)@),
        access_keeps(old(emu)@, final(emu)@),
{
    emu.ipc.write_fifo_control(1, FifoControl(value), &mut emu.arm9.irqs, &mut emu.arm9.schedule);
    emu.ipc.check_wf();
}

/// The machine after a write of `value` to the IPC send register.
pub open spec fn with_ipc_send_written(v: EmuView, value: u32) -> EmuView {
    EmuView {
        ipc: sent(v.ipc, 1, value),
        arm7: Arm7View {
            irqs: if send_requests_irq(v.ipc, 1) {
                woken(
                    IrqsView {
                        requested: v.arm7.irqs.requested | IRQ_IPC_RECV_FIFO_NOT_EMPTY,
                        ..v.arm7.irqs
                    },
                )
            } else {
                v.arm7.irqs
            },
            ..v.arm7
        },
        ..v
    }
}

/// Writes the IPC send register.
fn write_ipc_send(emu: &mut Emu, value: u32)
    requires
        emu_wf(old(emu)@),
    ensures
        final(emu)@ == with_ipc_send_written(old(emu)@, value),
        emu_wf(final(emu)@),
        access_keeps(old(emu)@, final(emu)@),
{
    emu.ipc.send(1, value, &mut emu.arm7.irqs, &mut emu.arm7.schedule);
    emu.ipc.check_wf();
}

/// The machine after a write of `value` to the SPI control register of the cartridge slot, if the ARM9 owns the slot.
pub open spec fn with_spi_control_written(v: EmuView, value: u16) -> EmuView {
    if v.ds_slot.arm9_access {
        with_ds_slot(v, DsSlotView { spi_control: value & 0xE043, ..v.ds_slot })
    } else {
        v
    }
}

/// Writes the SPI control register of the cartridge slot, if the ARM9 owns the slot.
fn write_spi_control(emu: &mut Emu, value: u16)
    requires
        emu_wf(old(emu)@),
    ensures
        final(emu)@ == with_spi_control_written(old(emu)@, value),
        emu_wf(final(emu)@),
        access_keeps(old(emu)@, final(emu)@),
{
    if emu.ds_slot.arm9_access() {
        emu.ds_slot.write_spi_control(AuxSpiControl(value));
    }
}

/// The machine after a write of `value` to the SPI data register of the cartridge slot, if the ARM9 owns the slot.
pub open spec fn with_spi_data_written(v: EmuView, value: u8) -> EmuView {
    if v.ds_slot.arm9_access {
        with_ds_slot(
            v,
            DsSlotView {
                spi_data_out: 0,
                spi_held: v.ds_slot.spi_control & 0x40 != 0,
                ..v.ds_slot
            },
        )
    } else {
        v
    }
}

/// Writes the SPI data register of the cartridge slot, if the ARM9 owns the slot.
fn write_spi_data(emu: &mut Emu, value: u8)
    requires
        emu_wf(old(emu)@),
    ensures
        final(emu)@ == with_spi_data_written(old(emu)@, value),
        emu_wf(final(emu)@),
        access_keeps(old(emu)@, final(emu)@),
{
    if emu.ds_slot.arm9_access() {
        emu.ds_slot.write_spi_data(value);
    }
}

/// The machine after a write of `value` to the ROM control register of the cartridge slot, if the ARM9 owns the slot.
pub open spec fn with_rom_control_written(v: EmuView, value: u32) -> EmuView {
    if v.ds_slot.arm9_access {
        EmuView {
            ds_slot: rom_control_written(v.ds_slot, value),
            arm9: Arm9View {
                times: if starts_transfer(v.ds_slot, value) {
                    v.arm9.times.update(
                        SLOT_DS_SLOT_ROM as int,
                        Some(first_word_time(v.arm9.now, value)),
                    )
                } else {
                    v.arm9.times
                },
                ..v.arm9
            },
            ..v
        }
    } else {
        v
    }
}

/// Writes the ROM control register of the cartridge slot, if the ARM9 owns the slot.
fn write_rom_control(emu: &mut Emu, value: u32)
    requires
        emu_wf(old(emu)@),
    ensures
        final(emu)@ == with_rom_control_written(old(emu)@, value),
        emu_wf(final(emu)@),
        access_keeps(old(emu)@, final(emu)@),
{
    if emu.ds_slot.arm9_access() {
        emu.ds_slot.write_rom_control(RomControl(value), &mut emu.arm9.schedule);
    }
}

/// The machine after a write of `value` to a byte of the command register of the cartridge slot, if the ARM9 owns the slot.
pub open spec fn with_rom_cmd_written(v: EmuView, at: usize, value: u8) -> EmuView {
    if v.ds_slot.arm9_access {
        with_ds_slot(v, DsSlotView { rom_cmd: v.ds_slot.rom_cmd.update(at as int, value), ..v.ds_slot })
    } else {
        v
    }
}

/// Writes a byte of the command register of the cartridge slot, if the ARM9 owns the slot.
fn write_rom_cmd(emu: &mut Emu, at: usize, value: u8)
    requires
        emu_wf(old(emu)@),
        at < 8,
    ensures
        final(emu)@ == with_rom_cmd_written(old(emu)@, at, value),
        emu_wf(final(emu)@),
        access_keeps(old(emu)@, final(emu)@),
{
    if emu.ds_slot.arm9_access() {
        emu.ds_slot.rom_cmd[at] = value;
    }
}

/// The machine after a write of `value` to the ARM9's part of the external memory control register.
pub open spec fn with_local_ex_mem_control_written(v: EmuView, value: u8) -> EmuView {
    with_arm9(v, Arm9View { local_ex_mem_control: value & 0x7F, ..v.arm9 })
}

/// Writes the ARM9's part of the external memory control register.
fn write_local_ex_mem_control(emu: &mut Emu, value: u8)
    requires
        emu_wf(old(emu)@),
    ensures
        final(emu)@ == with_local_ex_mem_control_written(old(emu)@, value),
        emu_wf(final(emu)@),
        access_keeps(old(emu)@, final(emu)@),
{
    emu.arm9.local_ex_mem_control = value & 0x7F;
}

/// The machine after a write of `value` to the shared part of the external memory control register.
pub open spec fn with_global_ex_mem_control_written(v: EmuView, value: u16) -> EmuView {
    global_ex_mem_control_written(v, value)
}

/// Writes the shared part of the external memory control register.
fn write_global_ex_mem_control(emu: &mut Emu, value: u16)
    requires
        emu_wf(old(emu)@),
    ensures
        final(emu)@ == with_global_ex_mem_control_written(old(emu)@, value),
        emu_wf(final(emu)@),
        access_keeps(old(emu)@, final(emu)@),
{
    emu.write_global_ex_mem_control(value);
}

/// The machine after a write of `value` to the interrupt master enable register.
pub open spec fn with_master_enable_written(v: EmuView, value: bool) -> EmuView {
    with_arm9(v, Arm9View { irqs: woken(IrqsView { master_enable: value, ..v.arm9.irqs }), ..v.arm9 })
}

/// Writes the interrupt master enable register.
fn write_master_enable(emu: &mut Emu, value: bool)
    requires
        emu_wf(old(emu)@),
    ensures
        final(emu)@ == with_master_enable_written(old(emu)@, value),
        emu_wf(final(emu)@),
        access_keeps(old(emu)@, final(emu)@),
{
    emu.arm9.irqs.write_master_enable(value, &mut emu.arm9.schedule);
}

/// The machine after a write of `value` to the interrupt enable register.
pub open spec fn with_irqs_enabled_written(v: EmuView, value: u32) -> EmuView {
    with_arm9(v, Arm9View { irqs: woken(IrqsView { enabled: value, ..v.arm9.irqs }), ..v.arm9 })
}

/// Writes the interrupt enable register.
fn write_irqs_enabled(emu: &mut Emu, value: u32)
    requires
        emu_wf(old(emu)@),
    ensures
        final(emu)@ == with_irqs_enabled_written(old(emu)@, value),
        emu_wf(final(emu)@),
        access_keeps(old(emu)@, final(emu)@),
{
    emu.arm9.irqs.write_enabled(IrqFlags(value), &mut emu.arm9.schedule);
}

/// The machine after a write of `value` to the interrupt request register: a one acknowledges a request.
pub open spec fn with_irqs_requested_written(v: EmuView, value: u32) -> EmuView {
    with_arm9(
        v,
        Arm9View {
            irqs: woken(
                IrqsView {
                    requested: acknowledged(
                        v.arm9.irqs.requested,
                        value,
                        v.gpu.gx_fifo_irq_requested,
                    ),
                    ..v.arm9.irqs
                },
            ),
            ..v.arm9
        },
    )
}

/// Writes the interrupt request register: a one acknowledges a request.
fn write_irqs_requested(emu: &mut Emu, value: u32)
    requires
        emu_wf(old(emu)@),
    ensures
        final(emu)@ == with_irqs_requested_written(old(emu)@, value),
        emu_wf(final(emu)@),
        access_keeps(old(emu)@, final(emu)@),
{
    let pending = emu.gpu.gx_fifo_irq_requested;
    emu.arm9.irqs.acknowledge(IrqFlags(value), pending, &mut emu.arm9.schedule);
}

/// The machine after a write of `value` to the control register of video memory bank A.
pub open spec fn with_bank_control_a_written(v: EmuView, value: u8) -> EmuView {
    with_vram(v, bank_control_written(v.gpu.vram, 0, BankControl(value)))
}

/// Writes the control register of video memory bank A.
fn write_bank_control_a(emu: &mut Emu, value: u8)
    requires
        emu_wf(old(emu)@),
    ensures
        final(emu)@ == with_bank_control_a_written(old(emu)@, value),
        emu_wf(final(emu)@),
        access_keeps(old(emu)@, final(emu)@),
{
    emu.gpu.vram.write_bank_control_a(BankControl(value));
}

/// The machine after a write of `value` to the control register of video memory bank B.
pub open spec fn with_bank_control_b_written(v: EmuView, value: u8) -> EmuView {
    with_vram(v, bank_control_written(v.gpu.vram, 1, BankControl(value)))
}

/// Writes the control register of video memory bank B.
fn write_bank_control_b(emu: &mut Emu, value: u8)
    requires
        emu_wf(old(emu)@),
    ensures
        final(emu)@ == with_bank_control_b_written(old(emu)@, value),
        emu_wf(final(emu)@),
        access_keeps(old(emu)@, final(emu)@),
{
    emu.gpu.vram.write_bank_control_b(BankControl(value));
}

/// The machine after a write of `value` to the control register of video memory bank C.
pub open spec fn with_bank_control_c_written(v: EmuView, value: u8) -> EmuView {
    with_vram(v, bank_control_written(v.gpu.vram, 2, BankControl(value)))
}

/// Writes the control register of video memory bank C.
fn write_bank_control_c(emu: &mut Emu, value: u8)
    requires
        emu_wf(old(emu)@),
    ensures
        final(emu)@ == with_bank_control_c_written(old(emu)@, value),
        emu_wf(final(emu)@),
        access_keeps(old(emu)@, final(emu)@),
{
    emu.gpu.vram.write_bank_control_c(BankControl(value));
}

/// The machine after a write of `value` to the control register of video memory bank D.
pub open spec fn with_bank_control_d_written(v: EmuView, value: u8) -> EmuView {
    with_vram(v, bank_control_written(v.gpu.vram, 3, BankControl(value)))
}

/// Writes the control register of video memory bank D.
fn write_bank_control_d(emu: &mut Emu, value: u8)
    requires
        emu_wf(old(emu)@),
    ensures
        final(emu)@ == with_bank_control_d_written(old(emu)@, value),
        emu_wf(final(emu)@),
        access_keeps(old(emu)@, final(emu)@),
{
    emu.gpu.vram.write_bank_control_d(BankControl(value));
}

/// The machine after a write of `value` to the control register of video memory bank E.
pub open spec fn with_bank_control_e_written(v: EmuView, value: u8) -> EmuView {
    with_vram(v, bank_control_written(v.gpu.vram, 4, BankControl(value)))
}

/// Writes the control register of video memory bank E.
fn write_bank_control_e(emu: &mut Emu, value: u8)
    requires
        emu_wf(old(emu)@),
    ensures
        final(emu)@ == with_bank_control_e_written(old(emu)@, value),
        emu_wf(final(emu)@),
        access_keeps(old(emu)@, final(emu)@),
{
    emu.gpu.vram.write_bank_control_e(BankControl(value));
}

/// The machine after a write of `value` to the control register of video memory bank F.
pub open spec fn with_bank_control_f_written(v: EmuView, value: u8) -> EmuView {
    with_vram(v, bank_control_written(v.gpu.vram, 5, BankControl(value)))
}

/// Writes the control register of video memory bank F.
fn write_bank_control_f(emu: &mut Emu, value: u8)
    requires
        emu_wf(old(emu)@),
    ensures
        final(emu)@ == with_bank_control_f_written(old(emu)@, value),
        emu_wf(final(emu)@),
        access_keeps(old(emu)@, final(emu)@),
{
    emu.gpu.vram.write_bank_control_f(BankControl(value));
}

/// The machine after a write of `value` to the control register of video memory bank G.
pub open spec fn with_bank_control_g_written(v: EmuView, value: u8) -> EmuView {
    with_vram(v, bank_control_written(v.gpu.vram, 6, BankControl(value)))
}

/// Writes the control register of video memory bank G.
fn write_bank_control_g(emu: &mut Emu, value: u8)
    requires
        emu_wf(old(emu)@),
    ensures
        final(emu)@ == with_bank_control_g_written(old(emu)@, value),
        emu_wf(final(emu)@),
        access_keeps(old(emu)@, final(emu)@),
{
    emu.gpu.vram.write_bank_control_g(BankControl(value));
}

/// The machine after a write of `value` to the control register of video memory bank H.
pub open spec fn with_bank_control_h_written(v: EmuView, value: u8) -> EmuView {
    with_vram(v, bank_control_written(v.gpu.vram, 7, BankControl(value)))
}

/// Writes the control register of video memory bank H.
fn write_bank_control_h(emu: &mut Emu, value: u8)
    requires
        emu_wf(old(emu)@),
    ensures
        final(emu)@ == with_bank_control_h_written(old(emu)@, value),
        emu_wf(final(emu)@),
        access_keeps(old(emu)@, final(emu)@),
{
    emu.gpu.vram.write_bank_control_h(BankControl(value));
}

/// The machine after a write of `value` to the control register of video memory bank I.
pub open spec fn with_bank_control_i_written(v: EmuView, value: u8) -> EmuView {
    with_vram(v, bank_control_written(v.gpu.vram, 8, BankControl(value)))
}

/// Writes the control register of video memory bank I.
fn write_bank_control_i(emu: &mut Emu, value: u8)
    requires
        emu_wf(old(emu)@),
    ensures
        final(emu)@ == with_bank_control_i_written(old(emu)@, value),
        emu_wf(final(emu)@),
        access_keeps(old(emu)@, final(emu)@),
{
    emu.gpu.vram.write_bank_control_i(BankControl(value));
}

/// The machine after a write of `value` to the control register of the shared working RAM.
pub open spec fn with_swram_control_written(v: EmuView, value: u8) -> EmuView {
    EmuView { swram: SwramView { control: value & 3, ..v.swram }, ..v }
}

/// Writes the control register of the shared working RAM.
fn write_swram_control(emu: &mut Emu, value: u8)
    requires
        emu_wf(old(emu)@),
    ensures
        final(emu)@ == with_swram_control_written(old(emu)@, value),
        emu_wf(final(emu)@),
        access_keeps(old(emu)@, final(emu)@),
{
    emu.swram.write_control(SwramControl(value));
}

/// The machine after a write of `value` to the post-boot flag: its bit 0 stays once it is set.
pub open spec fn with_post_boot_flag_written(v: EmuView, value: u8) -> EmuView {
    with_arm9(v, Arm9View { post_boot_flag: (v.arm9.post_boot_flag & 1) | (value & 3), ..v.arm9 })
}

/// Writes the post-boot flag: its bit 0 stays once it is set.
fn write_post_boot_flag(emu: &mut Emu, value: u8)
    requires
        emu_wf(old(emu)@),
    ensures
        final(emu)@ == with_post_boot_flag_written(old(emu)@, value),
        emu_wf(final(emu)@),
        access_keeps(old(emu)@, final(emu)@),
{
    emu.arm9.post_boot_flag = (emu.arm9.post_boot_flag & 1) | (value & 3);
}

/// The machine after a write of `value` to the power control register.
pub open spec fn with_power_control_written(v: EmuView, value: u16) -> EmuView {
    with_gpu(v, power_control_written(v.gpu, value))
}

/// Writes the power control register.
fn write_power_control(emu: &mut Emu, value: u16)
    requires
        emu_wf(old(emu)@),
    ensures
        final(emu)@ == with_power_control_written(old(emu)@, value),
        emu_wf(final(emu)@),
        access_keeps(old(emu)@, final(emu)@),
{
    emu.gpu.write_power_control(value);
}

/// The machine after a write of the halfword `value` to the I/O register at `a`; `a` is
/// even and counts from the start of the I/O registers. A write to no register changes
/// nothing.
#[verifier::opaque]
pub open spec fn io_written_16(v: EmuView, a: u32, value: u16) -> EmuView {
    if engine_writes_at(a) {
        with_engine_a_written(v, a, value)
    } else if a == 0x004 {
        with_disp_status_written(v, value)
    } else if a == 0x006 {
        with_vcount_written(v, value)
    } else if a == 0x060 {
        with_rendering_control_written(v, value)
    } else if a == 0xb0 {
        with_dma_src_written(v, 0, (v.arm9.dma.channels[0].src_addr & 0xFFFF_0000) | (value as u32))
    } else if a == 0xb2 {
        with_dma_src_written(v, 0, (v.arm9.dma.channels[0].src_addr & 0x0000_FFFF) | ((value as u32) << 16))
    } else if a == 0xb4 {
        with_dma_dst_written(v, 0, (v.arm9.dma.channels[0].dst_addr & 0xFFFF_0000) | (value as u32))
    } else if a == 0xb6 {
        with_dma_dst_written(v, 0, (v.arm9.dma.channels[0].dst_addr & 0x0000_FFFF) | ((value as u32) << 16))
    } else if a == 0xb8 {
        with_dma_control_low_written(v, 0, value)
    } else if a == 0xba {
        with_dma_control_written(v, 0, (v.arm9.dma.channels[0].control.0 & 0x0000_FFFF) | ((value as u32) << 16))
    } else if a == 0xbc {
        with_dma_src_written(v, 1, (v.arm9.dma.channels[1].src_addr & 0xFFFF_0000) | (value as u32))
    } else if a == 0xbe {
        with_dma_src_written(v, 1, (v.arm9.dma.channels[1].src_addr & 0x0000_FFFF) | ((value as u32) << 16))
    } else if a == 0xc0 {
        with_dma_dst_written(v, 1, (v.arm9.dma.channels[1].dst_addr & 0xFFFF_0000) | (value as u32))
    } else if a == 0xc2 {
        with_dma_dst_written(v, 1, (v.arm9.dma.channels[1].dst_addr & 0x0000_FFFF) | ((value as u32) << 16))
    } else if a == 0xc4 {
        with_dma_control_low_written(v, 1, value)
    } else if a == 0xc6 {
        with_dma_control_written(v, 1, (v.arm9.dma.channels[1].control.0 & 0x0000_FFFF) | ((value as u32) << 16))
    } else if a == 0xc8 {
        with_dma_src_written(v, 2, (v.arm9.dma.channels[2].src_addr & 0xFFFF_0000) | (value as u32))
    } else if a == 0xca {
        with_dma_src_written(v, 2, (v.arm9.dma.channels[2].src_addr & 0x0000_FFFF) | ((value as u32) << 16))
    } else if a == 0xcc {
        with_dma_dst_written(v, 2, (v.arm9.dma.channels[2].dst_addr & 0xFFFF_0000) | (value as u32))
    } else if a == 0xce {
        with_dma_dst_written(v, 2, (v.arm9.dma.channels[2].dst_addr & 0x0000_FFFF) | ((value as u32) << 16))
    } else if a == 0xd0 {
        with_dma_control_low_written(v, 2, value)
    } else if a == 0xd2 {
        with_dma_control_written(v, 2, (v.arm9.dma.channels[2].control.0 & 0x0000_FFFF) | ((value as u32) << 16))
    } else if a == 0xd4 {
        with_dma_src_written(v, 3, (v.arm9.dma.channels[3].src_addr & 0xFFFF_0000) | (value as u32))
    } else if a == 0xd6 {
        with_dma_src_written(v, 3, (v.arm9.dma.channels[3].src_addr & 0x0000_FFFF) | ((value as u32) << 16))
    } else if a == 0xd8 {
        with_dma_dst_written(v, 3, (v.arm9.dma.channels[3].dst_addr & 0xFFFF_0000) | (value as u32))
    } else if a == 0xda {
        with_dma_dst_written(v, 3, (v.arm9.dma.channels[3].dst_addr & 0x0000_FFFF) | ((value as u32) << 16))
    } else if a == 0xdc {
        with_dma_control_low_written(v, 3, value)
    } else if a == 0xde {
        with_dma_control_written(v, 3, (v.arm9.dma.channels[3].control.0 & 0x0000_FFFF) | ((value as u32) << 16))
    } else if 0x0E0 <= a <= 0x0EE {
        with_dma_fill_written(with_dma_fill_written(v, (a - 0xE0) as usize, value as u8), (a - 0xDF) as usize, (value >> 8) as u8)
    } else if a == 0x100 {
        with_timer_reload_written(v, 0, value)
    } else if a == 0x102 {
        with_timer_control_written(v, 0, value as u8)
    } else if a == 0x104 {
        with_timer_reload_written(v, 1, value)
    } else if a == 0x106 {
        with_timer_control_written(v, 1, value as u8)
    } else if a == 0x108 {
        with_timer_reload_written(v, 2, value)
    } else if a == 0x10a {
        with_timer_control_written(v, 2, value as u8)
    } else if a == 0x10c {
        with_timer_reload_written(v, 3, value)
    } else if a == 0x10e {
        with_timer_control_written(v, 3, value as u8)
    } else if a == 0x132 {
        with_key_irq_control_written(v, value)
    } else if a == 0x180 {
        with_ipc_sync_written(v, value)
    } else if a == 0x184 {
        with_ipc_fifo_control_written(v, value)
    } else if a == 0x1A0 {
        with_spi_control_written(v, value)
    } else if a == 0x1A2 {
        with_spi_data_written(v, value as u8)
    } else if a == 0x1A4 {
        with_rom_control_written(v, (v.ds_slot.rom_control & 0xFFFF_0000) | (value as u32))
    } else if a == 0x1A6 {
        with_rom_control_written(v, (v.ds_slot.rom_control & 0x0000_FFFF) | ((value as u32) << 16))
    } else if 0x1A8 <= a <= 0x1AE {
        with_rom_cmd_written(with_rom_cmd_written(v, (a - 0x1A8) as usize, value as u8), (a - 0x1A7) as usize, (value >> 8) as u8)
    } else if a == 0x204 {
        with_global_ex_mem_control_written(with_local_ex_mem_control_written(v, value as u8), value)
    } else if a == 0x208 {
        with_master_enable_written(v, value & 1 != 0)
    } else if a == 0x240 {
        with_bank_control_b_written(with_bank_control_a_written(v, value as u8), (value >> 8) as u8)
    } else if a == 0x242 {
        with_bank_control_d_written(with_bank_control_c_written(v, value as u8), (value >> 8) as u8)
    } else if a == 0x244 {
        with_bank_control_f_written(with_bank_control_e_written(v, value as u8), (value >> 8) as u8)
    } else if a == 0x246 {
        with_swram_control_written(with_bank_control_g_written(v, value as u8), (value >> 8) as u8)
    } else if a == 0x248 {
        with_bank_control_i_written(with_bank_control_h_written(v, value as u8), (value >> 8) as u8)
    } else if a == 0x300 {
        with_post_boot_flag_written(v, value as u8)
    } else if a == 0x304 {
        with_power_control_written(v, value)
    } else if 0x1000 <= a && engine_writes_at((a - 0x1000) as u32) {
        with_engine_b_written(v, (a - 0x1000) as u32, value)
    } else {
        v
    }
}

/// Writes a halfword to the I/O register at `a`.
#[verifier::rlimit(100)]
fn io_write_16(emu: &mut Emu, a: u32, value: u16)
    requires
        emu_wf(old(emu)@),
        a % 2 == 0,
    ensures
        final(emu)@ == io_written_16(old(emu)@, a, value),
        emu_wf(final(emu)@),
        access_keeps(old(emu)@, final(emu)@),
{
    reveal(io_written_16);
    match a {
        0x000..=0x002 | 0x008..=0x056 | 0x064..=0x06C => write_engine_a(emu, a, value),
        0x004 => write_disp_status(emu, value),
        0x006 => write_vcount(emu, value),
        0x060 => write_rendering_control(emu, value),
        0xb0 => {
            let cur = emu.arm9.dma.channels[0].src_addr;
            write_dma_src(emu, dma::Index::new(0), (cur & 0xFFFF_0000) | (value as u32))
        },
        0xb2 => {
            let cur = emu.arm9.dma.channels[0].src_addr;
            write_dma_src(emu, dma::Index::new(0), (cur & 0x0000_FFFF) | ((value as u32) << 16))
        },
        0xb4 => {
            let cur = emu.arm9.dma.channels[0].dst_addr;
            write_dma_dst(emu, dma::Index::new(0), (cur & 0xFFFF_0000) | (value as u32))
        },
        0xb6 => {
            let cur = emu.arm9.dma.channels[0].dst_addr;
            write_dma_dst(emu, dma::Index::new(0), (cur & 0x0000_FFFF) | ((value as u32) << 16))
        },
        0xb8 => write_dma_control_low(emu, dma::Index::new(0), value),
        0xba => {
            let cur = emu.arm9.dma.channels[0].control.0;
            write_dma_control(emu, dma::Index::new(0), (cur & 0x0000_FFFF) | ((value as u32) << 16))
        },
        0xbc => {
            let cur = emu.arm9.dma.channels[1].src_addr;
            write_dma_src(emu, dma::Index::new(1), (cur & 0xFFFF_0000) | (value as u32))
        },
        0xbe => {
            let cur = emu.arm9.dma.channels[1].src_addr;
            write_dma_src(emu, dma::Index::new(1), (cur & 0x0000_FFFF) | ((value as u32) << 16))
        },
        0xc0 => {
            let cur = emu.arm9.dma.channels[1].dst_addr;
            write_dma_dst(emu, dma::Index::new(1), (cur & 0xFFFF_0000) | (value as u32))
        },
        0xc2 => {
            let cur = emu.arm9.dma.channels[1].dst_addr;
            write_dma_dst(emu, dma::Index::new(1), (cur & 0x0000_FFFF) | ((value as u32) << 16))
        },
        0xc4 => write_dma_control_low(emu, dma::Index::new(1), value),
        0xc6 => {
            let cur = emu.arm9.dma.channels[1].control.0;
            write_dma_control(emu, dma::Index::new(1), (cur & 0x0000_FFFF) | ((value as u32) << 16))
        },
        0xc8 => {
            let cur = emu.arm9.dma.channels[2].src_addr;
            write_dma_src(emu, dma::Index::new(2), (cur & 0xFFFF_0000) | (value as u32))
        },
        0xca => {
            let cur = emu.arm9.dma.channels[2].src_addr;
            write_dma_src(emu, dma::Index::new(2), (cur & 0x0000_FFFF) | ((value as u32) << 16))
        },
        0xcc => {
            let cur = emu.arm9.dma.channels[2].dst_addr;
            write_dma_dst(emu, dma::Index::new(2), (cur & 0xFFFF_0000) | (value as u32))
        },
        0xce => {
            let cur = emu.arm9.dma.channels[2].dst_addr;
            write_dma_dst(emu, dma::Index::new(2), (cur & 0x0000_FFFF) | ((value as u32) << 16))
        },
        0xd0 => write_dma_control_low(emu, dma::Index::new(2), value),
        0xd2 => {
            let cur = emu.arm9.dma.channels[2].control.0;
            write_dma_control(emu, dma::Index::new(2), (cur & 0x0000_FFFF) | ((value as u32) << 16))
        },
        0xd4 => {
            let cur = emu.arm9.dma.channels[3].src_addr;
            write_dma_src(emu, dma::Index::new(3), (cur & 0xFFFF_0000) | (value as u32))
        },
        0xd6 => {
            let cur = emu.arm9.dma.channels[3].src_addr;
            write_dma_src(emu, dma::Index::new(3), (cur & 0x0000_FFFF) | ((value as u32) << 16))
        },
        0xd8 => {
            let cur = emu.arm9.dma.channels[3].dst_addr;
            write_dma_dst(emu, dma::Index::new(3), (cur & 0xFFFF_0000) | (value as u32))
        },
        0xda => {
            let cur = emu.arm9.dma.channels[3].dst_addr;
            write_dma_dst(emu, dma::Index::new(3), (cur & 0x0000_FFFF) | ((value as u32) << 16))
        },
        0xdc => write_dma_control_low(emu, dma::Index::new(3), value),
        0xde => {
            let cur = emu.arm9.dma.channels[3].control.0;
            write_dma_control(emu, dma::Index::new(3), (cur & 0x0000_FFFF) | ((value as u32) << 16))
        },
        0x0E0..=0x0EE => {
            write_dma_fill(emu, (a - 0xE0) as usize, #[verifier::truncate] (value as u8));
            write_dma_fill(emu, (a - 0xDF) as usize, #[verifier::truncate] ((value >> 8) as u8))
        },
        0x100 => write_timer_reload(emu, timers::Index::new(0), value),
        0x102 => write_timer_control(emu, timers::Index::new(0), #[verifier::truncate] (value as u8)),
        0x104 => write_timer_reload(emu, timers::Index::new(1), value),
        0x106 => write_timer_control(emu, timers::Index::new(1), #[verifier::truncate] (value as u8)),
        0x108 => write_timer_reload(emu, timers::Index::new(2), value),
        0x10a => write_timer_control(emu, timers::Index::new(2), #[verifier::truncate] (value as u8)),
        0x10c => write_timer_reload(emu, timers::Index::new(3), value),
        0x10e => write_timer_control(emu, timers::Index::new(3), #[verifier::truncate] (value as u8)),
        0x132 => write_key_irq_control(emu, value),
        0x180 => write_ipc_sync(emu, value),
        0x184 => write_ipc_fifo_control(emu, value),
        0x1A0 => write_spi_control(emu, value),
        0x1A2 => write_spi_data(emu, #[verifier::truncate] (value as u8)),
        0x1A4 => {
            let cur = emu.ds_slot.rom_control.0;
            write_rom_control(emu, (cur & 0xFFFF_0000) | (value as u32))
        },
        0x1A6 => {
            let cur = emu.ds_slot.rom_control.0;
            write_rom_control(emu, (cur & 0x0000_FFFF) | ((value as u32) << 16))
        },
        0x1A8..=0x1AE => {
            write_rom_cmd(emu, (a - 0x1A8) as usize, #[verifier::truncate] (value as u8));
            write_rom_cmd(emu, (a - 0x1A7) as usize, #[verifier::truncate] ((value >> 8) as u8))
        },
        0x204 => {
            write_local_ex_mem_control(emu, #[verifier::truncate] (value as u8));
            write_global_ex_mem_control(emu, value)
        },
        0x208 => write_master_enable(emu, value & 1 != 0),
        0x240 => {
            write_bank_control_a(emu, #[verifier::truncate] (value as u8));
            write_bank_control_b(emu, #[verifier::truncate] ((value >> 8) as u8))
        },
        0x242 => {
            write_bank_control_c(emu, #[verifier::truncate] (value as u8));
            write_bank_control_d(emu, #[verifier::truncate] ((value >> 8) as u8))
        },
        0x244 => {
            write_bank_control_e(emu, #[verifier::truncate] (value as u8));
            write_bank_control_f(emu, #[verifier::truncate] ((value >> 8) as u8))
        },
        0x246 => {
            write_bank_control_g(emu, #[verifier::truncate] (value as u8));
            write_swram_control(emu, #[verifier::truncate] ((value >> 8) as u8))
        },
        0x248 => {
            write_bank_control_h(emu, #[verifier::truncate] (value as u8));
            write_bank_control_i(emu, #[verifier::truncate] ((value >> 8) as u8))
        },
        0x300 => write_post_boot_flag(emu, #[verifier::truncate] (value as u8)),
        0x304 => write_power_control(emu, value),
        0x1000..=0x1002 | 0x1008..=0x1056 | 0x1064..=0x106C => write_engine_b(emu, a - 0x1000, value),
        _ => {},
    }
}

/// A halfword with one of its bytes replaced: the upper one if `upper`, else the lower.
pub open spec fn with_byte(halfword: u16, upper: bool, value: u8) -> u16 {
    if upper {
        (halfword & 0x00FF) | ((value as u16) << 8)
    } else {
        (halfword & 0xFF00) | (value as u16)
    }
}

/// A halfword with one of its bytes replaced.
fn merge_byte(halfword: u16, upper: bool, value: u8) -> (merged: u16)
    ensures
        merged == with_byte(halfword, upper, value),
{
    if upper {
        (halfword & 0x00FF) | ((value as u16) << 8)
    } else {
        (halfword & 0xFF00) | (value as u16)
    }
}

/// The machine after a write of the byte `value` to the I/O register at `a`, which counts
/// from the start of the I/O registers. The other byte of the register's halfword stays.
/// The registers of the timers and of the DMA channels take no bytes.
#[verifier::opaque]
pub open spec fn io_written_8(v: EmuView, a: u32, value: u8) -> EmuView {
    let h = (a - a % 2) as u32;
    let upper = a % 2 == 1;
    if engine_writes_at(h) {
        with_engine_a_written(v, h, with_byte(register_raw_16(v.gpu.engine_2d_a, h), upper, value))
    } else if h == 0x004 {
        with_disp_status_written(v, with_byte(v.gpu.disp_status_9, upper, value))
    } else if a == 0x060 {
        with_rendering_control_written(v, (v.gpu.rendering_control & 0x4F00) | (value as u16))
    } else if a == 0x061 {
        with_rendering_control_written(v, with_byte(v.gpu.rendering_control, true, value))
    } else if 0x0E0 <= a <= 0x0EF {
        with_dma_fill_written(v, (a - 0xE0) as usize, value)
    } else if h == 0x132 {
        with_key_irq_control_written(v, with_byte(v.arm9_key_irq_control, upper, value))
    } else if a == 0x181 {
        with_ipc_sync_written(v, with_byte(sync_read(v.ipc, 1), true, value))
    } else if a == 0x184 {
        with_ipc_fifo_control_written(v, (fifo_control_read(v.ipc, 1) & 0xBF00) | (value as u16))
    } else if a == 0x185 {
        with_ipc_fifo_control_written(v, with_byte(fifo_control_read(v.ipc, 1), true, value))
    } else if h == 0x1A0 {
        with_spi_control_written(v, with_byte(v.ds_slot.spi_control, upper, value))
    } else if a == 0x1A2 {
        with_spi_data_written(v, value)
    } else if 0x1A8 <= a <= 0x1AF {
        with_rom_cmd_written(v, (a - 0x1A8) as usize, value)
    } else if a == 0x204 {
        with_global_ex_mem_control_written(
            with_local_ex_mem_control_written(v, value),
            with_byte(v.global_ex_mem_control, false, value),
        )
    } else if a == 0x205 {
        with_global_ex_mem_control_written(v, with_byte(v.global_ex_mem_control, true, value))
    } else if a == 0x208 {
        with_master_enable_written(v, value & 1 != 0)
    } else if a == 0x240 {
        with_bank_control_a_written(v, value)
    } else if a == 0x241 {
        with_bank_control_b_written(v, value)
    } else if a == 0x242 {
        with_bank_control_c_written(v, value)
    } else if a == 0x243 {
        with_bank_control_d_written(v, value)
    } else if a == 0x244 {
        with_bank_control_e_written(v, value)
    } else if a == 0x245 {
        with_bank_control_f_written(v, value)
    } else if a == 0x246 {
        with_bank_control_g_written(v, value)
    } else if a == 0x247 {
        with_swram_control_written(v, value)
    } else if a == 0x248 {
        with_bank_control_h_written(v, value)
    } else if a == 0x249 {
        with_bank_control_i_written(v, value)
    } else if a == 0x300 {
        with_post_boot_flag_written(v, value)
    } else if 0x1000 <= h && engine_writes_at((h - 0x1000) as u32) {
        with_engine_b_written(
            v,
            (h - 0x1000) as u32,
            with_byte(register_raw_16(v.gpu.engine_2d_b, (h - 0x1000) as u32), upper, value),
        )
    } else {
        v
    }
}

/// Writes a byte to the I/O register at `a`.
#[verifier::rlimit(100)]
fn io_write_8(emu: &mut Emu, a: u32, value: u8)
    requires
        emu_wf(old(emu)@),
    ensures
        final(emu)@ == io_written_8(old(emu)@, a, value),
        emu_wf(final(emu)@),
        access_keeps(old(emu)@, final(emu)@),
{
    reveal(io_written_8);
    let h = a - a % 2;
    let upper = a % 2 == 1;
    match a {
        0x000..=0x003 | 0x008..=0x057 | 0x064..=0x06D => {
            let raw = emu.gpu.engine_2d_a.raw_16(h);
            write_engine_a(emu, h, merge_byte(raw, upper, value))
        },
        0x004 | 0x005 => {
            let raw = emu.gpu.disp_status_9;
            write_disp_status(emu, merge_byte(raw, upper, value))
        },
        0x060 => {
            let raw = emu.gpu.rendering_control;
            write_rendering_control(emu, (raw & 0x4F00) | (value as u16))
        },
        0x061 => {
            let raw = emu.gpu.rendering_control;
            write_rendering_control(emu, merge_byte(raw, true, value))
        },
        0x0E0..=0x0EF => write_dma_fill(emu, (a - 0xE0) as usize, value),
        0x132 | 0x133 => {
            let raw = emu.arm9_key_irq_control;
            write_key_irq_control(emu, merge_byte(raw, upper, value))
        },
        0x181 => {
            let raw = emu.ipc.sync(1).0;
            write_ipc_sync(emu, merge_byte(raw, true, value))
        },
        0x184 => {
            let raw = emu.ipc.fifo_control(1).0;
            write_ipc_fifo_control(emu, (raw & 0xBF00) | (value as u16))
        },
        0x185 => {
            let raw = emu.ipc.fifo_control(1).0;
            write_ipc_fifo_control(emu, merge_byte(raw, true, value))
        },
        0x1A0 | 0x1A1 => {
            let raw = emu.ds_slot.spi_control.0;
            write_spi_control(emu, merge_byte(raw, upper, value))
        },
        0x1A2 => write_spi_data(emu, value),
        0x1A8..=0x1AF => write_rom_cmd(emu, (a - 0x1A8) as usize, value),
        0x204 => {
            let raw = emu.global_ex_mem_control;
            write_local_ex_mem_control(emu, value);
            write_global_ex_mem_control(emu, merge_byte(raw, false, value))
        },
        0x205 => {
            let raw = emu.global_ex_mem_control;
            write_global_ex_mem_control(emu, merge_byte(raw, true, value))
        },
        0x208 => write_master_enable(emu, value & 1 != 0),
        0x240 => write_bank_control_a(emu, value),
        0x241 => write_bank_control_b(emu, value),
        0x242 => write_bank_control_c(emu, value),
        0x243 => write_bank_control_d(emu, value),
        0x244 => write_bank_control_e(emu, value),
        0x245 => write_bank_control_f(emu, value),
        0x246 => write_bank_control_g(emu, value),
        0x247 => write_swram_control(emu, value),
        0x248 => write_bank_control_h(emu, value),
        0x249 => write_bank_control_i(emu, value),
        0x300 => write_post_boot_flag(emu, value),
        0x1000..=0x1003 | 0x1008..=0x1057 | 0x1064..=0x106D => {
            let raw = emu.gpu.engine_2d_b.raw_16(h - 0x1000);
            write_engine_b(emu, h - 0x1000, merge_byte(raw, upper, value))
        },
        _ => {},
    }
}

/// The machine after the ARM9 receives a word from the IPC queue.
pub open spec fn with_ipc_received(v: EmuView) -> EmuView {
    EmuView {
        ipc: received(v.ipc, 1),
        arm7: Arm7View {
            irqs: if receive_requests_irq(v.ipc, 1) {
                woken(
                    IrqsView {
                        requested: v.arm7.irqs.requested | IRQ_IPC_SEND_FIFO_EMPTY,
                        ..v.arm7.irqs
                    },
                )
            } else {
                v.arm7.irqs
            },
            ..v.arm7
        },
        ..v
    }
}

/// The machine after the ARM9 reads a word of the cartridge's answer.
pub open spec fn with_rom_data_read(v: EmuView) -> EmuView {
    EmuView {
        ds_slot: rom_data_read(v.ds_slot),
        arm9: Arm9View {
            irqs: if read_ends_transfer(v.ds_slot) {
                irqs_after_transfer(v.ds_slot, v.arm9.irqs)
            } else {
                v.arm9.irqs
            },
            times: if read_continues_transfer(v.ds_slot) {
                v.arm9.times.update(
                    SLOT_DS_SLOT_ROM as int,
                    Some(next_word_time(v.arm9.now, v.ds_slot.rom_control)),
                )
            } else {
                v.arm9.times
            },
            ..v.arm9
        },
        ..v
    }
}

/// The word that a read of the I/O registers at `a` returns, and the machine after the
/// read; `a` is a multiple of four and counts from the start of the I/O registers. The
/// IPC receive register and the data register of the cartridge slot are words of their
/// own: a read takes a word out, but for a debug read, which only looks. Every other word
/// is made of two halfwords, the lower one read first.
#[verifier::opaque]
pub open spec fn io_read_32_of(v: EmuView, a: u32, debug: bool) -> (u32, EmuView) {
    if a == 0x10_0000 {
        (received_value(v.ipc, 1), if debug {
            v
        } else {
            with_ipc_received(v)
        })
    } else if a == 0x10_0010 {
        if !v.ds_slot.arm9_access {
            (0u32, v)
        } else {
            (rom_data(v.ds_slot), if debug {
                v
            } else {
                with_rom_data_read(v)
            })
        }
    } else {
        let v1 = io_read(v, a);
        let v2 = io_read(v1, (a + 2) as u32);
        ((io_halfword(v1, a) as u32) | ((io_halfword(v2, (a + 2) as u32) as u32) << 16), v2)
    }
}

/// Reads a word from the I/O registers at `a`.
fn io_read_32(emu: &mut Emu, a: u32, debug: bool) -> (value: u32)
    requires
        emu_wf(old(emu)@),
        a % 4 == 0,
        a < 0x100_0000,
    ensures
        (value, final(emu)@) == io_read_32_of(old(emu)@, a, debug),
        emu_wf(final(emu)@),
        access_keeps(old(emu)@, final(emu)@),
{
    reveal(io_read_32_of);
    if a == 0x10_0000 {
        if debug {
            emu.ipc.peek(1)
        } else {
            let value = emu.ipc.recv(1, &mut emu.arm7.irqs, &mut emu.arm7.schedule);
            emu.ipc.check_wf();
            value
        }
    } else if a == 0x10_0010 {
        if !emu.ds_slot.arm9_access() {
            0
        } else if debug {
            emu.ds_slot.peek_rom_data()
        } else {
            emu.ds_slot.read_rom_data(&mut emu.arm9.irqs, &mut emu.arm9.schedule)
        }
    } else {
        let lo = io_read_16(emu, a);
        let hi = io_read_16(emu, a + 2);
        (lo as u32) | ((hi as u32) << 16)
    }
}

/// The machine after a write of the word `value` to the I/O registers at `a`; `a` is a
/// multiple of four. The timers take their reload value and their control value in one,
/// the IPC send register, the ROM control register and the two interrupt registers are
/// words of their own; every other word is written as two halfwords, the lower one first.
#[verifier::opaque]
pub open spec fn io_written_32(v: EmuView, a: u32, value: u32) -> EmuView {
    if a == 0x100 || a == 0x104 || a == 0x108 || a == 0x10C {
        with_timer_control_reload_written(
            v,
            (a - 0x100) as int / 4,
            value as u16,
            (value >> 16) as u8,
        )
    } else if a == 0x188 {
        with_ipc_send_written(v, value)
    } else if a == 0x1A4 {
        with_rom_control_written(v, value)
    } else if a == 0x210 {
        with_irqs_enabled_written(v, value)
    } else if a == 0x214 {
        with_irqs_requested_written(v, value)
    } else {
        io_written_16(io_written_16(v, a, value as u16), (a + 2) as u32, (value >> 16) as u16)
    }
}

/// Writes a word to the I/O registers at `a`.
fn io_write_32(emu: &mut Emu, a: u32, value: u32)
    requires
        emu_wf(old(emu)@),
        a % 4 == 0,
        a < 0x100_0000,
    ensures
        final(emu)@ == io_written_32(old(emu)@, a, value),
        emu_wf(final(emu)@),
        access_keeps(old(emu)@, final(emu)@),
{
    reveal(io_written_32);
    match a {
        0x100 | 0x104 | 0x108 | 0x10C => write_timer_control_reload(
            emu,
            timers::Index::new(((a - 0x100) / 4) as u8),
            #[verifier::truncate] (value as u16),
            #[verifier::truncate] ((value >> 16) as u8),
        ),
        0x188 => write_ipc_send(emu, value),
        0x1A4 => write_rom_control(emu, value),
        0x210 => write_irqs_enabled(emu, value),
        0x214 => write_irqs_requested(emu, value),
        _ => {
            io_write_16(emu, a, #[verifier::truncate] (value as u16));
            io_write_16(emu, a + 2, #[verifier::truncate] ((value >> 16) as u16));
        },
    }
}

/// The bytes that the ARM9 finds at an address outside the I/O registers: the memory that
/// its region holds and the place of the address in it, if the region holds memory that
/// shows there. Main memory, the palettes and the object attributes repeat throughout
/// their regions; the shared working RAM shows as its control register splits it; video
/// memory shows what its banks are mapped to; the BIOS lies in the 4 KiB from 0xFFFF0000.
pub open spec fn memory_at(v: EmuView, addr: u32) -> Option<(Seq<u8>, int)> {
    let region = addr as int / 0x100_0000;
    if region == 0x02 {
        Some((v.main_mem, addr as int % 0x40_0000))
    } else if region == 0x03 {
        match location(v.swram.control, true, addr) {
            Some(at) => Some((v.swram.contents, at)),
            None => None,
        }
    } else if region == 0x05 {
        Some((v.gpu.vram.palette, addr as int % 0x800))
    } else if region == 0x06 {
        match vram_place(addr) {
            Some((usage, at)) => Some((v.gpu.vram.windows[usage], at)),
            None => match lcdc_place((addr % 0x10_0000) as u32) {
                Some((bank, at)) => if v.gpu.vram.lcdc[bank] {
                    Some((v.gpu.vram.banks[bank], at))
                } else {
                    None
                },
                None => None,
            },
        }
    } else if region == 0x07 {
        Some((v.gpu.vram.oam, addr as int % 0x800))
    } else if region == 0xFF && addr >= 0xFFFF_0000 && addr < 0xFFFF_1000 {
        Some((v.arm9.bios, addr as int % 0x1000))
    } else {
        None
    }
}

/// What a read of the halfword at `addr` returns where no memory shows: the GBA slot shows
/// the number of the halfword in its ROM region and ones in its RAM region, or zeros where
/// it belongs to the ARM7; everything else reads as zero.
pub open spec fn open_bus_halfword(v: EmuView, addr: u32) -> u16 {
    let region = addr as int / 0x100_0000;
    if v.global_ex_mem_control & 0x80 != 0 {
        0
    } else if region == 0x08 || region == 0x09 {
        gba_rom_halfword(addr)
    } else if region == 0x0A {
        0xFFFF
    } else {
        0
    }
}

/// The byte that a read at `addr` returns, and the machine after the read.
#[verifier::opaque]
pub open spec fn read_8_of(v: EmuView, addr: u32) -> (u8, EmuView) {
    if addr as int / 0x100_0000 == 0x04 {
        let a = (addr % 0x100_0000) as u32;
        let h = (a - a % 2) as u32;
        let after = io_read(v, h);
        ((io_halfword(after, h) >> ((8 * (a % 2)) as u16)) as u8, after)
    } else {
        match memory_at(v, addr) {
            Some((memory, at)) => (memory[at], v),
            None => ((open_bus_halfword(v, (addr - addr % 2) as u32) >> ((8 * (addr % 2)) as u16))
                as u8, v),
        }
    }
}

/// The halfword that a read at `addr` returns, and the machine after the read. The
/// address is brought down to an even one.
#[verifier::opaque]
pub open spec fn read_16_of(v: EmuView, addr: u32) -> (u16, EmuView) {
    let addr = (addr - addr % 2) as u32;
    if addr as int / 0x100_0000 == 0x04 {
        let a = (addr % 0x100_0000) as u32;
        let after = io_read(v, a);
        (io_halfword(after, a), after)
    } else {
        match memory_at(v, addr) {
            Some((memory, at)) => (le_16(memory, at), v),
            None => (open_bus_halfword(v, addr), v),
        }
    }
}

/// The word that a read at `addr` returns, and the machine after the read. The address is
/// brought down to a multiple of four.
#[verifier::opaque]
pub open spec fn read_32_of(v: EmuView, addr: u32, debug: bool) -> (u32, EmuView) {
    let addr = (addr - addr % 4) as u32;
    if addr as int / 0x100_0000 == 0x04 {
        io_read_32_of(v, (addr % 0x100_0000) as u32, debug)
    } else {
        match memory_at(v, addr) {
            Some((memory, at)) => (le_32(memory, at), v),
            None => ((open_bus_halfword(v, addr) as u32) | ((open_bus_halfword(
                v,
                (addr + 2) as u32,
            ) as u32) << 16), v),
        }
    }
}

/// Where the bytes at `addr` are found outside the I/O registers.
enum Place {
    /// In main memory.
    MainMem(usize),
    /// In the shared working RAM.
    Swram(usize),
    /// In the palettes.
    Palette(usize),
    /// In a usage window of video memory.
    Window(usize, usize),
    /// In a bank of video memory, through the LCDC window.
    Lcdc(usize, usize),
    /// In the object attributes.
    Oam(usize),
    /// In the BIOS.
    Bios(usize),
    /// Nowhere.
    Nowhere,
}

/// What a place stands for: the memory and the place in it.
spec fn place_memory(v: EmuView, place: Place) -> Option<(Seq<u8>, int)> {
    match place {
        Place::MainMem(at) => Some((v.main_mem, at as int)),
        Place::Swram(at) => Some((v.swram.contents, at as int)),
        Place::Palette(at) => Some((v.gpu.vram.palette, at as int)),
        Place::Window(usage, at) => Some((v.gpu.vram.windows[usage as int], at as int)),
        Place::Lcdc(bank, at) => Some((v.gpu.vram.banks[bank as int], at as int)),
        Place::Oam(at) => Some((v.gpu.vram.oam, at as int)),
        Place::Bios(at) => Some((v.arm9.bios, at as int)),
        Place::Nowhere => None,
    }
}

/// Finds the bytes at `addr` outside the I/O registers; `addr` is a multiple of `size`,
/// which is 1, 2 or 4.
fn locate(emu: &Emu, addr: u32, size: usize) -> (place: Place)
    requires
        emu_wf(emu@),
        size == 1 || size == 2 || size == 4,
        addr as int % size as int == 0,
    ensures
        place_memory(emu@, place) == memory_at(emu@, addr),
        match place {
            Place::MainMem(at) => at + size <= 0x40_0000,
            Place::Swram(at) => at + size <= 0x8000,
            Place::Palette(at) => at + size <= 0x800,
            Place::Window(usage, at) => usage < 4 && at + size <= usage_len(usage as int) && at
                % size == 0 && vram_place(addr) == Some((usage as int, at as int)),
            Place::Lcdc(bank, at) => bank < 9 && at + size <= bank_len(bank as int)
                && emu@.gpu.vram.lcdc[bank as int] && vram_place(addr) is None && lcdc_place(
                (addr % 0x10_0000) as u32,
            ) == Some((bank as int, at as int)),
            Place::Oam(at) => at + size <= 0x800,
            Place::Bios(at) => at + size <= 0x1000,
            Place::Nowhere => true,
        },
{
    match addr / 0x100_0000 {
        0x02 => Place::MainMem(wrap(addr, 0x40_0000, size)),
        0x03 => match emu.swram.locate(true, addr, size) {
            Some(at) => Place::Swram(at),
            None => Place::Nowhere,
        },
        0x05 => Place::Palette(wrap(addr, 0x800, size)),
        0x06 => match vram_locate(addr, size) {
            Some((usage, at)) => Place::Window(usage, at),
            None => {
                proof {
                    crate::bytes::lemma_wrap_aligned(addr as int, 0x10_0000, size as int);
                }
                match lcdc_locate(addr % 0x10_0000, size) {
                    Some((bank, at)) => if emu.gpu.vram.lcdc_mapped(bank) {
                        Place::Lcdc(bank, at)
                    } else {
                        Place::Nowhere
                    },
                    None => Place::Nowhere,
                }
            },
        },
        0x07 => Place::Oam(wrap(addr, 0x800, size)),
        0xFF => if addr >= 0xFFFF_0000 && addr < 0xFFFF_1000 {
            Place::Bios(wrap(addr, 0x1000, size))
        } else {
            Place::Nowhere
        },
        _ => Place::Nowhere,
    }
}

/// The bytes of the memory that a place lies in.
fn place_bytes<'a>(emu: &'a Emu, place: &Place) -> (bytes: &'a Vec<u8>)
    requires
        emu_wf(emu@),
        !(place is Nowhere),
        place matches Place::Window(usage, at) ==> usage < 9,
        place matches Place::Lcdc(bank, at) ==> bank < 9,
    ensures
        place_memory(emu@, *place) == Some((bytes@, place_memory(emu@, *place).unwrap().1)),
        place matches Place::Window(usage, at) ==> bytes@.len() == usage_len(usage as int),
        place matches Place::Lcdc(bank, at) ==> bytes@.len() == bank_len(bank as int),
        place is MainMem ==> bytes@.len() == 0x40_0000,
        place is Swram ==> bytes@.len() == 0x8000,
        place is Palette ==> bytes@.len() == 0x800,
        place is Oam ==> bytes@.len() == 0x800,
        place is Bios ==> bytes@.len() == 0x1000,
{
    match place {
        Place::MainMem(_) => &emu.main_mem,
        Place::Swram(_) => emu.swram.contents(),
        Place::Palette(_) => emu.gpu.vram.palette(),
        Place::Window(usage, _) => emu.gpu.vram.window(*usage),
        Place::Lcdc(bank, _) => emu.gpu.vram.bank(*bank),
        Place::Oam(_) => emu.gpu.vram.oam(),
        _ => &emu.arm9.bios,
    }
}

/// The index in its memory that a place lies at.
fn place_index(place: &Place) -> (at: usize)
    requires
        !(place is Nowhere),
    ensures
        forall|v: EmuView| (#[trigger] place_memory(v, *place)).unwrap().1 == at,
{
    match place {
        Place::MainMem(at) => *at,
        Place::Swram(at) => *at,
        Place::Palette(at) => *at,
        Place::Window(_, at) => *at,
        Place::Lcdc(_, at) => *at,
        Place::Oam(at) => *at,
        Place::Bios(at) => *at,
        Place::Nowhere => 0,
    }
}

/// What a read of the halfword at `addr` returns where no memory shows.
fn open_bus(emu: &Emu, addr: u32) -> (value: u16)
    ensures
        value == open_bus_halfword(emu@, addr),
{
    if emu.arm7_gba_slot_access() {
        0
    } else {
        match addr / 0x100_0000 {
            0x08 | 0x09 => Arm9::gba_rom_halfword(addr),
            0x0A => 0xFFFF,
            _ => 0,
        }
    }
}

/// Reads the byte at `addr`. The access is a debug access if `debug`; a read of a byte
/// does the same either way.
pub fn read_8(emu: &mut Emu, addr: u32, debug: bool) -> (value: u8)
    requires
        emu_wf(old(emu)@),
    ensures
        (value, final(emu)@) == read_8_of(old(emu)@, addr),
        emu_wf(final(emu)@),
        access_keeps(old(emu)@, final(emu)@),
{
    reveal(read_8_of);
    if addr / 0x100_0000 == 0x04 {
        let a = addr % 0x100_0000;
        let h = a - a % 2;
        let halfword = io_read_16(emu, h);
        #[verifier::truncate]
        ((halfword >> ((8 * (a % 2)) as u16)) as u8)
    } else {
        let place = locate(emu, addr, 1);
        match place {
            Place::Nowhere => {
                let halfword = open_bus(emu, addr - addr % 2);
                #[verifier::truncate]
                ((halfword >> ((8 * (addr % 2)) as u16)) as u8)
            },
            _ => {
                let bytes = place_bytes(emu, &place);
                bytes[place_index(&place)]
            },
        }
    }
}

/// Reads the halfword at `addr`, which is brought down to an even address. The access
/// is a debug access if `debug`; a read of a halfword does the same either way.
pub fn read_16(emu: &mut Emu, addr: u32, debug: bool) -> (value: u16)
    requires
        emu_wf(old(emu)@),
    ensures
        (value, final(emu)@) == read_16_of(old(emu)@, addr),
        emu_wf(final(emu)@),
        access_keeps(old(emu)@, final(emu)@),
{
    reveal(read_16_of);
    let addr = addr - addr % 2;
    if addr / 0x100_0000 == 0x04 {
        proof {
            crate::bytes::lemma_wrap_aligned(addr as int, 0x100_0000, 2);
        }
        io_read_16(emu, addr % 0x100_0000)
    } else {
        let place = locate(emu, addr, 2);
        match place {
            Place::Nowhere => open_bus(emu, addr),
            _ => {
                let bytes = place_bytes(emu, &place);
                crate::bytes::read_16(bytes, place_index(&place))
            },
        }
    }
}

/// Reads the word at `addr`, which is brought down to a multiple of four. A debug
/// access takes nothing out of the IPC queue or the cartridge's answer.
pub fn read_32(emu: &mut Emu, addr: u32, debug: bool) -> (value: u32)
    requires
        emu_wf(old(emu)@),
    ensures
        (value, final(emu)@) == read_32_of(old(emu)@, addr, debug),
        emu_wf(final(emu)@),
        access_keeps(old(emu)@, final(emu)@),
{
    reveal(read_32_of);
    let addr = addr - addr % 4;
    if addr / 0x100_0000 == 0x04 {
        proof {
            crate::bytes::lemma_wrap_aligned(addr as int, 0x100_0000, 4);
        }
        io_read_32(emu, addr % 0x100_0000, debug)
    } else {
        let place = locate(emu, addr, 4);
        match place {
            Place::Nowhere => {
                let lo = open_bus(emu, addr);
                let hi = open_bus(emu, addr + 2);
                (lo as u32) | ((hi as u32) << 16)
            },
            _ => {
                let bytes = place_bytes(emu, &place);
                crate::bytes::read_32(bytes, place_index(&place))
            },
        }
    }
}

/// The machine after a write of the byte `value` at `addr`. Main memory, the shared
/// working RAM and the I/O registers take bytes; the palettes, video memory and the
/// object attributes do not, and nothing else can be written.
#[verifier::opaque]
pub open spec fn written_8(v: EmuView, addr: u32, value: u8) -> EmuView {
    let region = addr as int / 0x100_0000;
    if region == 0x02 {
        EmuView { main_mem: v.main_mem.update(addr as int % 0x40_0000, value), ..v }
    } else if region == 0x03 {
        match location(v.swram.control, true, addr) {
            Some(at) => EmuView {
                swram: SwramView { contents: v.swram.contents.update(at, value), ..v.swram },
                ..v
            },
            None => v,
        }
    } else if region == 0x04 {
        io_written_8(v, (addr % 0x100_0000) as u32, value)
    } else {
        v
    }
}

/// Writes the byte `value` at `addr`.
pub fn write_8(emu: &mut Emu, addr: u32, value: u8)
    requires
        emu_wf(old(emu)@),
    ensures
        final(emu)@ == written_8(old(emu)@, addr, value),
        emu_wf(final(emu)@),
        access_keeps(old(emu)@, final(emu)@),
{
    reveal(written_8);
    match addr / 0x100_0000 {
        0x02 => {
            emu.main_mem[addr as usize % 0x40_0000] = value;
        },
        0x03 => match emu.swram.locate(true, addr, 1) {
            Some(at) => emu.swram.write_8(at, value),
            None => {},
        },
        0x04 => io_write_8(emu, addr % 0x100_0000, value),
        _ => {},
    }
}

/// The machine after a write of the halfword `value` to main memory or the shared working
/// RAM at `addr`, which is an even address in one of their regions.
pub open spec fn memory_written_16(v: EmuView, addr: u32, value: u16) -> EmuView {
    if addr as int / 0x100_0000 == 0x02 {
        EmuView { main_mem: with_le_16(v.main_mem, addr as int % 0x40_0000, value), ..v }
    } else {
        match location(v.swram.control, true, addr) {
            Some(at) => EmuView {
                swram: SwramView { contents: with_le_16(v.swram.contents, at, value), ..v.swram },
                ..v
            },
            None => v,
        }
    }
}

/// Writes a halfword to main memory or the shared working RAM.
fn write_memory_16(emu: &mut Emu, addr: u32, value: u16)
    requires
        emu_wf(old(emu)@),
        addr % 2 == 0,
        addr / 0x100_0000 == 0x02 || addr / 0x100_0000 == 0x03,
    ensures
        final(emu)@ == memory_written_16(old(emu)@, addr, value),
        emu_wf(final(emu)@),
        access_keeps(old(emu)@, final(emu)@),
{
    if addr / 0x100_0000 == 0x02 {
        let at = wrap(addr, 0x40_0000, 2);
        crate::bytes::write_16(&mut emu.main_mem, at, value);
    } else {
        match emu.swram.locate(true, addr, 2) {
            Some(at) => emu.swram.write_16(at, value),
            None => {},
        }
    }
}

/// Video memory after a write of the halfword `value` at `addr` of the ARM9's video memory
/// region: to the usage window that shows there, or to the bank that shows there through
/// the LCDC window.
pub open spec fn vram_written_16(vram: VramView, addr: u32, value: u16) -> VramView {
    match vram_place(addr) {
        Some((usage, at)) => window_written(
            vram,
            usage,
            at,
            2,
            with_le_16(vram.windows[usage], at, value),
        ),
        None => match lcdc_place((addr % 0x10_0000) as u32) {
            Some((bank, at)) => if vram.lcdc[bank] {
                VramView {
                    banks: vram.banks.update(bank, with_le_16(vram.banks[bank], at, value)),
                    ..vram
                }
            } else {
                vram
            },
            None => vram,
        },
    }
}

/// Video memory after a write of the halfword `value` at `addr`, which is an even address in
/// the region of the palettes, of video memory or of the object attributes.
pub open spec fn video_written_16(vram: VramView, addr: u32, value: u16) -> VramView {
    let region = addr as int / 0x100_0000;
    if region == 0x05 {
        VramView {
            palette: with_le_16(vram.palette, addr as int % 0x800, value),
            journal: journal_flagged(vram.journal, (addr as int % 0x800) / 0x400, false),
            ..vram
        }
    } else if region == 0x06 {
        vram_written_16(vram, addr, value)
    } else {
        VramView {
            oam: with_le_16(vram.oam, addr as int % 0x800, value),
            journal: journal_flagged(vram.journal, (addr as int % 0x800) / 0x400, true),
            ..vram
        }
    }
}

/// Writes a halfword to video memory through the ARM9's video memory region.
fn write_vram_16(vram: &mut crate::gpu::vram::Vram, addr: u32, value: u16)
    requires
        crate::gpu::vram::vram_wf(old(vram)@),
        addr % 2 == 0,
    ensures
        final(vram)@ == vram_written_16(old(vram)@, addr, value),
        crate::gpu::vram::vram_wf(final(vram)@),
{
    match vram_locate(addr, 2) {
        Some((usage, at)) => vram.write_window_16(usage, at, value),
        None => {
            proof {
                crate::bytes::lemma_wrap_aligned(addr as int, 0x10_0000, 2);
            }
            match lcdc_locate(addr % 0x10_0000, 2) {
                Some((bank, at)) => vram.write_lcdc_16(bank, at, value),
                None => {},
            }
        },
    }
}

/// Writes a halfword to the palettes, video memory or the object attributes.
fn write_video_16(vram: &mut crate::gpu::vram::Vram, addr: u32, value: u16)
    requires
        crate::gpu::vram::vram_wf(old(vram)@),
        addr % 2 == 0,
        0x05 <= addr / 0x100_0000 <= 0x07,
    ensures
        final(vram)@ == video_written_16(old(vram)@, addr, value),
        crate::gpu::vram::vram_wf(final(vram)@),
{
    match addr / 0x100_0000 {
        0x05 => {
            let at = wrap(addr, 0x800, 2);
            vram.write_palette_16(at, value)
        },
        0x06 => write_vram_16(vram, addr, value),
        _ => {
            let at = wrap(addr, 0x800, 2);
            vram.write_oam_16(at, value)
        },
    }
}

/// The machine after a write of the halfword `value` at `addr`, which is brought down to
/// an even address.
#[verifier::opaque]
pub open spec fn written_16(v: EmuView, addr: u32, value: u16) -> EmuView {
    let addr = (addr - addr % 2) as u32;
    let region = addr as int / 0x100_0000;
    if region == 0x02 || region == 0x03 {
        memory_written_16(v, addr, value)
    } else if region == 0x04 {
        io_written_16(v, (addr % 0x100_0000) as u32, value)
    } else if 0x05 <= region <= 0x07 {
        with_vram(v, video_written_16(v.gpu.vram, addr, value))
    } else {
        v
    }
}

/// Writes the halfword `value` at `addr`.
pub fn write_16(emu: &mut Emu, addr: u32, value: u16)
    requires
        emu_wf(old(emu)@),
    ensures
        final(emu)@ == written_16(old(emu)@, addr, value),
        emu_wf(final(emu)@),
        access_keeps(old(emu)@, final(emu)@),
{
    reveal(written_16);
    let addr = addr - addr % 2;
    match addr / 0x100_0000 {
        0x02 | 0x03 => write_memory_16(emu, addr, value),
        0x04 => {
            proof {
                crate::bytes::lemma_wrap_aligned(addr as int, 0x100_0000, 2);
            }
            io_write_16(emu, addr % 0x100_0000, value)
        },
        0x05 | 0x06 | 0x07 => write_video_16(&mut emu.gpu.vram, addr, value),
        _ => {},
    }
}

/// The machine after a write of the word `value` to main memory or the shared working
/// RAM at `addr`, which is a multiple of four in one of their regions.
pub open spec fn memory_written_32(v: EmuView, addr: u32, value: u32) -> EmuView {
    if addr as int / 0x100_0000 == 0x02 {
        EmuView { main_mem: with_le_32(v.main_mem, addr as int % 0x40_0000, value), ..v }
    } else {
        match location(v.swram.control, true, addr) {
            Some(at) => EmuView {
                swram: SwramView { contents: with_le_32(v.swram.contents, at, value), ..v.swram },
                ..v
            },
            None => v,
        }
    }
}

/// Writes a word to main memory or the shared working RAM.
fn write_memory_32(emu: &mut Emu, addr: u32, value: u32)
    requires
        emu_wf(old(emu)@),
        addr % 4 == 0,
        addr / 0x100_0000 == 0x02 || addr / 0x100_0000 == 0x03,
    ensures
        final(emu)@ == memory_written_32(old(emu)@, addr, value),
        emu_wf(final(emu)@),
        access_keeps(old(emu)@, final(emu)@),
{
    if addr / 0x100_0000 == 0x02 {
        let at = wrap(addr, 0x40_0000, 4);
        crate::bytes::write_32(&mut emu.main_mem, at, value);
    } else {
        match emu.swram.locate(true, addr, 4) {
            Some(at) => emu.swram.write_32(at, value),
            None => {},
        }
    }
}

/// Video memory after a write of the word `value` at `addr` of the ARM9's video memory
/// region: to the usage window that shows there, or to the bank that shows there through
/// the LCDC window.
pub open spec fn vram_written_32(vram: VramView, addr: u32, value: u32) -> VramView {
    match vram_place(addr) {
        Some((usage, at)) => window_written(
            vram,
            usage,
            at,
            4,
            with_le_32(vram.windows[usage], at, value),
        ),
        None => match lcdc_place((addr % 0x10_0000) as u32) {
            Some((bank, at)) => if vram.lcdc[bank] {
                VramView {
                    banks: vram.banks.update(bank, with_le_32(vram.banks[bank], at, value)),
                    ..vram
                }
            } else {
                vram
            },
            None => vram,
        },
    }
}

/// Video memory after a write of the word `value` at `addr`, which is a multiple of four in
/// the region of the palettes, of video memory or of the object attributes.
pub open spec fn video_written_32(vram: VramView, addr: u32, value: u32) -> VramView {
    let region = addr as int / 0x100_0000;
    if region == 0x05 {
        VramView {
            palette: with_le_32(vram.palette, addr as int % 0x800, value),
            journal: journal_flagged(vram.journal, (addr as int % 0x800) / 0x400, false),
            ..vram
        }
    } else if region == 0x06 {
        vram_written_32(vram, addr, value)
    } else {
        VramView {
            oam: with_le_32(vram.oam, addr as int % 0x800, value),
            journal: journal_flagged(vram.journal, (addr as int % 0x800) / 0x400, true),
            ..vram
        }
    }
}

/// Writes a word to video memory through the ARM9's video memory region.
fn write_vram_32(vram: &mut crate::gpu::vram::Vram, addr: u32, value: u32)
    requires
        crate::gpu::vram::vram_wf(old(vram)@),
        addr % 4 == 0,
    ensures
        final(vram)@ == vram_written_32(old(vram)@, addr, value),
        crate::gpu::vram::vram_wf(final(vram)@),
{
    match vram_locate(addr, 4) {
        Some((usage, at)) => vram.write_window_32(usage, at, value),
        None => {
            proof {
                crate::bytes::lemma_wrap_aligned(addr as int, 0x10_0000, 4);
            }
            match lcdc_locate(addr % 0x10_0000, 4) {
                Some((bank, at)) => vram.write_lcdc_32(bank, at, value),
                None => {},
            }
        },
    }
}

/// Writes a word to the palettes, video memory or the object attributes.
fn write_video_32(vram: &mut crate::gpu::vram::Vram, addr: u32, value: u32)
    requires
        crate::gpu::vram::vram_wf(old(vram)@),
        addr % 4 == 0,
        0x05 <= addr / 0x100_0000 <= 0x07,
    ensures
        final(vram)@ == video_written_32(old(vram)@, addr, value),
        crate::gpu::vram::vram_wf(final(vram)@),
{
    match addr / 0x100_0000 {
        0x05 => {
            let at = wrap(addr, 0x800, 4);
            vram.write_palette_32(at, value)
        },
        0x06 => write_vram_32(vram, addr, value),
        _ => {
            let at = wrap(addr, 0x800, 4);
            vram.write_oam_32(at, value)
        },
    }
}

/// The machine after a write of the word `value` at `addr`, which is brought down to
/// a multiple of four.
#[verifier::opaque]
pub open spec fn written_32(v: EmuView, addr: u32, value: u32) -> EmuView {
    let addr = (addr - addr % 4) as u32;
    let region = addr as int / 0x100_0000;
    if region == 0x02 || region == 0x03 {
        memory_written_32(v, addr, value)
    } else if region == 0x04 {
        io_written_32(v, (addr % 0x100_0000) as u32, value)
    } else if 0x05 <= region <= 0x07 {
        with_vram(v, video_written_32(v.gpu.vram, addr, value))
    } else {
        v
    }
}

/// Writes the word `value` at `addr`.
pub fn write_32(emu: &mut Emu, addr: u32, value: u32)
    requires
        emu_wf(old(emu)@),
    ensures
        final(emu)@ == written_32(old(emu)@, addr, value),
        emu_wf(final(emu)@),
        access_keeps(old(emu)@, final(emu)@),
{
    reveal(written_32);
    let addr = addr - addr % 4;
    match addr / 0x100_0000 {
        0x02 | 0x03 => write_memory_32(emu, addr, value),
        0x04 => {
            proof {
                crate::bytes::lemma_wrap_aligned(addr as int, 0x100_0000, 4);
            }
            io_write_32(emu, addr % 0x100_0000, value)
        },
        0x05 | 0x06 | 0x07 => write_video_32(&mut emu.gpu.vram, addr, value),
        _ => {},
    }
}

} // verus!
