//! The ARM7's accesses to memory: bytes, halfwords and words, read and written, by
//! address. An access goes to the region that the top byte of its address selects; within
//! the region of the I/O registers, to the register at its address.
//!
//! The ARM7 finds its BIOS at the bottom of the address space, main memory, the part of
//! the shared working RAM that it has and its own working RAM behind it, and the banks of
//! video memory that are mapped to it. Where nothing answers, a read returns zero and a
//! write is lost.

use crate::bytes::{le_16, le_32, with_le_16, with_le_32};
use crate::cpu::arm7::{
    timer_control_reload_written, timer_control_written, timer_counter_read,
    timer_reload_written, Arm7View,
};
use crate::cpu::arm9::Arm9View;
use crate::cpu::irqs::{
    acknowledged, woken, IrqFlags, IrqsView, IRQ_IPC_RECV_FIFO_NOT_EMPTY,
    IRQ_IPC_SEND_FIFO_EMPTY, IRQ_IPC_SYNC,
};
use crate::cpu::timers;
use crate::emu::swram::{location, SwramView};
use crate::emu::{emu_wf, Emu, EmuView};
use crate::gpu::vram::{window_written, VramView, ARM7};
use crate::gpu::GpuView;
use crate::ipc::{
    fifo_control_read, fifo_control_write_requests, fifo_control_written, receive_requests_irq,
    received, received_value, send_requests_irq, sent, sync_read, sync_write_requests_irq,
    FifoControl, IpcView, Sync,
};
use vstd::prelude::*;

verus! {

/// What no access to memory changes: the clocks of the two CPUs and the states of their
/// interpreters.
pub open spec fn access_keeps(before: EmuView, after: EmuView) -> bool {
    &&& after.arm7.now == before.arm7.now
    &&& after.arm7.engine == before.arm7.engine
    &&& after.arm9.now == before.arm9.now
    &&& after.arm9.engine == before.arm9.engine
    &&& after.arm9.cp15 == before.arm9.cp15
}

/// The machine with another ARM7.
pub open spec fn with_arm7(v: EmuView, arm7: Arm7View) -> EmuView {
    EmuView { arm7, ..v }
}

/// The machine with other interrupt registers of the ARM7.
pub open spec fn with_irqs(v: EmuView, irqs: IrqsView) -> EmuView {
    with_arm7(v, Arm7View { irqs, ..v.arm7 })
}

/// The bytes that the ARM7 finds at an address outside the I/O registers: the memory that
/// its region holds and the place of the address in it, if the region holds memory. The
/// BIOS lies in the 16 KiB from 0; main memory and the ARM7's own working RAM repeat
/// throughout their regions; the first half of the working RAM's region shows the ARM7's
/// part of the shared working RAM, if it has one, and its own working RAM if not; the
/// region of video memory shows the window of the banks that are mapped to the ARM7.
pub open spec fn memory_at(v: EmuView, addr: u32) -> Option<(Seq<u8>, int)> {
    let region = addr as int / 0x100_0000;
    if region == 0x00 {
        if addr < 0x4000 {
            Some((v.arm7.bios, addr as int))
        } else {
            None
        }
    } else if region == 0x02 {
        Some((v.main_mem, addr as int % 0x40_0000))
    } else if region == 0x03 {
        if addr < 0x0380_0000 && location(v.swram.control, false, addr) is Some {
            Some((v.swram.contents, location(v.swram.control, false, addr).unwrap()))
        } else {
            Some((v.arm7.wram, addr as int % 0x1_0000))
        }
    } else if region == 0x06 {
        Some((v.gpu.vram.windows[ARM7 as int], addr as int % 0x4_0000))
    } else {
        None
    }
}

/// The value of the `size` bytes at `at`, the lowest byte first; `size` is 1, 2 or 4.
pub open spec fn le(memory: Seq<u8>, at: int, size: int) -> u32 {
    if size == 1 {
        memory[at] as u32
    } else if size == 2 {
        le_16(memory, at) as u32
    } else {
        le_32(memory, at)
    }
}

/// Memory with the `size` lowest bytes of `value` at `at`, the lowest byte first.
pub open spec fn with_le(memory: Seq<u8>, at: int, size: int, value: u32) -> Seq<u8> {
    if size == 1 {
        memory.update(at, value as u8)
    } else if size == 2 {
        with_le_16(memory, at, value as u16)
    } else {
        with_le_32(memory, at, value)
    }
}

/// The status of video memory as the ARM7 reads it: bit 0 says that bank C is mapped to
/// the ARM7, bit 1 that bank D is.
pub open spec fn vram_status(v: EmuView) -> u16 {
    (if v.gpu.vram.bank_control[2] & 0x87 == 0x82 {
        1u16
    } else {
        0u16
    }) | (if v.gpu.vram.bank_control[3] & 0x87 == 0x82 {
        2u16
    } else {
        0u16
    })
}

/// The halfword that the I/O register at `a` holds for the ARM7; `a` is even and counts
/// from the start of the I/O registers. Where no register is, the halfword is zero.
pub open spec fn io_halfword(v: EmuView, a: u32) -> u16 {
    if 0x100 <= a < 0x110 {
        let timer = v.arm7.timers[(a - 0x100) as int / 4];
        if a % 4 == 0 {
            timer.counter
        } else {
            timer.control.0 as u16
        }
    } else if a == 0x130 {
        v.input_status as u16
    } else if a == 0x136 {
        (v.input_status >> 16) as u16
    } else if a == 0x180 {
        sync_read(v.ipc, 0)
    } else if a == 0x184 {
        fifo_control_read(v.ipc, 0)
    } else if a == 0x204 {
        v.global_ex_mem_control
    } else if a == 0x208 {
        if v.arm7.irqs.master_enable {
            1
        } else {
            0
        }
    } else if a == 0x210 {
        v.arm7.irqs.enabled as u16
    } else if a == 0x212 {
        (v.arm7.irqs.enabled >> 16) as u16
    } else if a == 0x214 {
        v.arm7.irqs.requested as u16
    } else if a == 0x216 {
        (v.arm7.irqs.requested >> 16) as u16
    } else if a == 0x240 {
        vram_status(v) | ((v.swram.control as u16) << 8)
    } else {
        0
    }
}

/// The machine after a read of the I/O register at `a`: a read of a timer's counter
/// brings the timer up to date; every other read changes nothing.
pub open spec fn io_read(v: EmuView, a: u32) -> EmuView {
    if a == 0x100 || a == 0x104 || a == 0x108 || a == 0x10C {
        with_arm7(v, timer_counter_read(v.arm7, (a - 0x100) as int / 4))
    } else {
        v
    }
}

/// Reads the halfword of the I/O register at `a`.
fn io_read_16(emu: &mut Emu, a: u32) -> (value: u16)
    requires
        emu_wf(old(emu)@),
        a % 2 == 0,
    ensures
        final(emu)@ == io_read(old(emu)@, a),
        value == io_halfword(final(emu)@, a),
        emu_wf(final(emu)@),
        access_keeps(old(emu)@, final(emu)@),
{
    if a == 0x100 || a == 0x104 || a == 0x108 || a == 0x10C {
        emu.arm7.read_timer_counter(timers::Index::new(((a - 0x100) / 4) as u8));
    }
    if 0x100 <= a && a < 0x110 {
        let i = ((a - 0x100) / 4) as usize;
        if a % 4 == 0 {
            emu.arm7.timers.0[i].counter()
        } else {
            emu.arm7.timers.0[i].control().0 as u16
        }
    } else if a == 0x130 {
        #[verifier::truncate]
        (emu.input_status as u16)
    } else if a == 0x136 {
        #[verifier::truncate]
        ((emu.input_status >> 16) as u16)
    } else if a == 0x180 {
        emu.ipc.sync(0).0
    } else if a == 0x184 {
        emu.ipc.fifo_control(0).0
    } else if a == 0x204 {
        emu.global_ex_mem_control
    } else if a == 0x208 {
        if emu.arm7.irqs.master_enable() {
            1
        } else {
            0
        }
    } else if a == 0x210 {
        #[verifier::truncate]
        (emu.arm7.irqs.enabled().0 as u16)
    } else if a == 0x212 {
        #[verifier::truncate]
        ((emu.arm7.irqs.enabled().0 >> 16) as u16)
    } else if a == 0x214 {
        #[verifier::truncate]
        (emu.arm7.irqs.requested().0 as u16)
    } else if a == 0x216 {
        #[verifier::truncate]
        ((emu.arm7.irqs.requested().0 >> 16) as u16)
    } else if a == 0x240 {
        let banks = emu.gpu.vram.bank_control();
        (if banks[2].0 & 0x87 == 0x82 {
            1u16
        } else {
            0u16
        }) | (if banks[3].0 & 0x87 == 0x82 {
            2u16
        } else {
            0u16
        }) | ((emu.swram.control().0 as u16) << 8)
    } else {
        0
    }
}

/// The machine after the ARM7 receives a word from the IPC queue: the queue gives its
/// oldest word, and the ARM9 gets its send interrupt when the word leaves a full queue, if
/// it enabled that.
pub open spec fn with_ipc_received(v: EmuView) -> EmuView {
    EmuView {
        ipc: received(v.ipc, 0),
        arm9: Arm9View {
            irqs: if receive_requests_irq(v.ipc, 0) {
                woken(
                    IrqsView {
                        requested: v.arm9.irqs.requested | IRQ_IPC_SEND_FIFO_EMPTY,
                        ..v.arm9.irqs
                    },
                )
            } else {
                v.arm9.irqs
            },
            ..v.arm9
        },
        ..v
    }
}

/// What a read of `size` bytes of the I/O registers at `a` returns, and the machine after
/// the read; `a` is a multiple of `size` and counts from the start of the I/O registers.
/// The IPC receive register is a word of its own: a read takes a word out of the queue.
/// Every other word is made of two halfwords, the lower one read first; a byte is its
/// half of a halfword.
pub open spec fn io_loaded(v: EmuView, a: u32, size: int) -> (u32, EmuView) {
    if size == 4 {
        if a == 0x10_0000 {
            (received_value(v.ipc, 0), with_ipc_received(v))
        } else {
            let v1 = io_read(v, a);
            let v2 = io_read(v1, (a + 2) as u32);
            ((io_halfword(v1, a) as u32) | ((io_halfword(v2, (a + 2) as u32) as u32) << 16), v2)
        }
    } else if size == 2 {
        let v1 = io_read(v, a);
        (io_halfword(v1, a) as u32, v1)
    } else {
        let h = (a - a % 2) as u32;
        let v1 = io_read(v, h);
        ((io_halfword(v1, h) >> ((8 * (a % 2)) as u16)) as u8 as u32, v1)
    }
}

/// Reads `size` bytes of the I/O registers at `a`.
fn io_load(emu: &mut Emu, a: u32, size: usize) -> (value: u32)
    requires
        emu_wf(old(emu)@),
        size == 1 || size == 2 || size == 4,
        a as int % size as int == 0,
        a < 0x100_0000,
    ensures
        (value, final(emu)@) == io_loaded(old(emu)@, a, size as int),
        emu_wf(final(emu)@),
        access_keeps(old(emu)@, final(emu)@),
{
    if size == 4 {
        if a == 0x10_0000 {
            let value = emu.ipc.recv(0, &mut emu.arm9.irqs, &mut emu.arm9.schedule);
            emu.ipc.check_wf();
            value
        } else {
            let low = io_read_16(emu, a);
            let high = io_read_16(emu, a + 2);
            (low as u32) | ((high as u32) << 16)
        }
    } else if size == 2 {
        io_read_16(emu, a) as u32
    } else {
        let halfword = io_read_16(emu, a - a % 2);
        (#[verifier::truncate] ((halfword >> ((8 * (a % 2)) as u16)) as u8)) as u32
    }
}

/// What a read of `size` bytes at `addr` returns, and the machine after the read; `addr`
/// is a multiple of `size`, which is 1, 2 or 4.
pub open spec fn loaded(v: EmuView, addr: u32, size: int) -> (u32, EmuView) {
    if addr as int / 0x100_0000 == 0x04 {
        io_loaded(v, (addr % 0x100_0000) as u32, size)
    } else {
        match memory_at(v, addr) {
            Some((memory, at)) => (le(memory, at, size), v),
            None => (0, v),
        }
    }
}

/// Where the bytes at an address are found outside the I/O registers.
enum Place {
    /// In the BIOS.
    Bios(usize),
    /// In main memory.
    MainMem(usize),
    /// In the shared working RAM.
    Swram(usize),
    /// In the ARM7's own working RAM.
    Wram(usize),
    /// In the window of video memory.
    Vram(usize),
}

/// The memory of a place and the place in it.
spec fn place_memory(v: EmuView, place: Place) -> (Seq<u8>, int) {
    match place {
        Place::Bios(at) => (v.arm7.bios, at as int),
        Place::MainMem(at) => (v.main_mem, at as int),
        Place::Swram(at) => (v.swram.contents, at as int),
        Place::Wram(at) => (v.arm7.wram, at as int),
        Place::Vram(at) => (v.gpu.vram.windows[ARM7 as int], at as int),
    }
}

/// The place of an address in memory of `len` bytes that repeats.
fn wrap(addr: u32, len: usize, size: usize) -> (at: usize)
    requires
        size == 1 || size == 2 || size == 4,
        addr as int % size as int == 0,
        len > 0,
        len % 4 == 0,
    ensures
        at == addr as int % len as int,
        at + size <= len,
        at % size == 0,
{
    proof {
        crate::bytes::lemma_wrap_aligned(addr as int, len as int, size as int);
    }
    addr as usize % len
}

/// Finds the bytes at `addr` outside the I/O registers; `addr` is a multiple of `size`,
/// which is 1, 2 or 4.
fn locate(emu: &Emu, addr: u32, size: usize) -> (place: Option<Place>)
    requires
        emu_wf(emu@),
        size == 1 || size == 2 || size == 4,
        addr as int % size as int == 0,
    ensures
        match place {
            Some(place) => memory_at(emu@, addr) == Some(place_memory(emu@, place))
                && place_memory(emu@, place).1 + size <= place_memory(emu@, place).0.len()
                && place_memory(emu@, place).1 % size as int == 0,
            None => memory_at(emu@, addr) is None,
        },
        place matches Some(Place::Vram(at)) ==> at == addr as int % 0x4_0000,
{
    assert(emu@.gpu.vram.windows[ARM7 as int].len() == 0x4_0000) by {
        assert(crate::gpu::vram::usage_len(ARM7 as int) == 0x4_0000);
    }
    match addr / 0x100_0000 {
        0x00 => if addr < 0x4000 {
            proof {
                crate::bytes::lemma_wrap_aligned(addr as int, 0x4000, size as int);
            }
            Some(Place::Bios(addr as usize))
        } else {
            None
        },
        0x02 => Some(Place::MainMem(wrap(addr, 0x40_0000, size))),
        0x03 => {
            let shared = if addr < 0x0380_0000 {
                emu.swram.locate(false, addr, size)
            } else {
                None
            };
            match shared {
                Some(at) => {
                    proof {
                        crate::bytes::lemma_wrap_aligned(addr as int, 0x8000, size as int);
                        crate::bytes::lemma_wrap_aligned(addr as int, 0x4000, size as int);
                    }
                    Some(Place::Swram(at))
                },
                None => Some(Place::Wram(wrap(addr, 0x1_0000, size))),
            }
        },
        0x06 => Some(Place::Vram(wrap(addr, 0x4_0000, size))),
        _ => None,
    }
}

/// The bytes of the memory that a place lies in, and the place in it.
fn place_bytes<'a>(emu: &'a Emu, place: &Place) -> (r: (&'a Vec<u8>, usize))
    ensures
        (r.0@, r.1 as int) == place_memory(emu@, *place),
{
    match place {
        Place::Bios(at) => (&emu.arm7.bios, *at),
        Place::MainMem(at) => (&emu.main_mem, *at),
        Place::Swram(at) => (emu.swram.contents(), *at),
        Place::Wram(at) => (&emu.arm7.wram, *at),
        Place::Vram(at) => (emu.gpu.vram.window(ARM7), *at),
    }
}

/// Reads `size` bytes at `addr`.
fn load(emu: &mut Emu, addr: u32, size: usize) -> (value: u32)
    requires
        emu_wf(old(emu)@),
        size == 1 || size == 2 || size == 4,
        addr as int % size as int == 0,
    ensures
        (value, final(emu)@) == loaded(old(emu)@, addr, size as int),
        emu_wf(final(emu)@),
        access_keeps(old(emu)@, final(emu)@),
{
    if addr / 0x100_0000 == 0x04 {
        proof {
            crate::bytes::lemma_wrap_aligned(addr as int, 0x100_0000, size as int);
        }
        io_load(emu, addr % 0x100_0000, size)
    } else {
        match locate(emu, addr, size) {
            Some(place) => {
                let (bytes, at) = place_bytes(emu, &place);
                if size == 1 {
                    bytes[at] as u32
                } else if size == 2 {
                    crate::bytes::read_16(bytes, at) as u32
                } else {
                    crate::bytes::read_32(bytes, at)
                }
            },
            None => 0,
        }
    }
}

/// The byte that a read at `addr` returns, and the machine after the read.
pub open spec fn read_8_of(v: EmuView, addr: u32) -> (u8, EmuView) {
    (loaded(v, addr, 1).0 as u8, loaded(v, addr, 1).1)
}

/// The halfword that a read at `addr` returns, and the machine after the read. The
/// address is brought down to a multiple of two.
pub open spec fn read_16_of(v: EmuView, addr: u32) -> (u16, EmuView) {
    let addr = (addr - addr % 2) as u32;
    (loaded(v, addr, 2).0 as u16, loaded(v, addr, 2).1)
}

/// The word that a read at `addr` returns, and the machine after the read. The address is
/// brought down to a multiple of four.
pub open spec fn read_32_of(v: EmuView, addr: u32) -> (u32, EmuView) {
    loaded(v, (addr - addr % 4) as u32, 4)
}

/// Reads the byte at `addr`.
pub fn read_8(emu: &mut Emu, addr: u32) -> (value: u8)
    requires
        emu_wf(old(emu)@),
    ensures
        (value, final(emu)@) == read_8_of(old(emu)@, addr),
        emu_wf(final(emu)@),
        access_keeps(old(emu)@, final(emu)@),
{
    #[verifier::truncate]
    (load(emu, addr, 1) as u8)
}

/// Reads the halfword at `addr`, which is brought down to a multiple of two.
pub fn read_16(emu: &mut Emu, addr: u32) -> (value: u16)
    requires
        emu_wf(old(emu)@),
    ensures
        (value, final(emu)@) == read_16_of(old(emu)@, addr),
        emu_wf(final(emu)@),
        access_keeps(old(emu)@, final(emu)@),
{
    #[verifier::truncate]
    (load(emu, addr - addr % 2, 2) as u16)
}

/// Reads the word at `addr`, which is brought down to a multiple of four.
pub fn read_32(emu: &mut Emu, addr: u32) -> (value: u32)
    requires
        emu_wf(old(emu)@),
    ensures
        (value, final(emu)@) == read_32_of(old(emu)@, addr),
        emu_wf(final(emu)@),
        access_keeps(old(emu)@, final(emu)@),
{
    load(emu, addr - addr % 4, 4)
}

/// The machine after the ARM7 writes `value` to the IPC sync register: the ARM9 gets an
/// interrupt request if the write asks for one and the ARM9 lets it through.
pub open spec fn with_ipc_sync_written(v: EmuView, value: u16) -> EmuView {
    EmuView {
        ipc: IpcView { sync: v.ipc.sync.update(0, value & 0x4F00), ..v.ipc },
        arm9: Arm9View {
            irqs: if sync_write_requests_irq(v.ipc, 0, value) {
                woken(IrqsView { requested: v.arm9.irqs.requested | IRQ_IPC_SYNC, ..v.arm9.irqs })
            } else {
                v.arm9.irqs
            },
            ..v.arm9
        },
        ..v
    }
}

/// The machine after the ARM7 writes `value` to its IPC queue control register.
pub open spec fn with_ipc_fifo_control_written(v: EmuView, value: u16) -> EmuView {
    EmuView {
        ipc: fifo_control_written(v.ipc, 0, value),
        arm7: Arm7View {
            irqs: if fifo_control_write_requests(v.ipc, 0, value) != 0 {
                woken(
                    IrqsView {
                        requested: v.arm7.irqs.requested | fifo_control_write_requests(
                            v.ipc,
                            0,
                            value,
                        ),
                        ..v.arm7.irqs
                    },
                )
            } else {
                v.arm7.irqs
            },
            ..v.arm7
        },
        ..v
    }
}

/// The machine after the ARM7 sends `value` through the IPC queue.
pub open spec fn with_ipc_sent(v: EmuView, value: u32) -> EmuView {
    EmuView {
        ipc: sent(v.ipc, 0, value),
        arm9: Arm9View {
            irqs: if send_requests_irq(v.ipc, 0) {
                woken(
                    IrqsView {
                        requested: v.arm9.irqs.requested | IRQ_IPC_RECV_FIFO_NOT_EMPTY,
                        ..v.arm9.irqs
                    },
                )
            } else {
                v.arm9.irqs
            },
            ..v.arm9
        },
        ..v
    }
}

/// The machine after a write of the halfword `value` to the I/O register at `a`, which is
/// even: to a timer's reload or control register, to the IPC sync or queue control
/// register, or to a half of an interrupt register. In the interrupt request register a
/// one acknowledges a request. Where no register is, the write is lost.
pub open spec fn io_written_16(v: EmuView, a: u32, value: u16) -> EmuView {
    if 0x100 <= a < 0x110 {
        let i = (a - 0x100) as int / 4;
        if a % 4 == 0 {
            with_arm7(v, timer_reload_written(v.arm7, i, value))
        } else {
            with_arm7(v, timer_control_written(v.arm7, i, timers::Control(value as u8)))
        }
    } else if a == 0x180 {
        with_ipc_sync_written(v, value)
    } else if a == 0x184 {
        with_ipc_fifo_control_written(v, value)
    } else if a == 0x208 {
        with_irqs(v, woken(IrqsView { master_enable: value & 1 != 0, ..v.arm7.irqs }))
    } else if a == 0x210 {
        with_irqs(
            v,
            woken(
                IrqsView {
                    enabled: (v.arm7.irqs.enabled & 0xFFFF_0000) | (value as u32),
                    ..v.arm7.irqs
                },
            ),
        )
    } else if a == 0x212 {
        with_irqs(
            v,
            woken(
                IrqsView {
                    enabled: (v.arm7.irqs.enabled & 0xFFFF) | ((value as u32) << 16),
                    ..v.arm7.irqs
                },
            ),
        )
    } else if a == 0x214 {
        with_irqs(
            v,
            woken(
                IrqsView {
                    requested: acknowledged(v.arm7.irqs.requested, value as u32, false),
                    ..v.arm7.irqs
                },
            ),
        )
    } else if a == 0x216 {
        with_irqs(
            v,
            woken(
                IrqsView {
                    requested: acknowledged(v.arm7.irqs.requested, (value as u32) << 16, false),
                    ..v.arm7.irqs
                },
            ),
        )
    } else {
        v
    }
}

/// Writes a halfword to the I/O register at `a`.
fn io_write_16(emu: &mut Emu, a: u32, value: u16)
    requires
        emu_wf(old(emu)@),
        a % 2 == 0,
    ensures
        final(emu)@ == io_written_16(old(emu)@, a, value),
        emu_wf(final(emu)@),
        access_keeps(old(emu)@, final(emu)@),
{
    if 0x100 <= a && a < 0x110 {
        let i = timers::Index::new(((a - 0x100) / 4) as u8);
        if a % 4 == 0 {
            emu.arm7.write_timer_reload(i, value);
        } else {
            emu.arm7.write_timer_control(i, timers::Control(#[verifier::truncate] (value as u8)));
        }
    } else if a == 0x180 {
        emu.ipc.write_sync(0, Sync(value), &mut emu.arm9.irqs, &mut emu.arm9.schedule);
    } else if a == 0x184 {
        emu.ipc.write_fifo_control(0, FifoControl(value), &mut emu.arm7.irqs, &mut emu.arm7.schedule);
        emu.ipc.check_wf();
    } else if a == 0x208 {
        emu.arm7.irqs.write_master_enable(value & 1 != 0, &mut emu.arm7.schedule);
    } else if a == 0x210 {
        let enabled = emu.arm7.irqs.enabled().0;
        emu.arm7.irqs.write_enabled(
            IrqFlags((enabled & 0xFFFF_0000) | (value as u32)),
            &mut emu.arm7.schedule,
        );
    } else if a == 0x212 {
        let enabled = emu.arm7.irqs.enabled().0;
        emu.arm7.irqs.write_enabled(
            IrqFlags((enabled & 0xFFFF) | ((value as u32) << 16)),
            &mut emu.arm7.schedule,
        );
    } else if a == 0x214 {
        emu.arm7.irqs.acknowledge(IrqFlags(value as u32), false, &mut emu.arm7.schedule);
    } else if a == 0x216 {
        emu.arm7.irqs.acknowledge(IrqFlags((value as u32) << 16), false, &mut emu.arm7.schedule);
    }
}

/// The machine after a write of the byte `value` to the I/O register at `a`. The upper
/// byte of the IPC sync register, the bytes of the IPC queue control register and the
/// interrupt master enable register take a byte, and the other byte of the register stays;
/// the value 0x80 in the two top bits of the halt register halts the CPU until an
/// interrupt is requested. The registers of the timers and the other interrupt registers
/// take no bytes.
pub open spec fn io_written_8(v: EmuView, a: u32, value: u8) -> EmuView {
    if a == 0x181 {
        with_ipc_sync_written(v, with_byte(sync_read(v.ipc, 0), true, value))
    } else if a == 0x184 {
        with_ipc_fifo_control_written(v, (fifo_control_read(v.ipc, 0) & 0xBF00) | (value as u16))
    } else if a == 0x185 {
        with_ipc_fifo_control_written(v, with_byte(fifo_control_read(v.ipc, 0), true, value))
    } else if a == 0x208 {
        with_irqs(v, woken(IrqsView { master_enable: value & 1 != 0, ..v.arm7.irqs }))
    } else if a == 0x301 && value & 0xC0 == 0x80 {
        with_irqs(v, woken(IrqsView { halted: true, ..v.arm7.irqs }))
    } else {
        v
    }
}

/// Writes a byte to the I/O register at `a`.
fn io_write_8(emu: &mut Emu, a: u32, value: u8)
    requires
        emu_wf(old(emu)@),
    ensures
        final(emu)@ == io_written_8(old(emu)@, a, value),
        emu_wf(final(emu)@),
        access_keeps(old(emu)@, final(emu)@),
{
    if a == 0x181 {
        let raw = emu.ipc.sync(0).0;
        emu.ipc.write_sync(
            0,
            Sync((raw & 0x00FF) | ((value as u16) << 8)),
            &mut emu.arm9.irqs,
            &mut emu.arm9.schedule,
        );
    } else if a == 0x184 {
        let raw = emu.ipc.fifo_control(0).0;
        emu.ipc.write_fifo_control(
            0,
            FifoControl((raw & 0xBF00) | (value as u16)),
            &mut emu.arm7.irqs,
            &mut emu.arm7.schedule,
        );
        emu.ipc.check_wf();
    } else if a == 0x185 {
        let raw = emu.ipc.fifo_control(0).0;
        emu.ipc.write_fifo_control(
            0,
            FifoControl((raw & 0x00FF) | ((value as u16) << 8)),
            &mut emu.arm7.irqs,
            &mut emu.arm7.schedule,
        );
        emu.ipc.check_wf();
    } else if a == 0x208 {
        emu.arm7.irqs.write_master_enable(value & 1 != 0, &mut emu.arm7.schedule);
    } else if a == 0x301 && value & 0xC0 == 0x80 {
        emu.arm7.irqs.halt();
    }
}

/// The machine after a write of `size` bytes of `value` to the I/O registers at `a`, a
/// multiple of `size`. A word for a timer sets its reload and its control register in one
/// access, and a word for the IPC send register goes into the queue; every other word is
/// two halfwords, the lower one written first.
pub open spec fn io_stored(v: EmuView, a: u32, size: int, value: u32) -> EmuView {
    if size == 4 {
        if a == 0x100 || a == 0x104 || a == 0x108 || a == 0x10C {
            with_arm7(
                v,
                timer_control_reload_written(
                    v.arm7,
                    (a - 0x100) as int / 4,
                    value as u16,
                    timers::Control((value >> 16) as u8),
                ),
            )
        } else if a == 0x188 {
            with_ipc_sent(v, value)
        } else {
            io_written_16(io_written_16(v, a, value as u16), (a + 2) as u32, (value >> 16) as u16)
        }
    } else if size == 2 {
        io_written_16(v, a, value as u16)
    } else {
        io_written_8(v, a, value as u8)
    }
}

/// Writes `size` bytes to the I/O registers at `a`.
fn io_store(emu: &mut Emu, a: u32, size: usize, value: u32)
    requires
        emu_wf(old(emu)@),
        size == 1 || size == 2 || size == 4,
        a as int % size as int == 0,
        a < 0x100_0000,
    ensures
        final(emu)@ == io_stored(old(emu)@, a, size as int, value),
        emu_wf(final(emu)@),
        access_keeps(old(emu)@, final(emu)@),
{
    if size == 4 {
        if a == 0x100 || a == 0x104 || a == 0x108 || a == 0x10C {
            emu.arm7.write_timer_control_reload(
                timers::Index::new(((a - 0x100) / 4) as u8),
                #[verifier::truncate] (value as u16),
                timers::Control(#[verifier::truncate] ((value >> 16) as u8)),
            );
        } else if a == 0x188 {
            emu.ipc.send(0, value, &mut emu.arm9.irqs, &mut emu.arm9.schedule);
            emu.ipc.check_wf();
        } else {
            io_write_16(emu, a, #[verifier::truncate] (value as u16));
            io_write_16(emu, a + 2, #[verifier::truncate] ((value >> 16) as u16));
        }
    } else if size == 2 {
        io_write_16(emu, a, #[verifier::truncate] (value as u16));
    } else {
        io_write_8(emu, a, #[verifier::truncate] (value as u8));
    }
}

/// A halfword with one of its bytes replaced: the lower one if `high` is false.
pub open spec fn with_byte(halfword: u16, high: bool, byte: u8) -> u16 {
    if high {
        (halfword & 0x00FF) | ((byte as u16) << 8)
    } else {
        (halfword & 0xFF00) | (byte as u16)
    }
}

/// The machine after a write of `size` bytes of `value` at `addr`, a multiple of `size`.
/// The BIOS takes no writes. A byte goes to video memory within the halfword that holds
/// it.
pub open spec fn stored(v: EmuView, addr: u32, size: int, value: u32) -> EmuView {
    let region = addr as int / 0x100_0000;
    if region == 0x04 {
        io_stored(v, (addr % 0x100_0000) as u32, size, value)
    } else if region == 0x02 {
        EmuView { main_mem: with_le(v.main_mem, addr as int % 0x40_0000, size, value), ..v }
    } else if region == 0x03 {
        if addr < 0x0380_0000 && location(v.swram.control, false, addr) is Some {
            EmuView {
                swram: SwramView {
                    contents: with_le(
                        v.swram.contents,
                        location(v.swram.control, false, addr).unwrap(),
                        size,
                        value,
                    ),
                    ..v.swram
                },
                ..v
            }
        } else {
            with_arm7(
                v,
                Arm7View { wram: with_le(v.arm7.wram, addr as int % 0x1_0000, size, value), ..v.arm7 },
            )
        }
    } else if region == 0x06 {
        EmuView {
            gpu: GpuView {
                vram: vram_stored(v.gpu.vram, addr as int % 0x4_0000, size, value),
                ..v.gpu
            },
            ..v
        }
    } else {
        v
    }
}

/// Writes `size` bytes to main memory at `at`.
fn store_main(emu: &mut Emu, at: usize, size: usize, value: u32)
    requires
        emu_wf(old(emu)@),
        size == 1 || size == 2 || size == 4,
        at + size <= 0x40_0000,
    ensures
        final(emu)@ == (EmuView {
            main_mem: with_le(old(emu)@.main_mem, at as int, size as int, value),
            ..old(emu)@
        }),
        emu_wf(final(emu)@),
{
    if size == 1 {
        emu.main_mem[at] = #[verifier::truncate] (value as u8);
    } else if size == 2 {
        crate::bytes::write_16(&mut emu.main_mem, at, #[verifier::truncate] (value as u16));
    } else {
        crate::bytes::write_32(&mut emu.main_mem, at, value);
    }
}

/// Writes `size` bytes to the shared working RAM at `at`.
fn store_swram(emu: &mut Emu, at: usize, size: usize, value: u32)
    requires
        emu_wf(old(emu)@),
        size == 1 || size == 2 || size == 4,
        at + size <= 0x8000,
    ensures
        final(emu)@ == (EmuView {
            swram: SwramView {
                contents: with_le(old(emu)@.swram.contents, at as int, size as int, value),
                ..old(emu)@.swram
            },
            ..old(emu)@
        }),
        emu_wf(final(emu)@),
{
    if size == 1 {
        emu.swram.write_8(at, #[verifier::truncate] (value as u8));
    } else if size == 2 {
        emu.swram.write_16(at, #[verifier::truncate] (value as u16));
    } else {
        emu.swram.write_32(at, value);
    }
}

/// Writes `size` bytes to the ARM7's own working RAM at `at`.
fn store_wram(emu: &mut Emu, at: usize, size: usize, value: u32)
    requires
        emu_wf(old(emu)@),
        size == 1 || size == 2 || size == 4,
        at + size <= 0x1_0000,
    ensures
        final(emu)@ == with_arm7(
            old(emu)@,
            Arm7View {
                wram: with_le(old(emu)@.arm7.wram, at as int, size as int, value),
                ..old(emu)@.arm7
            },
        ),
        emu_wf(final(emu)@),
{
    if size == 1 {
        emu.arm7.wram[at] = #[verifier::truncate] (value as u8);
    } else if size == 2 {
        crate::bytes::write_16(&mut emu.arm7.wram, at, #[verifier::truncate] (value as u16));
    } else {
        crate::bytes::write_32(&mut emu.arm7.wram, at, value);
    }
}

/// Video memory after the ARM7 writes `size` bytes of `value` to its window at `at`.
pub open spec fn vram_stored(vram: VramView, at: int, size: int, value: u32) -> VramView {
    let window = vram.windows[ARM7 as int];
    if size == 1 {
        let h = at - at % 2;
        window_written(
            vram,
            ARM7 as int,
            h,
            2,
            with_le_16(window, h, with_byte(le_16(window, h), at % 2 == 1, value as u8)),
        )
    } else if size == 2 {
        window_written(vram, ARM7 as int, at, 2, with_le_16(window, at, value as u16))
    } else {
        window_written(vram, ARM7 as int, at, 4, with_le_32(window, at, value))
    }
}

/// Writes `size` bytes to the ARM7's window of video memory at `at`.
fn store_vram(emu: &mut Emu, at: usize, size: usize, value: u32)
    requires
        emu_wf(old(emu)@),
        size == 1 || size == 2 || size == 4,
        at + size <= 0x4_0000,
        at % size == 0,
    ensures
        final(emu)@ == (EmuView {
            gpu: GpuView {
                vram: vram_stored(old(emu)@.gpu.vram, at as int, size as int, value),
                ..old(emu)@.gpu
            },
            ..old(emu)@
        }),
        emu_wf(final(emu)@),
{
    assert(crate::gpu::vram::usage_len(ARM7 as int) == 0x4_0000);
    if size == 1 {
        let h = at - at % 2;
        let halfword = emu.gpu.vram.read_window_16(ARM7, h);
        let byte = #[verifier::truncate] (value as u8);
        let merged = if at % 2 == 1 {
            (halfword & 0x00FF) | ((byte as u16) << 8)
        } else {
            (halfword & 0xFF00) | (byte as u16)
        };
        emu.gpu.vram.write_window_16(ARM7, h, merged);
    } else if size == 2 {
        emu.gpu.vram.write_window_16(ARM7, at, #[verifier::truncate] (value as u16));
    } else {
        emu.gpu.vram.write_window_32(ARM7, at, value);
    }
}

/// Writes `size` bytes at `addr`.
fn store(emu: &mut Emu, addr: u32, size: usize, value: u32)
    requires
        emu_wf(old(emu)@),
        size == 1 || size == 2 || size == 4,
        addr as int % size as int == 0,
    ensures
        final(emu)@ == stored(old(emu)@, addr, size as int, value),
        emu_wf(final(emu)@),
        access_keeps(old(emu)@, final(emu)@),
{
    if addr / 0x100_0000 == 0x04 {
        proof {
            crate::bytes::lemma_wrap_aligned(addr as int, 0x100_0000, size as int);
        }
        io_store(emu, addr % 0x100_0000, size, value);
        return ;
    }
    match locate(emu, addr, size) {
        Some(Place::MainMem(at)) => store_main(emu, at, size, value),
        Some(Place::Swram(at)) => store_swram(emu, at, size, value),
        Some(Place::Wram(at)) => store_wram(emu, at, size, value),
        Some(Place::Vram(at)) => store_vram(emu, at, size, value),
        _ => {},
    }
}

/// The machine after a write of the byte `value` at `addr`.
pub open spec fn written_8(v: EmuView, addr: u32, value: u8) -> EmuView {
    stored(v, addr, 1, value as u32)
}

/// The machine after a write of the halfword `value` at `addr`, which is brought down to a
/// multiple of two.
pub open spec fn written_16(v: EmuView, addr: u32, value: u16) -> EmuView {
    stored(v, (addr - addr % 2) as u32, 2, value as u32)
}

/// The machine after a write of the word `value` at `addr`, which is brought down to a
/// multiple of four.
pub open spec fn written_32(v: EmuView, addr: u32, value: u32) -> EmuView {
    stored(v, (addr - addr % 4) as u32, 4, value)
}

/// Writes the byte `value` at `addr`.
pub fn write_8(emu: &mut Emu, addr: u32, value: u8)
    requires
        emu_wf(old(emu)@),
    ensures
        final(emu)@ == written_8(old(emu)@, addr, value),
        emu_wf(final(emu)@),
        access_keeps(old(emu)@, final(emu)@),
{
    store(emu, addr, 1, value as u32);
}

/// Writes the halfword `value` at `addr`, which is brought down to a multiple of two.
pub fn write_16(emu: &mut Emu, addr: u32, value: u16)
    requires
        emu_wf(old(emu)@),
    ensures
        final(emu)@ == written_16(old(emu)@, addr, value),
        emu_wf(final(emu)@),
        access_keeps(old(emu)@, final(emu)@),
{
    store(emu, addr - addr % 2, 2, value as u32);
}

/// Writes the word `value` at `addr`, which is brought down to a multiple of four.
pub fn write_32(emu: &mut Emu, addr: u32, value: u32)
    requires
        emu_wf(old(emu)@),
    ensures
        final(emu)@ == written_32(old(emu)@, addr, value),
        emu_wf(final(emu)@),
        access_keeps(old(emu)@, final(emu)@),
{
    store(emu, addr - addr % 4, 4, value);
}

} // verus!
