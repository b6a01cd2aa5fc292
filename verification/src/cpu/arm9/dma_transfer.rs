//! The ARM9's DMA transfers: a channel that is ready moves its units one by one, through
//! the same memory accesses that the CPU makes, while the CPU waits.

pub mod copying;

use super::bus::fallback::{
    read_16, read_16_of, read_32, read_32_of, write_16, write_32, written_16,
    written_32,
};
use super::cp15::{cycles_at, Cp15View};
use super::Arm9View;
use crate::cpu::dma::{Channel, Control, DmaView, Index, TIMING_IMMEDIATE};
use crate::cpu::irqs::{woken, IrqFlags, IrqsView, IRQ_DMA0};
use crate::cpu::schedule::Schedule;
use crate::cpu::interpreter::arm9::{add_cycles, with_cycles_added};
use crate::emu::{emu_wf, Emu, EmuView};
use vstd::prelude::*;

verus! {

/// The size of a unit in bytes.
pub open spec fn unit_size(control: Control) -> u32 {
    if control.is_32_bit() {
        4
    } else {
        2
    }
}

/// An address after a unit was moved: it goes up or down by the size of the unit, or
/// stays. The addresses wrap around.
pub open spec fn stepped(addr: u32, step: u8, size: u32, is_dst: bool) -> u32 {
    if step == 0 || (is_dst && step == 3) {
        addr.wrapping_add(size)
    } else if step == 1 {
        addr.wrapping_sub(size)
    } else {
        addr
    }
}

/// The cycles that a unit takes: the data wait states of the page that it is read from
/// and of the page that it is written to.
pub open spec fn unit_cycles(cp15: Cp15View, src: u32, dst: u32) -> int {
    cycles_at(cp15, src).data + cycles_at(cp15, dst).data
}

/// The cycles that the next `n` units of a transfer take, from the addresses `src` and
/// `dst` on.
pub open spec fn transfer_cycles(cp15: Cp15View, control: Control, src: u32, dst: u32, n: nat) -> int
    decreases n,
{
    if n == 0 {
        0
    } else {
        unit_cycles(cp15, src, dst) + transfer_cycles(
            cp15,
            control,
            stepped(src, control.src_step(), unit_size(control), false),
            stepped(dst, control.dst_step(), unit_size(control), true),
            (n - 1) as nat,
        )
    }
}

/// A transfer of `n` units that take `c` cycles each takes `n` times `c` cycles.
pub proof fn lemma_uniform_transfer_cycles(
    cp15: Cp15View,
    control: Control,
    src: u32,
    dst: u32,
    n: nat,
    c: int,
)
    requires
        forall|s: u32, d: u32| #[trigger] unit_cycles(cp15, s, d) == c,
    ensures
        transfer_cycles(cp15, control, src, dst, n) == n * c,
    decreases n,
{
    if n > 0 {
        lemma_uniform_transfer_cycles(
            cp15,
            control,
            stepped(src, control.src_step(), unit_size(control), false),
            stepped(dst, control.dst_step(), unit_size(control), true),
            (n - 1) as nat,
            c,
        );
        assert(unit_cycles(cp15, src, dst) == c);
        assert(n * c == c + (n - 1) * c) by (nonlinear_arith);
    } else {
        assert(n * c == 0) by (nonlinear_arith)
            requires
                n == 0,
        ;
    }
}

/// The machine after channel `i` moved one unit from `src` to `dst`, of which `left` are
/// left after it: the unit is read and written as the CPU would, the channel's addresses
/// move on, and the clock advances by the cycles of the unit.
pub open spec fn unit_moved(v: EmuView, i: int, control: Control, src: u32, dst: u32, left: u32) -> EmuView {
    let moved = if control.is_32_bit() {
        let (value, after) = read_32_of(v, src, false);
        written_32(after, dst, value)
    } else {
        let (value, after) = read_16_of(v, src);
        written_16(after, dst, value)
    };
    let channel = Channel {
        cur_src: stepped(src, control.src_step(), unit_size(control), false),
        cur_dst: stepped(dst, control.dst_step(), unit_size(control), true),
        remaining: left,
        ..moved.arm9.dma.channels[i]
    };
    with_cycles_added(
        EmuView {
            arm9: Arm9View {
                dma: DmaView { channels: moved.arm9.dma.channels.update(i, channel), ..moved.arm9.dma },
                ..moved.arm9
            },
            ..moved
        },
        unit_cycles(v.arm9.cp15, src, dst) as u64,
    )
}

/// The machine after channel `i` moved `n` units, starting at `src` and `dst`.
pub open spec fn units_moved(v: EmuView, i: int, control: Control, src: u32, dst: u32, n: nat) -> EmuView
    decreases n,
{
    if n == 0 {
        v
    } else {
        units_moved(
            unit_moved(v, i, control, src, dst, (n - 1) as u32),
            i,
            control,
            stepped(src, control.src_step(), unit_size(control), false),
            stepped(dst, control.dst_step(), unit_size(control), true),
            (n - 1) as nat,
        )
    }
}

/// The channel after its transfer ended. A repeating channel with a start condition
/// stays armed, with its unit count and, if its destination step says so, its destination
/// address from its registers; every other channel is disarmed.
pub open spec fn channel_finished(channel: Channel) -> Channel {
    if channel.control.repeat() && channel.control.timing() != TIMING_IMMEDIATE {
        Channel {
            remaining: channel.control.unit_count(),
            cur_dst: if channel.control.dst_step() == 3 {
                channel.dst_addr
            } else {
                channel.cur_dst
            },
            ..channel
        }
    } else {
        Channel { control: Control(channel.control.0 & 0x7FFF_FFFF), ..channel }
    }
}

/// The machine after the transfer of channel `i` ended: the channel is no longer ready,
/// and its interrupt is requested if `irq`.
pub open spec fn transfer_finished(v: EmuView, i: int, irq: bool) -> EmuView {
    EmuView {
        arm9: Arm9View {
            dma: DmaView {
                channels: v.arm9.dma.channels.update(i, channel_finished(v.arm9.dma.channels[i])),
                running: v.arm9.dma.running & !(1u8 << (i as u8)),
            },
            irqs: if irq {
                woken(
                    IrqsView {
                        requested: v.arm9.irqs.requested | (IRQ_DMA0 << (i as u32)),
                        ..v.arm9.irqs
                    },
                )
            } else {
                v.arm9.irqs
            },
            ..v.arm9
        },
        ..v
    }
}

/// The machine after channel `i` ran its transfer from start to end: it moves the units
/// that are left, requests its interrupt if its control register says so, and is disarmed
/// or armed anew.
pub open spec fn dma_transferred(v: EmuView, i: int) -> EmuView {
    let channel = v.arm9.dma.channels[i];
    transfer_finished(
        units_moved(
            v,
            i,
            channel.control,
            channel.cur_src,
            channel.cur_dst,
            channel.remaining as nat,
        ),
        i,
        channel.control.irq(),
    )
}

/// An address after a unit was moved.
fn step_address(addr: u32, kind: u8, size: u32, is_dst: bool) -> (next: u32)
    ensures
        next == stepped(addr, kind, size, is_dst),
{
    if kind == 0 || (is_dst && kind == 3) {
        addr.wrapping_add(size)
    } else if kind == 1 {
        addr.wrapping_sub(size)
    } else {
        addr
    }
}

/// Moves one unit of channel `i`.
fn move_unit(emu: &mut Emu, i: Index, control: Control, src: u32, dst: u32, left: u32)
    requires
        emu_wf(old(emu)@),
    ensures
        final(emu)@ == unit_moved(old(emu)@, i@ as int, control, src, dst, left),
        emu_wf(final(emu)@),
        final(emu)@.arm9.now.0 == old(emu)@.arm9.now.0.saturating_add(
            unit_cycles(old(emu)@.arm9.cp15, src, dst) as u64,
        ),
        final(emu)@.arm9.cp15 == old(emu)@.arm9.cp15,
        final(emu)@.arm9.engine == old(emu)@.arm9.engine,
{
    let cycles = emu.arm9.cp15.cycles(src).data as u64 + emu.arm9.cp15.cycles(dst).data as u64;
    let size: u32 = if control.is_32_bit() {
        let value = read_32(emu, src, false);
        write_32(emu, dst, value);
        4
    } else {
        let value = read_16(emu, src, false);
        write_16(emu, dst, value);
        2
    };
    let idx = i.get() as usize;
    emu.arm9.dma.channels[idx].cur_src = step_address(src, control.src_step(), size, false);
    emu.arm9.dma.channels[idx].cur_dst = step_address(dst, control.dst_step(), size, true);
    emu.arm9.dma.channels[idx].remaining = left;
    add_cycles(emu, cycles);
    proof {
        let moved = if control.is_32_bit() {
            let (value, after) = read_32_of(old(emu)@, src, false);
            written_32(after, dst, value)
        } else {
            let (value, after) = read_16_of(old(emu)@, src);
            written_16(after, dst, value)
        };
        assert(emu@.arm9.dma.channels =~= unit_moved(
            old(emu)@,
            i@ as int,
            control,
            src,
            dst,
            left,
        ).arm9.dma.channels);
    }
}

/// Runs the transfer of channel `i` from start to end.
///
/// The transfer takes the cycles of its units: the clock ends at the time of the start
/// plus those cycles. The channel's interrupt is requested exactly if its control
/// register asks for it.
pub fn run_dma_transfer(emu: &mut Emu, i: Index)
    requires
        emu_wf(old(emu)@),
    ensures
        final(emu)@ == dma_transferred(old(emu)@, i@ as int),
        emu_wf(final(emu)@),
        final(emu)@.arm9.now.0 == (if old(emu)@.arm9.now.0 + transfer_cycles(
            old(emu)@.arm9.cp15,
            old(emu)@.arm9.dma.channels[i@ as int].control,
            old(emu)@.arm9.dma.channels[i@ as int].cur_src,
            old(emu)@.arm9.dma.channels[i@ as int].cur_dst,
            old(emu)@.arm9.dma.channels[i@ as int].remaining as nat,
        ) > u64::MAX {
            u64::MAX
        } else {
            (old(emu)@.arm9.now.0 + transfer_cycles(
                old(emu)@.arm9.cp15,
                old(emu)@.arm9.dma.channels[i@ as int].control,
                old(emu)@.arm9.dma.channels[i@ as int].cur_src,
                old(emu)@.arm9.dma.channels[i@ as int].cur_dst,
                old(emu)@.arm9.dma.channels[i@ as int].remaining as nat,
            )) as u64
        }),
        final(emu)@.arm9.engine == old(emu)@.arm9.engine,
{
    let idx = i.get() as usize;
    let channel = emu.arm9.dma.channels[idx];
    let control = channel.control;
    let size: u32 = if control.is_32_bit() {
        4
    } else {
        2
    };
    let mut src = channel.cur_src;
    let mut dst = channel.cur_dst;
    let mut left = channel.remaining;
    let ghost cp15 = emu@.arm9.cp15;
    let ghost start = emu@.arm9.now.0;
    let ghost total = transfer_cycles(cp15, control, channel.cur_src, channel.cur_dst, left as nat);
    proof {
        lemma_transfer_cycles_nonnegative(cp15, control, src, dst, left as nat);
    }
    while left > 0
        invariant
            emu_wf(emu@),
            i@ == idx,
            idx < 4,
            size == unit_size(control),
            emu@.arm9.cp15 == cp15,
            emu@.arm9.engine == old(emu)@.arm9.engine,
            units_moved(emu@, idx as int, control, src, dst, left as nat) == units_moved(
                old(emu)@,
                idx as int,
                control,
                channel.cur_src,
                channel.cur_dst,
                channel.remaining as nat,
            ),
            transfer_cycles(cp15, control, src, dst, left as nat) >= 0,
            transfer_cycles(cp15, control, src, dst, left as nat) <= total,
            start == old(emu)@.arm9.now.0,
            emu@.arm9.now.0 == (if start + (total - transfer_cycles(
                cp15,
                control,
                src,
                dst,
                left as nat,
            )) > u64::MAX {
                u64::MAX
            } else {
                (start + (total - transfer_cycles(cp15, control, src, dst, left as nat))) as u64
            }),
        decreases left,
    {
        proof {
            lemma_transfer_cycles_nonnegative(
                cp15,
                control,
                stepped(src, control.src_step(), unit_size(control), false),
                stepped(dst, control.dst_step(), unit_size(control), true),
                (left - 1) as nat,
            );
        }
        move_unit(emu, i, control, src, dst, left - 1);
        src = step_address(src, control.src_step(), size, false);
        dst = step_address(dst, control.dst_step(), size, true);
        left -= 1;
    }
    let irq = control.irq();
    let finished = emu.arm9.dma.channels[idx];
    if finished.control.repeat() && finished.control.timing() != TIMING_IMMEDIATE {
        emu.arm9.dma.channels[idx].remaining = finished.control.unit_count();
        if finished.control.dst_step() == 3 {
            emu.arm9.dma.channels[idx].cur_dst = finished.dst_addr;
        }
    } else {
        emu.arm9.dma.channels[idx].control = Control(finished.control.0 & 0x7FFF_FFFF);
    }
    emu.arm9.dma.running = emu.arm9.dma.running & !(1u8 << i.get());
    if irq {
        emu.arm9.irqs.request(IrqFlags(IRQ_DMA0 << (i.get() as u32)), &mut emu.arm9.schedule);
    }
    proof {
        let before = units_moved(
            old(emu)@,
            idx as int,
            control,
            channel.cur_src,
            channel.cur_dst,
            channel.remaining as nat,
        );
        assert(emu@.arm9.dma.channels =~= transfer_finished(before, idx as int, irq).arm9.dma.channels);
    }
}

/// A transfer takes no negative number of cycles.
pub proof fn lemma_transfer_cycles_nonnegative(
    cp15: Cp15View,
    control: Control,
    src: u32,
    dst: u32,
    n: nat,
)
    ensures
        transfer_cycles(cp15, control, src, dst, n) >= 0,
    decreases n,
{
    if n > 0 {
        lemma_transfer_cycles_nonnegative(
            cp15,
            control,
            stepped(src, control.src_step(), unit_size(control), false),
            stepped(dst, control.dst_step(), unit_size(control), true),
            (n - 1) as nat,
        );
    }
}

} // verus!
