//! What a transfer of words within main memory leaves behind: the destination holds what
//! the source held, nothing else in memory changed, and the channel's interrupt is
//! requested if its control register asks for it.

use super::{dma_transferred, stepped, unit_moved, unit_size, units_moved};
use crate::bytes::{le_32, lemma_word_moved, with_le_32};
use crate::cpu::arm9::bus::fallback::{read_32_of, written_32};
use crate::cpu::dma::Control;
use crate::cpu::irqs::IRQ_DMA0;
use crate::emu::{emu_wf, EmuView};
use vstd::prelude::*;

verus! {

/// Whether the `n` words from `addr` on lie in the first 4 MiB of main memory's region,
/// where every byte of main memory shows once.
pub open spec fn words_in_main_memory(addr: u32, n: nat) -> bool {
    addr % 4 == 0 && 0x0200_0000 <= addr && addr + 4 * n <= 0x0240_0000
}

/// One word that a channel moves within main memory goes from its place to the other,
/// and nothing else in memory, in the interrupt registers or in the set of ready channels
/// changes.
proof fn lemma_word_in_main_memory(
    v: EmuView,
    i: int,
    control: Control,
    src: u32,
    dst: u32,
    left: u32,
)
    requires
        v.main_mem.len() == 0x40_0000,
        v.arm9.dma.channels.len() == 4,
        0 <= i < 4,
        control.is_32_bit(),
        words_in_main_memory(src, 1),
        words_in_main_memory(dst, 1),
    ensures
        ({
            let after = unit_moved(v, i, control, src, dst, left);
            &&& after.main_mem == with_le_32(
                v.main_mem,
                dst - 0x0200_0000,
                le_32(v.main_mem, src - 0x0200_0000),
            )
            &&& after.arm9.irqs == v.arm9.irqs
            &&& after.arm9.dma.running == v.arm9.dma.running
            &&& after.arm9.dma.channels.len() == 4
            &&& after.arm9.dma.channels[i].control == v.arm9.dma.channels[i].control
        }),
{
    reveal(read_32_of);
    reveal(written_32);
    assert(src as int / 0x100_0000 == 2 && dst as int / 0x100_0000 == 2);
    assert(src as int % 0x40_0000 == src - 0x0200_0000);
    assert(dst as int % 0x40_0000 == dst - 0x0200_0000);
}

/// The words that a channel moves within main memory, from a source to a destination
/// that does not overlap with it, both going up: the destination ends up holding what the
/// source held, byte for byte, and no other byte of main memory has changed; nor have the
/// interrupt registers.
pub proof fn lemma_words_copied(v: EmuView, i: int, control: Control, src: u32, dst: u32, n: nat)
    requires
        v.main_mem.len() == 0x40_0000,
        v.arm9.dma.channels.len() == 4,
        0 <= i < 4,
        control.is_32_bit(),
        control.src_step() == 0,
        control.dst_step() == 0,
        words_in_main_memory(src, n),
        words_in_main_memory(dst, n),
        src + 4 * n <= dst || dst + 4 * n <= src,
    ensures
        ({
            let after = units_moved(v, i, control, src, dst, n);
            let from = src - 0x0200_0000;
            let to = dst - 0x0200_0000;
            &&& after.main_mem.len() == 0x40_0000
            &&& forall|p: int|
                to <= p < to + 4 * n ==> #[trigger] after.main_mem[p] == v.main_mem[p - to + from]
            &&& forall|p: int|
                0 <= p < 0x40_0000 && !(to <= p < to + 4 * n) ==> #[trigger] after.main_mem[p]
                    == v.main_mem[p]
            &&& after.arm9.irqs == v.arm9.irqs
            &&& after.arm9.dma.running == v.arm9.dma.running
            &&& after.arm9.dma.channels.len() == 4
            &&& after.arm9.dma.channels[i].control == v.arm9.dma.channels[i].control
        }),
    decreases n,
{
    if n > 0 {
        let from = src - 0x0200_0000;
        let to = dst - 0x0200_0000;
        let first = unit_moved(v, i, control, src, dst, (n - 1) as u32);
        lemma_word_in_main_memory(v, i, control, src, dst, (n - 1) as u32);
        lemma_word_moved(v.main_mem, from, to);
        let next_src = stepped(src, control.src_step(), unit_size(control), false);
        let next_dst = stepped(dst, control.dst_step(), unit_size(control), true);
        assert(next_src == src + 4 && next_dst == dst + 4);
        lemma_words_copied(first, i, control, next_src, next_dst, (n - 1) as nat);
        let after = units_moved(v, i, control, src, dst, n);
        assert(after == units_moved(first, i, control, next_src, next_dst, (n - 1) as nat));
        assert forall|p: int| to <= p < to + 4 * n implies #[trigger] after.main_mem[p]
            == v.main_mem[p - to + from] by {
            if p < to + 4 {
                assert(after.main_mem[p] == first.main_mem[p]);
            } else {
                assert(after.main_mem[p] == first.main_mem[p - (to + 4) + (from + 4)]);
            }
        }
    }
}

/// A transfer of words within main memory, from a source to a destination that does not
/// overlap with it, both going up: when the transfer has run, the destination holds what
/// the source held, no other byte of main memory has changed, and the interrupt of the
/// channel is requested if its control register asks for it, and only then unless it was
/// requested before.
pub proof fn lemma_transfer_copies(v: EmuView, i: int)
    requires
        emu_wf(v),
        v.arm9.dma.channels.len() == 4,
        0 <= i < 4,
        v.arm9.dma.channels[i].control.is_32_bit(),
        v.arm9.dma.channels[i].control.src_step() == 0,
        v.arm9.dma.channels[i].control.dst_step() == 0,
        words_in_main_memory(v.arm9.dma.channels[i].cur_src, v.arm9.dma.channels[i].remaining as nat),
        words_in_main_memory(v.arm9.dma.channels[i].cur_dst, v.arm9.dma.channels[i].remaining as nat),
        v.arm9.dma.channels[i].cur_src + 4 * v.arm9.dma.channels[i].remaining
            <= v.arm9.dma.channels[i].cur_dst || v.arm9.dma.channels[i].cur_dst + 4
            * v.arm9.dma.channels[i].remaining <= v.arm9.dma.channels[i].cur_src,
    ensures
        ({
            let channel = v.arm9.dma.channels[i];
            let after = dma_transferred(v, i);
            let from = channel.cur_src - 0x0200_0000;
            let to = channel.cur_dst - 0x0200_0000;
            &&& forall|p: int|
                to <= p < to + 4 * channel.remaining ==> #[trigger] after.main_mem[p]
                    == v.main_mem[p - to + from]
            &&& forall|p: int|
                0 <= p < 0x40_0000 && !(to <= p < to + 4 * channel.remaining)
                    ==> #[trigger] after.main_mem[p] == v.main_mem[p]
            &&& after.arm9.irqs.requested == if channel.control.irq() {
                v.arm9.irqs.requested | (IRQ_DMA0 << (i as u32))
            } else {
                v.arm9.irqs.requested
            }
        }),
{
    let channel = v.arm9.dma.channels[i];
    lemma_words_copied(
        v,
        i,
        channel.control,
        channel.cur_src,
        channel.cur_dst,
        channel.remaining as nat,
    );
}

} // verus!
