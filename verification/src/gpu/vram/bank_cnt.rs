//! The bank control registers: what a write to one of them does to the usage windows.
//!
//! A write first takes the bank out of the windows that its old setting put it in, and
//! then puts it into the windows of its new setting.

use super::{
    flags_restored, regions,
    has_bit, window_written,
    bank_len, bank_of, bank_size, banks_carried, carried_back, copied, filled, journal_marked,
    b_bg_ext_pal_set, b_obj_ext_pal_set, mirrored, mirrored_banks, ored, recomputed, region_count,
    region_len, tracks_writes, usage_bank, usage_len, vram_wf, BankControl, Vram, VramView,
    ACCESS_R, ACCESS_RW, ARM7, A_BG, A_BG_EXT_PAL, A_OBJ, A_OBJ_EXT_PAL, B_BG, B_OBJ, TEXTURE,
    TEX_PAL,
};
use crate::bits::lemma_two_bits;
use vstd::prelude::*;

verus! {

/// The bank set holds one bank.
pub open spec fn single_bank(bits: u8) -> bool {
    bits != 0 && bits & ((bits - 1) as u8) == 0
}

/// The change journal keeps the CPU's fast path from writing to a window: while a journal
/// is kept, every write to the windows of the 2D engines has to be noted.
pub open spec fn journal_blocks(v: VramView, usage: int) -> bool {
    usage != ARM7 && v.journal is Some
}

/// The CPU's fast path may write to a region with the banks `bits`: one bank is mapped,
/// it is not mirrored within the window, and the change journal does not stand in the way.
pub open spec fn on_fast_path(v: VramView, usage: int, bits: u8) -> bool {
    single_bank(bits) && bits & mirrored_banks(usage) == 0 && !journal_blocks(v, usage)
}

/// The first byte of a region in its window.
pub open spec fn region_start(usage: int, region: int) -> int {
    region * region_len(usage)
}

/// Video memory with a region's bank set replaced.
pub open spec fn with_mapped(v: VramView, usage: int, region: int, bits: u8) -> VramView {
    VramView { map: v.map.update(usage, v.map[usage].update(region, bits)), ..v }
}

/// Video memory with a region's fast-path access replaced.
pub open spec fn with_access(v: VramView, usage: int, region: int, access: u8) -> VramView {
    VramView { access: v.access.update(usage, v.access[usage].update(region, access)), ..v }
}

/// Video memory with a window's buffer replaced.
pub open spec fn with_window(v: VramView, usage: int, window: Seq<u8>) -> VramView {
    VramView { windows: v.windows.update(usage, window), ..v }
}

/// Video memory after a region's bytes are carried back into the banks in `bits` but the
/// one of bit `skip`: all bytes if `all`, else the marked ones.
pub open spec fn with_carried(
    v: VramView,
    usage: int,
    region: int,
    bits: u8,
    skip: int,
    all: bool,
) -> VramView {
    let start = region_start(usage, region);
    VramView {
        banks: banks_carried(
            v.banks,
            v.windows[usage],
            v.marks[usage],
            usage,
            bits,
            skip,
            all,
            start,
            start + region_len(usage),
            7,
        ),
        ..v
    }
}

/// Video memory after the window's bytes from `start` up to `end` are carried back into
/// one bank: all bytes if `all`, else the marked ones.
pub open spec fn with_carried_bank(
    v: VramView,
    bank: int,
    usage: int,
    all: bool,
    start: int,
    end: int,
) -> VramView {
    VramView {
        banks: v.banks.update(
            bank,
            carried_back(v.banks[bank], v.windows[usage], v.marks[usage], all, start, end),
        ),
        ..v
    }
}

/// Video memory with the marks of a region cleared.
pub open spec fn with_marks_cleared(v: VramView, usage: int, region: int) -> VramView {
    let start = region_start(usage, region);
    VramView {
        marks: v.marks.update(usage, filled(v.marks[usage], start, start + region_len(usage), false)),
        ..v
    }
}

/// Video memory with the change journal noting a region.
pub open spec fn with_journal_mark(v: VramView, usage: int, region: int) -> VramView {
    VramView { journal: journal_marked(v.journal, usage, region), ..v }
}

/// Video memory after the bank of bit `bit` is mapped to a region of a window.
///
/// Into a region without a bank, the bank's bytes are copied, and the CPU's fast path may
/// write there if the bank is not mirrored and no journal is kept. Into a region with banks,
/// the bank's bytes are ORed; before that, what was written to the region is carried back
/// into the banks that were mapped: the whole region if the fast path could write to it,
/// else the marked bytes; and the fast path may only read from now on. The marks of the
/// region are cleared when it had a bank or the new bank is mirrored.
pub open spec fn map_region(v: VramView, usage: int, region: int, bit: int) -> VramView {
    let prev = v.map[usage][region];
    let start = region_start(usage, region);
    let end = start + region_len(usage);
    let bank = usage_bank(usage, bit).unwrap();
    let flag = 1u8 << (bit as u8);
    let marking = tracks_writes(usage);
    let v = with_mapped(v, usage, region, prev | flag);
    let v = if prev == 0 {
        let v = with_window(v, usage, copied(v.windows[usage], v.banks[bank], start, end));
        if marking && flag & mirrored_banks(usage) == 0 && !journal_blocks(v, usage) {
            with_access(v, usage, region, ACCESS_RW)
        } else {
            v
        }
    } else {
        let v = if !marking {
            v
        } else if on_fast_path(v, usage, prev) {
            with_carried(with_access(v, usage, region, ACCESS_R), usage, region, prev, bit, true)
        } else {
            with_carried(v, usage, region, prev, bit, false)
        };
        with_window(v, usage, ored(v.windows[usage], v.banks[bank], start, end))
    };
    let v = if marking && (prev != 0 || flag & mirrored_banks(usage) != 0) {
        with_marks_cleared(v, usage, region)
    } else {
        v
    };
    with_journal_mark(v, usage, region)
}

/// The lesser of two numbers.
pub open spec fn least(a: int, b: int) -> int {
    if a <= b {
        a
    } else {
        b
    }
}

/// Video memory after the bank of bit `bit` is taken out of a region of a window.
///
/// When no bank is left, the region's bytes are carried back into the bank, as far as the
/// bank reaches, and the region is cleared. When banks are left, the bytes that were not
/// written show the OR of those banks again, and the marked bytes are carried back into
/// every bank that is left and into the bank that leaves. The mirror of a bank takes
/// nothing back into the bank.
pub open spec fn unmap_region(
    v: VramView,
    usage: int,
    region: int,
    bit: int,
    is_mirror: bool,
) -> VramView {
    let prev = v.map[usage][region];
    let new = prev & !(1u8 << (bit as u8));
    let start = region_start(usage, region);
    let end = start + region_len(usage);
    let bank = usage_bank(usage, bit).unwrap();
    let v = with_mapped(v, usage, region, new);
    let v = if tracks_writes(usage) {
        if new == 0 {
            let v = if is_mirror {
                v
            } else {
                with_carried_bank(
                    v,
                    bank,
                    usage,
                    true,
                    start,
                    start + least(region_len(usage), bank_len(bank)),
                )
            };
            let v = with_window(v, usage, filled(v.windows[usage], start, end, 0u8));
            if prev & mirrored_banks(usage) == 0 && !journal_blocks(v, usage) {
                with_access(v, usage, region, ACCESS_R)
            } else {
                v
            }
        } else {
            let v = if on_fast_path(v, usage, new) {
                with_access(v, usage, region, ACCESS_RW)
            } else {
                v
            };
            let v = with_window(
                v,
                usage,
                recomputed(v.windows[usage], v.marks[usage], v.banks, usage, new, true, start, end),
            );
            let v = with_carried(v, usage, region, new, bit, false);
            if is_mirror {
                v
            } else {
                with_carried_bank(v, bank, usage, false, start, end)
            }
        }
    } else if new == 0 {
        with_window(v, usage, filled(v.windows[usage], start, end, 0u8))
    } else {
        with_window(
            v,
            usage,
            recomputed(v.windows[usage], v.marks[usage], v.banks, usage, new, false, start, end),
        )
    };
    with_journal_mark(v, usage, region)
}

/// The first byte of a region in its window.
fn start_of_region(usage: usize, region: usize) -> (start: usize)
    requires
        usage < 9,
        region < region_count(usage as int),
    ensures
        start == region_start(usage as int, region as int),
        start + region_len(usage as int) <= usage_len(usage as int),
        usage_len(usage as int) <= 0x8_0000,
{
    match usage {
        2 => region * 0x8000,
        3 | 4 | 7 => region * 0x2_0000,
        6 => region * 0x2000,
        _ => region * 0x4000,
    }
}

impl Vram {
    /// Whether the CPU's fast path may write to a region with the banks `bits`.
    fn on_fast_path(&self, usage: usize, bits: u8) -> (fast: bool)
        ensures
            fast == on_fast_path(self@, usage as int, bits),
    {
        bits != 0 && bits & (bits - 1) == 0 && bits & mirrored(usage) == 0
            && !self.journal_blocks(usage)
    }

    /// Whether the change journal keeps the CPU's fast path from writing to a window.
    fn journal_blocks(&self, usage: usize) -> (blocks: bool)
        ensures
            blocks == journal_blocks(self@, usage as int),
    {
        usage != ARM7 && self.journal_active()
    }

    /// Maps the bank of bit `bit` to a region of a window.
    pub(crate) fn map_region(&mut self, usage: usize, region: usize, bit: u8)
        requires
            vram_wf(old(self)@),
            usage < 9,
            region < region_count(usage as int),
            bit < 7,
            usage_bank(usage as int, bit as int) is Some,
        ensures
            final(self)@ == map_region(old(self)@, usage as int, region as int, bit as int),
            vram_wf(final(self)@),
    {
        let prev = self.mapped(usage, region);
        let start = start_of_region(usage, region);
        let end = start + region_size_of(usage);
        let bank = bank_of(usage, bit).unwrap();
        let flag = 1u8 << bit;
        let marking = usage <= ARM7;
        self.set_mapped(usage, region, prev | flag);
        if prev == 0 {
            self.copy_into_window(usage, bank, start, end);
            if marking && flag & mirrored(usage) == 0 && !self.journal_blocks(usage) {
                self.set_access(usage, region, ACCESS_RW);
            }
        } else {
            if marking {
                if self.on_fast_path(usage, prev) {
                    self.set_access(usage, region, ACCESS_R);
                    self.carry_back_banks(usage, prev, bit, true, start, end);
                } else {
                    self.carry_back_banks(usage, prev, bit, false, start, end);
                }
            }
            self.or_into_window(usage, bank, start, end);
        }
        if marking && (prev != 0 || flag & mirrored(usage) != 0) {
            self.clear_window_marks(usage, start, end);
        }
        self.mark_journal(usage, region);
    }

    /// Takes the bank of bit `bit` out of a region of a window.
    pub(crate) fn unmap_region(&mut self, usage: usize, region: usize, bit: u8, is_mirror: bool)
        requires
            vram_wf(old(self)@),
            usage < 9,
            region < region_count(usage as int),
            bit < 7,
            usage_bank(usage as int, bit as int) is Some,
        ensures
            final(self)@ == unmap_region(
                old(self)@,
                usage as int,
                region as int,
                bit as int,
                is_mirror,
            ),
            vram_wf(final(self)@),
    {
        let prev = self.mapped(usage, region);
        let new = prev & !(1u8 << bit);
        let len = region_size_of(usage);
        let start = start_of_region(usage, region);
        let end = start + len;
        let bank = bank_of(usage, bit).unwrap();
        self.set_mapped(usage, region, new);
        if usage <= ARM7 {
            if new == 0 {
                if !is_mirror {
                    let bank_size = bank_size(bank);
                    let carried = if len <= bank_size {
                        len
                    } else {
                        bank_size
                    };
                    self.carry_back_bank(bank, usage, true, start, start + carried);
                }
                self.zero_window(usage, start, end);
                if prev & mirrored(usage) == 0 && !self.journal_blocks(usage) {
                    self.set_access(usage, region, ACCESS_R);
                }
            } else {
                if self.on_fast_path(usage, new) {
                    self.set_access(usage, region, ACCESS_RW);
                }
                self.recompute_window(usage, new, true, start, end);
                self.carry_back_banks(usage, new, bit, false, start, end);
                if !is_mirror {
                    self.carry_back_bank(bank, usage, false, start, end);
                }
            }
        } else if new == 0 {
            self.zero_window(usage, start, end);
        } else {
            self.recompute_window(usage, new, false, start, end);
        }
        self.mark_journal(usage, region);
    }
}

/// The size of a region of a usage window in bytes.
fn region_size_of(usage: usize) -> (len: usize)
    requires
        usage < 9,
    ensures
        len == region_len(usage as int),
{
    super::region_size(usage)
}

/// Where a control register setting puts its bank.
#[derive(Clone, Copy, Debug, PartialEq, Eq)]
pub enum Mapping {
    /// Nowhere: the setting selects no mapping.
    Nowhere,
    /// Into the LCDC window.
    Lcdc,
    /// Into `count` regions of a usage window, `stride` apart, as bit `bit` of their bank
    /// sets. With `mirror`, the second region is a mirror of the first.
    Window { usage: usize, first: usize, count: usize, stride: usize, bit: u8, mirror: bool },
    /// Bank H as engine B's extended background palettes.
    BBgExtPal,
    /// Bank I as engine B's extended object palettes.
    BObjExtPal,
}

/// The first of the two regions that banks F and G take in the windows of engine A.
pub open spec fn small_bank_region(offset: u8) -> int {
    if offset == 0 {
        0
    } else if offset == 1 {
        1
    } else if offset == 2 {
        4
    } else {
        5
    }
}

/// Where the control value `control` puts bank `bank`, if it enables it.
pub open spec fn mapping_of(bank: int, control: BankControl) -> Mapping {
    let mst = control.mst();
    let offset = control.offset();
    if mst == 0 {
        Mapping::Lcdc
    } else if bank < 2 {
        if mst == 1 {
            Mapping::Window {
                usage: A_BG,
                first: (offset * 8) as usize,
                count: 8,
                stride: 1,
                bit: bank as u8,
                mirror: false,
            }
        } else if mst == 2 {
            Mapping::Window {
                usage: A_OBJ,
                first: ((offset % 2) * 8) as usize,
                count: 8,
                stride: 1,
                bit: bank as u8,
                mirror: false,
            }
        } else if mst == 3 {
            Mapping::Window {
                usage: TEXTURE,
                first: offset as usize,
                count: 1,
                stride: 1,
                bit: bank as u8,
                mirror: false,
            }
        } else {
            Mapping::Nowhere
        }
    } else if bank < 4 {
        if mst == 1 {
            Mapping::Window {
                usage: A_BG,
                first: (offset * 8) as usize,
                count: 8,
                stride: 1,
                bit: bank as u8,
                mirror: false,
            }
        } else if mst == 2 {
            Mapping::Window {
                usage: ARM7,
                first: (offset % 2) as usize,
                count: 1,
                stride: 1,
                bit: (bank - 2) as u8,
                mirror: false,
            }
        } else if mst == 3 {
            Mapping::Window {
                usage: TEXTURE,
                first: offset as usize,
                count: 1,
                stride: 1,
                bit: bank as u8,
                mirror: false,
            }
        } else if mst == 4 {
            if bank == 2 {
                Mapping::Window { usage: B_BG, first: 0, count: 4, stride: 1, bit: 0, mirror: false }
            } else {
                Mapping::Window { usage: B_OBJ, first: 0, count: 1, stride: 1, bit: 0, mirror: false }
            }
        } else {
            Mapping::Nowhere
        }
    } else if bank == 4 {
        if mst == 1 {
            Mapping::Window { usage: A_BG, first: 0, count: 4, stride: 1, bit: 4, mirror: false }
        } else if mst == 2 {
            Mapping::Window { usage: A_OBJ, first: 0, count: 4, stride: 1, bit: 2, mirror: false }
        } else if mst == 3 {
            Mapping::Window { usage: TEX_PAL, first: 0, count: 4, stride: 1, bit: 0, mirror: false }
        } else if mst == 4 {
            Mapping::Window {
                usage: A_BG_EXT_PAL,
                first: 0,
                count: 2,
                stride: 1,
                bit: 0,
                mirror: false,
            }
        } else {
            Mapping::Nowhere
        }
    } else if bank < 7 {
        if mst == 1 {
            Mapping::Window {
                usage: A_BG,
                first: small_bank_region(offset) as usize,
                count: 2,
                stride: 2,
                bit: bank as u8,
                mirror: true,
            }
        } else if mst == 2 {
            Mapping::Window {
                usage: A_OBJ,
                first: small_bank_region(offset) as usize,
                count: 2,
                stride: 2,
                bit: (bank - 2) as u8,
                mirror: true,
            }
        } else if mst == 3 {
            Mapping::Window {
                usage: TEX_PAL,
                first: small_bank_region(offset) as usize,
                count: 1,
                stride: 1,
                bit: (bank - 4) as u8,
                mirror: false,
            }
        } else if mst == 4 {
            Mapping::Window {
                usage: A_BG_EXT_PAL,
                first: (offset % 2) as usize,
                count: 1,
                stride: 1,
                bit: (bank - 4) as u8,
                mirror: false,
            }
        } else if mst == 5 {
            Mapping::Window {
                usage: A_OBJ_EXT_PAL,
                first: 0,
                count: 1,
                stride: 1,
                bit: (bank - 5) as u8,
                mirror: false,
            }
        } else {
            Mapping::Nowhere
        }
    } else if bank == 7 {
        if mst == 1 {
            Mapping::Window { usage: B_BG, first: 0, count: 2, stride: 2, bit: 1, mirror: true }
        } else if mst == 2 {
            Mapping::BBgExtPal
        } else {
            Mapping::Nowhere
        }
    } else {
        if mst == 1 {
            Mapping::Window { usage: B_BG, first: 1, count: 2, stride: 2, bit: 2, mirror: true }
        } else if mst == 2 {
            Mapping::Window { usage: B_OBJ, first: 0, count: 1, stride: 1, bit: 1, mirror: false }
        } else if mst == 3 {
            Mapping::BObjExtPal
        } else {
            Mapping::Nowhere
        }
    }
}

/// The regions of a mapping lie in its window, and its bit stands for the bank.
pub open spec fn mapping_wf(bank: int, m: Mapping) -> bool {
    match m {
        Mapping::Window { usage, first, count, stride, bit, mirror } => {
            &&& usage < 9
            &&& 1 <= count <= 8
            &&& 1 <= stride <= 2
            &&& first + (count - 1) * stride < region_count(usage as int)
            &&& bit < 7
            &&& usage_bank(usage as int, bit as int) == Some(bank)
        },
        _ => true,
    }
}

/// Where the control value `control` puts bank `bank`, if it enables it.
fn decode_mapping(bank: usize, control: BankControl) -> (m: Mapping)
    requires
        bank < 9,
    ensures
        m == mapping_of(bank as int, control),
        mapping_wf(bank as int, m),
{
    let mst = control.mst();
    let offset = control.offset();
    let small_region: usize = match offset {
        0 => 0,
        1 => 1,
        2 => 4,
        _ => 5,
    };
    let bank_bit = bank as u8;
    if mst == 0 {
        return Mapping::Lcdc;
    }
    match bank {
        0 | 1 => match mst {
            1 => Mapping::Window {
                usage: A_BG,
                first: (offset * 8) as usize,
                count: 8,
                stride: 1,
                bit: bank_bit,
                mirror: false,
            },
            2 => Mapping::Window {
                usage: A_OBJ,
                first: ((offset % 2) * 8) as usize,
                count: 8,
                stride: 1,
                bit: bank_bit,
                mirror: false,
            },
            3 => Mapping::Window {
                usage: TEXTURE,
                first: offset as usize,
                count: 1,
                stride: 1,
                bit: bank_bit,
                mirror: false,
            },
            _ => Mapping::Nowhere,
        },
        2 | 3 => match mst {
            1 => Mapping::Window {
                usage: A_BG,
                first: (offset * 8) as usize,
                count: 8,
                stride: 1,
                bit: bank_bit,
                mirror: false,
            },
            2 => Mapping::Window {
                usage: ARM7,
                first: (offset % 2) as usize,
                count: 1,
                stride: 1,
                bit: bank_bit - 2,
                mirror: false,
            },
            3 => Mapping::Window {
                usage: TEXTURE,
                first: offset as usize,
                count: 1,
                stride: 1,
                bit: bank_bit,
                mirror: false,
            },
            4 => if bank == 2 {
                Mapping::Window { usage: B_BG, first: 0, count: 4, stride: 1, bit: 0, mirror: false }
            } else {
                Mapping::Window { usage: B_OBJ, first: 0, count: 1, stride: 1, bit: 0, mirror: false }
            },
            _ => Mapping::Nowhere,
        },
        4 => match mst {
            1 => Mapping::Window { usage: A_BG, first: 0, count: 4, stride: 1, bit: 4, mirror: false },
            2 => Mapping::Window { usage: A_OBJ, first: 0, count: 4, stride: 1, bit: 2, mirror: false },
            3 => Mapping::Window {
                usage: TEX_PAL,
                first: 0,
                count: 4,
                stride: 1,
                bit: 0,
                mirror: false,
            },
            4 => Mapping::Window {
                usage: A_BG_EXT_PAL,
                first: 0,
                count: 2,
                stride: 1,
                bit: 0,
                mirror: false,
            },
            _ => Mapping::Nowhere,
        },
        5 | 6 => match mst {
            1 => Mapping::Window {
                usage: A_BG,
                first: small_region,
                count: 2,
                stride: 2,
                bit: bank_bit,
                mirror: true,
            },
            2 => Mapping::Window {
                usage: A_OBJ,
                first: small_region,
                count: 2,
                stride: 2,
                bit: bank_bit - 2,
                mirror: true,
            },
            3 => Mapping::Window {
                usage: TEX_PAL,
                first: small_region,
                count: 1,
                stride: 1,
                bit: bank_bit - 4,
                mirror: false,
            },
            4 => Mapping::Window {
                usage: A_BG_EXT_PAL,
                first: (offset % 2) as usize,
                count: 1,
                stride: 1,
                bit: bank_bit - 4,
                mirror: false,
            },
            5 => Mapping::Window {
                usage: A_OBJ_EXT_PAL,
                first: 0,
                count: 1,
                stride: 1,
                bit: bank_bit - 5,
                mirror: false,
            },
            _ => Mapping::Nowhere,
        },
        7 => match mst {
            1 => Mapping::Window { usage: B_BG, first: 0, count: 2, stride: 2, bit: 1, mirror: true },
            2 => Mapping::BBgExtPal,
            _ => Mapping::Nowhere,
        },
        _ => match mst {
            1 => Mapping::Window { usage: B_BG, first: 1, count: 2, stride: 2, bit: 2, mirror: true },
            2 => Mapping::Window { usage: B_OBJ, first: 0, count: 1, stride: 1, bit: 1, mirror: false },
            3 => Mapping::BObjExtPal,
            _ => Mapping::Nowhere,
        },
    }
}

/// Video memory after a bank is mapped to the first `n` regions of a window mapping.
pub open spec fn regions_mapped(
    v: VramView,
    usage: int,
    first: int,
    stride: int,
    bit: int,
    n: int,
) -> VramView
    decreases n,
{
    if n <= 0 {
        v
    } else {
        map_region(
            regions_mapped(v, usage, first, stride, bit, n - 1),
            usage,
            first + (n - 1) * stride,
            bit,
        )
    }
}

/// Video memory after a bank is taken out of the first `n` regions of a window mapping.
pub open spec fn regions_unmapped(
    v: VramView,
    usage: int,
    first: int,
    stride: int,
    bit: int,
    mirror: bool,
    n: int,
) -> VramView
    decreases n,
{
    if n <= 0 {
        v
    } else {
        unmap_region(
            regions_unmapped(v, usage, first, stride, bit, mirror, n - 1),
            usage,
            first + (n - 1) * stride,
            bit,
            mirror && n - 1 == 1,
        )
    }
}

/// Video memory with the regions of a texture or texture palette mapping noted as changed
/// for the 3D engine.
pub open spec fn with_texture_dirty(v: VramView, usage: int, first: int, count: int) -> VramView {
    if usage == TEXTURE {
        VramView { texture_dirty: v.texture_dirty | (1u8 << (first as u8)), ..v }
    } else if usage == TEX_PAL {
        VramView {
            tex_pal_dirty: v.tex_pal_dirty | (if count == 4 {
                0xFu8
            } else {
                1u8 << (first as u8)
            }),
            ..v
        }
    } else {
        v
    }
}

/// Video memory after the mapping `m` of bank `bank` is put in place.
pub open spec fn mapping_applied(v: VramView, bank: int, m: Mapping) -> VramView {
    match m {
        Mapping::Nowhere => v,
        Mapping::Lcdc => VramView { lcdc: v.lcdc.update(bank, true), ..v },
        Mapping::BBgExtPal => b_bg_ext_pal_set(v, true),
        Mapping::BObjExtPal => b_obj_ext_pal_set(v, true),
        Mapping::Window { usage, first, count, stride, bit, mirror } => {
            let v = with_texture_dirty(v, usage as int, first as int, count as int);
            let v = regions_mapped(
                v,
                usage as int,
                first as int,
                stride as int,
                bit as int,
                count as int,
            );
            if usage == ARM7 {
                VramView { arm7_status: v.arm7_status | (1u8 << bit), ..v }
            } else {
                v
            }
        },
    }
}

/// Video memory after the mapping `m` of bank `bank` is taken away.
pub open spec fn mapping_removed(v: VramView, bank: int, m: Mapping) -> VramView {
    match m {
        Mapping::Nowhere => v,
        Mapping::Lcdc => VramView { lcdc: v.lcdc.update(bank, false), ..v },
        Mapping::BBgExtPal => b_bg_ext_pal_set(v, false),
        Mapping::BObjExtPal => b_obj_ext_pal_set(v, false),
        Mapping::Window { usage, first, count, stride, bit, mirror } => {
            let v = with_texture_dirty(v, usage as int, first as int, count as int);
            let v = regions_unmapped(
                v,
                usage as int,
                first as int,
                stride as int,
                bit as int,
                mirror,
                count as int,
            );
            if usage == ARM7 {
                VramView { arm7_status: v.arm7_status & !(1u8 << bit), ..v }
            } else {
                v
            }
        },
    }
}

/// The bits of a bank's control register that can be set: banks A and B have two mapping
/// selector bits and an offset, C, D, F and G three selector bits and an offset, E three
/// selector bits, H and I two.
pub open spec fn bank_control_mask(bank: int) -> u8 {
    if bank < 2 {
        0x9B
    } else if bank == 4 {
        0x87
    } else if bank >= 7 {
        0x83
    } else {
        0x9F
    }
}

/// Video memory after `value` is written to the control register of bank `bank`. A write
/// of the value that the register holds changes nothing.
pub open spec fn bank_control_written(v: VramView, bank: int, value: BankControl) -> VramView {
    let value = BankControl(value.0 & bank_control_mask(bank));
    let prev = BankControl(v.bank_control[bank]);
    if value.0 == prev.0 {
        v
    } else {
        let v = VramView { bank_control: v.bank_control.update(bank, value.0), ..v };
        let v = if prev.enabled() {
            mapping_removed(v, bank, mapping_of(bank, prev))
        } else {
            v
        };
        if value.enabled() {
            mapping_applied(v, bank, mapping_of(bank, value))
        } else {
            v
        }
    }
}

impl Vram {
    /// Notes the regions of a texture or texture palette mapping as changed.
    fn note_texture_dirty(&mut self, usage: usize, first: usize, count: usize)
        requires
            usage == TEXTURE || usage == TEX_PAL ==> first < 8,
        ensures
            final(self)@ == with_texture_dirty(
                old(self)@,
                usage as int,
                first as int,
                count as int,
            ),
    {
        if usage == TEXTURE {
            self.set_texture_dirty(1u8 << (first as u8));
        } else if usage == TEX_PAL {
            self.set_tex_pal_dirty(
                if count == 4 {
                    0xF
                } else {
                    1u8 << (first as u8)
                },
            );
        }
    }

    /// Puts a mapping of a bank in place.
    fn apply_mapping(&mut self, bank: usize, m: Mapping)
        requires
            vram_wf(old(self)@),
            bank < 9,
            mapping_wf(bank as int, m),
        ensures
            final(self)@ == mapping_applied(old(self)@, bank as int, m),
            vram_wf(final(self)@),
    {
        match m {
            Mapping::Nowhere => {},
            Mapping::Lcdc => {
                self.set_lcdc(bank, true);
            },
            Mapping::BBgExtPal => {
                self.set_b_bg_ext_pal(true);
            },
            Mapping::BObjExtPal => {
                self.set_b_obj_ext_pal(true);
            },
            Mapping::Window { usage, first, count, stride, bit, mirror } => {
                self.note_texture_dirty(usage, first, count);
                let ghost v0 = self@;
                let mut n: usize = 0;
                while n < count
                    invariant
                        n <= count,
                        mapping_wf(bank as int, m),
                        m == (Mapping::Window { usage, first, count, stride, bit, mirror }),
                        vram_wf(self@),
                        self@ == regions_mapped(
                            v0,
                            usage as int,
                            first as int,
                            stride as int,
                            bit as int,
                            n as int,
                        ),
                    decreases count - n,
                {
                    assert(n * stride <= (count - 1) * stride) by (nonlinear_arith)
                        requires
                            n <= count - 1,
                            stride >= 1,
                    ;
                    assert((count - 1) * stride <= 14) by (nonlinear_arith)
                        requires
                            1 <= count <= 8,
                            1 <= stride <= 2,
                    ;
                    self.map_region(usage, first + n * stride, bit);
                    n += 1;
                }
                if usage == ARM7 {
                    let status = self.arm7_status();
                    self.set_arm7_status(status | (1u8 << bit));
                }
            },
        }
    }

    /// Takes a mapping of a bank away.
    fn remove_mapping(&mut self, bank: usize, m: Mapping)
        requires
            vram_wf(old(self)@),
            bank < 9,
            mapping_wf(bank as int, m),
        ensures
            final(self)@ == mapping_removed(old(self)@, bank as int, m),
            vram_wf(final(self)@),
    {
        match m {
            Mapping::Nowhere => {},
            Mapping::Lcdc => {
                self.set_lcdc(bank, false);
            },
            Mapping::BBgExtPal => {
                self.set_b_bg_ext_pal(false);
            },
            Mapping::BObjExtPal => {
                self.set_b_obj_ext_pal(false);
            },
            Mapping::Window { usage, first, count, stride, bit, mirror } => {
                self.note_texture_dirty(usage, first, count);
                let ghost v0 = self@;
                let mut n: usize = 0;
                while n < count
                    invariant
                        n <= count,
                        mapping_wf(bank as int, m),
                        m == (Mapping::Window { usage, first, count, stride, bit, mirror }),
                        vram_wf(self@),
                        self@ == regions_unmapped(
                            v0,
                            usage as int,
                            first as int,
                            stride as int,
                            bit as int,
                            mirror,
                            n as int,
                        ),
                    decreases count - n,
                {
                    assert(n * stride <= (count - 1) * stride) by (nonlinear_arith)
                        requires
                            n <= count - 1,
                            stride >= 1,
                    ;
                    assert((count - 1) * stride <= 14) by (nonlinear_arith)
                        requires
                            1 <= count <= 8,
                            1 <= stride <= 2,
                    ;
                    self.unmap_region(usage, first + n * stride, bit, mirror && n == 1);
                    n += 1;
                }
                if usage == ARM7 {
                    let status = self.arm7_status();
                    self.set_arm7_status(status & !(1u8 << bit));
                }
            },
        }
    }

    /// Writes the control register of a bank.
    fn write_bank_control(&mut self, bank: usize, value: BankControl)
        requires
            vram_wf(old(self)@),
            bank < 9,
        ensures
            final(self)@ == bank_control_written(old(self)@, bank as int, value),
            vram_wf(final(self)@),
    {
        let mask: u8 = match bank {
            0 | 1 => 0x9B,
            4 => 0x87,
            7 | 8 => 0x83,
            _ => 0x9F,
        };
        let value = BankControl(value.0 & mask);
        let prev = self.bank_control()[bank];
        if value.0 == prev.0 {
            return ;
        }
        self.set_bank_control(bank, value);
        if prev.enabled() {
            self.remove_mapping(bank, decode_mapping(bank, prev));
        }
        if value.enabled() {
            self.apply_mapping(bank, decode_mapping(bank, value));
        }
    }

    /// Writes the control register of bank A.
    pub fn write_bank_control_a(&mut self, value: BankControl)
        requires
            vram_wf(old(self)@),
        ensures
            final(self)@ == bank_control_written(old(self)@, 0, value),
            vram_wf(final(self)@),
    {
        self.write_bank_control(0, value);
    }

    /// Writes the control register of bank B.
    pub fn write_bank_control_b(&mut self, value: BankControl)
        requires
            vram_wf(old(self)@),
        ensures
            final(self)@ == bank_control_written(old(self)@, 1, value),
            vram_wf(final(self)@),
    {
        self.write_bank_control(1, value);
    }

    /// Writes the control register of bank C.
    pub fn write_bank_control_c(&mut self, value: BankControl)
        requires
            vram_wf(old(self)@),
        ensures
            final(self)@ == bank_control_written(old(self)@, 2, value),
            vram_wf(final(self)@),
    {
        self.write_bank_control(2, value);
    }

    /// Writes the control register of bank D.
    pub fn write_bank_control_d(&mut self, value: BankControl)
        requires
            vram_wf(old(self)@),
        ensures
            final(self)@ == bank_control_written(old(self)@, 3, value),
            vram_wf(final(self)@),
    {
        self.write_bank_control(3, value);
    }

    /// Writes the control register of bank E.
    pub fn write_bank_control_e(&mut self, value: BankControl)
        requires
            vram_wf(old(self)@),
        ensures
            final(self)@ == bank_control_written(old(self)@, 4, value),
            vram_wf(final(self)@),
    {
        self.write_bank_control(4, value);
    }

    /// Writes the control register of bank F.
    pub fn write_bank_control_f(&mut self, value: BankControl)
        requires
            vram_wf(old(self)@),
        ensures
            final(self)@ == bank_control_written(old(self)@, 5, value),
            vram_wf(final(self)@),
    {
        self.write_bank_control(5, value);
    }

    /// Writes the control register of bank G.
    pub fn write_bank_control_g(&mut self, value: BankControl)
        requires
            vram_wf(old(self)@),
        ensures
            final(self)@ == bank_control_written(old(self)@, 6, value),
            vram_wf(final(self)@),
    {
        self.write_bank_control(6, value);
    }

    /// Writes the control register of bank H.
    pub fn write_bank_control_h(&mut self, value: BankControl)
        requires
            vram_wf(old(self)@),
        ensures
            final(self)@ == bank_control_written(old(self)@, 7, value),
            vram_wf(final(self)@),
    {
        self.write_bank_control(7, value);
    }

    /// Writes the control register of bank I.
    pub fn write_bank_control_i(&mut self, value: BankControl)
        requires
            vram_wf(old(self)@),
        ensures
            final(self)@ == bank_control_written(old(self)@, 8, value),
            vram_wf(final(self)@),
    {
        self.write_bank_control(8, value);
    }
}

/// Carrying bytes back changes no bank that none of the chosen bits stands for, and
/// leaves every bank its size.
pub proof fn lemma_banks_carried_frame(
    banks: Seq<Seq<u8>>,
    window: Seq<u8>,
    marks: Seq<bool>,
    usage: int,
    bits: u8,
    skip: int,
    all: bool,
    start: int,
    end: int,
    n: int,
    b: int,
)
    requires
        banks.len() == 9,
        0 <= b < 9,
        start <= end,
        forall|bit: int|
            0 <= bit < n && bit != skip && has_bit(bits, bit) ==> usage_bank(usage, bit) != Some(b),
    ensures
        banks_carried(banks, window, marks, usage, bits, skip, all, start, end, n).len() == 9,
        banks_carried(banks, window, marks, usage, bits, skip, all, start, end, n)[b] == banks[b],
    decreases n,
{
    if n > 0 {
        lemma_banks_carried_frame(banks, window, marks, usage, bits, skip, all, start, end, n - 1, b);
        let before = banks_carried(banks, window, marks, usage, bits, skip, all, start, end, n - 1);
        if n - 1 != skip && has_bit(bits, n - 1) && usage_bank(usage, n - 1) is Some {
            let bank = usage_bank(usage, n - 1).unwrap();
            assert(bank != b);
            assert(0 <= bank < 9);
        }
    }
}

/// Carrying bytes back into the banks of a set with the one bit `bit` carries them back
/// into the bank of that bit.
pub proof fn lemma_banks_carried_single(
    banks: Seq<Seq<u8>>,
    window: Seq<u8>,
    marks: Seq<bool>,
    usage: int,
    bit: int,
    skip: int,
    all: bool,
    start: int,
    end: int,
    n: int,
)
    requires
        banks.len() == 9,
        0 <= bit < 7,
        bit != skip,
        usage_bank(usage, bit) is Some,
        0 <= usage < 9,
        start <= end,
        0 <= n <= 7,
    ensures
        banks_carried(
            banks,
            window,
            marks,
            usage,
            1u8 << (bit as u8),
            skip,
            all,
            start,
            end,
            n,
        ).len() == 9,
        banks_carried(banks, window, marks, usage, 1u8 << (bit as u8), skip, all, start, end, n)[usage_bank(
            usage,
            bit,
        ).unwrap()] == (if bit < n {
            carried_back(banks[usage_bank(usage, bit).unwrap()], window, marks, all, start, end)
        } else {
            banks[usage_bank(usage, bit).unwrap()]
        }),
    decreases n,
{
    let bits = 1u8 << (bit as u8);
    if n > 0 {
        lemma_banks_carried_single(banks, window, marks, usage, bit, skip, all, start, end, n - 1);
        let other: u8 = if bit == 0 {
            1u8
        } else {
            0u8
        };
        lemma_two_bits(bit as u8, other, (n - 1) as u8);
        let bank = usage_bank(usage, bit).unwrap();
        assert(0 <= bank < 9);
        let before = banks_carried(banks, window, marks, usage, bits, skip, all, start, end, n - 1);
        if n - 1 != bit {
            assert(!has_bit(bits, n - 1));
        } else {
            assert(has_bit(bits, n - 1));
            assert(before[bank] == banks[bank]);
        }
    }
}

/// A marked byte is in the bank after the bytes are carried back, if no marked byte after
/// it goes to the same place of the bank.
pub proof fn lemma_carried_back_at(
    bank: Seq<u8>,
    window: Seq<u8>,
    marks: Seq<bool>,
    start: int,
    end: int,
    a: int,
)
    requires
        bank.len() > 0,
        0 <= start <= a < end,
        marks[a],
        forall|other: int|
            a < other < end && marks[other] ==> other % (bank.len() as int) != a % (bank.len() as int),
    ensures
        carried_back(bank, window, marks, false, start, end).len() == bank.len(),
        carried_back(bank, window, marks, false, start, end)[a % (bank.len() as int)] == window[a],
    decreases end - start,
{
    lemma_carried_back_len(bank, window, marks, false, start, end);
    if end - 1 > a {
        lemma_carried_back_at(bank, window, marks, start, end - 1, a);
        lemma_carried_back_len(bank, window, marks, false, start, end - 1);
    } else {
        lemma_carried_back_len(bank, window, marks, false, start, end - 1);
    }
}

/// Carrying bytes back leaves the bank its size.
pub proof fn lemma_carried_back_len(
    bank: Seq<u8>,
    window: Seq<u8>,
    marks: Seq<bool>,
    all: bool,
    start: int,
    end: int,
)
    requires
        bank.len() > 0,
        0 <= start,
    ensures
        carried_back(bank, window, marks, all, start, end).len() == bank.len(),
    decreases end - start,
{
    if start < end {
        lemma_carried_back_len(bank, window, marks, all, start, end - 1);
    }
}

/// Two bits of a window's bank sets stand for two banks.
pub proof fn lemma_usage_bank_injective(usage: int, bit1: int, bit2: int)
    requires
        bit1 != bit2,
        usage_bank(usage, bit1) is Some,
        usage_bank(usage, bit2) is Some,
    ensures
        usage_bank(usage, bit1) != usage_bank(usage, bit2),
        0 <= usage_bank(usage, bit1).unwrap() < 9,
        0 <= bit1 < 7,
{
}

/// Where two banks are mapped to a region that had none, the region shows the OR of the
/// two banks' bytes, none of its bytes is marked, and the banks are as they were.
pub proof fn lemma_two_banks_show_or(
    v: VramView,
    usage: int,
    region: int,
    bit1: int,
    bit2: int,
    a: int,
)
    requires
        vram_wf(v),
        0 <= usage < 9,
        0 <= region < region_count(usage),
        bit1 != bit2,
        usage_bank(usage, bit1) is Some,
        usage_bank(usage, bit2) is Some,
        v.map[usage][region] == 0,
        region_start(usage, region) <= a < region_start(usage, region) + region_len(usage),
    ensures
        ({
            let w = map_region(map_region(v, usage, region, bit1), usage, region, bit2);
            let bank1 = usage_bank(usage, bit1).unwrap();
            let bank2 = usage_bank(usage, bit2).unwrap();
            &&& w.windows[usage][a] == v.banks[bank1][a % bank_len(bank1)] | v.banks[bank2][a
                % bank_len(bank2)]
            &&& w.map[usage][region] == (1u8 << (bit1 as u8)) | (1u8 << (bit2 as u8))
            &&& tracks_writes(usage) ==> !w.marks[usage][a]
            &&& vram_wf(w)
        }),
{
    lemma_usage_bank_injective(usage, bit1, bit2);
    lemma_usage_bank_injective(usage, bit2, bit1);
    lemma_two_bits(bit1 as u8, bit2 as u8, 0);
    let bank1 = usage_bank(usage, bit1).unwrap();
    let bank2 = usage_bank(usage, bit2).unwrap();
    let start = region_start(usage, region);
    let end = start + region_len(usage);
    lemma_region_in_window(usage, region);
    let v1 = map_region(v, usage, region, bit1);
    lemma_map_region_wf(v, usage, region, bit1);
    assert(v1.windows[usage][a] == v.banks[bank1][a % bank_len(bank1)]);
    assert(v1.banks == v.banks);
    assert(v1.map[usage][region] == 1u8 << (bit1 as u8));
    let prev = v1.map[usage][region];
    let w = map_region(v1, usage, region, bit2);
    lemma_map_region_wf(v1, usage, region, bit2);
    let m1 = with_mapped(v1, usage, region, prev | (1u8 << (bit2 as u8)));
    assert forall|bit: int| 0 <= bit < 7 && bit != bit2 && has_bit(prev, bit) implies usage_bank(
        usage,
        bit,
    ) != Some(bank2) by {
        lemma_two_bits(bit1 as u8, bit2 as u8, bit as u8);
        assert(bit == bit1);
    }
    lemma_banks_carried_frame(
        m1.banks,
        m1.windows[usage],
        m1.marks[usage],
        usage,
        prev,
        bit2,
        true,
        start,
        end,
        7,
        bank2,
    );
    lemma_banks_carried_frame(
        m1.banks,
        m1.windows[usage],
        m1.marks[usage],
        usage,
        prev,
        bit2,
        false,
        start,
        end,
        7,
        bank2,
    );
}

/// A region lies within its window.
pub proof fn lemma_region_in_window(usage: int, region: int)
    requires
        0 <= usage < 9,
        0 <= region < region_count(usage),
    ensures
        0 <= region_start(usage, region),
        region_start(usage, region) + region_len(usage) <= usage_len(usage),
{
    assert(region * region_len(usage) + region_len(usage) <= region_count(usage) * region_len(
        usage,
    )) by (nonlinear_arith)
        requires
            0 <= region < region_count(usage),
            region_len(usage) > 0,
    ;
    assert(0 <= region * region_len(usage)) by (nonlinear_arith)
        requires
            0 <= region,
            region_len(usage) > 0,
    ;
}

/// Mapping a bank to a region leaves every part of video memory its size.
pub proof fn lemma_map_region_wf(v: VramView, usage: int, region: int, bit: int)
    requires
        vram_wf(v),
        0 <= usage < 9,
        0 <= region < region_count(usage),
        0 <= bit < 7,
        usage_bank(usage, bit) is Some,
    ensures
        vram_wf(map_region(v, usage, region, bit)),
{
    lemma_region_in_window(usage, region);
    let prev = v.map[usage][region];
    let start = region_start(usage, region);
    let end = start + region_len(usage);
    let m = with_mapped(v, usage, region, prev | (1u8 << (bit as u8)));
    let w = map_region(v, usage, region, bit);
    lemma_banks_carried_sizes(
        m.banks,
        m.windows[usage],
        m.marks[usage],
        usage,
        prev,
        bit,
        true,
        start,
        end,
        7,
    );
    lemma_banks_carried_sizes(
        m.banks,
        m.windows[usage],
        m.marks[usage],
        usage,
        prev,
        bit,
        false,
        start,
        end,
        7,
    );
    assert forall|u: int| 0 <= u < 9 implies (#[trigger] w.windows[u]).len() == usage_len(u) by {
        assert(v.windows[u].len() == usage_len(u));
    }
    assert forall|u: int| 0 <= u < 9 implies (#[trigger] w.map[u]).len() == region_count(u) by {
        assert(v.map[u].len() == region_count(u));
    }
    assert forall|u: int| 0 <= u < 9 implies (#[trigger] w.access[u]).len() == region_count(u) by {
        assert(v.access[u].len() == region_count(u));
    }
    assert forall|u: int| 0 <= u < 9 implies (#[trigger] w.marks[u]).len() == (if tracks_writes(u) {
        usage_len(u)
    } else {
        0
    }) by {
        assert(v.marks[u].len() == (if tracks_writes(u) {
            usage_len(u)
        } else {
            0
        }));
    }
    assert(w.journal matches Some(j) ==> j.len() == 2);
}

/// Carrying bytes back leaves every bank its size.
pub proof fn lemma_banks_carried_sizes(
    banks: Seq<Seq<u8>>,
    window: Seq<u8>,
    marks: Seq<bool>,
    usage: int,
    bits: u8,
    skip: int,
    all: bool,
    start: int,
    end: int,
    n: int,
)
    requires
        banks.len() == 9,
        forall|b: int| 0 <= b < 9 ==> (#[trigger] banks[b]).len() == bank_len(b),
        0 <= start,
    ensures
        banks_carried(banks, window, marks, usage, bits, skip, all, start, end, n).len() == 9,
        forall|b: int|
            0 <= b < 9 ==> (#[trigger] banks_carried(
                banks,
                window,
                marks,
                usage,
                bits,
                skip,
                all,
                start,
                end,
                n,
            )[b]).len() == bank_len(b),
    decreases n,
{
    if n > 0 {
        lemma_banks_carried_sizes(banks, window, marks, usage, bits, skip, all, start, end, n - 1);
        let before = banks_carried(banks, window, marks, usage, bits, skip, all, start, end, n - 1);
        if n - 1 != skip && has_bit(bits, n - 1) && usage_bank(usage, n - 1) is Some {
            let bank = usage_bank(usage, n - 1).unwrap();
            assert(0 <= bank < 9);
            assert(before[bank].len() == bank_len(bank));
            lemma_carried_back_len(before[bank], window, marks, all, start, end);
        }
    }
}

/// What was written to a region with two banks reaches the bank that stays: where two
/// banks are mapped to a region that had none, bytes are written to the region, and the
/// second bank is taken out again, the first bank holds the written bytes.
pub proof fn lemma_written_bytes_reach_bank(
    v: VramView,
    usage: int,
    region: int,
    bit1: int,
    bit2: int,
    addr: int,
    len: int,
    window: Seq<u8>,
    a: int,
)
    requires
        vram_wf(v),
        0 <= usage <= ARM7,
        0 <= region < region_count(usage),
        bit1 != bit2,
        usage_bank(usage, bit1) is Some,
        usage_bank(usage, bit2) is Some,
        v.map[usage][region] == 0,
        v.access[usage][region] != ACCESS_RW,
        region_start(usage, region) <= addr,
        addr + len <= region_start(usage, region) + region_len(usage),
        0 < len <= 4,
        addr <= a < addr + len,
        window.len() == usage_len(usage),
    ensures
        ({
            let mapped = map_region(map_region(v, usage, region, bit1), usage, region, bit2);
            let written = window_written(mapped, usage, addr, len, window);
            let unmapped = unmap_region(written, usage, region, bit2, false);
            let bank1 = usage_bank(usage, bit1).unwrap();
            unmapped.banks[bank1][a % bank_len(bank1)] == window[a]
        }),
{
    lemma_usage_bank_injective(usage, bit1, bit2);
    lemma_usage_bank_injective(usage, bit2, bit1);
    lemma_two_bits(bit1 as u8, bit2 as u8, 0);
    lemma_region_in_window(usage, region);
    let bank1 = usage_bank(usage, bit1).unwrap();
    let bank2 = usage_bank(usage, bit2).unwrap();
    let start = region_start(usage, region);
    let end = start + region_len(usage);
    let flag1 = 1u8 << (bit1 as u8);
    let flag2 = 1u8 << (bit2 as u8);
    let v1 = map_region(v, usage, region, bit1);
    lemma_map_region_wf(v, usage, region, bit1);
    assert(v1.map[usage][region] == flag1);
    assert(v1.access[usage][region] == ACCESS_RW ==> on_fast_path(v1, usage, flag1));
    let v2 = map_region(v1, usage, region, bit2);
    lemma_map_region_wf(v1, usage, region, bit2);
    assert(v2.map[usage][region] == flag1 | flag2);
    assert(v2.access[usage][region] != ACCESS_RW);
    assert(forall|x: int| start <= x < end ==> !(#[trigger] v2.marks[usage][x]));
    assert(addr / region_len(usage) == region) by {
        vstd::arithmetic::div_mod::lemma_fundamental_div_mod_converse(
            addr,
            region_len(usage),
            region,
            addr - start,
        );
    }
    let v3 = window_written(v2, usage, addr, len, window);
    assert(v3.windows[usage] == window);
    assert(v3.banks == v2.banks);
    let marks3 = v3.marks[usage];
    assert(forall|x: int| start <= x < end ==> ((#[trigger] marks3[x]) <==> addr <= x < addr + len));
    let v4 = unmap_region(v3, usage, region, bit2, false);
    let m = with_mapped(v3, usage, region, flag1);
    let window4 = recomputed(window, marks3, v3.banks, usage, flag1, true, start, end);
    assert(window4[a] == window[a]);
    let r = with_window(
        if on_fast_path(m, usage, flag1) {
            with_access(m, usage, region, ACCESS_RW)
        } else {
            m
        },
        usage,
        window4,
    );
    lemma_banks_carried_single(r.banks, window4, marks3, usage, bit1, bit2, false, start, end, 7);
    let carried = with_carried(r, usage, region, flag1, bit2, false);
    assert(carried.banks[bank1] == carried_back(v3.banks[bank1], window4, marks3, false, start, end));
    assert(v3.banks[bank1].len() == bank_len(bank1));
    assert forall|other: int| a < other < end && marks3[other] implies other % bank_len(bank1) != a
        % bank_len(bank1) by {
        assert(other - a < 4);
        assert(bank_len(bank1) == 0x2_0000 || bank_len(bank1) == 0x1_0000 || bank_len(bank1)
            == 0x8000 || bank_len(bank1) == 0x4000);
    }
    lemma_carried_back_at(v3.banks[bank1], window4, marks3, start, end, a);
    assert(v4.banks[bank1] == carried.banks[bank1]);
}

/// The bank of the lowest bit at or above `from` in a bank set.
pub open spec fn lowest_bank(usage: int, bits: u8, from: int) -> Option<int>
    decreases 7 - from,
{
    if from >= 7 || from < 0 {
        None
    } else if has_bit(bits, from) && usage_bank(usage, from) is Some {
        usage_bank(usage, from)
    } else {
        lowest_bank(usage, bits, from + 1)
    }
}

/// Video memory after what was written to a region is carried back into its banks.
///
/// Where one bank is mapped, it takes the region's bytes as far as it reaches, and the
/// marks stay unless the bank is mirrored. Where several banks are mapped, each takes
/// the marked bytes, and the marks are cleared.
pub open spec fn region_flushed(v: VramView, usage: int, region: int) -> VramView {
    let bits = v.map[usage][region];
    let start = region_start(usage, region);
    if bits == 0 {
        v
    } else if single_bank(bits) {
        let v = match lowest_bank(usage, bits, 0) {
            Some(bank) => with_carried_bank(
                v,
                bank,
                usage,
                true,
                start,
                start + least(region_len(usage), bank_len(bank)),
            ),
            None => v,
        };
        if bits & mirrored_banks(usage) != 0 {
            with_marks_cleared(v, usage, region)
        } else {
            v
        }
    } else {
        with_marks_cleared(with_carried(v, usage, region, bits, 7, false), usage, region)
    }
}

/// Video memory after the first `n` regions of a window are flushed.
pub open spec fn regions_flushed(v: VramView, usage: int, n: int) -> VramView
    decreases n,
{
    if n <= 0 {
        v
    } else {
        region_flushed(regions_flushed(v, usage, n - 1), usage, n - 1)
    }
}

/// Video memory after the first `n` windows are flushed.
pub open spec fn windows_flushed(v: VramView, n: int) -> VramView
    decreases n,
{
    if n <= 0 {
        v
    } else {
        regions_flushed(windows_flushed(v, n - 1), n - 1, region_count(n - 1))
    }
}

/// The access that the CPU's fast path has to a region with the banks `bits`.
pub open spec fn fast_path_access(v: VramView, usage: int, bits: u8) -> u8 {
    if on_fast_path(v, usage, bits) {
        ACCESS_RW
    } else {
        ACCESS_R
    }
}

/// Video memory with a region's buffer computed anew from its banks: zero without a bank,
/// the bank's bytes with one, the OR of the banks' bytes with several. In a window that
/// tracks writes, the CPU's fast path gets the access that the region's banks allow.
pub open spec fn region_restored(v: VramView, usage: int, region: int) -> VramView {
    let bits = v.map[usage][region];
    let start = region_start(usage, region);
    let v = with_window(
        v,
        usage,
        recomputed(
            v.windows[usage],
            v.marks[usage],
            v.banks,
            usage,
            bits,
            false,
            start,
            start + region_len(usage),
        ),
    );
    if tracks_writes(usage) {
        with_access(v, usage, region, fast_path_access(v, usage, bits))
    } else {
        v
    }
}

/// Video memory with the first `n` regions of a window restored.
pub open spec fn regions_restored(v: VramView, usage: int, n: int) -> VramView
    decreases n,
{
    if n <= 0 {
        v
    } else {
        region_restored(regions_restored(v, usage, n - 1), usage, n - 1)
    }
}

/// Video memory with every mark of a window cleared, if the window tracks writes.
pub open spec fn with_all_marks_cleared(v: VramView, usage: int) -> VramView {
    if tracks_writes(usage) {
        VramView {
            marks: v.marks.update(usage, filled(v.marks[usage], 0, usage_len(usage), false)),
            ..v
        }
    } else {
        v
    }
}

/// Video memory with the first `n` windows restored.
pub open spec fn windows_restored(v: VramView, n: int) -> VramView
    decreases n,
{
    if n <= 0 {
        v
    } else {
        regions_restored(
            with_all_marks_cleared(windows_restored(v, n - 1), n - 1),
            n - 1,
            region_count(n - 1),
        )
    }
}

/// Video memory after its buffers are rebuilt from the banks, the bank sets of the
/// regions and the bank control registers.
pub open spec fn mappings_restored(v: VramView) -> VramView {
    windows_restored(flags_restored(v), 9)
}

/// Video memory with the CPU's fast-path access to the first `n` regions of a window
/// set as the regions' banks allow.
pub open spec fn access_restored(v: VramView, usage: int, n: int) -> VramView
    decreases n,
{
    if n <= 0 {
        v
    } else {
        let v = access_restored(v, usage, n - 1);
        with_access(v, usage, n - 1, fast_path_access(v, usage, v.map[usage][n - 1]))
    }
}

/// Video memory with the marks of the first `n` windows cleared and the CPU's fast-path
/// access to them set as their banks allow.
pub open spec fn cpu_mappings_restored(v: VramView, n: int) -> VramView
    decreases n,
{
    if n <= 0 {
        v
    } else {
        access_restored(
            with_all_marks_cleared(cpu_mappings_restored(v, n - 1), n - 1),
            n - 1,
            region_count(n - 1),
        )
    }
}

impl Vram {
    /// The bank of the lowest bit in a bank set.
    fn lowest_bank(usage: usize, bits: u8) -> (bank: Option<usize>)
        ensures
            match bank {
                Some(b) => lowest_bank(usage as int, bits, 0) == Some(b as int) && b < 9,
                None => lowest_bank(usage as int, bits, 0) is None,
            },
    {
        let mut bit: u8 = 0;
        while bit < 7
            invariant
                bit <= 7,
                lowest_bank(usage as int, bits, 0) == lowest_bank(usage as int, bits, bit as int),
            decreases 7 - bit,
        {
            if bits & (1u8 << bit) != 0 {
                match bank_of(usage, bit) {
                    Some(bank) => {
                        return Some(bank);
                    },
                    None => {},
                }
            }
            bit += 1;
        }
        None
    }

    /// Carries what was written to a region back into its banks.
    fn flush_region(&mut self, usage: usize, region: usize)
        requires
            vram_wf(old(self)@),
            usage <= ARM7,
            region < region_count(usage as int),
        ensures
            final(self)@ == region_flushed(old(self)@, usage as int, region as int),
            vram_wf(final(self)@),
    {
        let bits = self.mapped(usage, region);
        if bits == 0 {
            return ;
        }
        let len = region_size_of(usage);
        let start = start_of_region(usage, region);
        let clear = if bits & (bits - 1) == 0 {
            match Self::lowest_bank(usage, bits) {
                Some(bank) => {
                    let bank_size = bank_size(bank);
                    let carried = if len <= bank_size {
                        len
                    } else {
                        bank_size
                    };
                    self.carry_back_bank(bank, usage, true, start, start + carried);
                },
                None => {},
            }
            bits & mirrored(usage) != 0
        } else {
            self.carry_back_banks(usage, bits, 7, false, start, start + len);
            true
        };
        if clear {
            self.clear_window_marks(usage, start, start + len);
        }
    }

    /// Carries everything that was written to the windows back into the banks, so that
    /// the banks hold what the windows show.
    pub fn flush_writeback(&mut self)
        requires
            vram_wf(old(self)@),
        ensures
            final(self)@ == windows_flushed(old(self)@, 5),
            vram_wf(final(self)@),
    {
        let mut usage: usize = 0;
        while usage < 5
            invariant
                usage <= 5,
                vram_wf(self@),
                self@ == windows_flushed(old(self)@, usage as int),
            decreases 5 - usage,
        {
            let ghost v0 = self@;
            let count = regions(usage);
            let mut region: usize = 0;
            while region < count
                invariant
                    region <= count,
                    usage < 5,
                    count == region_count(usage as int),
                    vram_wf(self@),
                    self@ == regions_flushed(v0, usage as int, region as int),
                decreases count - region,
            {
                self.flush_region(usage, region);
                region += 1;
            }
            usage += 1;
        }
    }

    /// Sets the CPU's fast-path access to the windows of the 2D engines as their banks
    /// allow, and clears the marks of these windows. Called when the change journal
    /// starts or ends.
    pub fn restore_cpu_bg_obj_mappings(&mut self)
        requires
            vram_wf(old(self)@),
        ensures
            final(self)@ == cpu_mappings_restored(old(self)@, 4),
            vram_wf(final(self)@),
    {
        let mut usage: usize = 0;
        while usage < 4
            invariant
                usage <= 4,
                vram_wf(self@),
                self@ == cpu_mappings_restored(old(self)@, usage as int),
            decreases 4 - usage,
        {
            self.clear_all_marks(usage);
            let ghost v0 = self@;
            let count = regions(usage);
            let mut region: usize = 0;
            while region < count
                invariant
                    region <= count,
                    usage < 4,
                    count == region_count(usage as int),
                    vram_wf(self@),
                    self@ == access_restored(v0, usage as int, region as int),
                decreases count - region,
            {
                let bits = self.mapped(usage, region);
                let access = if self.on_fast_path(usage, bits) {
                    ACCESS_RW
                } else {
                    ACCESS_R
                };
                self.set_access(usage, region, access);
                region += 1;
            }
            usage += 1;
        }
    }

    /// Rebuilds the buffers of the windows from the banks: called after the banks, the
    /// bank sets of the regions and the bank control registers were loaded as a whole.
    pub fn restore_mappings(&mut self)
        requires
            vram_wf(old(self)@),
        ensures
            final(self)@ == mappings_restored(old(self)@),
            vram_wf(final(self)@),
    {
        self.restore_flags();
        let ghost flagged = self@;
        let mut usage: usize = 0;
        while usage < 9
            invariant
                usage <= 9,
                vram_wf(self@),
                self@ == windows_restored(flagged, usage as int),
            decreases 9 - usage,
        {
            if usage <= ARM7 {
                self.clear_all_marks(usage);
            }
            let ghost v0 = self@;
            let count = regions(usage);
            let mut region: usize = 0;
            while region < count
                invariant
                    region <= count,
                    usage < 9,
                    count == region_count(usage as int),
                    vram_wf(self@),
                    self@ == regions_restored(v0, usage as int, region as int),
                decreases count - region,
            {
                let bits = self.mapped(usage, region);
                let start = start_of_region(usage, region);
                let end = start + region_size_of(usage);
                self.recompute_window(usage, bits, false, start, end);
                if usage <= ARM7 {
                    let access = if self.on_fast_path(usage, bits) {
                        ACCESS_RW
                    } else {
                        ACCESS_R
                    };
                    self.set_access(usage, region, access);
                }
                region += 1;
            }
            usage += 1;
        }
    }
}

} // verus!
