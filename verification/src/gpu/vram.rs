//! Video memory: nine banks that the bank control registers map onto usage windows.
//!
//! Every usage window has a buffer of its own that holds what the window shows: the bytes
//! of the one bank mapped to a region, or the bitwise OR of the banks where several are
//! mapped to it. A written byte of a region with several banks is marked, so that it can
//! be carried back into the banks when the mapping changes.

pub mod bank_cnt;

use crate::bytes::{le_16, le_32, with_le_16, with_le_32};
use vstd::prelude::*;

verus! {

/// The number of banks.
pub const BANKS: usize = 9;

/// The number of usage windows that have a buffer.
pub const USAGES: usize = 9;

/// Engine A's background window.
pub const A_BG: usize = 0;

/// Engine A's object window.
pub const A_OBJ: usize = 1;

/// Engine B's background window.
pub const B_BG: usize = 2;

/// Engine B's object window.
pub const B_OBJ: usize = 3;

/// The window that the ARM7 sees.
pub const ARM7: usize = 4;

/// Engine A's extended background palettes.
pub const A_BG_EXT_PAL: usize = 5;

/// Engine A's extended object palettes.
pub const A_OBJ_EXT_PAL: usize = 6;

/// The texture images of the 3D engine.
pub const TEXTURE: usize = 7;

/// The texture palettes of the 3D engine.
pub const TEX_PAL: usize = 8;

/// The size of a bank in bytes: 128 KiB for A to D, 64 for E, 16 for F and G, 32 for H and
/// 16 for I.
pub open spec fn bank_len(bank: int) -> int {
    if bank < 4 {
        0x2_0000
    } else if bank == 4 {
        0x1_0000
    } else if bank == 7 {
        0x8000
    } else {
        0x4000
    }
}

/// The size of a region of a usage window in bytes.
pub open spec fn region_len(usage: int) -> int {
    if usage == B_BG {
        0x8000
    } else if usage == B_OBJ || usage == ARM7 || usage == TEXTURE {
        0x2_0000
    } else if usage == A_OBJ_EXT_PAL {
        0x2000
    } else {
        0x4000
    }
}

/// The number of regions of a usage window.
pub open spec fn region_count(usage: int) -> int {
    if usage == A_BG {
        32
    } else if usage == A_OBJ {
        16
    } else if usage == B_BG || usage == TEXTURE {
        4
    } else if usage == ARM7 || usage == A_BG_EXT_PAL {
        2
    } else if usage == TEX_PAL {
        6
    } else {
        1
    }
}

/// The size of a usage window in bytes.
pub open spec fn usage_len(usage: int) -> int {
    region_count(usage) * region_len(usage)
}

/// Whether written bytes are tracked in a usage window: in the four windows of the 2D
/// engines' backgrounds and objects, and in the ARM7's window.
pub open spec fn tracks_writes(usage: int) -> bool {
    usage <= ARM7
}

/// The banks that are mirrored within a usage window, as a set of the window's bank bits.
pub open spec fn mirrored_banks(usage: int) -> u8 {
    if usage == A_BG {
        0x60
    } else if usage == A_OBJ {
        0x18
    } else if usage == B_BG {
        6
    } else if usage == B_OBJ {
        2
    } else {
        0
    }
}

/// The bank that a bit of a usage window's region bitmap stands for.
pub open spec fn usage_bank(usage: int, bit: int) -> Option<int> {
    if usage == A_BG {
        if 0 <= bit < 7 {
            Some(bit)
        } else {
            None
        }
    } else if usage == A_OBJ {
        if bit == 0 || bit == 1 {
            Some(bit)
        } else if 2 <= bit < 5 {
            Some(bit + 2)
        } else {
            None
        }
    } else if usage == B_BG {
        if bit == 0 {
            Some(2)
        } else if bit == 1 {
            Some(7)
        } else if bit == 2 {
            Some(8)
        } else {
            None
        }
    } else if usage == B_OBJ {
        if bit == 0 {
            Some(3)
        } else if bit == 1 {
            Some(8)
        } else {
            None
        }
    } else if usage == ARM7 {
        if bit == 0 || bit == 1 {
            Some(bit + 2)
        } else {
            None
        }
    } else if usage == A_BG_EXT_PAL || usage == TEX_PAL {
        if 0 <= bit < 3 {
            Some(bit + 4)
        } else {
            None
        }
    } else if usage == A_OBJ_EXT_PAL {
        if bit == 0 || bit == 1 {
            Some(bit + 5)
        } else {
            None
        }
    } else if usage == TEXTURE {
        if 0 <= bit < 4 {
            Some(bit)
        } else {
            None
        }
    } else {
        None
    }
}

/// `dst` with the bytes from `start` up to `end` taken from `src`, which repeats from its
/// start where it is shorter than the range reaches.
pub open spec fn copied(dst: Seq<u8>, src: Seq<u8>, start: int, end: int) -> Seq<u8> {
    Seq::new(
        dst.len(),
        |a: int|
            if start <= a < end {
                src[a % (src.len() as int)]
            } else {
                dst[a]
            },
    )
}

/// `dst` with the bytes of `src` ORed into the bytes from `start` up to `end`.
pub open spec fn ored(dst: Seq<u8>, src: Seq<u8>, start: int, end: int) -> Seq<u8> {
    Seq::new(
        dst.len(),
        |a: int|
            if start <= a < end {
                dst[a] | src[a % (src.len() as int)]
            } else {
                dst[a]
            },
    )
}

/// `dst` with `value` in every place from `start` up to `end`.
pub open spec fn filled<T>(dst: Seq<T>, start: int, end: int, value: T) -> Seq<T> {
    Seq::new(
        dst.len(),
        |a: int|
            if start <= a < end {
                value
            } else {
                dst[a]
            },
    )
}

/// The bank after the bytes of the window from `start` up to `end` are carried back into
/// it, one after the other: every byte if `all`, else the marked ones. Where the bank is
/// shorter than the range, a later byte of the window replaces an earlier one.
pub open spec fn carried_back(
    bank: Seq<u8>,
    window: Seq<u8>,
    marks: Seq<bool>,
    all: bool,
    start: int,
    end: int,
) -> Seq<u8>
    decreases end - start,
{
    if start >= end {
        bank
    } else {
        let before = carried_back(bank, window, marks, all, start, end - 1);
        if all || marks[end - 1] {
            before.update((end - 1) % (bank.len() as int), window[end - 1])
        } else {
            before
        }
    }
}

/// Copies `src` into `dst` from `start` up to `end`.
pub fn copy_wrapping(dst: &mut Vec<u8>, src: &Vec<u8>, start: usize, end: usize)
    requires
        start <= end <= old(dst)@.len(),
        src@.len() > 0,
    ensures
        final(dst)@ == copied(old(dst)@, src@, start as int, end as int),
{
    let len = src.len();
    let mut a = start;
    while a < end
        invariant
            start <= a <= end <= dst@.len(),
            len == src@.len(),
            len > 0,
            dst@ == copied(old(dst)@, src@, start as int, a as int),
        decreases end - a,
    {
        dst[a] = src[a % len];
        a += 1;
        assert(dst@ =~= copied(old(dst)@, src@, start as int, a as int));
    }
    assert(old(dst)@ =~= copied(old(dst)@, src@, start as int, start as int));
}

/// ORs `src` into `dst` from `start` up to `end`.
pub fn or_wrapping(dst: &mut Vec<u8>, src: &Vec<u8>, start: usize, end: usize)
    requires
        start <= end <= old(dst)@.len(),
        src@.len() > 0,
    ensures
        final(dst)@ == ored(old(dst)@, src@, start as int, end as int),
{
    let len = src.len();
    let mut a = start;
    while a < end
        invariant
            start <= a <= end <= dst@.len(),
            len == src@.len(),
            len > 0,
            dst@ == ored(old(dst)@, src@, start as int, a as int),
        decreases end - a,
    {
        dst[a] = dst[a] | src[a % len];
        a += 1;
        assert(dst@ =~= ored(old(dst)@, src@, start as int, a as int));
    }
    assert(old(dst)@ =~= ored(old(dst)@, src@, start as int, start as int));
}

/// Sets the bytes of `dst` from `start` up to `end` to zero.
pub fn fill_zero(dst: &mut Vec<u8>, start: usize, end: usize)
    requires
        start <= end <= old(dst)@.len(),
    ensures
        final(dst)@ == filled(old(dst)@, start as int, end as int, 0u8),
{
    let mut a = start;
    while a < end
        invariant
            start <= a <= end <= dst@.len(),
            dst@ == filled(old(dst)@, start as int, a as int, 0u8),
        decreases end - a,
    {
        dst[a] = 0;
        a += 1;
        assert(dst@ =~= filled(old(dst)@, start as int, a as int, 0u8));
    }
    assert(old(dst)@ =~= filled(old(dst)@, start as int, start as int, 0u8));
}

/// Clears the marks of `dst` from `start` up to `end`.
pub fn clear_marks(dst: &mut Vec<bool>, start: usize, end: usize)
    requires
        start <= end <= old(dst)@.len(),
    ensures
        final(dst)@ == filled(old(dst)@, start as int, end as int, false),
{
    let mut a = start;
    while a < end
        invariant
            start <= a <= end <= dst@.len(),
            dst@ == filled(old(dst)@, start as int, a as int, false),
        decreases end - a,
    {
        dst[a] = false;
        a += 1;
        assert(dst@ =~= filled(old(dst)@, start as int, a as int, false));
    }
    assert(old(dst)@ =~= filled(old(dst)@, start as int, start as int, false));
}

/// Carries the bytes of `window` from `start` up to `end` back into `bank`: every byte if
/// `all`, else the marked ones.
pub fn carry_back(
    bank: &mut Vec<u8>,
    window: &Vec<u8>,
    marks: &Vec<bool>,
    all: bool,
    start: usize,
    end: usize,
)
    requires
        start <= end <= window@.len(),
        all || end <= marks@.len(),
        old(bank)@.len() > 0,
    ensures
        final(bank)@ == carried_back(old(bank)@, window@, marks@, all, start as int, end as int),
        final(bank)@.len() == old(bank)@.len(),
{
    let len = bank.len();
    let mut a = start;
    while a < end
        invariant
            start <= a <= end <= window@.len(),
            all || end <= marks@.len(),
            len == bank@.len(),
            len == old(bank)@.len(),
            len > 0,
            bank@ == carried_back(old(bank)@, window@, marks@, all, start as int, a as int),
        decreases end - a,
    {
        if all || marks[a] {
            bank[a % len] = window[a];
        }
        a += 1;
    }
}

/// Whether bit `bit` is in the bank set `bits`.
pub open spec fn has_bit(bits: u8, bit: int) -> bool {
    0 <= bit < 8 && bits & (1u8 << (bit as u8)) != 0
}

/// The banks after the window's bytes from `start` up to `end` are carried back into
/// every bank that one of the bits below `n` in `bits` stands for, the bit `skip` left out.
pub open spec fn banks_carried(
    banks: Seq<Seq<u8>>,
    window: Seq<u8>,
    marks: Seq<bool>,
    usage: int,
    bits: u8,
    skip: int,
    all: bool,
    start: int,
    end: int,
    n: int,
) -> Seq<Seq<u8>>
    decreases n,
{
    if n <= 0 {
        banks
    } else {
        let before = banks_carried(banks, window, marks, usage, bits, skip, all, start, end, n - 1);
        if n - 1 != skip && has_bit(bits, n - 1) && usage_bank(usage, n - 1) is Some {
            let bank = usage_bank(usage, n - 1).unwrap();
            before.update(bank, carried_back(before[bank], window, marks, all, start, end))
        } else {
            before
        }
    }
}

/// What a window shows at `addr` where the banks of the bits below `n` in `bits` are
/// mapped: the OR of their bytes.
pub open spec fn or_of_banks(banks: Seq<Seq<u8>>, usage: int, bits: u8, addr: int, n: int) -> u8
    decreases n,
{
    if n <= 0 {
        0
    } else {
        let rest = or_of_banks(banks, usage, bits, addr, n - 1);
        if has_bit(bits, n - 1) && usage_bank(usage, n - 1) is Some {
            let bank = usage_bank(usage, n - 1).unwrap();
            rest | banks[bank][addr % bank_len(bank)]
        } else {
            rest
        }
    }
}

/// The window with the bytes from `start` up to `end` computed anew from the banks in
/// `bits`; with `unmarked_only`, the marked bytes stay.
pub open spec fn recomputed(
    window: Seq<u8>,
    marks: Seq<bool>,
    banks: Seq<Seq<u8>>,
    usage: int,
    bits: u8,
    unmarked_only: bool,
    start: int,
    end: int,
) -> Seq<u8> {
    Seq::new(
        window.len(),
        |a: int|
            if start <= a < end && !(unmarked_only && marks[a]) {
                or_of_banks(banks, usage, bits, a, 7)
            } else {
                window[a]
            },
    )
}

/// A bank control register: the mapping selector in bits 0 to 2, the offset in bits 3 and
/// 4, and the enable bit 7.
#[derive(Clone, Copy, Debug, PartialEq, Eq)]
pub struct BankControl(pub u8);

impl BankControl {
    pub open spec fn spec_mst(self) -> u8 {
        self.0 & 7
    }

    #[verifier::when_used_as_spec(spec_mst)]
    pub fn mst(self) -> (r: u8)
        ensures
            r == self.spec_mst(),
            r <= 7,
    {
        proof {
            crate::bits::lemma_and_le_u8(self.0, 7);
        }
        self.0 & 7
    }

    pub open spec fn spec_offset(self) -> u8 {
        (self.0 >> 3) & 3
    }

    #[verifier::when_used_as_spec(spec_offset)]
    pub fn offset(self) -> (r: u8)
        ensures
            r == self.spec_offset(),
            r <= 3,
    {
        proof {
            crate::bits::lemma_and_le_u8(self.0 >> 3, 3);
        }
        (self.0 >> 3) & 3
    }

    pub open spec fn spec_enabled(self) -> bool {
        self.0 & 0x80 != 0
    }

    #[verifier::when_used_as_spec(spec_enabled)]
    pub fn enabled(self) -> (r: bool)
        ensures
            r == self.spec_enabled(),
    {
        self.0 & 0x80 != 0
    }
}

/// What changed in the memory of one 2D engine since its renderer last looked: one bit
/// per 16 KiB of background and object memory and per extended palette slot, and a flag
/// each for the object extended palette, the palette and the object attributes.
#[derive(Clone, Copy, Debug, PartialEq, Eq)]
pub struct BgObjUpdates {
    pub bg: u32,
    pub obj: u16,
    pub bg_ext_palette: u8,
    pub obj_ext_palette: bool,
    pub palette: bool,
    pub oam: bool,
}

/// The CPU may read the region through its fast path.
pub const ACCESS_R: u8 = 1;

/// The CPU may read and write the region through its fast path.
pub const ACCESS_RW: u8 = 3;

/// Video memory, as contracts see it.
pub struct VramView {
    /// The nine bank control registers.
    pub bank_control: Seq<u8>,
    /// The bytes of the nine banks.
    pub banks: Seq<Seq<u8>>,
    /// The buffers of the nine usage windows.
    pub windows: Seq<Seq<u8>>,
    /// For every window and region, the banks mapped to it.
    pub map: Seq<Seq<u8>>,
    /// For every window that tracks writes, the bytes written since the marks of their
    /// region were last cleared.
    pub marks: Seq<Seq<bool>>,
    /// For every window and region, what the CPU's fast path may do.
    pub access: Seq<Seq<u8>>,
    /// For every bank, whether it shows in the LCDC window.
    pub lcdc: Seq<bool>,
    /// Whether bank H holds engine B's extended background palettes.
    pub b_bg_ext_pal: bool,
    /// Whether bank I holds engine B's extended object palettes.
    pub b_obj_ext_pal: bool,
    /// Bit 0: bank C is mapped to the ARM7; bit 1: bank D is.
    pub arm7_status: u8,
    /// The change journals of the two 2D engines, while their renderers keep one.
    pub journal: Option<Seq<BgObjUpdates>>,
    /// The texture regions that changed.
    pub texture_dirty: u8,
    /// The texture palette regions that changed.
    pub tex_pal_dirty: u8,
    /// The standard palettes.
    pub palette: Seq<u8>,
    /// The object attribute memory.
    pub oam: Seq<u8>,
}

/// Every part of video memory has its size.
pub open spec fn vram_wf(v: VramView) -> bool {
    &&& v.bank_control.len() == 9
    &&& v.banks.len() == 9
    &&& forall|b: int| 0 <= b < 9 ==> (#[trigger] v.banks[b]).len() == bank_len(b)
    &&& v.windows.len() == 9
    &&& forall|u: int| 0 <= u < 9 ==> (#[trigger] v.windows[u]).len() == usage_len(u)
    &&& v.map.len() == 9
    &&& forall|u: int| 0 <= u < 9 ==> (#[trigger] v.map[u]).len() == region_count(u)
    &&& v.marks.len() == 9
    &&& forall|u: int|
        0 <= u < 9 ==> (#[trigger] v.marks[u]).len() == (if tracks_writes(u) {
            usage_len(u)
        } else {
            0
        })
    &&& v.access.len() == 9
    &&& forall|u: int| 0 <= u < 9 ==> (#[trigger] v.access[u]).len() == region_count(u)
    &&& v.lcdc.len() == 9
    &&& v.journal matches Some(j) ==> j.len() == 2
    &&& v.palette.len() == 0x800
    &&& v.oam.len() == 0x800
}

/// Video memory.
pub struct Vram {
    bank_control: [BankControl; 9],
    banks: [Vec<u8>; 9],
    windows: [Vec<u8>; 9],
    map: [Vec<u8>; 9],
    marks: [Vec<bool>; 9],
    access: [Vec<u8>; 9],
    lcdc: [bool; 9],
    b_bg_ext_pal: bool,
    b_obj_ext_pal: bool,
    arm7_status: u8,
    journal: Option<[BgObjUpdates; 2]>,
    texture_dirty: u8,
    tex_pal_dirty: u8,
    palette: Vec<u8>,
    oam: Vec<u8>,
}

impl View for Vram {
    type V = VramView;

    closed spec fn view(&self) -> VramView {
        VramView {
            bank_control: Seq::new(9, |i: int| self.bank_control[i].0),
            banks: Seq::new(9, |i: int| self.banks[i]@),
            windows: Seq::new(9, |i: int| self.windows[i]@),
            map: Seq::new(9, |i: int| self.map[i]@),
            marks: Seq::new(9, |i: int| self.marks[i]@),
            access: Seq::new(9, |i: int| self.access[i]@),
            lcdc: self.lcdc@,
            b_bg_ext_pal: self.b_bg_ext_pal,
            b_obj_ext_pal: self.b_obj_ext_pal,
            arm7_status: self.arm7_status,
            journal: match self.journal {
                Some(j) => Some(j@),
                None => None,
            },
            texture_dirty: self.texture_dirty,
            tex_pal_dirty: self.tex_pal_dirty,
            palette: self.palette@,
            oam: self.oam@,
        }
    }
}

/// The size of a region of a usage window in bytes.
pub(crate) fn region_size(usage: usize) -> (len: usize)
    requires
        usage < 9,
    ensures
        len == region_len(usage as int),
{
    match usage {
        2 => 0x8000,
        3 | 4 | 7 => 0x2_0000,
        6 => 0x2000,
        _ => 0x4000,
    }
}

/// The number of regions of a usage window.
pub(crate) fn regions(usage: usize) -> (count: usize)
    requires
        usage < 9,
    ensures
        count == region_count(usage as int),
{
    match usage {
        0 => 32,
        1 => 16,
        2 | 7 => 4,
        4 | 5 => 2,
        8 => 6,
        _ => 1,
    }
}

/// The size of a usage window in bytes.
pub(crate) fn usage_size(usage: usize) -> (len: usize)
    requires
        usage < 9,
    ensures
        len == usage_len(usage as int),
{
    match usage {
        0 | 7 => 0x8_0000,
        1 | 4 => 0x4_0000,
        2 | 3 => 0x2_0000,
        5 => 0x8000,
        6 => 0x2000,
        _ => 0x1_8000,
    }
}

/// The size of a bank in bytes.
pub(crate) fn bank_size(bank: usize) -> (len: usize)
    requires
        bank < 9,
    ensures
        len == bank_len(bank as int),
{
    match bank {
        0 | 1 | 2 | 3 => 0x2_0000,
        4 => 0x1_0000,
        7 => 0x8000,
        _ => 0x4000,
    }
}

/// The banks that are mirrored within a usage window.
pub(crate) fn mirrored(usage: usize) -> (bits: u8)
    ensures
        bits == mirrored_banks(usage as int),
{
    match usage {
        0 => 0x60,
        1 => 0x18,
        2 => 6,
        3 => 2,
        _ => 0,
    }
}

/// The bank that a bit of a usage window's region bitmap stands for.
pub(crate) fn bank_of(usage: usize, bit: u8) -> (bank: Option<usize>)
    ensures
        match bank {
            Some(b) => usage_bank(usage as int, bit as int) == Some(b as int) && b < 9,
            None => usage_bank(usage as int, bit as int) is None,
        },
{
    match usage {
        0 => if bit < 7 {
            Some(bit as usize)
        } else {
            None
        },
        1 => if bit < 2 {
            Some(bit as usize)
        } else if bit < 5 {
            Some(bit as usize + 2)
        } else {
            None
        },
        2 => match bit {
            0 => Some(2),
            1 => Some(7),
            2 => Some(8),
            _ => None,
        },
        3 => match bit {
            0 => Some(3),
            1 => Some(8),
            _ => None,
        },
        4 => if bit < 2 {
            Some(bit as usize + 2)
        } else {
            None
        },
        5 | 8 => if bit < 3 {
            Some(bit as usize + 4)
        } else {
            None
        },
        6 => if bit < 2 {
            Some(bit as usize + 5)
        } else {
            None
        },
        7 => if bit < 4 {
            Some(bit as usize)
        } else {
            None
        },
        _ => None,
    }
}

impl Vram {
    /// Carries the bytes of a window from `start` up to `end` back into one bank.
    pub(crate) fn carry_back_bank(&mut self, bank: usize, usage: usize, all: bool, start: usize, end: usize)
        requires
            vram_wf(old(self)@),
            bank < 9,
            usage < 9,
            start <= end <= usage_len(usage as int),
            all || tracks_writes(usage as int),
        ensures
            final(self)@ == (VramView {
                banks: old(self)@.banks.update(
                    bank as int,
                    carried_back(
                        old(self)@.banks[bank as int],
                        old(self)@.windows[usage as int],
                        old(self)@.marks[usage as int],
                        all,
                        start as int,
                        end as int,
                    ),
                ),
                ..old(self)@
            }),
            vram_wf(final(self)@),
    {
        assert(self@.banks[bank as int].len() == bank_len(bank as int));
        assert(self@.windows[usage as int].len() == usage_len(usage as int));
        assert(self@.marks[usage as int].len() == (if tracks_writes(usage as int) {
            usage_len(usage as int)
        } else {
            0
        }));
        carry_back(
            &mut self.banks[bank],
            &self.windows[usage],
            &self.marks[usage],
            all,
            start,
            end,
        );
        proof {
            assert(self@.banks =~= old(self)@.banks.update(bank as int, self.banks[bank as int]@));
            assert forall|b: int| 0 <= b < 9 implies (#[trigger] self@.banks[b]).len() == bank_len(
                b,
            ) by {
                if b != bank {
                    assert(self@.banks[b] == old(self)@.banks[b]);
                }
            }
        }
    }

    /// Carries the bytes of a window from `start` up to `end` back into every bank in
    /// `bits` but the one of bit `skip`.
    pub(crate) fn carry_back_banks(
        &mut self,
        usage: usize,
        bits: u8,
        skip: u8,
        all: bool,
        start: usize,
        end: usize,
    )
        requires
            vram_wf(old(self)@),
            usage < 9,
            start <= end <= usage_len(usage as int),
            all || tracks_writes(usage as int),
        ensures
            final(self)@ == (VramView {
                banks: banks_carried(
                    old(self)@.banks,
                    old(self)@.windows[usage as int],
                    old(self)@.marks[usage as int],
                    usage as int,
                    bits,
                    skip as int,
                    all,
                    start as int,
                    end as int,
                    7,
                ),
                ..old(self)@
            }),
            vram_wf(final(self)@),
    {
        let mut bit: u8 = 0;
        while bit < 7
            invariant
                bit <= 7,
                usage < 9,
                start <= end <= usage_len(usage as int),
                all || tracks_writes(usage as int),
                vram_wf(self@),
                self@ == (VramView {
                    banks: banks_carried(
                        old(self)@.banks,
                        old(self)@.windows[usage as int],
                        old(self)@.marks[usage as int],
                        usage as int,
                        bits,
                        skip as int,
                        all,
                        start as int,
                        end as int,
                        bit as int,
                    ),
                    ..old(self)@
                }),
            decreases 7 - bit,
        {
            if bit != skip && bits & (1u8 << bit) != 0 {
                match bank_of(usage, bit) {
                    Some(bank) => {
                        self.carry_back_bank(bank, usage, all, start, end);
                    },
                    None => {},
                }
            }
            bit += 1;
        }
    }

    /// Shows the bytes of a bank in a window from `start` up to `end`.
    pub(crate) fn copy_into_window(&mut self, usage: usize, bank: usize, start: usize, end: usize)
        requires
            vram_wf(old(self)@),
            bank < 9,
            usage < 9,
            start <= end <= usage_len(usage as int),
        ensures
            final(self)@ == (VramView {
                windows: old(self)@.windows.update(
                    usage as int,
                    copied(
                        old(self)@.windows[usage as int],
                        old(self)@.banks[bank as int],
                        start as int,
                        end as int,
                    ),
                ),
                ..old(self)@
            }),
            vram_wf(final(self)@),
    {
        assert(self@.banks[bank as int].len() == bank_len(bank as int));
        assert(self@.windows[usage as int].len() == usage_len(usage as int));
        copy_wrapping(&mut self.windows[usage], &self.banks[bank], start, end);
        proof {
            assert(self@.windows =~= old(self)@.windows.update(
                usage as int,
                self.windows[usage as int]@,
            ));
            assert forall|u: int| 0 <= u < 9 implies (#[trigger] self@.windows[u]).len()
                == usage_len(u) by {
                if u != usage {
                    assert(self@.windows[u] == old(self)@.windows[u]);
                }
            }
        }
    }

    /// ORs the bytes of a bank into a window from `start` up to `end`.
    pub(crate) fn or_into_window(&mut self, usage: usize, bank: usize, start: usize, end: usize)
        requires
            vram_wf(old(self)@),
            bank < 9,
            usage < 9,
            start <= end <= usage_len(usage as int),
        ensures
            final(self)@ == (VramView {
                windows: old(self)@.windows.update(
                    usage as int,
                    ored(
                        old(self)@.windows[usage as int],
                        old(self)@.banks[bank as int],
                        start as int,
                        end as int,
                    ),
                ),
                ..old(self)@
            }),
            vram_wf(final(self)@),
    {
        assert(self@.banks[bank as int].len() == bank_len(bank as int));
        assert(self@.windows[usage as int].len() == usage_len(usage as int));
        or_wrapping(&mut self.windows[usage], &self.banks[bank], start, end);
        proof {
            assert(self@.windows =~= old(self)@.windows.update(
                usage as int,
                self.windows[usage as int]@,
            ));
            assert forall|u: int| 0 <= u < 9 implies (#[trigger] self@.windows[u]).len()
                == usage_len(u) by {
                if u != usage {
                    assert(self@.windows[u] == old(self)@.windows[u]);
                }
            }
        }
    }

    /// Clears a window from `start` up to `end`.
    pub(crate) fn zero_window(&mut self, usage: usize, start: usize, end: usize)
        requires
            vram_wf(old(self)@),
            usage < 9,
            start <= end <= usage_len(usage as int),
        ensures
            final(self)@ == (VramView {
                windows: old(self)@.windows.update(
                    usage as int,
                    filled(old(self)@.windows[usage as int], start as int, end as int, 0u8),
                ),
                ..old(self)@
            }),
            vram_wf(final(self)@),
    {
        assert(self@.windows[usage as int].len() == usage_len(usage as int));
        fill_zero(&mut self.windows[usage], start, end);
        proof {
            assert(self@.windows =~= old(self)@.windows.update(
                usage as int,
                self.windows[usage as int]@,
            ));
            assert forall|u: int| 0 <= u < 9 implies (#[trigger] self@.windows[u]).len()
                == usage_len(u) by {
                if u != usage {
                    assert(self@.windows[u] == old(self)@.windows[u]);
                }
            }
        }
    }

    /// Clears the marks of a window from `start` up to `end`.
    pub(crate) fn clear_window_marks(&mut self, usage: usize, start: usize, end: usize)
        requires
            vram_wf(old(self)@),
            usage < 9,
            tracks_writes(usage as int),
            start <= end <= usage_len(usage as int),
        ensures
            final(self)@ == (VramView {
                marks: old(self)@.marks.update(
                    usage as int,
                    filled(old(self)@.marks[usage as int], start as int, end as int, false),
                ),
                ..old(self)@
            }),
            vram_wf(final(self)@),
    {
        assert(self@.marks[usage as int].len() == usage_len(usage as int));
        clear_marks(&mut self.marks[usage], start, end);
        proof {
            assert(self@.marks =~= old(self)@.marks.update(usage as int, self.marks[usage as int]@));
            assert forall|u: int| 0 <= u < 9 implies (#[trigger] self@.marks[u]).len() == (
            if tracks_writes(u) {
                usage_len(u)
            } else {
                0
            }) by {
                if u != usage {
                    assert(self@.marks[u] == old(self)@.marks[u]);
                }
            }
        }
    }

    /// What a window shows at `addr` where the banks in `bits` are mapped.
    fn or_of_banks(&self, usage: usize, bits: u8, addr: usize) -> (value: u8)
        requires
            vram_wf(self@),
            usage < 9,
        ensures
            value == or_of_banks(self@.banks, usage as int, bits, addr as int, 7),
    {
        let mut value: u8 = 0;
        let mut bit: u8 = 0;
        while bit < 7
            invariant
                bit <= 7,
                usage < 9,
                vram_wf(self@),
                value == or_of_banks(self@.banks, usage as int, bits, addr as int, bit as int),
            decreases 7 - bit,
        {
            if bits & (1u8 << bit) != 0 {
                match bank_of(usage, bit) {
                    Some(bank) => {
                        assert(self@.banks[bank as int].len() == bank_len(bank as int));
                        value = value | self.banks[bank][addr % bank_size(bank)];
                    },
                    None => {},
                }
            }
            bit += 1;
        }
        value
    }

    /// Computes a window anew from the banks in `bits`, from `start` up to `end`; with
    /// `unmarked_only`, the marked bytes stay.
    pub(crate) fn recompute_window(
        &mut self,
        usage: usize,
        bits: u8,
        unmarked_only: bool,
        start: usize,
        end: usize,
    )
        requires
            vram_wf(old(self)@),
            usage < 9,
            start <= end <= usage_len(usage as int),
            unmarked_only ==> tracks_writes(usage as int),
        ensures
            final(self)@ == (VramView {
                windows: old(self)@.windows.update(
                    usage as int,
                    recomputed(
                        old(self)@.windows[usage as int],
                        old(self)@.marks[usage as int],
                        old(self)@.banks,
                        usage as int,
                        bits,
                        unmarked_only,
                        start as int,
                        end as int,
                    ),
                ),
                ..old(self)@
            }),
            vram_wf(final(self)@),
    {
        let mut a = start;
        proof {
            assert(recomputed(
                old(self)@.windows[usage as int],
                old(self)@.marks[usage as int],
                old(self)@.banks,
                usage as int,
                bits,
                unmarked_only,
                start as int,
                start as int,
            ) =~= old(self)@.windows[usage as int]);
            assert(self@.windows =~= old(self)@.windows.update(
                usage as int,
                old(self)@.windows[usage as int],
            ));
        }
        while a < end
            invariant
                start <= a <= end <= usage_len(usage as int),
                usage < 9,
                unmarked_only ==> tracks_writes(usage as int),
                vram_wf(self@),
                self@ == (VramView {
                    windows: old(self)@.windows.update(
                        usage as int,
                        recomputed(
                            old(self)@.windows[usage as int],
                            old(self)@.marks[usage as int],
                            old(self)@.banks,
                            usage as int,
                            bits,
                            unmarked_only,
                            start as int,
                            a as int,
                        ),
                    ),
                    ..old(self)@
                }),
            decreases end - a,
        {
            let ghost before = self@;
            assert(self@.marks[usage as int].len() == (if tracks_writes(usage as int) {
                usage_len(usage as int)
            } else {
                0
            }));
            assert(self@.windows[usage as int].len() == usage_len(usage as int));
            if !(unmarked_only && self.marks[usage][a]) {
                let value = self.or_of_banks(usage, bits, a);
                self.windows[usage][a] = value;
            }
            a += 1;
            proof {
                assert(self@.windows[usage as int] =~= recomputed(
                    old(self)@.windows[usage as int],
                    old(self)@.marks[usage as int],
                    old(self)@.banks,
                    usage as int,
                    bits,
                    unmarked_only,
                    start as int,
                    a as int,
                ));
                assert forall|u: int| 0 <= u < 9 && u != usage implies (#[trigger] self@.windows[u])
                    == old(self)@.windows[u] by {
                    assert(self@.windows[u] == before.windows[u]);
                }
                assert(self@.windows =~= old(self)@.windows.update(
                    usage as int,
                    self@.windows[usage as int],
                ));
                assert forall|u: int| 0 <= u < 9 implies (#[trigger] self@.windows[u]).len()
                    == usage_len(u) by {
                    if u != usage {
                        assert(self@.windows[u] == before.windows[u]);
                    }
                }
            }
        }
    }

    /// The banks mapped to a region of a window.
    pub fn mapped(&self, usage: usize, region: usize) -> (bits: u8)
        requires
            vram_wf(self@),
            usage < 9,
            region < region_count(usage as int),
        ensures
            bits == self@.map[usage as int][region as int],
    {
        assert(self@.map[usage as int].len() == region_count(usage as int));
        self.map[usage][region]
    }

    /// Records the banks mapped to a region of a window.
    pub(crate) fn set_mapped(&mut self, usage: usize, region: usize, bits: u8)
        requires
            vram_wf(old(self)@),
            usage < 9,
            region < region_count(usage as int),
        ensures
            final(self)@ == (VramView {
                map: old(self)@.map.update(
                    usage as int,
                    old(self)@.map[usage as int].update(region as int, bits),
                ),
                ..old(self)@
            }),
            vram_wf(final(self)@),
    {
        assert(self@.map[usage as int].len() == region_count(usage as int));
        self.map[usage][region] = bits;
        proof {
            assert(self@.map =~= old(self)@.map.update(
                usage as int,
                old(self)@.map[usage as int].update(region as int, bits),
            ));
            assert forall|u: int| 0 <= u < 9 implies (#[trigger] self@.map[u]).len()
                == region_count(u) by {
                if u != usage {
                    assert(self@.map[u] == old(self)@.map[u]);
                }
            }
        }
    }

    /// What the CPU's fast path may do in a region of a window.
    pub fn access(&self, usage: usize, region: usize) -> (access: u8)
        requires
            vram_wf(self@),
            usage < 9,
            region < region_count(usage as int),
        ensures
            access == self@.access[usage as int][region as int],
    {
        assert(self@.access[usage as int].len() == region_count(usage as int));
        self.access[usage][region]
    }

    /// Records what the CPU's fast path may do in a region of a window.
    pub(crate) fn set_access(&mut self, usage: usize, region: usize, access: u8)
        requires
            vram_wf(old(self)@),
            usage < 9,
            region < region_count(usage as int),
        ensures
            final(self)@ == (VramView {
                access: old(self)@.access.update(
                    usage as int,
                    old(self)@.access[usage as int].update(region as int, access),
                ),
                ..old(self)@
            }),
            vram_wf(final(self)@),
    {
        assert(self@.access[usage as int].len() == region_count(usage as int));
        self.access[usage][region] = access;
        proof {
            assert(self@.access =~= old(self)@.access.update(
                usage as int,
                old(self)@.access[usage as int].update(region as int, access),
            ));
            assert forall|u: int| 0 <= u < 9 implies (#[trigger] self@.access[u]).len()
                == region_count(u) by {
                if u != usage {
                    assert(self@.access[u] == old(self)@.access[u]);
                }
            }
        }
    }

    /// Whether the renderers keep a change journal.
    pub fn journal_active(&self) -> (active: bool)
        ensures
            active == self@.journal is Some,
    {
        self.journal.is_some()
    }

    /// Notes in the change journal that a region of a window changed.
    pub(crate) fn mark_journal(&mut self, usage: usize, region: usize)
        requires
            vram_wf(old(self)@),
            usage < 9,
            region < region_count(usage as int),
        ensures
            final(self)@ == (VramView {
                journal: journal_marked(old(self)@.journal, usage as int, region as int),
                ..old(self)@
            }),
            vram_wf(final(self)@),
    {
        match &mut self.journal {
            Some(journal) => {
                match usage {
                    0 => {
                        journal[0].bg = journal[0].bg | (1u32 << (region as u32));
                    },
                    1 => {
                        journal[0].obj = journal[0].obj | (1u16 << (region as u16));
                    },
                    2 => {
                        journal[1].bg = journal[1].bg | (3u32 << ((region * 2) as u32));
                    },
                    3 => {
                        journal[1].obj = 0xFF;
                    },
                    5 => {
                        journal[0].bg_ext_palette = journal[0].bg_ext_palette | (1u8 << (
                        region as u8));
                    },
                    6 => {
                        journal[0].obj_ext_palette = true;
                    },
                    _ => {},
                }
            },
            None => {},
        }
        proof {
            assert(self@.journal =~= journal_marked(old(self)@.journal, usage as int, region as int));
        }
    }

    /// Video memory with every byte zero, no bank mapped and every control register zero.
    pub fn new() -> (vram: Self)
        ensures
            vram@ == initial_vram(),
            vram_wf(vram@),
    {
        let vram = Vram {
            bank_control: [BankControl(0); 9],
            banks: [
                vec![0u8; 0x2_0000],
                vec![0u8; 0x2_0000],
                vec![0u8; 0x2_0000],
                vec![0u8; 0x2_0000],
                vec![0u8; 0x1_0000],
                vec![0u8; 0x4000],
                vec![0u8; 0x4000],
                vec![0u8; 0x8000],
                vec![0u8; 0x4000],
            ],
            windows: [
                vec![0u8; 0x8_0000],
                vec![0u8; 0x4_0000],
                vec![0u8; 0x2_0000],
                vec![0u8; 0x2_0000],
                vec![0u8; 0x4_0000],
                vec![0u8; 0x8000],
                vec![0u8; 0x2000],
                vec![0u8; 0x8_0000],
                vec![0u8; 0x1_8000],
            ],
            map: [
                vec![0u8; 32],
                vec![0u8; 16],
                vec![0u8; 4],
                vec![0u8; 1],
                vec![0u8; 2],
                vec![0u8; 2],
                vec![0u8; 1],
                vec![0u8; 4],
                vec![0u8; 6],
            ],
            marks: [
                vec![false; 0x8_0000],
                vec![false; 0x4_0000],
                vec![false; 0x2_0000],
                vec![false; 0x2_0000],
                vec![false; 0x4_0000],
                Vec::new(),
                Vec::new(),
                Vec::new(),
                Vec::new(),
            ],
            access: [
                vec![1u8; 32],
                vec![1u8; 16],
                vec![1u8; 4],
                vec![1u8; 1],
                vec![1u8; 2],
                vec![1u8; 2],
                vec![1u8; 1],
                vec![1u8; 4],
                vec![1u8; 6],
            ],
            lcdc: [false; 9],
            b_bg_ext_pal: false,
            b_obj_ext_pal: false,
            arm7_status: 0,
            journal: None,
            texture_dirty: 0,
            tex_pal_dirty: 0,
            palette: vec![0u8; 0x800],
            oam: vec![0u8; 0x800],
        };
        proof {
            let v = vram@;
            let w = initial_vram();
            assert(v.bank_control =~= w.bank_control);
            assert(v.lcdc =~= w.lcdc);
            assert(v.palette =~= w.palette);
            assert(v.oam =~= w.oam);
            assert forall|i: int| 0 <= i < 9 implies #[trigger] v.banks[i] =~= w.banks[i] by {}
            assert forall|i: int| 0 <= i < 9 implies #[trigger] v.windows[i] =~= w.windows[i] by {}
            assert forall|i: int| 0 <= i < 9 implies #[trigger] v.map[i] =~= w.map[i] by {}
            assert forall|i: int| 0 <= i < 9 implies #[trigger] v.marks[i] =~= w.marks[i] by {}
            assert forall|i: int| 0 <= i < 9 implies #[trigger] v.access[i] =~= w.access[i] by {}
            assert(v.banks =~= w.banks);
            assert(v.windows =~= w.windows);
            assert(v.map =~= w.map);
            assert(v.marks =~= w.marks);
            assert(v.access =~= w.access);
        }
        vram
    }

    /// The nine bank control registers, A first.
    pub fn bank_control(&self) -> (control: [BankControl; 9])
        ensures
            forall|i: int| 0 <= i < 9 ==> (#[trigger] control[i]).0 == self@.bank_control[i],
    {
        self.bank_control
    }

    /// Stores a bank control register.
    pub(crate) fn set_bank_control(&mut self, bank: usize, value: BankControl)
        requires
            bank < 9,
            vram_wf(old(self)@),
        ensures
            final(self)@ == (VramView {
                bank_control: old(self)@.bank_control.update(bank as int, value.0),
                ..old(self)@
            }),
            vram_wf(final(self)@),
    {
        self.bank_control[bank] = value;
        proof {
            assert(self@.bank_control =~= old(self)@.bank_control.update(bank as int, value.0));
        }
    }

    /// Shows a bank in the LCDC window or takes it out.
    pub(crate) fn set_lcdc(&mut self, bank: usize, shown: bool)
        requires
            bank < 9,
            vram_wf(old(self)@),
        ensures
            final(self)@ == (VramView {
                lcdc: old(self)@.lcdc.update(bank as int, shown),
                ..old(self)@
            }),
            vram_wf(final(self)@),
    {
        self.lcdc[bank] = shown;
    }

    /// Makes bank H hold engine B's extended background palettes, or ends that.
    pub(crate) fn set_b_bg_ext_pal(&mut self, mapped: bool)
        requires
            vram_wf(old(self)@),
        ensures
            final(self)@ == b_bg_ext_pal_set(old(self)@, mapped),
            vram_wf(final(self)@),
    {
        self.b_bg_ext_pal = mapped;
        match &mut self.journal {
            Some(journal) => {
                journal[1].bg_ext_palette = 3;
            },
            None => {},
        }
        proof {
            assert(self@.journal =~= b_bg_ext_pal_set(old(self)@, mapped).journal);
        }
    }

    /// Makes bank I hold engine B's extended object palettes, or ends that.
    pub(crate) fn set_b_obj_ext_pal(&mut self, mapped: bool)
        requires
            vram_wf(old(self)@),
        ensures
            final(self)@ == b_obj_ext_pal_set(old(self)@, mapped),
            vram_wf(final(self)@),
    {
        self.b_obj_ext_pal = mapped;
        match &mut self.journal {
            Some(journal) => {
                journal[1].obj_ext_palette = true;
            },
            None => {},
        }
        proof {
            assert(self@.journal =~= b_obj_ext_pal_set(old(self)@, mapped).journal);
        }
    }

    /// Brings the LCDC window and engine B's extended palettes in line with the bank
    /// control registers.
    pub(crate) fn restore_flags(&mut self)
        requires
            vram_wf(old(self)@),
        ensures
            final(self)@ == flags_restored(old(self)@),
            vram_wf(final(self)@),
    {
        let mut bank: usize = 0;
        proof {
            assert(self@.lcdc =~= Seq::new(
                9,
                |b: int|
                    if b < 0 {
                        shows_in_lcdc(old(self)@.bank_control[b])
                    } else {
                        old(self)@.lcdc[b]
                    },
            ));
        }
        while bank < 9
            invariant
                bank <= 9,
                vram_wf(self@),
                self@ == (VramView {
                    lcdc: Seq::new(
                        9,
                        |b: int|
                            if b < bank {
                                shows_in_lcdc(old(self)@.bank_control[b])
                            } else {
                                old(self)@.lcdc[b]
                            },
                    ),
                    ..old(self)@
                }),
            decreases 9 - bank,
        {
            let control = self.bank_control[bank];
            self.lcdc[bank] = control.enabled() && control.mst() == 0;
            bank += 1;
            proof {
                assert(self@.lcdc =~= Seq::new(
                    9,
                    |b: int|
                        if b < bank {
                            shows_in_lcdc(old(self)@.bank_control[b])
                        } else {
                            old(self)@.lcdc[b]
                        },
                ));
            }
        }
        self.b_bg_ext_pal = self.bank_control[7].enabled() && self.bank_control[7].mst() == 2;
        self.b_obj_ext_pal = self.bank_control[8].enabled() && self.bank_control[8].mst() == 3;
        proof {
            assert(self@.lcdc =~= flags_restored(old(self)@).lcdc);
        }
    }

    /// Records whether banks C and D are mapped to the ARM7.
    pub(crate) fn set_arm7_status(&mut self, status: u8)
        ensures
            final(self)@ == (VramView { arm7_status: status, ..old(self)@ }),
    {
        self.arm7_status = status;
    }

    /// Bit 0: bank C is mapped to the ARM7; bit 1: bank D is.
    pub fn arm7_status(&self) -> (status: u8)
        ensures
            status == self@.arm7_status,
    {
        self.arm7_status
    }

    /// Notes the texture regions in `regions` as changed.
    pub(crate) fn set_texture_dirty(&mut self, regions: u8)
        ensures
            final(self)@ == (VramView {
                texture_dirty: old(self)@.texture_dirty | regions,
                ..old(self)@
            }),
    {
        self.texture_dirty = self.texture_dirty | regions;
    }

    /// Notes the texture palette regions in `regions` as changed.
    pub(crate) fn set_tex_pal_dirty(&mut self, regions: u8)
        ensures
            final(self)@ == (VramView {
                tex_pal_dirty: old(self)@.tex_pal_dirty | regions,
                ..old(self)@
            }),
    {
        self.tex_pal_dirty = self.tex_pal_dirty | regions;
    }

    /// Hands out the texture and texture palette regions that changed, and forgets them.
    pub fn take_texture_dirty(&mut self) -> (dirty: (u8, u8))
        ensures
            dirty == (old(self)@.texture_dirty, old(self)@.tex_pal_dirty),
            final(self)@ == (VramView { texture_dirty: 0, tex_pal_dirty: 0, ..old(self)@ }),
    {
        let dirty = (self.texture_dirty, self.tex_pal_dirty);
        self.texture_dirty = 0;
        self.tex_pal_dirty = 0;
        dirty
    }

    /// Starts or replaces the change journal, or ends it with `None`. While a journal is
    /// kept, the CPU's fast path does not write to the windows of the 2D engines; the
    /// caller brings the fast path in line with `restore_cpu_bg_obj_mappings`.
    pub fn set_journal(&mut self, journal: Option<[BgObjUpdates; 2]>)
        ensures
            final(self)@ == (VramView {
                journal: match journal {
                    Some(j) => Some(j@),
                    None => None,
                },
                ..old(self)@
            }),
    {
        self.journal = journal;
    }

    /// The change journal, if one is kept.
    pub fn journal(&self) -> (journal: Option<[BgObjUpdates; 2]>)
        ensures
            match journal {
                Some(j) => self@.journal == Some(j@),
                None => self@.journal is None,
            },
    {
        self.journal
    }

    /// Clears every mark of a window.
    pub(crate) fn clear_all_marks(&mut self, usage: usize)
        requires
            vram_wf(old(self)@),
            usage < 9,
            tracks_writes(usage as int),
        ensures
            final(self)@ == (VramView {
                marks: old(self)@.marks.update(
                    usage as int,
                    filled(old(self)@.marks[usage as int], 0, usage_len(usage as int), false),
                ),
                ..old(self)@
            }),
            vram_wf(final(self)@),
    {
        let len = usage_size(usage);
        self.clear_window_marks(usage, 0, len);
    }

    /// The byte at `addr` of a window.
    pub fn read_window_8(&self, usage: usize, addr: usize) -> (value: u8)
        requires
            vram_wf(self@),
            usage < 9,
            addr < usage_len(usage as int),
        ensures
            value == self@.windows[usage as int][addr as int],
    {
        assert(self@.windows[usage as int].len() == usage_len(usage as int));
        self.windows[usage][addr]
    }

    /// The halfword at `addr` of a window.
    pub fn read_window_16(&self, usage: usize, addr: usize) -> (value: u16)
        requires
            vram_wf(self@),
            usage < 9,
            addr + 1 < usage_len(usage as int),
        ensures
            value == le_16(self@.windows[usage as int], addr as int),
    {
        assert(self@.windows[usage as int].len() == usage_len(usage as int));
        crate::bytes::read_16(&self.windows[usage], addr)
    }

    /// The word at `addr` of a window.
    pub fn read_window_32(&self, usage: usize, addr: usize) -> (value: u32)
        requires
            vram_wf(self@),
            usage < 9,
            addr + 3 < usage_len(usage as int),
        ensures
            value == le_32(self@.windows[usage as int], addr as int),
    {
        assert(self@.windows[usage as int].len() == usage_len(usage as int));
        crate::bytes::read_32(&self.windows[usage], addr)
    }

    /// Marks the bytes of a window from `start` up to `end` as written.
    fn mark_written(&mut self, usage: usize, start: usize, end: usize)
        requires
            vram_wf(old(self)@),
            usage < 9,
            tracks_writes(usage as int),
            start <= end <= usage_len(usage as int),
        ensures
            final(self)@ == (VramView {
                marks: old(self)@.marks.update(
                    usage as int,
                    filled(old(self)@.marks[usage as int], start as int, end as int, true),
                ),
                ..old(self)@
            }),
            vram_wf(final(self)@),
    {
        assert(self@.marks[usage as int].len() == usage_len(usage as int));
        let mut a = start;
        let ghost marks0 = self@.marks[usage as int];
        proof {
            assert(filled(marks0, start as int, start as int, true) =~= marks0);
            assert(self@.marks =~= old(self)@.marks.update(usage as int, marks0));
        }
        while a < end
            invariant
                start <= a <= end <= usage_len(usage as int),
                usage < 9,
                tracks_writes(usage as int),
                vram_wf(self@),
                marks0 == old(self)@.marks[usage as int],
                self@ == (VramView {
                    marks: old(self)@.marks.update(
                        usage as int,
                        filled(marks0, start as int, a as int, true),
                    ),
                    ..old(self)@
                }),
            decreases end - a,
        {
            let ghost before = self@;
            assert(self@.marks[usage as int].len() == usage_len(usage as int));
            self.marks[usage][a] = true;
            a += 1;
            proof {
                assert(self@.marks[usage as int] =~= filled(marks0, start as int, a as int, true));
                assert forall|u: int| 0 <= u < 9 && u != usage implies (#[trigger] self@.marks[u])
                    == old(self)@.marks[u] by {
                    assert(self@.marks[u] == before.marks[u]);
                }
                assert(self@.marks =~= old(self)@.marks.update(
                    usage as int,
                    self@.marks[usage as int],
                ));
                assert forall|u: int| 0 <= u < 9 implies (#[trigger] self@.marks[u]).len() == (
                if tracks_writes(u) {
                    usage_len(u)
                } else {
                    0
                }) by {
                    if u != usage {
                        assert(before.marks[u].len() == (if tracks_writes(u) {
                            usage_len(u)
                        } else {
                            0
                        }));
                    }
                }
            }
        }
    }

    /// Writes a halfword to a window at `addr`. A region with no bank takes no writes. The
    /// written bytes are marked unless the region is on the CPU's fast path for writes.
    pub fn write_window_16(&mut self, usage: usize, addr: usize, value: u16)
        requires
            vram_wf(old(self)@),
            usage <= ARM7,
            addr % 2 == 0,
            addr + 1 < usage_len(usage as int),
        ensures
            final(self)@ == window_written(
                old(self)@,
                usage as int,
                addr as int,
                2,
                with_le_16(old(self)@.windows[usage as int], addr as int, value),
            ),
            vram_wf(final(self)@),
    {
        let region = addr / region_size(usage);
        if self.mapped(usage, region) == 0 {
            return ;
        }
        assert(self@.windows[usage as int].len() == usage_len(usage as int));
        crate::bytes::write_16(&mut self.windows[usage], addr, value);
        proof {
            assert(self@.windows =~= old(self)@.windows.update(
                usage as int,
                with_le_16(old(self)@.windows[usage as int], addr as int, value),
            ));
            assert forall|u: int| 0 <= u < 9 implies (#[trigger] self@.windows[u]).len()
                == usage_len(u) by {
                if u != usage {
                    assert(self@.windows[u] == old(self)@.windows[u]);
                }
            }
        }
        if self.access(usage, region) != ACCESS_RW {
            self.mark_written(usage, addr, addr + 2);
        }
        self.mark_journal(usage, region);
    }

    /// Writes a word to a window at `addr`. A region with no bank takes no writes. The
    /// written bytes are marked unless the region is on the CPU's fast path for writes.
    pub fn write_window_32(&mut self, usage: usize, addr: usize, value: u32)
        requires
            vram_wf(old(self)@),
            usage <= ARM7,
            addr % 4 == 0,
            addr + 3 < usage_len(usage as int),
        ensures
            final(self)@ == window_written(
                old(self)@,
                usage as int,
                addr as int,
                4,
                with_le_32(old(self)@.windows[usage as int], addr as int, value),
            ),
            vram_wf(final(self)@),
    {
        let region = addr / region_size(usage);
        if self.mapped(usage, region) == 0 {
            return ;
        }
        assert(self@.windows[usage as int].len() == usage_len(usage as int));
        crate::bytes::write_32(&mut self.windows[usage], addr, value);
        proof {
            assert(self@.windows =~= old(self)@.windows.update(
                usage as int,
                with_le_32(old(self)@.windows[usage as int], addr as int, value),
            ));
            assert forall|u: int| 0 <= u < 9 implies (#[trigger] self@.windows[u]).len()
                == usage_len(u) by {
                if u != usage {
                    assert(self@.windows[u] == old(self)@.windows[u]);
                }
            }
        }
        if self.access(usage, region) != ACCESS_RW {
            self.mark_written(usage, addr, addr + 4);
        }
        self.mark_journal(usage, region);
    }

    /// The buffer of a usage window.
    pub fn window(&self, usage: usize) -> (bytes: &Vec<u8>)
        requires
            usage < 9,
        ensures
            bytes@ == self@.windows[usage as int],
    {
        &self.windows[usage]
    }

    /// The bytes of a bank.
    pub fn bank(&self, bank: usize) -> (bytes: &Vec<u8>)
        requires
            bank < 9,
        ensures
            bytes@ == self@.banks[bank as int],
    {
        &self.banks[bank]
    }

    /// Whether a bank shows in the LCDC window.
    pub fn lcdc_mapped(&self, bank: usize) -> (shown: bool)
        requires
            bank < 9,
        ensures
            shown == self@.lcdc[bank as int],
    {
        self.lcdc[bank]
    }

    /// Writes a halfword to a bank through the LCDC window; nothing if the bank does not
    /// show there.
    pub fn write_lcdc_16(&mut self, bank: usize, offset: usize, value: u16)
        requires
            vram_wf(old(self)@),
            bank < 9,
            offset + 1 < bank_len(bank as int),
        ensures
            final(self)@ == (if old(self)@.lcdc[bank as int] {
                VramView {
                    banks: old(self)@.banks.update(
                        bank as int,
                        with_le_16(old(self)@.banks[bank as int], offset as int, value),
                    ),
                    ..old(self)@
                }
            } else {
                old(self)@
            }),
            vram_wf(final(self)@),
    {
        if self.lcdc[bank] {
            assert(self@.banks[bank as int].len() == bank_len(bank as int));
            crate::bytes::write_16(&mut self.banks[bank], offset, value);
            proof {
                assert(self@.banks =~= old(self)@.banks.update(
                    bank as int,
                    with_le_16(old(self)@.banks[bank as int], offset as int, value),
                ));
                assert forall|b: int| 0 <= b < 9 implies (#[trigger] self@.banks[b]).len()
                    == bank_len(b) by {
                    if b != bank {
                        assert(self@.banks[b] == old(self)@.banks[b]);
                    }
                }
            }
        }
    }

    /// Writes a word to a bank through the LCDC window; nothing if the bank does not show
    /// there.
    pub fn write_lcdc_32(&mut self, bank: usize, offset: usize, value: u32)
        requires
            vram_wf(old(self)@),
            bank < 9,
            offset + 3 < bank_len(bank as int),
        ensures
            final(self)@ == (if old(self)@.lcdc[bank as int] {
                VramView {
                    banks: old(self)@.banks.update(
                        bank as int,
                        with_le_32(old(self)@.banks[bank as int], offset as int, value),
                    ),
                    ..old(self)@
                }
            } else {
                old(self)@
            }),
            vram_wf(final(self)@),
    {
        if self.lcdc[bank] {
            assert(self@.banks[bank as int].len() == bank_len(bank as int));
            crate::bytes::write_32(&mut self.banks[bank], offset, value);
            proof {
                assert(self@.banks =~= old(self)@.banks.update(
                    bank as int,
                    with_le_32(old(self)@.banks[bank as int], offset as int, value),
                ));
                assert forall|b: int| 0 <= b < 9 implies (#[trigger] self@.banks[b]).len()
                    == bank_len(b) by {
                    if b != bank {
                        assert(self@.banks[b] == old(self)@.banks[b]);
                    }
                }
            }
        }
    }

    /// The standard palettes.
    pub fn palette(&self) -> (bytes: &Vec<u8>)
        ensures
            bytes@ == self@.palette,
    {
        &self.palette
    }

    /// The object attribute memory.
    pub fn oam(&self) -> (bytes: &Vec<u8>)
        ensures
            bytes@ == self@.oam,
    {
        &self.oam
    }

    /// Notes in the journal of one engine that its palette or its object attributes
    /// changed.
    fn mark_journal_flag(&mut self, engine: usize, oam: bool)
        requires
            engine < 2,
            vram_wf(old(self)@),
        ensures
            final(self)@ == (VramView {
                journal: journal_flagged(old(self)@.journal, engine as int, oam),
                ..old(self)@
            }),
            vram_wf(final(self)@),
    {
        match &mut self.journal {
            Some(journal) => {
                if oam {
                    journal[engine].oam = true;
                } else {
                    journal[engine].palette = true;
                }
            },
            None => {},
        }
        proof {
            assert(self@.journal =~= journal_flagged(old(self)@.journal, engine as int, oam));
        }
    }

    /// Writes a halfword to the standard palettes. The first half belongs to engine A,
    /// the second to engine B.
    pub fn write_palette_16(&mut self, addr: usize, value: u16)
        requires
            vram_wf(old(self)@),
            addr + 1 < 0x800,
        ensures
            final(self)@ == (VramView {
                palette: with_le_16(old(self)@.palette, addr as int, value),
                journal: journal_flagged(old(self)@.journal, addr as int / 0x400, false),
                ..old(self)@
            }),
            vram_wf(final(self)@),
    {
        crate::bytes::write_16(&mut self.palette, addr, value);
        self.mark_journal_flag(addr / 0x400, false);
    }

    /// Writes a word to the standard palettes.
    pub fn write_palette_32(&mut self, addr: usize, value: u32)
        requires
            vram_wf(old(self)@),
            addr + 3 < 0x800,
        ensures
            final(self)@ == (VramView {
                palette: with_le_32(old(self)@.palette, addr as int, value),
                journal: journal_flagged(old(self)@.journal, addr as int / 0x400, false),
                ..old(self)@
            }),
            vram_wf(final(self)@),
    {
        crate::bytes::write_32(&mut self.palette, addr, value);
        self.mark_journal_flag(addr / 0x400, false);
    }

    /// Writes a halfword to the object attribute memory. The first half belongs to
    /// engine A, the second to engine B.
    pub fn write_oam_16(&mut self, addr: usize, value: u16)
        requires
            vram_wf(old(self)@),
            addr + 1 < 0x800,
        ensures
            final(self)@ == (VramView {
                oam: with_le_16(old(self)@.oam, addr as int, value),
                journal: journal_flagged(old(self)@.journal, addr as int / 0x400, true),
                ..old(self)@
            }),
            vram_wf(final(self)@),
    {
        crate::bytes::write_16(&mut self.oam, addr, value);
        self.mark_journal_flag(addr / 0x400, true);
    }

    /// Writes a word to the object attribute memory.
    pub fn write_oam_32(&mut self, addr: usize, value: u32)
        requires
            vram_wf(old(self)@),
            addr + 3 < 0x800,
        ensures
            final(self)@ == (VramView {
                oam: with_le_32(old(self)@.oam, addr as int, value),
                journal: journal_flagged(old(self)@.journal, addr as int / 0x400, true),
                ..old(self)@
            }),
            vram_wf(final(self)@),
    {
        crate::bytes::write_32(&mut self.oam, addr, value);
        self.mark_journal_flag(addr / 0x400, true);
    }
}

/// Whether a bank with this control value shows in the LCDC window.
pub open spec fn shows_in_lcdc(control: u8) -> bool {
    BankControl(control).enabled() && BankControl(control).mst() == 0
}

/// Video memory with the LCDC window and engine B's extended palettes as the bank control
/// registers say.
pub open spec fn flags_restored(v: VramView) -> VramView {
    VramView {
        lcdc: Seq::new(9, |b: int| shows_in_lcdc(v.bank_control[b])),
        b_bg_ext_pal: BankControl(v.bank_control[7]).enabled() && BankControl(
            v.bank_control[7],
        ).mst() == 2,
        b_obj_ext_pal: BankControl(v.bank_control[8]).enabled() && BankControl(
            v.bank_control[8],
        ).mst() == 3,
        ..v
    }
}

/// Video memory at power-on: every byte zero, no bank mapped, every register zero.
pub open spec fn initial_vram() -> VramView {
    VramView {
        bank_control: Seq::new(9, |i: int| 0u8),
        banks: Seq::new(9, |b: int| Seq::new(bank_len(b) as nat, |i: int| 0u8)),
        windows: Seq::new(9, |u: int| Seq::new(usage_len(u) as nat, |i: int| 0u8)),
        map: Seq::new(9, |u: int| Seq::new(region_count(u) as nat, |i: int| 0u8)),
        marks: Seq::new(
            9,
            |u: int|
                Seq::new(
                    (if tracks_writes(u) {
                        usage_len(u)
                    } else {
                        0
                    }) as nat,
                    |i: int| false,
                ),
        ),
        access: Seq::new(9, |u: int| Seq::new(region_count(u) as nat, |i: int| ACCESS_R)),
        lcdc: Seq::new(9, |i: int| false),
        b_bg_ext_pal: false,
        b_obj_ext_pal: false,
        arm7_status: 0,
        journal: None,
        texture_dirty: 0,
        tex_pal_dirty: 0,
        palette: Seq::new(0x800, |i: int| 0u8),
        oam: Seq::new(0x800, |i: int| 0u8),
    }
}

/// Video memory after bank H starts or stops to hold engine B's extended background
/// palettes: the journal notes both palette slots as changed.
pub open spec fn b_bg_ext_pal_set(v: VramView, mapped: bool) -> VramView {
    VramView {
        b_bg_ext_pal: mapped,
        journal: match v.journal {
            Some(j) => Some(j.update(1, BgObjUpdates { bg_ext_palette: 3, ..j[1] })),
            None => None,
        },
        ..v
    }
}

/// Video memory after bank I starts or stops to hold engine B's extended object palettes.
pub open spec fn b_obj_ext_pal_set(v: VramView, mapped: bool) -> VramView {
    VramView {
        b_obj_ext_pal: mapped,
        journal: match v.journal {
            Some(j) => Some(j.update(1, BgObjUpdates { obj_ext_palette: true, ..j[1] })),
            None => None,
        },
        ..v
    }
}

/// The change journal after the palette of an engine changed, or its object attributes.
pub open spec fn journal_flagged(journal: Option<Seq<BgObjUpdates>>, engine: int, oam: bool) -> Option<
    Seq<BgObjUpdates>,
> {
    match journal {
        Some(j) => Some(
            if oam {
                j.update(engine, BgObjUpdates { oam: true, ..j[engine] })
            } else {
                j.update(engine, BgObjUpdates { palette: true, ..j[engine] })
            },
        ),
        None => None,
    }
}

/// Video memory after `len` bytes are written to a window at `addr`, where `window` is
/// the window's buffer with those bytes in place. A region with no bank takes no writes.
/// The written bytes are marked unless the region is on the CPU's fast path for writes,
/// and the journal notes the region.
pub open spec fn window_written(
    v: VramView,
    usage: int,
    addr: int,
    len: int,
    window: Seq<u8>,
) -> VramView {
    let region = addr / region_len(usage);
    if v.map[usage][region] == 0 {
        v
    } else {
        VramView {
            windows: v.windows.update(usage, window),
            marks: if v.access[usage][region] != ACCESS_RW {
                v.marks.update(usage, filled(v.marks[usage], addr, addr + len, true))
            } else {
                v.marks
            },
            journal: journal_marked(v.journal, usage, region),
            ..v
        }
    }
}

/// The change journal after a region of a window changed. The journal of engine A notes
/// its background and object memory and its extended background palettes by region; that
/// of engine B notes two bits for each region of its background memory, and its object
/// memory as a whole.
pub open spec fn journal_marked(journal: Option<Seq<BgObjUpdates>>, usage: int, region: int) -> Option<
    Seq<BgObjUpdates>,
> {
    match journal {
        None => None,
        Some(j) => Some(
            if usage == A_BG {
                j.update(0, BgObjUpdates { bg: j[0].bg | (1u32 << (region as u32)), ..j[0] })
            } else if usage == A_OBJ {
                j.update(0, BgObjUpdates { obj: j[0].obj | (1u16 << (region as u16)), ..j[0] })
            } else if usage == B_BG {
                j.update(1, BgObjUpdates { bg: j[1].bg | (3u32 << ((region * 2) as u32)), ..j[1] })
            } else if usage == B_OBJ {
                j.update(1, BgObjUpdates { obj: 0xFF, ..j[1] })
            } else if usage == A_BG_EXT_PAL {
                j.update(
                    0,
                    BgObjUpdates {
                        bg_ext_palette: j[0].bg_ext_palette | (1u8 << (region as u8)),
                        ..j[0]
                    },
                )
            } else if usage == A_OBJ_EXT_PAL {
                j.update(0, BgObjUpdates { obj_ext_palette: true, ..j[0] })
            } else {
                j
            },
        ),
    }
}

} // verus!
