//! The registers of the 2D engines.

use core::marker::PhantomData;
use vstd::prelude::*;

verus! {

/// Which of the two 2D engines an engine is.
pub trait Role {
    /// Whether the engine is engine A, which can show 3D output and capture the display.
    const IS_A: bool;

    /// Whether the engine is engine A, for contracts.
    spec fn is_a() -> bool;

    /// Whether the engine is engine A.
    fn is_engine_a() -> (r: bool)
        ensures
            r == Self::is_a(),
    ;

    /// The mask of addresses in the engine's background memory.
    const BG_VRAM_MASK: u32;

    /// The size of the buffer that holds the engine's background memory, with room for a
    /// read of eight bytes at the last address.
    const BG_VRAM_LEN: usize;

    /// The mask of addresses in the engine's object memory.
    const OBJ_VRAM_MASK: u32;

    /// The size of the buffer that holds the engine's object memory, with room for a read
    /// of eight bytes at the last address.
    const OBJ_VRAM_LEN: usize;
}

/// Engine A: the engine that can show 3D output and capture the display.
pub enum EngineA {
    /// The type stands for the engine; it carries nothing.
    Role,
}

impl Role for EngineA {
    const IS_A: bool = true;

    open spec fn is_a() -> bool {
        true
    }

    fn is_engine_a() -> (r: bool) {
        true
    }

    const BG_VRAM_MASK: u32 = 0x7_FFFF;

    const BG_VRAM_LEN: usize = 0x8_0007;

    const OBJ_VRAM_MASK: u32 = 0x3_FFFF;

    const OBJ_VRAM_LEN: usize = 0x4_0007;
}

/// Engine B.
pub enum EngineB {
    /// The type stands for the engine; it carries nothing.
    Role,
}

impl Role for EngineB {
    const IS_A: bool = false;

    open spec fn is_a() -> bool {
        false
    }

    fn is_engine_a() -> (r: bool) {
        false
    }

    const BG_VRAM_MASK: u32 = 0x1_FFFF;

    const BG_VRAM_LEN: usize = 0x2_0007;

    const OBJ_VRAM_MASK: u32 = 0x1_FFFF;

    const OBJ_VRAM_LEN: usize = 0x2_0007;
}

/// The number of a background: 0 to 3.
#[derive(Clone, Copy, Debug, PartialEq, Eq)]
pub struct BgIndex {
    value: u8,
}

impl BgIndex {
    #[verifier::type_invariant]
    spec fn in_range(self) -> bool {
        self.value <= 3
    }

    pub closed spec fn view(self) -> u8 {
        self.value
    }

    pub fn new(value: u8) -> (index: Self)
        requires
            value <= 3,
        ensures
            index@ == value,
    {
        BgIndex { value }
    }

    pub fn get(self) -> (value: u8)
        ensures
            value == self@,
            value <= 3,
    {
        proof {
            use_type_invariant(self);
        }
        self.value
    }

    /// The background that an affine background is: affine background 0 is background 2,
    /// affine background 1 is background 3.
    pub fn from_affine(index: AffineBgIndex) -> (bg: Self)
        ensures
            bg@ == index@ + 2,
    {
        BgIndex { value: index.get() + 2 }
    }
}

/// The number of an affine background: 0 or 1.
#[derive(Clone, Copy, Debug, PartialEq, Eq)]
pub struct AffineBgIndex {
    value: u8,
}

impl AffineBgIndex {
    #[verifier::type_invariant]
    spec fn in_range(self) -> bool {
        self.value <= 1
    }

    pub closed spec fn view(self) -> u8 {
        self.value
    }

    pub fn new(value: u8) -> (index: Self)
        requires
            value <= 1,
        ensures
            index@ == value,
    {
        AffineBgIndex { value }
    }

    pub fn get(self) -> (value: u8)
        ensures
            value == self@,
            value <= 1,
    {
        proof {
            use_type_invariant(self);
        }
        self.value
    }
}

/// The number of a window: 0 or 1.
#[derive(Clone, Copy, Debug, PartialEq, Eq)]
pub struct WindowIndex {
    value: u8,
}

impl WindowIndex {
    #[verifier::type_invariant]
    spec fn in_range(self) -> bool {
        self.value <= 1
    }

    pub closed spec fn view(self) -> u8 {
        self.value
    }

    pub fn new(value: u8) -> (index: Self)
        requires
            value <= 1,
        ensures
            index@ == value,
    {
        WindowIndex { value }
    }

    pub fn get(self) -> (value: u8)
        ensures
            value == self@,
            value <= 1,
    {
        proof {
            use_type_invariant(self);
        }
        self.value
    }
}

/// The number of a window control value: windows 0 and 1, the outside, the object window.
#[derive(Clone, Copy, Debug, PartialEq, Eq)]
pub struct WindowControlIndex {
    value: u8,
}

impl WindowControlIndex {
    #[verifier::type_invariant]
    spec fn in_range(self) -> bool {
        self.value <= 3
    }

    pub closed spec fn view(self) -> u8 {
        self.value
    }

    pub fn new(value: u8) -> (index: Self)
        requires
            value <= 3,
        ensures
            index@ == value,
    {
        WindowControlIndex { value }
    }

    pub fn get(self) -> (value: u8)
        ensures
            value == self@,
            value <= 3,
    {
        proof {
            use_type_invariant(self);
        }
        self.value
    }
}

/// The display control register of a 2D engine.
#[derive(Clone, Copy, Debug, PartialEq, Eq)]
pub struct Control(pub u32);

impl Control {
    /// Bits 0 to 2: the background mode.
    pub fn bg_mode(self) -> (r: u8)
        ensures
            r == (self.0 & 0x7) as u8,
            r <= 0x7,
    {
        proof {
            crate::bits::lemma_and_le_u32(self.0, 0x7);
        }
        #[verifier::truncate] ((self.0 & 0x7) as u8)
    }

    /// Bit 3: background 0 shows the 3D engine's output.
    pub fn bg0_3d(self) -> (r: bool)
        ensures
            r == (self.0 & 0x8 != 0),
    {
        self.0 & 0x8 != 0
    }

    /// Bit 4: object tiles are laid out in one dimension.
    pub fn obj_tile_1d_mapping(self) -> (r: bool)
        ensures
            r == (self.0 & 0x10 != 0),
    {
        self.0 & 0x10 != 0
    }

    /// Bit 5: bitmap objects take their pixels from a 256 by 256 sheet.
    pub fn bitmap_objs_256x256(self) -> (r: bool)
        ensures
            r == (self.0 & 0x20 != 0),
    {
        self.0 & 0x20 != 0
    }

    /// Bit 6: object bitmaps are laid out in one dimension.
    pub fn obj_bitmap_1d_mapping(self) -> (r: bool)
        ensures
            r == (self.0 & 0x40 != 0),
    {
        self.0 & 0x40 != 0
    }

    /// Bit 7: the screen is blanked.
    pub fn forced_blank(self) -> (r: bool)
        ensures
            r == (self.0 & 0x80 != 0),
    {
        self.0 & 0x80 != 0
    }

    /// Bit 8: background 0 is shown.
    pub fn bg0_enabled(self) -> (r: bool)
        ensures
            r == (self.0 & 0x100 != 0),
    {
        self.0 & 0x100 != 0
    }

    /// Bit 9: background 1 is shown.
    pub fn bg1_enabled(self) -> (r: bool)
        ensures
            r == (self.0 & 0x200 != 0),
    {
        self.0 & 0x200 != 0
    }

    /// Bit 10: background 2 is shown.
    pub fn bg2_enabled(self) -> (r: bool)
        ensures
            r == (self.0 & 0x400 != 0),
    {
        self.0 & 0x400 != 0
    }

    /// Bit 11: background 3 is shown.
    pub fn bg3_enabled(self) -> (r: bool)
        ensures
            r == (self.0 & 0x800 != 0),
    {
        self.0 & 0x800 != 0
    }

    /// Bit 12: objects are shown.
    pub fn objs_enabled(self) -> (r: bool)
        ensures
            r == (self.0 & 0x1000 != 0),
    {
        self.0 & 0x1000 != 0
    }

    /// Bits 13 to 15: the windows that are in use.
    pub fn wins_enabled(self) -> (r: u8)
        ensures
            r == ((self.0 >> 13) & 0x7) as u8,
            r <= 0x7,
    {
        proof {
            crate::bits::lemma_and_le_u32(self.0 >> 13, 0x7);
        }
        #[verifier::truncate] (((self.0 >> 13) & 0x7) as u8)
    }

    /// Bits 13 and 14: whether windows 0 and 1 are in use.
    pub fn win01_enabled(self) -> (r: u8)
        ensures
            r == ((self.0 >> 13) & 0x3) as u8,
            r <= 0x3,
    {
        proof {
            crate::bits::lemma_and_le_u32(self.0 >> 13, 0x3);
        }
        #[verifier::truncate] (((self.0 >> 13) & 0x3) as u8)
    }

    /// Bit 15: the object window is in use.
    pub fn obj_win_enabled(self) -> (r: bool)
        ensures
            r == (self.0 & 0x8000 != 0),
    {
        self.0 & 0x8000 != 0
    }

    /// Bits 16 and 17: the display mode of engine A.
    pub fn display_mode_a(self) -> (r: u8)
        ensures
            r == ((self.0 >> 16) & 0x3) as u8,
            r <= 0x3,
    {
        proof {
            crate::bits::lemma_and_le_u32(self.0 >> 16, 0x3);
        }
        #[verifier::truncate] (((self.0 >> 16) & 0x3) as u8)
    }

    /// Bit 16: the display mode of engine B.
    pub fn display_mode_b(self) -> (r: u8)
        ensures
            r == ((self.0 >> 16) & 0x1) as u8,
            r <= 0x1,
    {
        proof {
            crate::bits::lemma_and_le_u32(self.0 >> 16, 0x1);
        }
        #[verifier::truncate] (((self.0 >> 16) & 0x1) as u8)
    }

    /// Bits 18 and 19: the bank that engine A displays directly.
    pub fn a_vram_bank(self) -> (r: u8)
        ensures
            r == ((self.0 >> 18) & 0x3) as u8,
            r <= 0x3,
    {
        proof {
            crate::bits::lemma_and_le_u32(self.0 >> 18, 0x3);
        }
        #[verifier::truncate] (((self.0 >> 18) & 0x3) as u8)
    }

    /// Bits 20 and 21: the boundary of one-dimensional object tiles.
    pub fn obj_tile_1d_boundary(self) -> (r: u8)
        ensures
            r == ((self.0 >> 20) & 0x3) as u8,
            r <= 0x3,
    {
        proof {
            crate::bits::lemma_and_le_u32(self.0 >> 20, 0x3);
        }
        #[verifier::truncate] (((self.0 >> 20) & 0x3) as u8)
    }

    /// Bit 22: the boundary of engine A's one-dimensional object bitmaps.
    pub fn a_obj_bitmap_1d_boundary(self) -> (r: u8)
        ensures
            r == ((self.0 >> 22) & 0x1) as u8,
            r <= 0x1,
    {
        proof {
            crate::bits::lemma_and_le_u32(self.0 >> 22, 0x1);
        }
        #[verifier::truncate] (((self.0 >> 22) & 0x1) as u8)
    }

    /// Bit 23: object attributes may be written during horizontal blanking.
    pub fn hblank_interval_free(self) -> (r: bool)
        ensures
            r == (self.0 & 0x800000 != 0),
    {
        self.0 & 0x800000 != 0
    }

    /// Bits 24 to 26: engine A's tile base, in units of 64 KiB.
    pub fn a_tile_base_raw(self) -> (r: u8)
        ensures
            r == ((self.0 >> 24) & 0x7) as u8,
            r <= 0x7,
    {
        proof {
            crate::bits::lemma_and_le_u32(self.0 >> 24, 0x7);
        }
        #[verifier::truncate] (((self.0 >> 24) & 0x7) as u8)
    }

    /// Bits 27 to 29: engine A's map base, in units of 64 KiB.
    pub fn a_map_base_raw(self) -> (r: u8)
        ensures
            r == ((self.0 >> 27) & 0x7) as u8,
            r <= 0x7,
    {
        proof {
            crate::bits::lemma_and_le_u32(self.0 >> 27, 0x7);
        }
        #[verifier::truncate] (((self.0 >> 27) & 0x7) as u8)
    }

    /// Bit 30: backgrounds use extended palettes.
    pub fn bg_ext_pal_enabled(self) -> (r: bool)
        ensures
            r == (self.0 & 0x40000000 != 0),
    {
        self.0 & 0x40000000 != 0
    }

    /// Bit 31: objects use extended palettes.
    pub fn obj_ext_pal_enabled(self) -> (r: bool)
        ensures
            r == (self.0 & 0x80000000 != 0),
    {
        self.0 & 0x80000000 != 0
    }

    /// Whether background `i` is shown: bits 8 to 11.
    pub fn bg_enabled(self, i: BgIndex) -> (r: bool)
        ensures
            r == (self.0 & (1u32 << ((8 + i@) as u32)) != 0),
    {
        self.0 & (1u32 << (8 + i.get()) as u32) != 0
    }

    /// Engine A's tile base in bytes: the raw tile base times 64 KiB.
    pub fn a_tile_base(self) -> (r: u32)
        ensures
            r == (self.0 >> 8) & 0x7_0000,
            r == ((self.0 >> 24) & 7) * 0x1_0000,
    {
        let x = self.0;
        assert((x >> 8) & 0x7_0000 == ((x >> 24) & 7) * 0x1_0000) by (bit_vector);
        (self.0 >> 8) & 0x7_0000
    }

    /// Engine A's map base in bytes: the raw map base times 64 KiB.
    pub fn a_map_base(self) -> (r: u32)
        ensures
            r == (self.0 >> 11) & 0x7_0000,
            r == ((self.0 >> 27) & 7) * 0x1_0000,
    {
        let x = self.0;
        assert((x >> 11) & 0x7_0000 == ((x >> 27) & 7) * 0x1_0000) by (bit_vector);
        (self.0 >> 11) & 0x7_0000
    }
}

/// The master brightness register.
#[derive(Clone, Copy, Debug, PartialEq, Eq)]
pub struct BrightnessControl(pub u16);

impl BrightnessControl {
    /// Bits 0 to 4: the brightness factor.
    pub fn factor(self) -> (r: u8)
        ensures
            r == (self.0 & 0x1f) as u8,
            r <= 0x1f,
    {
        proof {
            crate::bits::lemma_and_le_u16(self.0, 0x1f);
        }
        #[verifier::truncate] ((self.0 & 0x1f) as u8)
    }

    /// Bits 14 and 15: brighten, darken or leave alone.
    pub fn mode(self) -> (r: u8)
        ensures
            r == ((self.0 >> 14) & 0x3) as u8,
            r <= 0x3,
    {
        proof {
            crate::bits::lemma_and_le_u16(self.0 >> 14, 0x3);
        }
        #[verifier::truncate] (((self.0 >> 14) & 0x3) as u8)
    }

}

/// The control register of a background.
#[derive(Clone, Copy, Debug, PartialEq, Eq)]
pub struct BgControl(pub u16);

impl BgControl {
    /// Bits 0 and 1: the priority, 0 the highest.
    pub fn priority(self) -> (r: u8)
        ensures
            r == (self.0 & 0x3) as u8,
            r <= 0x3,
    {
        proof {
            crate::bits::lemma_and_le_u16(self.0, 0x3);
        }
        #[verifier::truncate] ((self.0 & 0x3) as u8)
    }

    /// Bit 2: an extended bitmap background holds colors, not palette indices.
    pub fn use_direct_color_extended_bg(self) -> (r: bool)
        ensures
            r == (self.0 & 0x4 != 0),
    {
        self.0 & 0x4 != 0
    }

    /// Bits 2 to 5: the tile base, in units of 16 KiB.
    pub fn tile_base_raw(self) -> (r: u8)
        ensures
            r == ((self.0 >> 2) & 0xf) as u8,
            r <= 0xf,
    {
        proof {
            crate::bits::lemma_and_le_u16(self.0 >> 2, 0xf);
        }
        #[verifier::truncate] (((self.0 >> 2) & 0xf) as u8)
    }

    /// Bit 6: the mosaic effect applies.
    pub fn mosaic(self) -> (r: bool)
        ensures
            r == (self.0 & 0x40 != 0),
    {
        self.0 & 0x40 != 0
    }

    /// Bit 7: tiles have 256 colors.
    pub fn use_256_colors(self) -> (r: bool)
        ensures
            r == (self.0 & 0x80 != 0),
    {
        self.0 & 0x80 != 0
    }

    /// Bit 7: an extended background is a bitmap.
    pub fn use_bitmap_extended_bg(self) -> (r: bool)
        ensures
            r == (self.0 & 0x80 != 0),
    {
        self.0 & 0x80 != 0
    }

    /// Bits 8 to 12: the map base, in units of 2 KiB.
    pub fn map_base_raw(self) -> (r: u8)
        ensures
            r == ((self.0 >> 8) & 0x1f) as u8,
            r <= 0x1f,
    {
        proof {
            crate::bits::lemma_and_le_u16(self.0 >> 8, 0x1f);
        }
        #[verifier::truncate] (((self.0 >> 8) & 0x1f) as u8)
    }

    /// Bit 13: backgrounds 0 and 1 use the extended palette slot two above their own.
    pub fn bg01_ext_pal_slot(self) -> (r: u8)
        ensures
            r == ((self.0 >> 13) & 0x1) as u8,
            r <= 0x1,
    {
        proof {
            crate::bits::lemma_and_le_u16(self.0 >> 13, 0x1);
        }
        #[verifier::truncate] (((self.0 >> 13) & 0x1) as u8)
    }

    /// Bit 13: an affine background wraps around.
    pub fn affine_display_area_overflow(self) -> (r: bool)
        ensures
            r == (self.0 & 0x2000 != 0),
    {
        self.0 & 0x2000 != 0
    }

    /// Bits 14 and 15: the size.
    pub fn size_key(self) -> (r: u8)
        ensures
            r == ((self.0 >> 14) & 0x3) as u8,
            r <= 0x3,
    {
        proof {
            crate::bits::lemma_and_le_u16(self.0 >> 14, 0x3);
        }
        #[verifier::truncate] (((self.0 >> 14) & 0x3) as u8)
    }

    /// The tile base in bytes: the raw tile base times 16 KiB.
    pub fn tile_base(self) -> (r: u32)
        ensures
            r == ((self.0 as u32) << 12) & 0x3_C000,
            r == ((self.0 >> 2) & 0xF) * 0x4000,
    {
        let x = self.0;
        assert(((x as u32) << 12) & 0x3_C000 == ((x >> 2) & 0xF) * 0x4000) by (bit_vector);
        ((self.0 as u32) << 12) & 0x3_C000
    }

    /// The map base in bytes: the raw map base times 2 KiB.
    pub fn map_base(self) -> (r: u32)
        ensures
            r == ((self.0 as u32) << 3) & 0xF800,
            r == ((self.0 >> 8) & 0x1F) * 0x800,
    {
        let x = self.0;
        assert(((x as u32) << 3) & 0xF800 == ((x >> 8) & 0x1F) * 0x800) by (bit_vector);
        ((self.0 as u32) << 3) & 0xF800
    }
}

/// The color effects control register.
#[derive(Clone, Copy, Debug, PartialEq, Eq)]
pub struct ColorEffectsControl(pub u16);

impl ColorEffectsControl {
    /// Bits 0 to 5: the layers that are the first target.
    pub fn target_1_mask(self) -> (r: u8)
        ensures
            r == (self.0 & 0x3f) as u8,
            r <= 0x3f,
    {
        proof {
            crate::bits::lemma_and_le_u16(self.0, 0x3f);
        }
        #[verifier::truncate] ((self.0 & 0x3f) as u8)
    }

    /// Bits 6 and 7: the effect.
    pub fn color_effect(self) -> (r: u8)
        ensures
            r == ((self.0 >> 6) & 0x3) as u8,
            r <= 0x3,
    {
        proof {
            crate::bits::lemma_and_le_u16(self.0 >> 6, 0x3);
        }
        #[verifier::truncate] (((self.0 >> 6) & 0x3) as u8)
    }

    /// Bits 8 to 13: the layers that are the second target.
    pub fn target_2_mask(self) -> (r: u8)
        ensures
            r == ((self.0 >> 8) & 0x3f) as u8,
            r <= 0x3f,
    {
        proof {
            crate::bits::lemma_and_le_u16(self.0 >> 8, 0x3f);
        }
        #[verifier::truncate] (((self.0 >> 8) & 0x3f) as u8)
    }

}

/// The blend coefficients as written.
#[derive(Clone, Copy, Debug, PartialEq, Eq)]
pub struct BlendCoeffsRaw(pub u16);

impl BlendCoeffsRaw {
    /// Bits 0 to 4: the coefficient of the first target.
    pub fn a_coeff(self) -> (r: u8)
        ensures
            r == (self.0 & 0x1f) as u8,
            r <= 0x1f,
    {
        proof {
            crate::bits::lemma_and_le_u16(self.0, 0x1f);
        }
        #[verifier::truncate] ((self.0 & 0x1f) as u8)
    }

    /// Bits 8 to 12: the coefficient of the second target.
    pub fn b_coeff(self) -> (r: u8)
        ensures
            r == ((self.0 >> 8) & 0x1f) as u8,
            r <= 0x1f,
    {
        proof {
            crate::bits::lemma_and_le_u16(self.0 >> 8, 0x1f);
        }
        #[verifier::truncate] (((self.0 >> 8) & 0x1f) as u8)
    }

}

/// The first attribute halfword of an object.
#[derive(Clone, Copy, Debug, PartialEq, Eq)]
pub struct OamAttr0(pub u16);

impl OamAttr0 {
    /// Bits 0 to 7: the top line.
    pub fn y_start(self) -> (r: u8)
        ensures
            r == (self.0 & 0xff) as u8,
            r <= 0xff,
    {
        proof {
            crate::bits::lemma_and_le_u16(self.0, 0xff);
        }
        #[verifier::truncate] ((self.0 & 0xff) as u8)
    }

    /// Bit 8: the object is rotated and scaled.
    pub fn rot_scale(self) -> (r: bool)
        ensures
            r == (self.0 & 0x100 != 0),
    {
        self.0 & 0x100 != 0
    }

    /// Bit 9 of a rotated object: it may draw into twice its size.
    pub fn double_size(self) -> (r: bool)
        ensures
            r == (self.0 & 0x200 != 0),
    {
        self.0 & 0x200 != 0
    }

    /// Bit 9 of a plain object: it is not drawn.
    pub fn disabled(self) -> (r: bool)
        ensures
            r == (self.0 & 0x200 != 0),
    {
        self.0 & 0x200 != 0
    }

    /// Bits 10 and 11: normal, blended, window or bitmap.
    pub fn mode(self) -> (r: u8)
        ensures
            r == ((self.0 >> 10) & 0x3) as u8,
            r <= 0x3,
    {
        proof {
            crate::bits::lemma_and_le_u16(self.0 >> 10, 0x3);
        }
        #[verifier::truncate] (((self.0 >> 10) & 0x3) as u8)
    }

    /// Bit 12: the mosaic effect applies.
    pub fn mosaic_enabled(self) -> (r: bool)
        ensures
            r == (self.0 & 0x1000 != 0),
    {
        self.0 & 0x1000 != 0
    }

    /// Bit 13: tiles have 256 colors.
    pub fn use_256_colors(self) -> (r: bool)
        ensures
            r == (self.0 & 0x2000 != 0),
    {
        self.0 & 0x2000 != 0
    }

    /// Bits 14 and 15: square, wide or tall.
    pub fn shape(self) -> (r: u8)
        ensures
            r == ((self.0 >> 14) & 0x3) as u8,
            r <= 0x3,
    {
        proof {
            crate::bits::lemma_and_le_u16(self.0 >> 14, 0x3);
        }
        #[verifier::truncate] (((self.0 >> 14) & 0x3) as u8)
    }

}

/// The second attribute halfword of an object.
#[derive(Clone, Copy, Debug, PartialEq, Eq)]
pub struct OamAttr1(pub u16);

impl OamAttr1 {
    /// Bits 0 to 8: the left column, as a 9-bit two's complement number.
    pub fn x_start_raw(self) -> (r: u16)
        ensures
            r == self.0 & 0x1ff,
            r <= 0x1ff,
    {
        proof {
            crate::bits::lemma_and_le_u16(self.0, 0x1ff);
        }
        self.0 & 0x1ff
    }

    /// Bits 9 to 13 of a rotated object: its parameter set.
    pub fn rot_scale_params_index(self) -> (r: u8)
        ensures
            r == ((self.0 >> 9) & 0x1f) as u8,
            r <= 0x1f,
    {
        proof {
            crate::bits::lemma_and_le_u16(self.0 >> 9, 0x1f);
        }
        #[verifier::truncate] (((self.0 >> 9) & 0x1f) as u8)
    }

    /// Bit 12 of a plain object: it is mirrored horizontally.
    pub fn x_flip(self) -> (r: bool)
        ensures
            r == (self.0 & 0x1000 != 0),
    {
        self.0 & 0x1000 != 0
    }

    /// Bit 13 of a plain object: it is mirrored vertically.
    pub fn y_flip(self) -> (r: bool)
        ensures
            r == (self.0 & 0x2000 != 0),
    {
        self.0 & 0x2000 != 0
    }

    /// Bits 14 and 15: the size within its shape.
    pub fn size(self) -> (r: u8)
        ensures
            r == ((self.0 >> 14) & 0x3) as u8,
            r <= 0x3,
    {
        proof {
            crate::bits::lemma_and_le_u16(self.0 >> 14, 0x3);
        }
        #[verifier::truncate] (((self.0 >> 14) & 0x3) as u8)
    }

    /// The left column: bits 0 to 8 as a two's complement number, from -256 to 255.
    pub fn x_start(self) -> (r: i16)
        ensures
            r == (if self.0 & 0x100 == 0 {
                (self.0 & 0xFF) as int
            } else {
                (self.0 & 0xFF) - 256
            }),
    {
        let x = self.0;
        assert((((x as i16) << 7) >> 7) as int == (if x & 0x100 == 0 {
            (x & 0xFF) as int
        } else {
            (x & 0xFF) - 256
        })) by (bit_vector);
        ((self.0 as i16) << 7) >> 7
    }
}

/// The third attribute halfword of an object.
#[derive(Clone, Copy, Debug, PartialEq, Eq)]
pub struct OamAttr2(pub u16);

impl OamAttr2 {
    /// Bits 0 to 9: the first tile.
    pub fn tile_number(self) -> (r: u16)
        ensures
            r == self.0 & 0x3ff,
            r <= 0x3ff,
    {
        proof {
            crate::bits::lemma_and_le_u16(self.0, 0x3ff);
        }
        self.0 & 0x3ff
    }

    /// Bits 10 and 11: the priority against backgrounds.
    pub fn bg_priority(self) -> (r: u8)
        ensures
            r == ((self.0 >> 10) & 0x3) as u8,
            r <= 0x3,
    {
        proof {
            crate::bits::lemma_and_le_u16(self.0 >> 10, 0x3);
        }
        #[verifier::truncate] (((self.0 >> 10) & 0x3) as u8)
    }

    /// Bits 12 to 15: the palette.
    pub fn palette_number(self) -> (r: u8)
        ensures
            r == ((self.0 >> 12) & 0xf) as u8,
            r <= 0xf,
    {
        proof {
            crate::bits::lemma_and_le_u16(self.0 >> 12, 0xf);
        }
        #[verifier::truncate] (((self.0 >> 12) & 0xf) as u8)
    }

}

/// The control value of a window.
#[derive(Clone, Copy, Debug, PartialEq, Eq)]
pub struct WindowControl(pub u8);

impl WindowControl {
    /// Bits 0 to 4: the layers shown in the window.
    pub fn bg_obj_mask(self) -> (r: u8)
        ensures
            r == self.0 & 0x1f,
            r <= 0x1f,
    {
        proof {
            crate::bits::lemma_and_le_u8(self.0, 0x1f);
        }
        self.0 & 0x1f
    }

    /// Bit 5: color effects apply in the window.
    pub fn color_effects_enabled(self) -> (r: bool)
        ensures
            r == (self.0 & 0x20 != 0),
    {
        self.0 & 0x20 != 0
    }

}

/// The display capture control register.
#[derive(Clone, Copy, Debug, PartialEq, Eq)]
pub struct CaptureControl(pub u32);

impl CaptureControl {
    /// Bits 0 to 4: the blend factor of source A.
    pub fn factor_a(self) -> (r: u8)
        ensures
            r == (self.0 & 0x1f) as u8,
            r <= 0x1f,
    {
        proof {
            crate::bits::lemma_and_le_u32(self.0, 0x1f);
        }
        #[verifier::truncate] ((self.0 & 0x1f) as u8)
    }

    /// Bits 8 to 12: the blend factor of source B.
    pub fn factor_b(self) -> (r: u8)
        ensures
            r == ((self.0 >> 8) & 0x1f) as u8,
            r <= 0x1f,
    {
        proof {
            crate::bits::lemma_and_le_u32(self.0 >> 8, 0x1f);
        }
        #[verifier::truncate] (((self.0 >> 8) & 0x1f) as u8)
    }

    /// Bits 16 and 17: the bank that takes the capture.
    pub fn dst_bank(self) -> (r: u8)
        ensures
            r == ((self.0 >> 16) & 0x3) as u8,
            r <= 0x3,
    {
        proof {
            crate::bits::lemma_and_le_u32(self.0 >> 16, 0x3);
        }
        #[verifier::truncate] (((self.0 >> 16) & 0x3) as u8)
    }

    /// Bits 18 and 19: the offset in that bank, in units of 32 KiB.
    pub fn dst_offset_raw(self) -> (r: u8)
        ensures
            r == ((self.0 >> 18) & 0x3) as u8,
            r <= 0x3,
    {
        proof {
            crate::bits::lemma_and_le_u32(self.0 >> 18, 0x3);
        }
        #[verifier::truncate] (((self.0 >> 18) & 0x3) as u8)
    }

    /// Bits 20 and 21: the size of the capture.
    pub fn size(self) -> (r: u8)
        ensures
            r == ((self.0 >> 20) & 0x3) as u8,
            r <= 0x3,
    {
        proof {
            crate::bits::lemma_and_le_u32(self.0 >> 20, 0x3);
        }
        #[verifier::truncate] (((self.0 >> 20) & 0x3) as u8)
    }

    /// Bit 24: source A is the 3D engine's output alone.
    pub fn src_a_3d_only(self) -> (r: bool)
        ensures
            r == (self.0 & 0x1000000 != 0),
    {
        self.0 & 0x1000000 != 0
    }

    /// Bit 25: source B is the display FIFO.
    pub fn src_b_display_fifo(self) -> (r: bool)
        ensures
            r == (self.0 & 0x2000000 != 0),
    {
        self.0 & 0x2000000 != 0
    }

    /// Bits 26 and 27: the offset of source B in video memory.
    pub fn src_b_vram_offset_raw(self) -> (r: u8)
        ensures
            r == ((self.0 >> 26) & 0x3) as u8,
            r <= 0x3,
    {
        proof {
            crate::bits::lemma_and_le_u32(self.0 >> 26, 0x3);
        }
        #[verifier::truncate] (((self.0 >> 26) & 0x3) as u8)
    }

    /// Bits 29 and 30: source A, source B or both blended.
    pub fn src(self) -> (r: u8)
        ensures
            r == ((self.0 >> 29) & 0x3) as u8,
            r <= 0x3,
    {
        proof {
            crate::bits::lemma_and_le_u32(self.0 >> 29, 0x3);
        }
        #[verifier::truncate] (((self.0 >> 29) & 0x3) as u8)
    }

    /// Bit 31: a capture is under way or asked for.
    pub fn enabled(self) -> (r: bool)
        ensures
            r == (self.0 & 0x80000000 != 0),
    {
        self.0 & 0x80000000 != 0
    }

}

/// Which of windows 0 and 1 cover the current line.
#[derive(Clone, Copy, Debug, PartialEq, Eq)]
pub struct WindowsActive(pub u8);

impl WindowsActive {
    /// Bit 0: window 0 does.
    pub fn win0(self) -> (r: bool)
        ensures
            r == (self.0 & 0x1 != 0),
    {
        self.0 & 0x1 != 0
    }

    /// Bit 1: window 1 does.
    pub fn win1(self) -> (r: bool)
        ensures
            r == (self.0 & 0x2 != 0),
    {
        self.0 & 0x2 != 0
    }

}

/// The state of a background, as contracts see it.
pub struct BgView {
    pub control: BgControl,
    pub priority: u8,
    pub scroll: Seq<u16>,
}

/// A background. Its priority is 4 while the display control register hides it, else the
/// priority in its control register.
#[derive(Clone, Copy)]
pub struct Bg {
    control: BgControl,
    priority: u8,
    pub scroll: [u16; 2],
}

impl View for Bg {
    type V = BgView;

    closed spec fn view(&self) -> BgView {
        BgView { control: self.control, priority: self.priority, scroll: self.scroll@ }
    }
}

/// A hidden background with every register zero.
pub open spec fn hidden_bg() -> BgView {
    BgView { control: BgControl(0), priority: 4, scroll: seq![0u16, 0u16] }
}

impl Bg {
    /// A hidden background with every register zero.
    pub fn new() -> (bg: Self)
        ensures
            bg@ == hidden_bg(),
    {
        let bg = Bg { control: BgControl(0), priority: 4, scroll: [0; 2] };
        assert(bg@.scroll =~= seq![0u16, 0u16]);
        bg
    }

    pub fn control(&self) -> (control: BgControl)
        ensures
            control == self@.control,
    {
        self.control
    }

    /// Writes the control register. A shown background takes its priority from it.
    pub fn write_control(&mut self, value: BgControl)
        ensures
            final(self)@ == (BgView {
                control: value,
                priority: if old(self)@.priority != 4 {
                    (value.0 & 0x3) as u8
                } else {
                    4
                },
                ..old(self)@
            }),
    {
        self.control = value;
        if self.priority != 4 {
            self.priority = value.priority();
        }
    }

    pub fn priority(&self) -> (priority: u8)
        ensures
            priority == self@.priority,
    {
        self.priority
    }

    /// Shows or hides the background.
    fn set_shown(&mut self, shown: bool)
        ensures
            final(self)@ == (BgView {
                priority: if shown {
                    (old(self)@.control.0 & 0x3) as u8
                } else {
                    4
                },
                ..old(self)@
            }),
    {
        self.priority = if shown {
            self.control.priority()
        } else {
            4
        };
    }

    /// One of the two scroll registers: 0 the horizontal, 1 the vertical.
    pub fn scroll_value(&self, axis: usize) -> (value: u16)
        requires
            axis < 2,
        ensures
            value == self@.scroll[axis as int],
    {
        self.scroll[axis]
    }

    /// Writes one of the two scroll registers: 0 the horizontal, 1 the vertical.
    pub fn write_scroll(&mut self, axis: usize, value: u16)
        requires
            axis < 2,
        ensures
            final(self)@ == (BgView {
                scroll: old(self)@.scroll.update(axis as int, value),
                ..old(self)@
            }),
    {
        self.scroll[axis] = value;
    }
}

/// The state of an affine background, as contracts see it.
pub struct AffineBgDataView {
    pub ref_point: Seq<i32>,
    pub x_incr: Seq<i16>,
    pub y_incr: Seq<i16>,
    pub pos: Seq<i32>,
}

/// The reference point and the increments of an affine background, and the position that
/// the renderer has reached in it.
#[derive(Clone, Copy)]
pub struct AffineBgData {
    ref_point: [i32; 2],
    pub x_incr: [i16; 2],
    pub y_incr: [i16; 2],
    pub pos: [i32; 2],
}

impl View for AffineBgData {
    type V = AffineBgDataView;

    closed spec fn view(&self) -> AffineBgDataView {
        AffineBgDataView {
            ref_point: self.ref_point@,
            x_incr: self.x_incr@,
            y_incr: self.y_incr@,
            pos: self.pos@,
        }
    }
}

/// An affine background with every register zero.
pub open spec fn zero_affine_bg() -> AffineBgDataView {
    AffineBgDataView {
        ref_point: seq![0i32, 0i32],
        x_incr: seq![0i16, 0i16],
        y_incr: seq![0i16, 0i16],
        pos: seq![0i32, 0i32],
    }
}

impl AffineBgData {
    /// An affine background with every register zero.
    pub fn new() -> (data: Self)
        ensures
            data@ == zero_affine_bg(),
    {
        let data = AffineBgData { ref_point: [0; 2], x_incr: [0; 2], y_incr: [0; 2], pos: [0; 2] };
        assert(data@.ref_point =~= seq![0i32, 0i32]);
        assert(data@.x_incr =~= seq![0i16, 0i16]);
        assert(data@.y_incr =~= seq![0i16, 0i16]);
        assert(data@.pos =~= seq![0i32, 0i32]);
        data
    }

    pub fn ref_point(&self) -> (point: [i32; 2])
        ensures
            point@ == self@.ref_point,
    {
        self.ref_point
    }

    /// Writes the reference point. The renderer starts from it again.
    pub fn write_ref_point(&mut self, value: [i32; 2])
        ensures
            final(self)@ == (AffineBgDataView { ref_point: value@, pos: value@, ..old(self)@ }),
    {
        self.ref_point = value;
        self.pos = value;
    }

    /// Puts the renderer's position back to the reference point.
    fn restart(&mut self)
        ensures
            final(self)@ == (AffineBgDataView { pos: old(self)@.ref_point, ..old(self)@ }),
    {
        self.pos = self.ref_point;
    }

    /// One of the four increments: 0 and 1 the horizontal ones, 2 and 3 the vertical
    /// ones.
    pub fn incr(&self, i: usize) -> (value: i16)
        requires
            i < 4,
        ensures
            value == (if i < 2 {
                self@.x_incr[i as int]
            } else {
                self@.y_incr[i as int - 2]
            }),
    {
        if i < 2 {
            self.x_incr[i]
        } else {
            self.y_incr[i - 2]
        }
    }

    /// Writes one of the four increments: 0 and 1 the horizontal ones, 2 and 3 the
    /// vertical ones.
    pub fn write_incr(&mut self, i: usize, value: i16)
        requires
            i < 4,
        ensures
            final(self)@ == (if i < 2 {
                AffineBgDataView { x_incr: old(self)@.x_incr.update(i as int, value), ..old(self)@ }
            } else {
                AffineBgDataView {
                    y_incr: old(self)@.y_incr.update(i as int - 2, value),
                    ..old(self)@
                }
            }),
    {
        if i < 2 {
            self.x_incr[i] = value;
        } else {
            self.y_incr[i - 2] = value;
        }
    }
}

/// The state of a 2D engine, as contracts see it.
pub struct Engine2dView {
    pub is_enabled: bool,
    pub engine_3d_enabled: bool,
    pub is_on_lower_screen: bool,
    pub engine_3d_enabled_in_frame: bool,
    pub control: Control,
    pub master_brightness_control: BrightnessControl,
    pub master_brightness_factor: u32,
    pub bgs: Seq<BgView>,
    pub affine_bg_data: Seq<AffineBgDataView>,
    pub window_x_ranges: Seq<(u8, u8)>,
    pub window_y_ranges: Seq<(u8, u8)>,
    pub windows_active: WindowsActive,
    pub window_control: Seq<WindowControl>,
    pub color_effects_control: ColorEffectsControl,
    pub blend_coeffs_raw: BlendCoeffsRaw,
    pub blend_coeffs: (u8, u8),
    pub brightness_coeff: u8,
    pub capture_control: CaptureControl,
    pub capture_enabled_in_frame: bool,
    pub capture_height: u8,
}

/// The lesser of a coefficient and 16: sixteen sixteenths are the whole.
pub open spec fn capped(value: u8) -> u8 {
    if value > 16 {
        16
    } else {
        value
    }
}

/// The height of a capture of the given size.
pub open spec fn capture_height_of(size: u8) -> u8 {
    if size == 1 {
        64
    } else if size == 3 {
        192
    } else {
        128
    }
}

/// Whether window `i` covers the next line, given whether it covered the last: a window
/// that is not in use covers nothing; one in use starts at its first line and ends before
/// its last, which is line 192 where it lies before the first.
pub open spec fn window_active_after(
    control: Control,
    y_range: (u8, u8),
    active: u8,
    vcount: u8,
    i: u8,
) -> u8 {
    let mask = 1u8 << i;
    if ((control.0 >> 13) & 0x3) as u8 & mask == 0 {
        active & !mask
    } else {
        let y_end = if y_range.1 < y_range.0 {
            192u8
        } else {
            y_range.1
        };
        let started = if vcount == y_range.0 {
            active | mask
        } else {
            active
        };
        if vcount == y_end {
            started & !mask
        } else {
            started
        }
    }
}

/// The backgrounds after a write of `control` to the display control register: each is
/// shown or hidden as its bit says.
pub open spec fn bgs_shown(bgs: Seq<BgView>, control: Control) -> Seq<BgView> {
    Seq::new(
        4,
        |i: int|
            BgView {
                priority: if control.0 & (1u32 << ((8 + i) as u32)) != 0 {
                    (bgs[i].control.0 & 0x3) as u8
                } else {
                    4
                },
                ..bgs[i]
            },
    )
}

/// A 2D engine's registers.
pub struct Engine2d<R: Role> {
    _role: PhantomData<R>,
    is_enabled: bool,
    engine_3d_enabled: bool,
    is_on_lower_screen: bool,
    engine_3d_enabled_in_frame: bool,
    control: Control,
    master_brightness_control: BrightnessControl,
    master_brightness_factor: u32,
    bgs: [Bg; 4],
    affine_bg_data: [AffineBgData; 2],
    window_x_ranges: [(u8, u8); 2],
    window_y_ranges: [(u8, u8); 2],
    windows_active: WindowsActive,
    window_control: [WindowControl; 4],
    color_effects_control: ColorEffectsControl,
    blend_coeffs_raw: BlendCoeffsRaw,
    blend_coeffs: (u8, u8),
    brightness_coeff: u8,
    capture_control: CaptureControl,
    capture_enabled_in_frame: bool,
    capture_height: u8,
}

impl<R: Role> View for Engine2d<R> {
    type V = Engine2dView;

    closed spec fn view(&self) -> Engine2dView {
        Engine2dView {
            is_enabled: self.is_enabled,
            engine_3d_enabled: self.engine_3d_enabled,
            is_on_lower_screen: self.is_on_lower_screen,
            engine_3d_enabled_in_frame: self.engine_3d_enabled_in_frame,
            control: self.control,
            master_brightness_control: self.master_brightness_control,
            master_brightness_factor: self.master_brightness_factor,
            bgs: Seq::new(4, |i: int| self.bgs[i]@),
            affine_bg_data: Seq::new(2, |i: int| self.affine_bg_data[i]@),
            window_x_ranges: self.window_x_ranges@,
            window_y_ranges: self.window_y_ranges@,
            windows_active: self.windows_active,
            window_control: self.window_control@,
            color_effects_control: self.color_effects_control,
            blend_coeffs_raw: self.blend_coeffs_raw,
            blend_coeffs: self.blend_coeffs,
            brightness_coeff: self.brightness_coeff,
            capture_control: self.capture_control,
            capture_enabled_in_frame: self.capture_enabled_in_frame,
            capture_height: self.capture_height,
        }
    }
}

/// An engine that is switched off, with every register zero but the control value of the
/// outside of the windows, which shows every layer. Engine A starts on the lower screen.
pub open spec fn switched_off_engine(is_a: bool) -> Engine2dView {
    Engine2dView {
        is_enabled: false,
        engine_3d_enabled: false,
        is_on_lower_screen: is_a,
        engine_3d_enabled_in_frame: false,
        control: Control(0),
        master_brightness_control: BrightnessControl(0),
        master_brightness_factor: 0,
        bgs: Seq::new(4, |i: int| hidden_bg()),
        affine_bg_data: Seq::new(2, |i: int| zero_affine_bg()),
        window_x_ranges: Seq::new(2, |i: int| (0u8, 0u8)),
        window_y_ranges: Seq::new(2, |i: int| (0u8, 0u8)),
        windows_active: WindowsActive(0),
        window_control: seq![
            WindowControl(0),
            WindowControl(0),
            WindowControl(0x3F),
            WindowControl(0),
        ],
        color_effects_control: ColorEffectsControl(0),
        blend_coeffs_raw: BlendCoeffsRaw(0),
        blend_coeffs: (0u8, 0u8),
        brightness_coeff: 0,
        capture_control: CaptureControl(0),
        capture_enabled_in_frame: false,
        capture_height: 128,
    }
}

impl<R: Role> Engine2d<R> {
    /// An engine that is switched off, with every register zero but the control value of
    /// the outside of the windows, which shows every layer. Engine A starts on the lower
    /// screen.
    pub fn new() -> (engine: Self)
        ensures
            engine@ == switched_off_engine(R::is_a()),
    {
        let engine = Engine2d {
            _role: PhantomData,
            is_enabled: false,
            engine_3d_enabled: false,
            is_on_lower_screen: R::is_engine_a(),
            engine_3d_enabled_in_frame: false,
            control: Control(0),
            master_brightness_control: BrightnessControl(0),
            master_brightness_factor: 0,
            bgs: [Bg::new(), Bg::new(), Bg::new(), Bg::new()],
            affine_bg_data: [AffineBgData::new(), AffineBgData::new()],
            window_x_ranges: [(0, 0), (0, 0)],
            window_y_ranges: [(0, 0), (0, 0)],
            windows_active: WindowsActive(0),
            window_control: [
                WindowControl(0),
                WindowControl(0),
                WindowControl(0x3F),
                WindowControl(0),
            ],
            color_effects_control: ColorEffectsControl(0),
            blend_coeffs_raw: BlendCoeffsRaw(0),
            blend_coeffs: (0, 0),
            brightness_coeff: 0,
            capture_control: CaptureControl(0),
            capture_enabled_in_frame: false,
            capture_height: 128,
        };
        proof {
            let w = switched_off_engine(R::is_a());
            assert(engine@.window_control =~= w.window_control);
            assert(engine@.bgs =~= w.bgs);
            assert(engine@.affine_bg_data =~= w.affine_bg_data);
            assert(engine@.window_x_ranges =~= w.window_x_ranges);
            assert(engine@.window_y_ranges =~= w.window_y_ranges);
        }
        engine
    }

    /// An engine has four backgrounds, two affine backgrounds, two windows and four window
    /// control values.
    pub proof fn lemma_sizes(&self)
        ensures
            self@.bgs.len() == 4,
            self@.affine_bg_data.len() == 2,
            self@.window_x_ranges.len() == 2,
            self@.window_y_ranges.len() == 2,
            self@.window_control.len() == 4,
    {
    }

    pub fn is_enabled(&self) -> (r: bool)
        ensures
            r == self@.is_enabled,
    {
        self.is_enabled
    }

    /// Switches the engine on or off, and its use of the 3D engine; the latter counts
    /// from the next frame on.
    pub fn set_enabled(&mut self, is_enabled: bool, engine_3d_enabled: bool)
        ensures
            final(self)@ == (Engine2dView { is_enabled, engine_3d_enabled, ..old(self)@ }),
    {
        self.is_enabled = is_enabled;
        self.engine_3d_enabled = engine_3d_enabled;
    }

    /// Puts the engine on the lower or the upper screen.
    pub fn set_on_lower_screen(&mut self, value: bool)
        ensures
            final(self)@ == (Engine2dView { is_on_lower_screen: value, ..old(self)@ }),
    {
        self.is_on_lower_screen = value;
    }

    pub fn engine_3d_enabled_in_frame(&self) -> (r: bool)
        ensures
            r == self@.engine_3d_enabled_in_frame,
    {
        self.engine_3d_enabled_in_frame
    }

    pub fn is_on_lower_screen(&self) -> (r: bool)
        ensures
            r == self@.is_on_lower_screen,
    {
        self.is_on_lower_screen
    }

    pub fn control(&self) -> (r: Control)
        ensures
            r == self@.control,
    {
        self.control
    }

    /// Writes the display control register. Engine B keeps only the bits that it has. The
    /// backgrounds are shown or hidden as their bits say.
    pub fn write_control(&mut self, value: Control)
        ensures
            final(self)@ == (Engine2dView {
                control: if R::is_a() {
                    value
                } else {
                    Control(value.0 & 0xC0B3_FFF7)
                },
                bgs: bgs_shown(old(self)@.bgs, value),
                ..old(self)@
            }),
    {
        if R::is_engine_a() {
            self.control = value;
        } else {
            self.control = Control(value.0 & 0xC0B3_FFF7);
        }
        let mut i: u8 = 0;
        proof {
            assert(self@.bgs =~= Seq::new(
                4,
                |k: int|
                    if k < 0 {
                        bgs_shown(old(self)@.bgs, value)[k]
                    } else {
                        old(self)@.bgs[k]
                    },
            ));
        }
        while i < 4
            invariant
                i <= 4,
                self@ == (Engine2dView {
                    control: if R::is_a() {
                        value
                    } else {
                        Control(value.0 & 0xC0B3_FFF7)
                    },
                    bgs: Seq::new(
                        4,
                        |k: int|
                            if k < i {
                                bgs_shown(old(self)@.bgs, value)[k]
                            } else {
                                old(self)@.bgs[k]
                            },
                    ),
                    ..old(self)@
                }),
            decreases 4 - i,
        {
            let ghost before = self@;
            let shown = value.bg_enabled(BgIndex::new(i));
            self.bgs[i as usize].set_shown(shown);
            i += 1;
            proof {
                assert(before.bgs[i - 1] == old(self)@.bgs[i - 1]);
                assert(self@.bgs[i - 1] == bgs_shown(old(self)@.bgs, value)[i - 1]);
                assert forall|k: int| 0 <= k < 4 implies #[trigger] self@.bgs[k] == (if k < i {
                    bgs_shown(old(self)@.bgs, value)[k]
                } else {
                    old(self)@.bgs[k]
                }) by {
                    if k != i - 1 {
                        assert(self@.bgs[k] == before.bgs[k]);
                    }
                }
                assert(self@.bgs =~= Seq::new(
                    4,
                    |k: int|
                        if k < i {
                            bgs_shown(old(self)@.bgs, value)[k]
                        } else {
                            old(self)@.bgs[k]
                        },
                ));
            }
        }
        proof {
            assert(self@.bgs =~= bgs_shown(old(self)@.bgs, value));
        }
    }

    pub fn master_brightness_control(&self) -> (r: BrightnessControl)
        ensures
            r == self@.master_brightness_control,
    {
        self.master_brightness_control
    }

    /// Writes the master brightness register: the factor counts up to 16.
    pub fn write_master_brightness_control(&mut self, value: BrightnessControl)
        ensures
            final(self)@ == (Engine2dView {
                master_brightness_control: BrightnessControl(value.0 & 0xC01F),
                master_brightness_factor: capped((value.0 & 0x1F) as u8) as u32,
                ..old(self)@
            }),
    {
        self.master_brightness_control = BrightnessControl(value.0 & 0xC01F);
        let factor = value.factor();
        self.master_brightness_factor = if factor > 16 {
            16
        } else {
            factor as u32
        };
    }

    pub fn master_brightness_factor(&self) -> (r: u32)
        ensures
            r == self@.master_brightness_factor,
    {
        self.master_brightness_factor
    }

    /// A background.
    pub fn bg(&self, i: BgIndex) -> (bg: &Bg)
        ensures
            bg@ == self@.bgs[i@ as int],
    {
        &self.bgs[i.get() as usize]
    }

    /// Writes the control register of a background.
    pub fn write_bg_control(&mut self, i: BgIndex, value: BgControl)
        ensures
            final(self)@ == (Engine2dView {
                bgs: old(self)@.bgs.update(
                    i@ as int,
                    BgView {
                        control: value,
                        priority: if old(self)@.bgs[i@ as int].priority != 4 {
                            (value.0 & 0x3) as u8
                        } else {
                            4
                        },
                        ..old(self)@.bgs[i@ as int]
                    },
                ),
                ..old(self)@
            }),
    {
        let idx = i.get() as usize;
        self.bgs[idx].write_control(value);
        proof {
            assert(self@.bgs =~= old(self)@.bgs.update(idx as int, self.bgs[idx as int]@));
        }
    }

    /// Writes a scroll register of a background: axis 0 the horizontal, 1 the vertical.
    pub fn write_bg_scroll(&mut self, i: BgIndex, axis: usize, value: u16)
        requires
            axis < 2,
        ensures
            final(self)@ == (Engine2dView {
                bgs: old(self)@.bgs.update(
                    i@ as int,
                    BgView {
                        scroll: old(self)@.bgs[i@ as int].scroll.update(axis as int, value),
                        ..old(self)@.bgs[i@ as int]
                    },
                ),
                ..old(self)@
            }),
    {
        let idx = i.get() as usize;
        self.bgs[idx].write_scroll(axis, value);
        proof {
            assert(self@.bgs =~= old(self)@.bgs.update(idx as int, self.bgs[idx as int]@));
        }
    }

    /// An affine background.
    pub fn affine_bg(&self, i: AffineBgIndex) -> (data: &AffineBgData)
        ensures
            data@ == self@.affine_bg_data[i@ as int],
    {
        &self.affine_bg_data[i.get() as usize]
    }

    /// Writes the reference point of an affine background.
    pub fn write_affine_ref_point(&mut self, i: AffineBgIndex, value: [i32; 2])
        ensures
            final(self)@ == (Engine2dView {
                affine_bg_data: old(self)@.affine_bg_data.update(
                    i@ as int,
                    AffineBgDataView {
                        ref_point: value@,
                        pos: value@,
                        ..old(self)@.affine_bg_data[i@ as int]
                    },
                ),
                ..old(self)@
            }),
    {
        let idx = i.get() as usize;
        self.affine_bg_data[idx].write_ref_point(value);
        proof {
            assert(self@.affine_bg_data =~= old(self)@.affine_bg_data.update(
                idx as int,
                self.affine_bg_data[idx as int]@,
            ));
        }
    }

    pub fn window_x_ranges(&self) -> (r: &[(u8, u8); 2])
        ensures
            r@ == self@.window_x_ranges,
    {
        &self.window_x_ranges
    }

    pub fn window_y_ranges(&self) -> (r: &[(u8, u8); 2])
        ensures
            r@ == self@.window_y_ranges,
    {
        &self.window_y_ranges
    }

    /// Sets the columns of a window: the first one and the one after the last.
    pub fn write_window_x_range(&mut self, i: WindowIndex, range: (u8, u8))
        ensures
            final(self)@ == (Engine2dView {
                window_x_ranges: old(self)@.window_x_ranges.update(i@ as int, range),
                ..old(self)@
            }),
    {
        self.window_x_ranges[i.get() as usize] = range;
    }

    /// Sets the lines of a window: the first one and the one after the last.
    pub fn write_window_y_range(&mut self, i: WindowIndex, range: (u8, u8))
        ensures
            final(self)@ == (Engine2dView {
                window_y_ranges: old(self)@.window_y_ranges.update(i@ as int, range),
                ..old(self)@
            }),
    {
        self.window_y_ranges[i.get() as usize] = range;
    }

    pub fn windows_active(&self) -> (r: WindowsActive)
        ensures
            r == self@.windows_active,
    {
        self.windows_active
    }

    pub fn window_control(&self) -> (r: &[WindowControl; 4])
        ensures
            r@ == self@.window_control,
    {
        &self.window_control
    }

    /// Writes a window control value; its six low bits are kept.
    pub fn write_window_control(&mut self, i: WindowControlIndex, value: WindowControl)
        ensures
            final(self)@ == (Engine2dView {
                window_control: old(self)@.window_control.update(
                    i@ as int,
                    WindowControl(value.0 & 0x3F),
                ),
                ..old(self)@
            }),
    {
        self.window_control[i.get() as usize] = WindowControl(value.0 & 0x3F);
    }

    pub fn color_effects_control(&self) -> (r: ColorEffectsControl)
        ensures
            r == self@.color_effects_control,
    {
        self.color_effects_control
    }

    /// Writes the color effects control register; its fourteen low bits are kept.
    pub fn write_color_effects_control(&mut self, value: ColorEffectsControl)
        ensures
            final(self)@ == (Engine2dView {
                color_effects_control: ColorEffectsControl(value.0 & 0x3FFF),
                ..old(self)@
            }),
    {
        self.color_effects_control = ColorEffectsControl(value.0 & 0x3FFF);
    }

    pub fn blend_coeffs_raw(&self) -> (r: BlendCoeffsRaw)
        ensures
            r == self@.blend_coeffs_raw,
    {
        self.blend_coeffs_raw
    }

    /// Writes the blend coefficients: each counts up to 16.
    pub fn write_blend_coeffs_raw(&mut self, value: BlendCoeffsRaw)
        ensures
            final(self)@ == (Engine2dView {
                blend_coeffs_raw: BlendCoeffsRaw(value.0 & 0x1F1F),
                blend_coeffs: (
                    capped(((value.0 & 0x1F1F) & 0x1F) as u8),
                    capped((((value.0 & 0x1F1F) >> 8) & 0x1F) as u8),
                ),
                ..old(self)@
            }),
    {
        self.blend_coeffs_raw = BlendCoeffsRaw(value.0 & 0x1F1F);
        let a = self.blend_coeffs_raw.a_coeff();
        let b = self.blend_coeffs_raw.b_coeff();
        self.blend_coeffs = (
            if a > 16 {
                16
            } else {
                a
            },
            if b > 16 {
                16
            } else {
                b
            },
        );
    }

    pub fn blend_coeffs(&self) -> (r: (u8, u8))
        ensures
            r == self@.blend_coeffs,
    {
        self.blend_coeffs
    }

    pub fn brightness_coeff(&self) -> (r: u8)
        ensures
            r == self@.brightness_coeff,
    {
        self.brightness_coeff
    }

    /// Writes the brightness coefficient: the five low bits, up to 16.
    pub fn write_brightness_coeff(&mut self, value: u8)
        ensures
            final(self)@ == (Engine2dView { brightness_coeff: capped(value & 0x1F), ..old(self)@ }),
    {
        let coeff = value & 0x1F;
        self.brightness_coeff = if coeff > 16 {
            16
        } else {
            coeff
        };
    }

    pub fn capture_control(&self) -> (r: CaptureControl)
        ensures
            r == self@.capture_control,
    {
        self.capture_control
    }

    /// Writes the capture control register. Only engine A captures: engine B ignores the
    /// write.
    pub fn write_capture_control(&mut self, value: CaptureControl)
        ensures
            final(self)@ == (if R::is_a() {
                Engine2dView {
                    capture_control: CaptureControl(value.0 & 0xEF3F_1F1F),
                    capture_height: capture_height_of(((value.0 >> 20) & 0x3) as u8),
                    ..old(self)@
                }
            } else {
                old(self)@
            }),
    {
        if R::is_engine_a() {
            self.capture_control = CaptureControl(value.0 & 0xEF3F_1F1F);
            self.capture_height = match value.size() {
                1 => 64,
                3 => 192,
                _ => 128,
            };
        }
    }

    pub fn capture_enabled_in_frame(&self) -> (r: bool)
        ensures
            r == self@.capture_enabled_in_frame,
    {
        self.capture_enabled_in_frame
    }

    /// Whether the capture of this frame takes the 3D engine's output: engine A captures,
    /// uses the 3D engine, and either captures 3D output alone or shows it as background 0.
    pub fn is_capturing_3d_output(&self) -> (r: bool)
        ensures
            r == (R::is_a() && self@.engine_3d_enabled_in_frame && self@.capture_enabled_in_frame && (
            self@.capture_control.0 & 0x100_0000 != 0 || (self@.bgs[0].priority != 4
                && self@.control.0 & 0x8 != 0))),
    {
        R::is_engine_a() && self.engine_3d_enabled_in_frame && self.capture_enabled_in_frame && (
        self.capture_control.src_a_3d_only() || (self.bgs[0].priority() != 4
            && self.control.bg0_3d()))
    }

    pub fn capture_height(&self) -> (r: u8)
        ensures
            r == self@.capture_height,
    {
        self.capture_height
    }

    /// The vertical blanking period starts: a capture that ran in this frame is done.
    pub fn start_vblank(&mut self)
        ensures
            final(self)@ == (if R::is_a() && old(self)@.capture_enabled_in_frame {
                Engine2dView {
                    capture_control: CaptureControl(old(self)@.capture_control.0 & 0x7FFF_FFFF),
                    ..old(self)@
                }
            } else {
                old(self)@
            }),
    {
        if R::is_engine_a() && self.capture_enabled_in_frame {
            self.capture_control = CaptureControl(self.capture_control.0 & 0x7FFF_FFFF);
        }
    }

    /// The vertical blanking period ends: engine A takes over for the new frame whether
    /// it uses the 3D engine and whether it captures, and the affine backgrounds start
    /// from their reference points.
    pub fn end_vblank(&mut self)
        ensures
            final(self)@ == (Engine2dView {
                engine_3d_enabled_in_frame: if R::is_a() {
                    old(self)@.engine_3d_enabled
                } else {
                    old(self)@.engine_3d_enabled_in_frame
                },
                capture_enabled_in_frame: if R::is_a() {
                    old(self)@.capture_control.0 & 0x8000_0000 != 0
                } else {
                    old(self)@.capture_enabled_in_frame
                },
                affine_bg_data: Seq::new(
                    2,
                    |i: int|
                        AffineBgDataView {
                            pos: old(self)@.affine_bg_data[i].ref_point,
                            ..old(self)@.affine_bg_data[i]
                        },
                ),
                ..old(self)@
            }),
    {
        if R::is_engine_a() {
            self.engine_3d_enabled_in_frame = self.engine_3d_enabled;
            self.capture_enabled_in_frame = self.capture_control.enabled();
        }
        self.affine_bg_data[0].restart();
        self.affine_bg_data[1].restart();
        proof {
            assert(self@.affine_bg_data =~= Seq::new(
                2,
                |i: int|
                    AffineBgDataView {
                        pos: old(self)@.affine_bg_data[i].ref_point,
                        ..old(self)@.affine_bg_data[i]
                    },
            ));
        }
    }

    /// Finds out which windows cover line `vcount`.
    pub fn update_windows(&mut self, vcount: u8)
        ensures
            final(self)@ == (Engine2dView {
                windows_active: WindowsActive(
                    window_active_after(
                        old(self)@.control,
                        old(self)@.window_y_ranges[1],
                        window_active_after(
                            old(self)@.control,
                            old(self)@.window_y_ranges[0],
                            old(self)@.windows_active.0,
                            vcount,
                            0,
                        ),
                        vcount,
                        1,
                    ),
                ),
                ..old(self)@
            }),
    {
        let mut i: u8 = 0;
        while i < 2
            invariant
                i <= 2,
                self@ == (Engine2dView {
                    windows_active: WindowsActive(
                        if i == 0 {
                            old(self)@.windows_active.0
                        } else if i == 1 {
                            window_active_after(
                                old(self)@.control,
                                old(self)@.window_y_ranges[0],
                                old(self)@.windows_active.0,
                                vcount,
                                0,
                            )
                        } else {
                            window_active_after(
                                old(self)@.control,
                                old(self)@.window_y_ranges[1],
                                window_active_after(
                                    old(self)@.control,
                                    old(self)@.window_y_ranges[0],
                                    old(self)@.windows_active.0,
                                    vcount,
                                    0,
                                ),
                                vcount,
                                1,
                            )
                        },
                    ),
                    ..old(self)@
                }),
            decreases 2 - i,
        {
            let mask = 1u8 << i;
            let active = self.windows_active.0;
            if self.control.win01_enabled() & mask == 0 {
                self.windows_active = WindowsActive(active & !mask);
            } else {
                let y_range = self.window_y_ranges[i as usize];
                let y_start = y_range.0;
                let y_end = if y_range.1 < y_start {
                    192
                } else {
                    y_range.1
                };
                let started = if vcount == y_start {
                    active | mask
                } else {
                    active
                };
                self.windows_active = WindowsActive(
                    if vcount == y_end {
                        started & !mask
                    } else {
                        started
                    },
                );
            }
            i += 1;
        }
    }
}

/// A reference point coordinate with one of its halves replaced: the coordinate is a
/// 28-bit number in two's complement, written as two halfwords.
pub open spec fn ref_coord_written(prev: i32, high: bool, value: u16) -> i32 {
    let raw = if high {
        ((prev as u32) & 0x0000_FFFF) | ((value as u32) << 16)
    } else {
        ((prev as u32) & 0xFFFF_0000) | (value as u32)
    };
    ((raw << 4) as i32) >> 4
}

/// The halfword that a read of the engine's register at `addr` returns; `addr` counts from
/// the start of the engine's registers. Registers that can only be written read as zero.
pub open spec fn register_read_16(v: Engine2dView, addr: u32) -> u16 {
    if addr == 0x000 {
        v.control.0 as u16
    } else if addr == 0x002 {
        (v.control.0 >> 16) as u16
    } else if addr == 0x008 || addr == 0x00A || addr == 0x00C || addr == 0x00E {
        v.bgs[(addr - 8) as int / 2].control.0
    } else if addr == 0x048 {
        (v.window_control[0].0 as u16) | ((v.window_control[1].0 as u16) << 8)
    } else if addr == 0x04A {
        (v.window_control[2].0 as u16) | ((v.window_control[3].0 as u16) << 8)
    } else if addr == 0x050 {
        v.color_effects_control.0
    } else if addr == 0x052 {
        v.blend_coeffs_raw.0
    } else if addr == 0x064 {
        v.capture_control.0 as u16
    } else if addr == 0x066 {
        (v.capture_control.0 >> 16) as u16
    } else if addr == 0x06C {
        v.master_brightness_control.0
    } else {
        0
    }
}

/// The halfword that the engine holds for its register at `addr`, whether the register
/// can be read or not: what a write of one of its bytes leaves in the other byte.
pub open spec fn register_raw_16(v: Engine2dView, addr: u32) -> u16 {
    if 0x010 <= addr < 0x020 && addr % 2 == 0 {
        v.bgs[(addr - 0x10) as int / 4].scroll[((addr - 0x10) as int / 2) % 2]
    } else if (0x020 <= addr < 0x028 || 0x030 <= addr < 0x038) && addr % 2 == 0 {
        let d = v.affine_bg_data[(addr - 0x20) as int / 0x10];
        let param = ((addr as int) % 0x10) / 2;
        (if param == 0 {
            d.x_incr[0]
        } else if param == 1 {
            d.y_incr[0]
        } else if param == 2 {
            d.x_incr[1]
        } else {
            d.y_incr[1]
        }) as u16
    } else if (0x028 <= addr < 0x030 || 0x038 <= addr < 0x040) && addr % 2 == 0 {
        let d = v.affine_bg_data[(addr - 0x28) as int / 0x10];
        let coord = d.ref_point[(((addr as int) % 0x10) - 8) / 4] as u32;
        if (addr as int) % 4 == 2 {
            (coord >> 16) as u16
        } else {
            coord as u16
        }
    } else if addr == 0x040 || addr == 0x042 {
        let range = v.window_x_ranges[(addr - 0x40) as int / 2];
        ((range.0 as u16) << 8) | (range.1 as u16)
    } else if addr == 0x044 || addr == 0x046 {
        let range = v.window_y_ranges[(addr - 0x44) as int / 2];
        ((range.0 as u16) << 8) | (range.1 as u16)
    } else if addr == 0x054 {
        v.brightness_coeff as u16
    } else {
        register_read_16(v, addr)
    }
}

/// The engine after a write of `value` to the display control register.
pub open spec fn control_written(v: Engine2dView, value: Control, is_a: bool) -> Engine2dView {
    Engine2dView {
        control: if is_a {
            value
        } else {
            Control(value.0 & 0xC0B3_FFF7)
        },
        bgs: bgs_shown(v.bgs, value),
        ..v
    }
}

/// The engine after a write of `value` to the control register of background `i`.
pub open spec fn bg_control_written(v: Engine2dView, i: int, value: BgControl) -> Engine2dView {
    Engine2dView {
        bgs: v.bgs.update(
            i,
            BgView {
                control: value,
                priority: if v.bgs[i].priority != 4 {
                    (value.0 & 0x3) as u8
                } else {
                    4
                },
                ..v.bgs[i]
            },
        ),
        ..v
    }
}

/// The engine after a write of `value` to one of the two window control registers: each
/// holds two control values, of which six bits are kept.
pub open spec fn window_controls_written(v: Engine2dView, first: int, value: u16) -> Engine2dView {
    Engine2dView {
        window_control: v.window_control.update(first, WindowControl((value as u8) & 0x3F)).update(
            first + 1,
            WindowControl(((value >> 8) as u8) & 0x3F),
        ),
        ..v
    }
}

/// The engine after a write of `value` to the capture control register.
pub open spec fn capture_control_written(v: Engine2dView, value: CaptureControl, is_a: bool) -> Engine2dView {
    if is_a {
        Engine2dView {
            capture_control: CaptureControl(value.0 & 0xEF3F_1F1F),
            capture_height: capture_height_of(((value.0 >> 20) & 0x3) as u8),
            ..v
        }
    } else {
        v
    }
}

/// The engine after a write of the halfword `value` to its register at `addr`, which
/// counts from the start of the engine's registers. A write to no register changes
/// nothing.
pub open spec fn register_written_16(v: Engine2dView, addr: u32, value: u16, is_a: bool) -> Engine2dView {
    if addr == 0x000 {
        control_written(v, Control((v.control.0 & 0xFFFF_0000) | (value as u32)), is_a)
    } else if addr == 0x002 {
        control_written(v, Control((v.control.0 & 0x0000_FFFF) | ((value as u32) << 16)), is_a)
    } else if addr == 0x008 || addr == 0x00A || addr == 0x00C || addr == 0x00E {
        bg_control_written(v, (addr - 8) as int / 2, BgControl(value))
    } else if 0x010 <= addr < 0x020 && addr % 2 == 0 {
        let i = (addr - 0x10) as int / 4;
        let axis = ((addr - 0x10) as int / 2) % 2;
        Engine2dView {
            bgs: v.bgs.update(i, BgView { scroll: v.bgs[i].scroll.update(axis, value), ..v.bgs[i] }),
            ..v
        }
    } else if (0x020 <= addr < 0x028 || 0x030 <= addr < 0x038) && addr % 2 == 0 {
        let i = (addr - 0x20) as int / 0x10;
        let param = ((addr as int) % 0x10) / 2;
        let d = v.affine_bg_data[i];
        Engine2dView {
            affine_bg_data: v.affine_bg_data.update(
                i,
                if param == 0 {
                    AffineBgDataView { x_incr: d.x_incr.update(0, value as i16), ..d }
                } else if param == 1 {
                    AffineBgDataView { y_incr: d.y_incr.update(0, value as i16), ..d }
                } else if param == 2 {
                    AffineBgDataView { x_incr: d.x_incr.update(1, value as i16), ..d }
                } else {
                    AffineBgDataView { y_incr: d.y_incr.update(1, value as i16), ..d }
                },
            ),
            ..v
        }
    } else if (0x028 <= addr < 0x030 || 0x038 <= addr < 0x040) && addr % 2 == 0 {
        let i = (addr - 0x28) as int / 0x10;
        let coord = (((addr as int) % 0x10) - 8) / 4;
        let high = (addr as int) % 4 == 2;
        let d = v.affine_bg_data[i];
        let point = d.ref_point.update(coord, ref_coord_written(d.ref_point[coord], high, value));
        Engine2dView {
            affine_bg_data: v.affine_bg_data.update(
                i,
                AffineBgDataView { ref_point: point, pos: point, ..d },
            ),
            ..v
        }
    } else if addr == 0x040 || addr == 0x042 {
        Engine2dView {
            window_x_ranges: v.window_x_ranges.update(
                (addr - 0x40) as int / 2,
                ((value >> 8) as u8, value as u8),
            ),
            ..v
        }
    } else if addr == 0x044 || addr == 0x046 {
        Engine2dView {
            window_y_ranges: v.window_y_ranges.update(
                (addr - 0x44) as int / 2,
                ((value >> 8) as u8, value as u8),
            ),
            ..v
        }
    } else if addr == 0x048 {
        window_controls_written(v, 0, value)
    } else if addr == 0x04A {
        window_controls_written(v, 2, value)
    } else if addr == 0x050 {
        Engine2dView { color_effects_control: ColorEffectsControl(value & 0x3FFF), ..v }
    } else if addr == 0x052 {
        Engine2dView {
            blend_coeffs_raw: BlendCoeffsRaw(value & 0x1F1F),
            blend_coeffs: (
                capped(((value & 0x1F1F) & 0x1F) as u8),
                capped((((value & 0x1F1F) >> 8) & 0x1F) as u8),
            ),
            ..v
        }
    } else if addr == 0x054 {
        Engine2dView { brightness_coeff: capped((value as u8) & 0x1F), ..v }
    } else if addr == 0x064 {
        capture_control_written(
            v,
            CaptureControl((v.capture_control.0 & 0xFFFF_0000) | (value as u32)),
            is_a,
        )
    } else if addr == 0x066 {
        capture_control_written(
            v,
            CaptureControl((v.capture_control.0 & 0x0000_FFFF) | ((value as u32) << 16)),
            is_a,
        )
    } else if addr == 0x06C {
        Engine2dView {
            master_brightness_control: BrightnessControl(value & 0xC01F),
            master_brightness_factor: capped((value & 0x1F) as u8) as u32,
            ..v
        }
    } else {
        v
    }
}

impl<R: Role> Engine2d<R> {
    /// Reads a halfword from the engine's register at `addr`.
    pub fn read_16(&self, addr: u32) -> (value: u16)
        ensures
            value == register_read_16(self@, addr),
    {
        match addr {
            0x000 => #[verifier::truncate] (self.control.0 as u16),
            0x002 => #[verifier::truncate] ((self.control.0 >> 16) as u16),
            0x008 | 0x00A | 0x00C | 0x00E => self.bgs[(addr as usize - 8) / 2].control().0,
            0x048 => (self.window_control[0].0 as u16) | ((self.window_control[1].0 as u16) << 8),
            0x04A => (self.window_control[2].0 as u16) | ((self.window_control[3].0 as u16) << 8),
            0x050 => self.color_effects_control.0,
            0x052 => self.blend_coeffs_raw.0,
            0x064 => #[verifier::truncate] (self.capture_control.0 as u16),
            0x066 => #[verifier::truncate] ((self.capture_control.0 >> 16) as u16),
            0x06C => self.master_brightness_control.0,
            _ => 0,
        }
    }

    /// The halfword that the engine holds for its register at `addr`.
    pub fn raw_16(&self, addr: u32) -> (value: u16)
        ensures
            value == register_raw_16(self@, addr),
    {
        proof {
            self.lemma_sizes();
        }
        match addr {
            0x010 | 0x012 | 0x014 | 0x016 | 0x018 | 0x01A | 0x01C | 0x01E => {
                let bg = &self.bgs[(addr as usize - 0x10) / 4];
                bg.scroll_value(((addr as usize - 0x10) / 2) % 2)
            },
            0x020 | 0x022 | 0x024 | 0x026 | 0x030 | 0x032 | 0x034 | 0x036 => {
                let d = &self.affine_bg_data[(addr as usize - 0x20) / 0x10];
                (match (addr as usize % 0x10) / 2 {
                    0 => d.incr(0),
                    1 => d.incr(2),
                    2 => d.incr(1),
                    _ => d.incr(3),
                }) as u16
            },
            0x028 | 0x02A | 0x02C | 0x02E | 0x038 | 0x03A | 0x03C | 0x03E => {
                let d = &self.affine_bg_data[(addr as usize - 0x28) / 0x10];
                let coord = d.ref_point()[((addr as usize % 0x10) - 8) / 4] as u32;
                if addr % 4 == 2 {
                    #[verifier::truncate]
                    ((coord >> 16) as u16)
                } else {
                    #[verifier::truncate]
                    (coord as u16)
                }
            },
            0x040 | 0x042 => {
                let range = self.window_x_ranges[(addr as usize - 0x40) / 2];
                ((range.0 as u16) << 8) | (range.1 as u16)
            },
            0x044 | 0x046 => {
                let range = self.window_y_ranges[(addr as usize - 0x44) / 2];
                ((range.0 as u16) << 8) | (range.1 as u16)
            },
            0x054 => self.brightness_coeff as u16,
            _ => self.read_16(addr),
        }
    }

    /// Writes an increment of an affine background: 0 and 1 the horizontal ones, 2 and
    /// 3 the vertical ones.
    pub fn write_affine_incr(&mut self, i: AffineBgIndex, param: usize, value: i16)
        requires
            param < 4,
        ensures
            final(self)@ == (Engine2dView {
                affine_bg_data: old(self)@.affine_bg_data.update(
                    i@ as int,
                    if param < 2 {
                        AffineBgDataView {
                            x_incr: old(self)@.affine_bg_data[i@ as int].x_incr.update(
                                param as int,
                                value,
                            ),
                            ..old(self)@.affine_bg_data[i@ as int]
                        }
                    } else {
                        AffineBgDataView {
                            y_incr: old(self)@.affine_bg_data[i@ as int].y_incr.update(
                                param as int - 2,
                                value,
                            ),
                            ..old(self)@.affine_bg_data[i@ as int]
                        }
                    },
                ),
                ..old(self)@
            }),
    {
        let idx = i.get() as usize;
        self.affine_bg_data[idx].write_incr(param, value);
        proof {
            assert(self@.affine_bg_data =~= old(self)@.affine_bg_data.update(
                idx as int,
                self.affine_bg_data[idx as int]@,
            ));
        }
    }

    /// Writes a halfword to the engine's register at `addr`.
    #[verifier::rlimit(60)]
    pub fn write_16(&mut self, addr: u32, value: u16)
        ensures
            final(self)@ == register_written_16(old(self)@, addr, value, R::is_a()),
    {
        proof {
            self.lemma_sizes();
        }
        match addr {
            0x000 => self.write_control(Control((self.control.0 & 0xFFFF_0000) | (value as u32))),
            0x002 => self.write_control(
                Control((self.control.0 & 0x0000_FFFF) | ((value as u32) << 16)),
            ),
            0x008 | 0x00A | 0x00C | 0x00E => self.write_bg_control(
                BgIndex::new(((addr - 8) / 2) as u8),
                BgControl(value),
            ),
            0x010 | 0x012 | 0x014 | 0x016 | 0x018 | 0x01A | 0x01C | 0x01E => self.write_bg_scroll(
                BgIndex::new(((addr - 0x10) / 4) as u8),
                ((addr as usize - 0x10) / 2) % 2,
                value,
            ),
            0x020 | 0x022 | 0x024 | 0x026 | 0x030 | 0x032 | 0x034 | 0x036 => {
                let param = (addr as usize % 0x10) / 2;
                let incr = match param {
                    0 => 0,
                    1 => 2,
                    2 => 1,
                    _ => 3,
                };
                self.write_affine_incr(
                    AffineBgIndex::new(((addr - 0x20) / 0x10) as u8),
                    incr,
                    value as i16,
                );
            },
            0x028 | 0x02A | 0x02C | 0x02E | 0x038 | 0x03A | 0x03C | 0x03E => {
                let i = AffineBgIndex::new(((addr - 0x28) / 0x10) as u8);
                let coord = ((addr as usize % 0x10) - 8) / 4;
                let high = addr % 4 == 2;
                let mut point = self.affine_bg_data[i.get() as usize].ref_point();
                let prev = point[coord] as u32;
                let raw = if high {
                    (prev & 0x0000_FFFF) | ((value as u32) << 16)
                } else {
                    (prev & 0xFFFF_0000) | (value as u32)
                };
                point[coord] = ((raw << 4) as i32) >> 4;
                self.write_affine_ref_point(i, point);
            },
            0x040 | 0x042 => self.write_window_x_range(
                WindowIndex::new(((addr - 0x40) / 2) as u8),
                (#[verifier::truncate] ((value >> 8) as u8), #[verifier::truncate] (value as u8)),
            ),
            0x044 | 0x046 => self.write_window_y_range(
                WindowIndex::new(((addr - 0x44) / 2) as u8),
                (#[verifier::truncate] ((value >> 8) as u8), #[verifier::truncate] (value as u8)),
            ),
            0x048 => {
                self.write_window_control(
                    WindowControlIndex::new(0),
                    WindowControl(#[verifier::truncate] (value as u8)),
                );
                self.write_window_control(
                    WindowControlIndex::new(1),
                    WindowControl(#[verifier::truncate] ((value >> 8) as u8)),
                );
            },
            0x04A => {
                self.write_window_control(
                    WindowControlIndex::new(2),
                    WindowControl(#[verifier::truncate] (value as u8)),
                );
                self.write_window_control(
                    WindowControlIndex::new(3),
                    WindowControl(#[verifier::truncate] ((value >> 8) as u8)),
                );
            },
            0x050 => self.write_color_effects_control(ColorEffectsControl(value)),
            0x052 => self.write_blend_coeffs_raw(BlendCoeffsRaw(value)),
            0x054 => self.write_brightness_coeff(#[verifier::truncate] (value as u8)),
            0x064 => self.write_capture_control(
                CaptureControl((self.capture_control.0 & 0xFFFF_0000) | (value as u32)),
            ),
            0x066 => self.write_capture_control(
                CaptureControl((self.capture_control.0 & 0x0000_FFFF) | ((value as u32) << 16)),
            ),
            0x06C => self.write_master_brightness_control(BrightnessControl(value)),
            _ => {},
        }
    }
}

} // verus!
