//! The 32 KiB of working RAM that the two CPUs share, and the register that splits it
//! between them.

use vstd::prelude::*;

verus! {

/// The size of the shared working RAM in bytes.
pub const SWRAM_LEN: usize = 0x8000;

/// The control register: its two low bits select one of four splits.
#[derive(Clone, Copy, Debug, PartialEq, Eq)]
pub struct Control(pub u8);

/// The part of the shared RAM that a CPU sees under a split: where it starts and how long
/// it is. With split 0 the ARM9 has all of it, with 1 its second half, with 2 its first
/// half and with 3 none of it; the ARM7 has the rest.
pub open spec fn part(control: u8, arm9: bool) -> (int, int) {
    let mode: int = if arm9 {
        (control & 3) as int
    } else {
        3 - (control & 3)
    };
    if mode == 0 {
        (0, 0x8000)
    } else if mode == 1 {
        (0x4000, 0x4000)
    } else if mode == 2 {
        (0, 0x4000)
    } else {
        (0, 0)
    }
}

/// Where in the shared RAM a CPU finds the byte at `addr`, if it has a part of the RAM.
pub open spec fn location(control: u8, arm9: bool, addr: u32) -> Option<int> {
    let (start, len) = part(control, arm9);
    if len == 0 {
        None
    } else {
        Some(start + (addr as int) % len)
    }
}

/// The shared working RAM.
pub struct Swram {
    contents: Vec<u8>,
    control: Control,
}

/// The state of the shared working RAM, as contracts see it.
pub struct SwramView {
    pub contents: Seq<u8>,
    pub control: u8,
}

impl View for Swram {
    type V = SwramView;

    closed spec fn view(&self) -> SwramView {
        SwramView { contents: self.contents@, control: self.control.0 }
    }
}

/// The shared RAM has its size.
pub open spec fn swram_wf(v: SwramView) -> bool {
    v.contents.len() == 0x8000
}

impl Swram {
    /// The RAM at power-on: every byte zero, all of it with the ARM9.
    pub fn new() -> (swram: Self)
        ensures
            swram@ == (SwramView { contents: Seq::new(0x8000, |i: int| 0u8), control: 0 }),
            swram_wf(swram@),
    {
        let swram = Swram { contents: vec![0u8; 0x8000], control: Control(0) };
        assert(swram@.contents =~= Seq::new(0x8000, |i: int| 0u8));
        swram
    }

    pub fn control(&self) -> (control: Control)
        ensures
            control.0 == self@.control,
    {
        self.control
    }

    /// Writes the control register; its two low bits are kept.
    pub fn write_control(&mut self, value: Control)
        ensures
            final(self)@ == (SwramView { control: value.0 & 3, ..old(self)@ }),
    {
        self.control = Control(value.0 & 3);
    }

    /// Where in the RAM a CPU finds the `size` bytes at `addr`, which is a multiple of
    /// `size`.
    pub fn locate(&self, arm9: bool, addr: u32, size: usize) -> (at: Option<usize>)
        requires
            size == 1 || size == 2 || size == 4,
            addr as int % size as int == 0,
        ensures
            match at {
                Some(a) => location(self@.control, arm9, addr) == Some(a as int) && a + size
                    <= 0x8000,
                None => location(self@.control, arm9, addr) is None,
            },
    {
        proof {
            crate::bits::lemma_and_le_u8(self.control.0, 3);
            crate::bytes::lemma_wrap_aligned(addr as int, 0x8000, size as int);
            crate::bytes::lemma_wrap_aligned(addr as int, 0x4000, size as int);
        }
        let mode = if arm9 {
            self.control.0 & 3
        } else {
            3 - (self.control.0 & 3)
        };
        match mode {
            0 => Some(addr as usize % 0x8000),
            1 => Some(0x4000 + addr as usize % 0x4000),
            2 => Some(addr as usize % 0x4000),
            _ => None,
        }
    }

    /// The bytes of the RAM.
    pub fn contents(&self) -> (bytes: &Vec<u8>)
        ensures
            bytes@ == self@.contents,
    {
        &self.contents
    }

    /// Writes a byte of the RAM.
    pub fn write_8(&mut self, at: usize, value: u8)
        requires
            swram_wf(old(self)@),
            at < 0x8000,
        ensures
            final(self)@ == (SwramView {
                contents: old(self)@.contents.update(at as int, value),
                ..old(self)@
            }),
    {
        self.contents[at] = value;
    }

    /// Writes a halfword of the RAM.
    pub fn write_16(&mut self, at: usize, value: u16)
        requires
            swram_wf(old(self)@),
            at + 1 < 0x8000,
        ensures
            final(self)@ == (SwramView {
                contents: crate::bytes::with_le_16(old(self)@.contents, at as int, value),
                ..old(self)@
            }),
    {
        crate::bytes::write_16(&mut self.contents, at, value);
    }

    /// Writes a word of the RAM.
    pub fn write_32(&mut self, at: usize, value: u32)
        requires
            swram_wf(old(self)@),
            at + 3 < 0x8000,
        ensures
            final(self)@ == (SwramView {
                contents: crate::bytes::with_le_32(old(self)@.contents, at as int, value),
                ..old(self)@
            }),
    {
        crate::bytes::write_32(&mut self.contents, at, value);
    }
}

} // verus!
