//! The wireless unit: its register file, its memory and the registers of its baseband
//! chip, as they are at power-on.

use vstd::prelude::*;

verus! {

/// The size of the register file in bytes.
pub const MMIO_LEN: usize = 0x1000;

/// The size of the unit's memory in bytes.
pub const RAM_LEN: usize = 0x2000;

/// The register file at power-on: zero but for the byte at 0x3D, which is 2.
pub open spec fn initial_mmio() -> Seq<u8> {
    Seq::new(0x1000, |i: int| 0u8).update(0x3D, 0x02)
}

/// The registers of the baseband chip at power-on: zero but for four of them.
pub open spec fn initial_bb_regs() -> Seq<u8> {
    Seq::new(0x100, |i: int| 0u8).update(0x00, 0x6D).update(0x4D, 0xBF).update(0x5D, 0x01).update(
        0x64,
        0xFF,
    )
}

/// The wireless unit.
pub struct WiFi {
    pub mmio: Vec<u8>,
    pub ram: Vec<u8>,
    bb_regs: [u8; 0x100],
}

impl WiFi {
    /// The registers of the baseband chip.
    pub closed spec fn bb_regs(&self) -> Seq<u8> {
        self.bb_regs@
    }

    /// The bytes of the register file.
    pub closed spec fn mmio_bytes(&self) -> Seq<u8> {
        self.mmio@
    }

    /// The bytes of the unit's memory.
    pub closed spec fn ram_bytes(&self) -> Seq<u8> {
        self.ram@
    }

    /// The unit at power-on.
    pub fn new() -> (wifi: Self)
        ensures
            wifi.mmio_bytes() == initial_mmio(),
            wifi.ram_bytes() == Seq::new(0x2000, |i: int| 0u8),
            wifi.bb_regs() == initial_bb_regs(),
    {
        let mut mmio = vec![0u8; 0x1000];
        mmio[0x3D] = 0x02;
        let mut bb_regs = [0u8; 0x100];
        bb_regs[0x00] = 0x6D;
        bb_regs[0x4D] = 0xBF;
        bb_regs[0x5D] = 0x01;
        bb_regs[0x64] = 0xFF;
        let wifi = WiFi { mmio, ram: vec![0u8; 0x2000], bb_regs };
        assert(wifi.mmio@ =~= initial_mmio());
        assert(wifi.ram@ =~= Seq::new(0x2000, |i: int| 0u8));
        assert(wifi.bb_regs() =~= initial_bb_regs());
        wifi
    }

    /// A register of the baseband chip.
    pub fn bb_reg(&self, index: u8) -> (value: u8)
        ensures
            value == self.bb_regs()[index as int],
    {
        self.bb_regs[index as usize]
    }
}

} // verus!
