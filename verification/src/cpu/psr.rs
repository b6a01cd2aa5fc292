//! Program status registers and processor modes.

use vstd::prelude::*;

verus! {

/// A processor mode, as the five low bits of a status register name it. The highest of
/// the five bits is always set.
#[derive(Clone, Copy, Debug, PartialEq, Eq)]
pub struct Mode {
    raw: u8,
}

/// The register bank of the user and system modes.
pub const BANK_USER: usize = 0;

/// The register bank of the fast interrupt mode.
pub const BANK_FIQ: usize = 1;

/// The register bank of the interrupt mode.
pub const BANK_IRQ: usize = 2;

/// The register bank of the supervisor mode.
pub const BANK_SUPERVISOR: usize = 3;

/// The register bank of the abort mode.
pub const BANK_ABORT: usize = 4;

/// The register bank of the undefined-instruction mode.
pub const BANK_UNDEFINED: usize = 5;

/// The register bank that a mode with the given raw value uses. The five exception modes
/// have a bank each; every other mode uses the bank of the user mode.
pub open spec fn bank_of(raw: u8) -> int {
    if raw == 0x11 {
        1
    } else if raw == 0x12 {
        2
    } else if raw == 0x13 {
        3
    } else if raw == 0x17 {
        4
    } else if raw == 0x1B {
        5
    } else {
        0
    }
}

/// A bank of registers: the bank of the user mode, which the system mode shares, and
/// one for each exception mode.
#[derive(Clone, Copy, Debug, PartialEq, Eq)]
pub enum RegBank {
    User,
    Fiq,
    Irq,
    Supervisor,
    Abort,
    Undefined,
}

impl RegBank {
    /// The number of the bank, as spec functions count the banks.
    pub open spec fn number(self) -> int {
        match self {
            RegBank::User => 0,
            RegBank::Fiq => 1,
            RegBank::Irq => 2,
            RegBank::Supervisor => 3,
            RegBank::Abort => 4,
            RegBank::Undefined => 5,
        }
    }

    /// The number of the bank: 0 to 5.
    pub fn index(self) -> (index: usize)
        ensures
            index == self.number(),
            index < 6,
    {
        match self {
            RegBank::User => 0,
            RegBank::Fiq => 1,
            RegBank::Irq => 2,
            RegBank::Supervisor => 3,
            RegBank::Abort => 4,
            RegBank::Undefined => 5,
        }
    }
}

impl Mode {
    #[verifier::type_invariant]
    spec fn in_range(self) -> bool {
        0x10 <= self.raw <= 0x1F
    }

    /// The raw value: 0x10 to 0x1F.
    pub closed spec fn view(self) -> u8 {
        self.raw
    }

    /// The user mode.
    pub fn user() -> (mode: Self)
        ensures
            mode@ == 0x10,
    {
        Mode { raw: 0x10 }
    }

    /// The fast interrupt mode.
    pub fn fiq() -> (mode: Self)
        ensures
            mode@ == 0x11,
    {
        Mode { raw: 0x11 }
    }

    /// The interrupt mode.
    pub fn irq() -> (mode: Self)
        ensures
            mode@ == 0x12,
    {
        Mode { raw: 0x12 }
    }

    /// The supervisor mode.
    pub fn supervisor() -> (mode: Self)
        ensures
            mode@ == 0x13,
    {
        Mode { raw: 0x13 }
    }

    /// The abort mode.
    pub fn abort() -> (mode: Self)
        ensures
            mode@ == 0x17,
    {
        Mode { raw: 0x17 }
    }

    /// The undefined-instruction mode.
    pub fn undefined() -> (mode: Self)
        ensures
            mode@ == 0x1B,
    {
        Mode { raw: 0x1B }
    }

    /// The system mode.
    pub fn system() -> (mode: Self)
        ensures
            mode@ == 0x1F,
    {
        Mode { raw: 0x1F }
    }

    pub fn raw(self) -> (raw: u8)
        ensures
            raw == self@,
            0x10 <= raw <= 0x1F,
    {
        proof {
            use_type_invariant(self);
        }
        self.raw
    }

    /// The register bank that the mode uses.
    pub fn bank(self) -> (bank: usize)
        ensures
            bank == bank_of(self@),
            bank < 6,
    {
        match self.raw {
            0x11 => 1,
            0x12 => 2,
            0x13 => 3,
            0x17 => 4,
            0x1B => 5,
            _ => 0,
        }
    }

    /// The register bank that the mode uses, by its name.
    pub fn reg_bank(self) -> (bank: RegBank)
        ensures
            bank.number() == bank_of(self@),
    {
        match self.raw {
            0x11 => RegBank::Fiq,
            0x12 => RegBank::Irq,
            0x13 => RegBank::Supervisor,
            0x17 => RegBank::Abort,
            0x1B => RegBank::Undefined,
            _ => RegBank::User,
        }
    }

    /// Whether the mode is privileged: every mode but the user mode is.
    pub fn is_privileged(self) -> (privileged: bool)
        ensures
            privileged == (self@ != 0x10),
    {
        self.raw != 0x10
    }

    /// Whether the mode has a saved status register: the exception modes have one.
    pub fn has_spsr(self) -> (has: bool)
        ensures
            has == (bank_of(self@) != 0),
    {
        self.bank() != 0
    }
}

/// A program status register: the mode in bits 0 to 4, the Thumb state in bit 5, the mask
/// bits of fast interrupts and interrupts in bits 6 and 7, the sticky overflow flag in bit
/// 27 and the flags V, C, Z and N in bits 28 to 31.
#[derive(Clone, Copy, Debug, PartialEq, Eq)]
pub struct Psr {
    raw: u32,
}

/// The bits of a status register that exist.
pub const PSR_MASK: u32 = 0xF800_00FF;

impl Psr {
    #[verifier::type_invariant]
    spec fn in_range(self) -> bool {
        self.raw & 0x10 != 0
    }

    /// The raw value. Bit 4 is always set.
    pub closed spec fn view(self) -> u32 {
        self.raw
    }

    /// The status register with the raw value `raw`; bit 4 is set in any case.
    pub fn from_raw(raw: u32) -> (psr: Self)
        ensures
            psr@ == raw | 0x10,
    {
        proof {
            assert((raw | 0x10) & 0x10 != 0) by (bit_vector);
        }
        Psr { raw: raw | 0x10 }
    }

    /// The status register with the bits of `raw` that exist.
    pub fn from_raw_masked(raw: u32) -> (psr: Self)
        ensures
            psr@ == (raw & PSR_MASK) | 0x10,
    {
        Self::from_raw(raw & PSR_MASK)
    }

    pub fn raw(self) -> (raw: u32)
        ensures
            raw == self@,
    {
        self.raw
    }

    /// The mode.
    pub fn mode(self) -> (mode: Mode)
        ensures
            mode@ == (self@ & 0x1F) as u8,
    {
        proof {
            use_type_invariant(self);
            let x = self.raw;
            assert(x & 0x10 != 0 ==> 0x10 <= (x & 0x1F) <= 0x1F) by (bit_vector);
        }
        Mode { raw: (self.raw & 0x1F) as u8 }
    }

    /// The status register with another mode.
    pub fn with_mode(self, mode: Mode) -> (psr: Self)
        ensures
            psr@ == (self@ & !0x1Fu32) | (mode@ as u32),
    {
        let m = mode.raw();
        proof {
            let x = self.raw;
            assert(0x10 <= m <= 0x1F ==> (((x & !0x1Fu32) | (m as u32)) & 0x10 != 0)) by (bit_vector);
        }
        Psr { raw: (self.raw & !0x1Fu32) | (m as u32) }
    }

    /// Whether the CPU runs Thumb code.
    pub fn thumb_state(self) -> (thumb: bool)
        ensures
            thumb == (self@ & 0x20 != 0),
    {
        self.raw & 0x20 != 0
    }

    /// The status register with the Thumb state set or cleared.
    pub fn with_thumb_state(self, thumb: bool) -> (psr: Self)
        ensures
            psr@ == (if thumb {
                self@ | 0x20
            } else {
                self@ & !0x20u32
            }),
    {
        proof {
            use_type_invariant(self);
            let x = self.raw;
            assert(x & 0x10 != 0 ==> (x | 0x20) & 0x10 != 0 && (x & !0x20u32) & 0x10 != 0)
                by (bit_vector);
        }
        Psr {
            raw: if thumb {
                self.raw | 0x20
            } else {
                self.raw & !0x20u32
            },
        }
    }

    /// Whether interrupts are masked.
    pub fn irqs_disabled(self) -> (disabled: bool)
        ensures
            disabled == (self@ & 0x80 != 0),
    {
        self.raw & 0x80 != 0
    }

    /// The status register with interrupts masked or not.
    pub fn with_irqs_disabled(self, disabled: bool) -> (psr: Self)
        ensures
            psr@ == (if disabled {
                self@ | 0x80
            } else {
                self@ & !0x80u32
            }),
    {
        proof {
            use_type_invariant(self);
            let x = self.raw;
            assert(x & 0x10 != 0 ==> (x | 0x80) & 0x10 != 0 && (x & !0x80u32) & 0x10 != 0)
                by (bit_vector);
        }
        Psr {
            raw: if disabled {
                self.raw | 0x80
            } else {
                self.raw & !0x80u32
            },
        }
    }

    /// The status register with the flags N and Z as the upper two bits of `flags` say;
    /// the other bits of `flags` must be zero.
    pub fn with_nz(self, flags: u32) -> (psr: Self)
        requires
            flags & !0xC000_0000u32 == 0,
        ensures
            psr@ == (self@ & !0xC000_0000u32) | flags,
    {
        proof {
            use_type_invariant(self);
            let x = self.raw;
            assert(x & 0x10 != 0 ==> ((x & !0xC000_0000u32) | flags) & 0x10 != 0) by (bit_vector);
        }
        Psr { raw: (self.raw & !0xC000_0000u32) | flags }
    }

    /// The status register with the flags N, Z, C and V as the upper four bits of `flags`
    /// say; the other bits of `flags` must be zero.
    pub fn with_nzcv(self, flags: u32) -> (psr: Self)
        requires
            flags & !0xF000_0000u32 == 0,
        ensures
            psr@ == (self@ & !0xF000_0000u32) | flags,
    {
        proof {
            use_type_invariant(self);
            let x = self.raw;
            assert(x & 0x10 != 0 ==> ((x & !0xF000_0000u32) | flags) & 0x10 != 0) by (bit_vector);
        }
        Psr { raw: (self.raw & !0xF000_0000u32) | flags }
    }

    /// The carry flag.
    pub fn carry(self) -> (carry: bool)
        ensures
            carry == (self@ & 0x2000_0000 != 0),
    {
        self.raw & 0x2000_0000 != 0
    }
}

} // verus!
