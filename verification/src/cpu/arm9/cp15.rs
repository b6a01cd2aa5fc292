//! The parts of the ARM9's system control coprocessor that the bus and the interpreter
//! look at: the wait states of every 16 KiB of the address space, what the protection
//! unit allows in every 4 KiB of it, and the control register.

use vstd::prelude::*;

verus! {

/// The wait states of a page: for an instruction fetch and for a data access.
#[derive(Clone, Copy, Debug, PartialEq, Eq)]
pub struct Cycles {
    pub code: u8,
    pub data: u8,
}

/// The number of 16 KiB pages in the address space.
pub const TIMING_PAGES: usize = 0x4_0000;

/// The number of 4 KiB pages in the address space.
pub const PERM_PAGES: usize = 0x10_0000;

/// A privileged mode may read.
pub const PERM_PRIV_R: u8 = 1;

/// A privileged mode may write.
pub const PERM_PRIV_W: u8 = 2;

/// A privileged mode may run code.
pub const PERM_PRIV_X: u8 = 4;

/// The user mode may read.
pub const PERM_USER_R: u8 = 8;

/// The user mode may write.
pub const PERM_USER_W: u8 = 0x10;

/// The user mode may run code.
pub const PERM_USER_X: u8 = 0x20;

/// The state of the coprocessor, as contracts see it.
pub struct Cp15View {
    /// The wait states of every 16 KiB page.
    pub timings: Seq<Cycles>,
    /// The permissions of every 4 KiB page.
    pub perms: Seq<u8>,
    /// The control register.
    pub control: u32,
}

/// Every page has its wait states and its permissions.
pub open spec fn cp15_wf(v: Cp15View) -> bool {
    v.timings.len() == 0x4_0000 && v.perms.len() == 0x10_0000
}

/// The wait states of the page of an address.
pub open spec fn cycles_at(v: Cp15View, addr: u32) -> Cycles {
    v.timings[addr as int / 0x4000]
}

/// Whether the protection unit allows an access of the kind `priv_bit` in a privileged
/// mode, or of the kind `user_bit` in the user mode.
pub open spec fn allowed(v: Cp15View, addr: u32, privileged: bool, priv_bit: u8, user_bit: u8) -> bool {
    v.perms[addr as int / 0x1000] & (if privileged {
        priv_bit
    } else {
        user_bit
    }) != 0
}

/// Whether a read is allowed.
pub open spec fn can_read(v: Cp15View, addr: u32, privileged: bool) -> bool {
    allowed(v, addr, privileged, PERM_PRIV_R, PERM_USER_R)
}

/// Whether a write is allowed.
pub open spec fn can_write(v: Cp15View, addr: u32, privileged: bool) -> bool {
    allowed(v, addr, privileged, PERM_PRIV_W, PERM_USER_W)
}

/// Whether an instruction fetch is allowed.
pub open spec fn can_execute(v: Cp15View, addr: u32, privileged: bool) -> bool {
    allowed(v, addr, privileged, PERM_PRIV_X, PERM_USER_X)
}

/// The parts of the coprocessor that the bus and the interpreter look at.
pub struct Cp15 {
    timings: Vec<Cycles>,
    perms: Vec<u8>,
    control: u32,
}

impl View for Cp15 {
    type V = Cp15View;

    closed spec fn view(&self) -> Cp15View {
        Cp15View { timings: self.timings@, perms: self.perms@, control: self.control }
    }
}

/// The coprocessor at power-on: every access takes one cycle and is allowed, and the
/// exception vectors are the high ones.
pub open spec fn initial_cp15() -> Cp15View {
    Cp15View {
        timings: Seq::new(0x4_0000, |i: int| Cycles { code: 1, data: 1 }),
        perms: Seq::new(0x10_0000, |i: int| 0x3Fu8),
        control: 0x2000,
    }
}

impl Cp15 {
    /// The coprocessor at power-on: every access takes one cycle and is allowed, and the
    /// exception vectors are high.
    pub fn new() -> (cp15: Self)
        ensures
            cp15@ == initial_cp15(),
            cp15_wf(cp15@),
    {
        let cp15 = Cp15 {
            timings: vec![Cycles { code: 1, data: 1 }; 0x4_0000],
            perms: vec![0x3Fu8; 0x10_0000],
            control: 0x2000,
        };
        assert(cp15@.timings =~= Seq::new(0x4_0000, |i: int| Cycles { code: 1, data: 1 }));
        assert(cp15@.perms =~= Seq::new(0x10_0000, |i: int| 0x3Fu8));
        cp15
    }

    /// The wait states of the page of an address.
    pub fn cycles(&self, addr: u32) -> (cycles: Cycles)
        requires
            cp15_wf(self@),
        ensures
            cycles == cycles_at(self@, addr),
    {
        self.timings[addr as usize / 0x4000]
    }

    /// Sets the wait states of a 16 KiB page.
    pub fn set_cycles(&mut self, page: usize, cycles: Cycles)
        requires
            cp15_wf(old(self)@),
            page < 0x4_0000,
        ensures
            final(self)@ == (Cp15View {
                timings: old(self)@.timings.update(page as int, cycles),
                ..old(self)@
            }),
    {
        self.timings[page] = cycles;
    }

    /// Sets what the protection unit allows in a 4 KiB page.
    pub fn set_perms(&mut self, page: usize, perms: u8)
        requires
            cp15_wf(old(self)@),
            page < 0x10_0000,
        ensures
            final(self)@ == (Cp15View {
                perms: old(self)@.perms.update(page as int, perms),
                ..old(self)@
            }),
    {
        self.perms[page] = perms;
    }

    /// Whether a read is allowed.
    pub fn can_read(&self, addr: u32, privileged: bool) -> (r: bool)
        requires
            cp15_wf(self@),
        ensures
            r == can_read(self@, addr, privileged),
    {
        self.perms[addr as usize / 0x1000] & (if privileged {
            PERM_PRIV_R
        } else {
            PERM_USER_R
        }) != 0
    }

    /// Whether a write is allowed.
    pub fn can_write(&self, addr: u32, privileged: bool) -> (r: bool)
        requires
            cp15_wf(self@),
        ensures
            r == can_write(self@, addr, privileged),
    {
        self.perms[addr as usize / 0x1000] & (if privileged {
            PERM_PRIV_W
        } else {
            PERM_USER_W
        }) != 0
    }

    /// Whether an instruction fetch is allowed.
    pub fn can_execute(&self, addr: u32, privileged: bool) -> (r: bool)
        requires
            cp15_wf(self@),
        ensures
            r == can_execute(self@, addr, privileged),
    {
        self.perms[addr as usize / 0x1000] & (if privileged {
            PERM_PRIV_X
        } else {
            PERM_USER_X
        }) != 0
    }

    /// The control register.
    pub fn control(&self) -> (control: u32)
        ensures
            control == self@.control,
    {
        self.control
    }

    /// Writes the control register.
    pub fn write_control(&mut self, value: u32)
        ensures
            final(self)@ == (Cp15View { control: value, ..old(self)@ }),
    {
        self.control = value;
    }

    /// Whether the exception vectors lie at 0xFFFF0000: bit 13 of the control register.
    pub fn high_exc_vectors(&self) -> (high: bool)
        ensures
            high == (self@.control & 0x2000 != 0),
    {
        self.control & 0x2000 != 0
    }
}

} // verus!
