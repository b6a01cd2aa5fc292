//! The register file of a CPU: sixteen registers in use, and the banks that hold the
//! registers of the modes that are not in use.

use crate::cpu::psr::{bank_of, Mode, Psr, RegBank};
use vstd::prelude::*;

verus! {

/// The register file, as contracts see it.
pub struct RegsView {
    /// The sixteen registers in use; register 15 is the program counter.
    pub cur: Seq<u32>,
    /// The current status register.
    pub cpsr: u32,
    /// The saved status register in use.
    pub spsr: u32,
    /// Registers 13 and 14 of each bank, as they were when the bank was last in use.
    pub r13_14: Seq<Seq<u32>>,
    /// Registers 8 to 12 of the fast interrupt mode, while another mode is in use.
    pub r8_12_fiq: Seq<u32>,
    /// Registers 8 to 12 of the other modes, while the fast interrupt mode is in use.
    pub r8_12_other: Seq<u32>,
    /// The saved status register of each bank; the user bank has none that counts.
    pub spsrs: Seq<u32>,
}

/// Every part of the register file has its size.
pub open spec fn regs_wf(v: RegsView) -> bool {
    &&& v.cur.len() == 16
    &&& v.r13_14.len() == 6
    &&& forall|b: int| 0 <= b < 6 ==> (#[trigger] v.r13_14[b]).len() == 2
    &&& v.r8_12_fiq.len() == 5
    &&& v.r8_12_other.len() == 5
    &&& v.spsrs.len() == 6
}

/// The registers in use with registers 8 to 12 replaced.
pub open spec fn with_r8_12(cur: Seq<u32>, regs: Seq<u32>) -> Seq<u32> {
    Seq::new(
        16,
        |i: int|
            if 8 <= i < 13 {
                regs[i - 8]
            } else {
                cur[i]
            },
    )
}

/// The register file after the CPU goes from a mode of bank `prev` to one of bank `new`:
/// the registers that the old mode has to itself go to its bank, and those of the new mode
/// come from its bank. Between modes of one bank nothing changes.
pub open spec fn mode_switched(v: RegsView, prev: int, new: int) -> RegsView {
    if prev == new {
        v
    } else {
        let saved = RegsView {
            r13_14: v.r13_14.update(prev, seq![v.cur[13], v.cur[14]]),
            spsrs: if prev != 0 {
                v.spsrs.update(prev, v.spsr)
            } else {
                v.spsrs
            },
            r8_12_fiq: if prev == 1 {
                v.cur.subrange(8, 13)
            } else {
                v.r8_12_fiq
            },
            r8_12_other: if new == 1 {
                v.cur.subrange(8, 13)
            } else {
                v.r8_12_other
            },
            ..v
        };
        let r8_12 = if prev == 1 {
            v.r8_12_other
        } else if new == 1 {
            v.r8_12_fiq
        } else {
            v.cur.subrange(8, 13)
        };
        RegsView {
            cur: with_r8_12(v.cur, r8_12).update(13, saved.r13_14[new][0]).update(
                14,
                saved.r13_14[new][1],
            ),
            spsr: if new != 0 {
                saved.spsrs[new]
            } else {
                v.spsr
            },
            ..saved
        }
    }
}

/// A CPU that goes to another mode and back finds its registers and its saved status
/// register as it left them.
pub proof fn lemma_mode_round_trip(v: RegsView, prev: int, new: int)
    requires
        regs_wf(v),
        0 <= prev < 6,
        0 <= new < 6,
    ensures
        mode_switched(mode_switched(v, prev, new), new, prev).cur == v.cur,
        prev != 0 ==> mode_switched(mode_switched(v, prev, new), new, prev).spsr == v.spsr,
        regs_wf(mode_switched(v, prev, new)),
{
    let w = mode_switched(v, prev, new);
    let u = mode_switched(w, new, prev);
    if prev != new {
        assert(w.cur.len() == 16);
        assert(u.cur =~= v.cur);
        assert forall|b: int| 0 <= b < 6 implies (#[trigger] w.r13_14[b]).len() == 2 by {
            if b != prev {
                assert(w.r13_14[b] == v.r13_14[b]);
            }
        }
    }
}

/// The register file after register `i` of the bank `bank` is written, as a debugger
/// writes it. Registers 0 to 7 and the program counter are the same in every bank.
/// Registers 8 to 12 exist twice, for the fast interrupt mode and for the others; 13 and
/// 14 exist in every bank. A register of the bank in use is among the registers in use;
/// one of another bank is where the bank is kept.
pub open spec fn banked_reg_written(v: RegsView, bank: int, i: int, value: u32) -> RegsView {
    let in_use = bank_of((v.cpsr & 0x1F) as u8);
    if i < 8 || i == 15 {
        RegsView { cur: v.cur.update(i, value), ..v }
    } else if i < 13 {
        if (in_use == 1) == (bank == 1) {
            RegsView { cur: v.cur.update(i, value), ..v }
        } else if bank == 1 {
            RegsView { r8_12_fiq: v.r8_12_fiq.update(i - 8, value), ..v }
        } else {
            RegsView { r8_12_other: v.r8_12_other.update(i - 8, value), ..v }
        }
    } else if in_use == bank {
        RegsView { cur: v.cur.update(i, value), ..v }
    } else {
        RegsView { r13_14: v.r13_14.update(bank, v.r13_14[bank].update(i - 13, value)), ..v }
    }
}

/// The register file at power-on: every register zero, the CPU in supervisor mode with
/// interrupts and fast interrupts masked, and every saved status register naming the
/// user mode.
pub open spec fn startup_regs() -> RegsView {
    RegsView {
        cur: Seq::new(16, |i: int| 0u32),
        cpsr: 0xD3,
        spsr: 0x10,
        r13_14: Seq::new(6, |b: int| seq![0u32, 0u32]),
        r8_12_fiq: Seq::new(5, |i: int| 0u32),
        r8_12_other: Seq::new(5, |i: int| 0u32),
        spsrs: Seq::new(6, |b: int| 0x10u32),
    }
}

/// The register file of a CPU.
#[derive(Clone, Copy)]
pub struct Regs {
    pub cur: [u32; 16],
    pub cpsr: Psr,
    pub spsr: Psr,
    r13_14: [[u32; 2]; 6],
    r8_12_fiq: [u32; 5],
    r8_12_other: [u32; 5],
    spsrs: [Psr; 6],
}

impl View for Regs {
    type V = RegsView;

    closed spec fn view(&self) -> RegsView {
        RegsView {
            cur: self.cur@,
            cpsr: self.cpsr@,
            spsr: self.spsr@,
            r13_14: Seq::new(6, |b: int| self.r13_14[b]@),
            r8_12_fiq: self.r8_12_fiq@,
            r8_12_other: self.r8_12_other@,
            spsrs: Seq::new(6, |b: int| self.spsrs[b]@),
        }
    }
}

impl Regs {
    /// The register file at power-on: every register zero, the CPU in supervisor mode
    /// with interrupts and fast interrupts masked.
    pub fn startup() -> (regs: Self)
        ensures
            regs@ == startup_regs(),
            regs_wf(regs@),
    {
        let cpsr = Psr::from_raw(0xD3);
        let zero = Psr::from_raw(0x10);
        proof {
            assert(0xD3u32 | 0x10 == 0xD3 && 0x10u32 | 0x10 == 0x10) by (bit_vector);
        }
        let regs = Regs {
            cur: [0; 16],
            cpsr,
            spsr: zero,
            r13_14: [[0; 2]; 6],
            r8_12_fiq: [0; 5],
            r8_12_other: [0; 5],
            spsrs: [zero; 6],
        };
        proof {
            let w = startup_regs();
            assert(regs@.cur =~= w.cur);
            assert(regs@.r8_12_fiq =~= w.r8_12_fiq);
            assert(regs@.r8_12_other =~= w.r8_12_other);
            assert(regs@.spsrs =~= w.spsrs);
            assert(regs@.r13_14 =~= w.r13_14) by {
                assert forall|b: int| 0 <= b < 6 implies regs@.r13_14[b] =~= w.r13_14[b] by {}
            }
        }
        regs
    }

    /// The register file is well-formed however it came about.
    pub proof fn lemma_wf(&self)
        ensures
            regs_wf(self@),
    {
    }

    /// A register in use.
    pub fn reg(&self, i: u8) -> (value: u32)
        requires
            i < 16,
        ensures
            value == self@.cur[i as int],
    {
        self.cur[i as usize]
    }

    /// Sets a register in use.
    pub fn set_reg(&mut self, i: u8, value: u32)
        requires
            i < 16,
        ensures
            final(self)@ == (RegsView { cur: old(self)@.cur.update(i as int, value), ..old(self)@ }),
    {
        self.cur[i as usize] = value;
    }

    /// The current status register.
    pub fn cpsr(&self) -> (cpsr: Psr)
        ensures
            cpsr@ == self@.cpsr,
    {
        self.cpsr
    }

    /// Sets the current status register; the registers stay as they are.
    pub fn set_cpsr(&mut self, cpsr: Psr)
        ensures
            final(self)@ == (RegsView { cpsr: cpsr@, ..old(self)@ }),
    {
        self.cpsr = cpsr;
    }

    /// The saved status register in use.
    pub fn spsr(&self) -> (spsr: Psr)
        ensures
            spsr@ == self@.spsr,
    {
        self.spsr
    }

    /// Sets the saved status register in use.
    pub fn set_spsr(&mut self, spsr: Psr)
        ensures
            final(self)@ == (RegsView { spsr: spsr@, ..old(self)@ }),
    {
        self.spsr = spsr;
    }

    /// Whether the CPU is in a privileged mode.
    pub fn is_in_priv_mode(&self) -> (privileged: bool)
        ensures
            privileged == ((self@.cpsr & 0x1F) as u8 != 0x10),
    {
        self.cpsr.mode().is_privileged()
    }

    /// Whether the mode that the CPU is in has a saved status register.
    pub fn has_spsr(&self) -> (has: bool)
        ensures
            has == (bank_of((self@.cpsr & 0x1F) as u8) != 0),
    {
        self.cpsr.mode().has_spsr()
    }

    /// Registers 0 to 3.
    pub fn r0_3(&self) -> (regs: [u32; 4])
        ensures
            regs@ == self@.cur.subrange(0, 4),
    {
        let regs = [self.cur[0], self.cur[1], self.cur[2], self.cur[3]];
        assert(regs@ =~= self@.cur.subrange(0, 4));
        regs
    }

    /// Sets registers 0 to 3.
    pub fn set_r0_3(&mut self, values: [u32; 4])
        ensures
            final(self)@ == (RegsView {
                cur: Seq::new(
                    16,
                    |i: int|
                        if i < 4 {
                            values[i]
                        } else {
                            old(self)@.cur[i]
                        },
                ),
                ..old(self)@
            }),
    {
        self.cur[0] = values[0];
        self.cur[1] = values[1];
        self.cur[2] = values[2];
        self.cur[3] = values[3];
        proof {
            assert(self@.cur =~= Seq::new(
                16,
                |i: int|
                    if i < 4 {
                        values[i]
                    } else {
                        old(self)@.cur[i]
                    },
            ));
            assert(self@.r13_14 =~= old(self)@.r13_14);
            assert(self@.spsrs =~= old(self)@.spsrs);
        }
    }

    /// Brings the registers in line with a change of mode.
    pub fn update_mode(&mut self, prev: Mode, new: Mode)
        ensures
            final(self)@ == mode_switched(old(self)@, bank_of(prev@), bank_of(new@)),
    {
        let pb = prev.bank();
        let nb = new.bank();
        if pb == nb {
            return ;
        }
        self.r13_14[pb] = [self.cur[13], self.cur[14]];
        if pb != 0 {
            self.spsrs[pb] = self.spsr;
        }
        if pb == 1 {
            self.r8_12_fiq = [self.cur[8], self.cur[9], self.cur[10], self.cur[11], self.cur[12]];
            self.cur[8] = self.r8_12_other[0];
            self.cur[9] = self.r8_12_other[1];
            self.cur[10] = self.r8_12_other[2];
            self.cur[11] = self.r8_12_other[3];
            self.cur[12] = self.r8_12_other[4];
        } else if nb == 1 {
            self.r8_12_other = [self.cur[8], self.cur[9], self.cur[10], self.cur[11], self.cur[12]];
            self.cur[8] = self.r8_12_fiq[0];
            self.cur[9] = self.r8_12_fiq[1];
            self.cur[10] = self.r8_12_fiq[2];
            self.cur[11] = self.r8_12_fiq[3];
            self.cur[12] = self.r8_12_fiq[4];
        }
        self.cur[13] = self.r13_14[nb][0];
        self.cur[14] = self.r13_14[nb][1];
        if nb != 0 {
            self.spsr = self.spsrs[nb];
        }
        proof {
            let w = mode_switched(old(self)@, pb as int, nb as int);
            assert(self@.cur =~= w.cur);
            assert(self@.r8_12_fiq =~= w.r8_12_fiq);
            assert(self@.r8_12_other =~= w.r8_12_other);
            assert forall|b: int| 0 <= b < 6 implies #[trigger] self@.r13_14[b] =~= w.r13_14[b] by {}
            assert(self@.r13_14 =~= w.r13_14);
            assert(self@.spsrs =~= w.spsrs);
        }
    }

    /// The banked registers 13 and 14 of a bank.
    pub fn banked_r13_14(&self, bank: usize) -> (regs: [u32; 2])
        requires
            bank < 6,
        ensures
            regs@ == self@.r13_14[bank as int],
    {
        self.r13_14[bank]
    }

    /// Sets the banked register 13 of a bank that is not in use.
    pub fn set_banked_r13(&mut self, bank: usize, value: u32)
        requires
            bank < 6,
        ensures
            final(self)@ == (RegsView {
                r13_14: old(self)@.r13_14.update(
                    bank as int,
                    old(self)@.r13_14[bank as int].update(0, value),
                ),
                ..old(self)@
            }),
    {
        self.r13_14[bank][0] = value;
        proof {
            assert(self@.r13_14 =~= old(self)@.r13_14.update(
                bank as int,
                old(self)@.r13_14[bank as int].update(0, value),
            ));
            assert(self@.spsrs =~= old(self)@.spsrs);
        }
    }

    /// Writes register `i` of the bank `bank`, as a debugger does.
    pub fn set_banked_reg(&mut self, bank: RegBank, i: u8, value: u32)
        requires
            i < 16,
        ensures
            final(self)@ == banked_reg_written(old(self)@, bank.number(), i as int, value),
    {
        let in_use = self.cpsr.mode().bank();
        let bank = bank.index();
        let i = i as usize;
        if i < 8 || i == 15 {
            self.cur[i] = value;
        } else if i < 13 {
            if (in_use == 1) == (bank == 1) {
                self.cur[i] = value;
            } else if bank == 1 {
                self.r8_12_fiq[i - 8] = value;
            } else {
                self.r8_12_other[i - 8] = value;
            }
        } else if in_use == bank {
            self.cur[i] = value;
        } else {
            self.r13_14[bank][i - 13] = value;
        }
        proof {
            let w = banked_reg_written(old(self)@, bank as int, i as int, value);
            assert(self@.r13_14 =~= w.r13_14) by {
                assert forall|b: int| 0 <= b < 6 implies self@.r13_14[b] =~= w.r13_14[b] by {}
            }
            assert(self@.spsrs =~= w.spsrs);
            assert(self@.cur =~= w.cur);
            assert(self@.r8_12_fiq =~= w.r8_12_fiq);
            assert(self@.r8_12_other =~= w.r8_12_other);
        }
    }
}

} // verus!
