//! The logical operations that set the flags N and Z: N is the sign bit of the result, Z
//! says that the result is zero. The other flags stay as they are.

use crate::cpu::interpreter::regs::{Regs, RegsView};
use vstd::prelude::*;

verus! {

/// The flags N and Z of a result, in their places in a status register.
pub open spec fn nz_flags(result: u32) -> u32 {
    (result & 0x8000_0000) | (if result == 0 {
        0x4000_0000u32
    } else {
        0u32
    })
}

/// The flags N and Z of a 64-bit result, in their places in a status register.
pub open spec fn nz_flags_64(result: u64) -> u32 {
    (((result >> 32) as u32) & 0x8000_0000) | (if result == 0 {
        0x4000_0000u32
    } else {
        0u32
    })
}

/// The register file with the flags N and Z replaced.
pub open spec fn with_nz(v: RegsView, flags: u32) -> RegsView {
    RegsView { cpsr: (v.cpsr & !0xC000_0000u32) | flags, ..v }
}

/// The flags N and Z are two bits.
proof fn lemma_nz_flags(result: u32, wide: u64)
    ensures
        nz_flags(result) & !0xC000_0000u32 == 0,
        nz_flags_64(wide) & !0xC000_0000u32 == 0,
{
    let hi = (wide >> 32) as u32;
    assert((result & 0x8000_0000) & !0xC000_0000u32 == 0 && ((result & 0x8000_0000) | 0x4000_0000u32)
        & !0xC000_0000u32 == 0 && ((result & 0x8000_0000) | 0u32) & !0xC000_0000u32 == 0 && (hi
        & 0x8000_0000) & !0xC000_0000u32 == 0 && ((hi & 0x8000_0000) | 0x4000_0000u32)
        & !0xC000_0000u32 == 0 && ((hi & 0x8000_0000) | 0u32) & !0xC000_0000u32 == 0)
        by (bit_vector);
}

/// Sets the flags N and Z for a result.
fn set_flags(regs: &mut Regs, result: u32)
    ensures
        final(regs)@ == with_nz(old(regs)@, nz_flags(result)),
{
    let flags = (result & 0x8000_0000) | (if result == 0 {
        0x4000_0000u32
    } else {
        0u32
    });
    proof {
        lemma_nz_flags(result, 0);
    }
    let cpsr = regs.cpsr().with_nz(flags);
    regs.set_cpsr(cpsr);
}

/// Sets the flags N and Z for `value`.
pub fn set_nz(regs: &mut Regs, value: u32)
    ensures
        final(regs)@ == with_nz(old(regs)@, nz_flags(value)),
{
    tst(regs, value, value);
    proof {
        assert(value & value == value) by (bit_vector);
    }
}

/// Sets the flags N and Z for a 64-bit value.
pub fn set_nz_64(regs: &mut Regs, value: u64)
    ensures
        final(regs)@ == with_nz(old(regs)@, nz_flags_64(value)),
{
    let hi = #[verifier::truncate] ((value >> 32) as u32);
    let flags = (hi & 0x8000_0000) | (if value == 0 {
        0x4000_0000u32
    } else {
        0u32
    });
    proof {
        lemma_nz_flags(0, value);
    }
    let cpsr = regs.cpsr().with_nz(flags);
    regs.set_cpsr(cpsr);
}

/// `a & b`, setting the flags.
pub fn and_s(regs: &mut Regs, a: u32, b: u32) -> (result: u32)
    ensures
        result == a & b,
        final(regs)@ == with_nz(old(regs)@, nz_flags(a & b)),
{
    let result = a & b;
    set_flags(regs, result);
    result
}

/// Sets the flags for `a & b`.
pub fn tst(regs: &mut Regs, a: u32, b: u32)
    ensures
        final(regs)@ == with_nz(old(regs)@, nz_flags(a & b)),
{
    set_flags(regs, a & b);
}

/// `a ^ b`, setting the flags.
pub fn eor_s(regs: &mut Regs, a: u32, b: u32) -> (result: u32)
    ensures
        result == a ^ b,
        final(regs)@ == with_nz(old(regs)@, nz_flags(a ^ b)),
{
    let result = a ^ b;
    set_flags(regs, result);
    result
}

/// Sets the flags for `a ^ b`.
pub fn teq(regs: &mut Regs, a: u32, b: u32)
    ensures
        final(regs)@ == with_nz(old(regs)@, nz_flags(a ^ b)),
{
    eor_s(regs, a, b);
}

/// `a | b`, setting the flags.
pub fn orr_s(regs: &mut Regs, a: u32, b: u32) -> (result: u32)
    ensures
        result == a | b,
        final(regs)@ == with_nz(old(regs)@, nz_flags(a | b)),
{
    let result = a | b;
    set_flags(regs, result);
    result
}

/// `a & !b`, setting the flags.
pub fn bic_s(regs: &mut Regs, a: u32, b: u32) -> (result: u32)
    ensures
        result == a & !b,
        final(regs)@ == with_nz(old(regs)@, nz_flags(a & !b)),
{
    let result = a & !b;
    set_flags(regs, result);
    result
}

} // verus!
