//! Facts about bitwise operations that the rest of the crate relies on.

use vstd::prelude::*;

verus! {

/// Masking never yields more than the mask.
pub proof fn lemma_and_le_u8(x: u8, m: u8)
    by (bit_vector)
    ensures
        x & m <= m,
        x & m <= x,
{
}

/// Masking never yields more than the mask.
pub proof fn lemma_and_le_u16(x: u16, m: u16)
    by (bit_vector)
    ensures
        x & m <= m,
        x & m <= x,
{
}

/// Masking never yields more than the mask.
pub proof fn lemma_and_le_u32(x: u32, m: u32)
    by (bit_vector)
    ensures
        x & m <= m,
        x & m <= x,
{
}

/// Masking never yields more than the mask.
pub proof fn lemma_and_le_usize(x: usize, m: usize)
    by (bit_vector)
    ensures
        x & m <= m,
        x & m <= x,
{
}

/// Facts about sets of one and two of the bits `k1` and `k2`.
pub proof fn lemma_two_bits(k1: u8, k2: u8, j: u8)
    by (bit_vector)
    requires
        k1 < 8,
        k2 < 8,
        j < 8,
        k1 != k2,
    ensures
        0u8 | (1u8 << k1) == 1u8 << k1,
        (1u8 << k1) != 0,
        ((1u8 << k1) | (1u8 << k2)) != 0,
        ((1u8 << k1) | (1u8 << k2)) & !(1u8 << k2) == 1u8 << k1,
        (1u8 << k1) & (1u8 << j) != 0 <==> j == k1,
        (1u8 << k1) & (((1u8 << k1) - 1) as u8) == 0,
{
}

/// Facts about sets of bits that grow: a set that lies in a second one meets nothing that
/// the second one does not meet, and lies in everything that the second one lies in.
pub proof fn lemma_bit_sets_grow(a: u32, b: u32, c: u32, e: u32)
    by (bit_vector)
    ensures
        a | (a | b) == a | b,
        a | a == a,
        a | b == b && b | c == c ==> a | c == c,
        a | b == b && e & b == 0 ==> e & a == 0,
{
}

/// An address lies in its 4 KiB page.
pub proof fn lemma_page(addr: u32)
    by (bit_vector)
    ensures
        addr & 0xFFFF_F000u32 <= addr,
        addr & 0xFFFF_F000u32 <= 0xFFFF_F000u32,
        addr - (addr & 0xFFFF_F000u32) < 0x1000,
{
}

/// The top byte of a word is a byte.
pub proof fn lemma_top_byte(x: u32)
    by (bit_vector)
    ensures
        x >> 24 < 0x100,
{
}

} // verus!
