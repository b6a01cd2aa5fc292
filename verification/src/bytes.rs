//! Little-endian halfwords and words in byte buffers.

use vstd::prelude::*;

verus! {

/// The halfword that the two bytes at `a` hold, the low byte first.
pub open spec fn le_16(s: Seq<u8>, a: int) -> u16 {
    (s[a] as u16) | ((s[a + 1] as u16) << 8)
}

/// The word that the four bytes at `a` hold, the lowest byte first.
pub open spec fn le_32(s: Seq<u8>, a: int) -> u32 {
    (s[a] as u32) | ((s[a + 1] as u32) << 8) | ((s[a + 2] as u32) << 16) | ((s[a + 3] as u32) << 24)
}

/// The bytes with the halfword `value` at `a`, the low byte first.
pub open spec fn with_le_16(s: Seq<u8>, a: int, value: u16) -> Seq<u8> {
    s.update(a, value as u8).update(a + 1, (value >> 8) as u8)
}

/// The bytes with the word `value` at `a`, the lowest byte first.
pub open spec fn with_le_32(s: Seq<u8>, a: int, value: u32) -> Seq<u8> {
    s.update(a, value as u8).update(a + 1, (value >> 8) as u8).update(
        a + 2,
        (value >> 16) as u8,
    ).update(a + 3, (value >> 24) as u8)
}

/// A halfword is what its two bytes hold.
pub proof fn lemma_halfword_of_bytes(value: u16)
    by (bit_vector)
    ensures
        ((value as u8) as u16) | ((((value >> 8) as u8) as u16) << 8) == value,
{
}

/// A word is what its four bytes hold.
pub proof fn lemma_word_of_bytes(value: u32)
    by (bit_vector)
    ensures
        ((value as u8) as u32) | ((((value >> 8) as u8) as u32) << 8) | ((((value >> 16) as u8)
            as u32) << 16) | ((((value >> 24) as u8) as u32) << 24) == value,
{
}

/// The four bytes of a word are the bytes that it was made of.
pub proof fn lemma_bytes_of_word(b0: u8, b1: u8, b2: u8, b3: u8)
    by (bit_vector)
    ensures
        ({
            let w = (b0 as u32) | ((b1 as u32) << 8) | ((b2 as u32) << 16) | ((b3 as u32) << 24);
            &&& w as u8 == b0
            &&& (w >> 8) as u8 == b1
            &&& (w >> 16) as u8 == b2
            &&& (w >> 24) as u8 == b3
        }),
{
}

/// A word that is read at one place and written at another carries its four bytes over,
/// and changes no byte elsewhere.
pub proof fn lemma_word_moved(s: Seq<u8>, from: int, to: int)
    requires
        0 <= from,
        from + 3 < s.len(),
        0 <= to,
        to + 3 < s.len(),
        from + 4 <= to || to + 4 <= from,
    ensures
        ({
            let moved = with_le_32(s, to, le_32(s, from));
            &&& moved.len() == s.len()
            &&& forall|p: int| to <= p < to + 4 ==> #[trigger] moved[p] == s[p - to + from]
            &&& forall|p: int|
                0 <= p < s.len() && !(to <= p < to + 4) ==> #[trigger] moved[p] == s[p]
        }),
{
    lemma_bytes_of_word(s[from], s[from + 1], s[from + 2], s[from + 3]);
}

/// A halfword that was written is read back.
pub proof fn lemma_le_16_written(s: Seq<u8>, a: int, value: u16)
    requires
        0 <= a,
        a + 1 < s.len(),
    ensures
        le_16(with_le_16(s, a, value), a) == value,
{
    lemma_halfword_of_bytes(value);
}

/// A word that was written is read back.
pub proof fn lemma_le_32_written(s: Seq<u8>, a: int, value: u32)
    requires
        0 <= a,
        a + 3 < s.len(),
    ensures
        le_32(with_le_32(s, a, value), a) == value,
{
    lemma_word_of_bytes(value);
}

pub fn read_16(bytes: &Vec<u8>, a: usize) -> (value: u16)
    requires
        a + 1 < bytes.len(),
    ensures
        value == le_16(bytes@, a as int),
{
    (bytes[a] as u16) | ((bytes[a + 1] as u16) << 8)
}

pub fn read_32(bytes: &Vec<u8>, a: usize) -> (value: u32)
    requires
        a + 3 < bytes.len(),
    ensures
        value == le_32(bytes@, a as int),
{
    (bytes[a] as u32) | ((bytes[a + 1] as u32) << 8) | ((bytes[a + 2] as u32) << 16) | ((bytes[a
        + 3] as u32) << 24)
}

pub fn write_16(bytes: &mut Vec<u8>, a: usize, value: u16)
    requires
        a + 1 < old(bytes).len(),
    ensures
        final(bytes)@ == with_le_16(old(bytes)@, a as int, value),
{
    bytes[a] = #[verifier::truncate] (value as u8);
    bytes[a + 1] = #[verifier::truncate] ((value >> 8) as u8);
}

pub fn write_32(bytes: &mut Vec<u8>, a: usize, value: u32)
    requires
        a + 3 < old(bytes).len(),
    ensures
        final(bytes)@ == with_le_32(old(bytes)@, a as int, value),
{
    bytes[a] = #[verifier::truncate] (value as u8);
    bytes[a + 1] = #[verifier::truncate] ((value >> 8) as u8);
    bytes[a + 2] = #[verifier::truncate] ((value >> 16) as u8);
    bytes[a + 3] = #[verifier::truncate] ((value >> 24) as u8);
}

/// A place that repeats every `len` bytes keeps the alignment of its address, and an
/// access of `size` bytes at it stays within the `len` bytes.
pub proof fn lemma_wrap_aligned(a: int, len: int, size: int)
    requires
        a >= 0,
        size == 1 || size == 2 || size == 4,
        len > 0,
        len % 4 == 0,
        a % size == 0,
    ensures
        0 <= a % len < len,
        (a % len) % size == 0,
        a % len + size <= len,
{
    let k = len / size;
    assert(len == size * k) by {
        vstd::arithmetic::div_mod::lemma_fundamental_div_mod(len, 4);
        if size == 1 {
        } else if size == 2 {
            assert(len == 2 * (2 * (len / 4)));
        } else {
        }
        vstd::arithmetic::div_mod::lemma_fundamental_div_mod_converse(
            len,
            size,
            (4int / size) * (len / 4),
            0,
        );
    }
    vstd::arithmetic::div_mod::lemma_mod_mod(a, size, k);
    let at = a % len;
    vstd::arithmetic::div_mod::lemma_fundamental_div_mod(at, size);
    let q = at / size;
    assert(q < k) by (nonlinear_arith)
        requires
            at == size * q,
            len == size * k,
            at < len,
            size > 0,
    ;
    assert(size * (q + 1) <= size * k) by (nonlinear_arith)
        requires
            q + 1 <= k,
            size > 0,
    ;
    assert(size * (q + 1) == size * q + size) by (nonlinear_arith);
}

} // verus!
