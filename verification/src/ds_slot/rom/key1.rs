//! The first command encryption of the cartridge protocol: a 64-bit block cipher with
//! sixteen rounds, whose key buffer is made from a part of the ARM7 BIOS and the game
//! code.

use vstd::prelude::*;

verus! {

/// The number of words in a key buffer: eighteen round keys and four tables of 256 words.
pub const KEY_BUF_LEN: usize = 0x412;

/// The offset of the key buffer's seed in the ARM7 BIOS.
pub const BIOS_KEY_OFFSET: usize = 0x30;

/// What one round makes of the two halves of a block with round key `i`: the new first
/// and second half.
pub open spec fn round(key: Seq<u32>, i: int, y: u32, x: u32) -> (u32, u32) {
    let z = key[i] ^ x;
    let a = key[0x12 + (z >> 24)];
    let b = a.wrapping_add(key[0x112 + ((z >> 16) & 0xFF)]);
    let c = b ^ key[0x212 + ((z >> 8) & 0xFF)];
    let d = c.wrapping_add(key[0x312 + (z & 0xFF)]);
    (z, d ^ y)
}

/// The halves of a block after the rounds with the round keys 0 up to `n - 1`.
pub open spec fn rounds_up(key: Seq<u32>, y: u32, x: u32, n: int) -> (u32, u32)
    decreases n,
{
    if n <= 0 {
        (y, x)
    } else {
        let (y, x) = rounds_up(key, y, x, n - 1);
        round(key, n - 1, y, x)
    }
}

/// The halves of a block after the rounds with the round keys 17 down to `n`.
pub open spec fn rounds_down(key: Seq<u32>, y: u32, x: u32, n: int) -> (u32, u32)
    decreases 0x12 - n,
{
    if n >= 0x12 {
        (y, x)
    } else {
        let (y, x) = rounds_down(key, y, x, n + 1);
        round(key, n, y, x)
    }
}

/// The block `[y, x]` encrypted with a key buffer.
pub open spec fn encrypted(key: Seq<u32>, y: u32, x: u32) -> (u32, u32) {
    let (y, x) = rounds_up(key, y, x, 0x10);
    (x ^ key[0x10], y ^ key[0x11])
}

/// The block `[y, x]` decrypted with a key buffer.
pub open spec fn decrypted(key: Seq<u32>, y: u32, x: u32) -> (u32, u32) {
    let (y, x) = rounds_down(key, y, x, 2);
    (x ^ key[1], y ^ key[0])
}

/// What a round mixes into the other half of a block: a word made of four table entries
/// that the bytes of `z` pick.
pub open spec fn mixed(key: Seq<u32>, z: u32) -> u32 {
    let a = key[0x12 + (z >> 24)];
    let b = a.wrapping_add(key[0x112 + ((z >> 16) & 0xFF)]);
    let c = b ^ key[0x212 + ((z >> 8) & 0xFF)];
    c.wrapping_add(key[0x312 + (z & 0xFF)])
}

/// Exclusive or undoes itself.
proof fn lemma_xor_undone(a: u32, b: u32, c: u32)
    by (bit_vector)
    ensures
        (a ^ b) ^ b == a,
        b ^ (a ^ b) == a,
        (c ^ a) ^ ((c ^ b) ^ a) == b,
        c ^ ((c ^ a) ^ b) == a ^ b,
        a ^ b == b ^ a,
{
}

/// Where the decryption of an encrypted block stands before its round with round key
/// `k + 1`: at the halves that the encryption had after `k` rounds, with the round keys
/// `k` and `k + 1` worked in.
proof fn lemma_rounds_undone(key: Seq<u32>, y: u32, x: u32, k: int)
    requires
        key.len() == 0x412,
        0 <= k <= 0x10,
    ensures
        ({
            let (c0, c1) = encrypted(key, y, x);
            let (yk, xk) = rounds_up(key, y, x, k);
            rounds_down(key, c0, c1, k + 2) == (xk ^ key[k], yk ^ key[k + 1])
        }),
    decreases 0x10 - k,
{
    let (c0, c1) = encrypted(key, y, x);
    let (yk, xk) = rounds_up(key, y, x, k);
    if k < 0x10 {
        lemma_rounds_undone(key, y, x, k + 1);
        let (yn, xn) = rounds_up(key, y, x, k + 1);
        assert((yn, xn) == round(key, k, yk, xk));
        let z = key[k] ^ xk;
        assert(yn == z && xn == mixed(key, z) ^ yk);
        let (dy, dx) = rounds_down(key, c0, c1, k + 3);
        assert(dy == xn ^ key[k + 1] && dx == yn ^ key[k + 2]);
        assert(rounds_down(key, c0, c1, k + 2) == round(key, k + 2, dy, dx));
        lemma_xor_undone(yn, key[k + 2], 0);
        assert(key[k + 2] ^ dx == yn);
        lemma_xor_undone(yk, key[k + 1], mixed(key, z));
        assert(mixed(key, yn) ^ dy == yk ^ key[k + 1]);
        lemma_xor_undone(xk, key[k], 0);
        assert(round(key, k + 2, dy, dx) == (yn, mixed(key, yn) ^ dy));
        assert(yn == xk ^ key[k]);
    } else {
        assert(rounds_down(key, c0, c1, 0x12) == (c0, c1));
    }
}

/// Decryption undoes encryption: a block that is encrypted and then decrypted with the
/// same key buffer is the block that it was.
pub proof fn lemma_decryption_undoes_encryption(key: Seq<u32>, y: u32, x: u32)
    requires
        key.len() == 0x412,
    ensures
        ({
            let (c0, c1) = encrypted(key, y, x);
            decrypted(key, c0, c1) == (y, x)
        }),
{
    lemma_rounds_undone(key, y, x, 0);
    lemma_xor_undone(y, key[1], 0);
    lemma_xor_undone(x, key[0], 0);
}

/// A word with its four bytes in reverse order.
pub open spec fn byte_swapped(x: u32) -> u32 {
    ((x & 0xFF) << 24) | ((x & 0xFF00) << 8) | ((x >> 8) & 0xFF00) | (x >> 24)
}

/// The key buffer and the key code after the key code is worked in up to the key
/// buffer's word `n` (an even number): the first eighteen words take the key code, and
/// every pair of words is the encryption of the pair before, starting from zero.
pub open spec fn filled_up(key: Seq<u32>, scratch: (u32, u32), n: int) -> (Seq<u32>, (u32, u32))
    decreases n,
{
    if n <= 1 {
        (key, scratch)
    } else {
        let (key, scratch) = filled_up(key, scratch, n - 2);
        let scratch = encrypted(key, scratch.0, scratch.1);
        (key.update(n - 2, scratch.1).update(n - 1, scratch.0), scratch)
    }
}

/// The first `n` round keys with the key code worked in; `modulo` is the number of key
/// code words that take part.
pub open spec fn keyed_up(key: Seq<u32>, code: Seq<u32>, modulo: int, n: int) -> Seq<u32>
    decreases n,
{
    if n <= 0 {
        key
    } else {
        let key = keyed_up(key, code, modulo, n - 1);
        key.update(n - 1, key[n - 1] ^ byte_swapped(code[(n - 1) % modulo]))
    }
}

/// The key buffer and the key code after the key code is applied once.
pub open spec fn key_code_applied(key: Seq<u32>, code: Seq<u32>, modulo: int) -> (
    Seq<u32>,
    Seq<u32>,
) {
    let (c1, c2) = encrypted(key, code[1], code[2]);
    let code = code.update(1, c1).update(2, c2);
    let (c0, c1) = encrypted(key, code[0], code[1]);
    let code = code.update(0, c0).update(1, c1);
    let key = keyed_up(key, code, modulo, 0x12);
    (filled_up(key, (0u32, 0u32), 0x412).0, code)
}

/// A key buffer with its key code.
#[derive(Clone, Copy)]
pub struct KeyBuffer {
    key_buf: [u32; 0x412],
    key_code: [u32; 3],
}

impl KeyBuffer {
    /// The words of the key buffer.
    pub closed spec fn key(&self) -> Seq<u32> {
        self.key_buf@
    }

    /// The three words of the key code.
    pub closed spec fn code(&self) -> Seq<u32> {
        self.key_code@
    }

    /// A key buffer has 0x412 words, a key code three.
    pub proof fn lemma_sizes(&self)
        ensures
            self.key().len() == 0x412,
            self.code().len() == 3,
    {
    }

    /// Encrypts a block.
    pub fn encrypt_64_bit(&self, block: [u32; 2]) -> (result: [u32; 2])
        ensures
            (result[0], result[1]) == encrypted(self.key(), block[0], block[1]),
    {
        let mut y = block[0];
        let mut x = block[1];
        let mut i: usize = 0;
        while i < 0x10
            invariant
                i <= 0x10,
                (y, x) == rounds_up(self.key(), block[0], block[1], i as int),
            decreases 0x10 - i,
        {
            let (ny, nx) = self.round(i, y, x);
            y = ny;
            x = nx;
            i += 1;
        }
        [x ^ self.key_buf[0x10], y ^ self.key_buf[0x11]]
    }

    /// Decrypts a block.
    pub fn decrypt_64_bit(&self, block: [u32; 2]) -> (result: [u32; 2])
        ensures
            (result[0], result[1]) == decrypted(self.key(), block[0], block[1]),
    {
        let mut y = block[0];
        let mut x = block[1];
        let mut i: usize = 0x12;
        while i > 2
            invariant
                2 <= i <= 0x12,
                (y, x) == rounds_down(self.key(), block[0], block[1], i as int),
            decreases i,
        {
            i -= 1;
            let (ny, nx) = self.round(i, y, x);
            y = ny;
            x = nx;
        }
        [x ^ self.key_buf[1], y ^ self.key_buf[0]]
    }

    /// One round with round key `i`.
    fn round(&self, i: usize, y: u32, x: u32) -> (r: (u32, u32))
        requires
            i < 0x12,
        ensures
            r == round(self.key(), i as int, y, x),
    {
        let z = self.key_buf[i] ^ x;
        proof {
            crate::bits::lemma_and_le_u32(z >> 16, 0xFF);
            crate::bits::lemma_and_le_u32(z >> 8, 0xFF);
            crate::bits::lemma_and_le_u32(z, 0xFF);
            crate::bits::lemma_top_byte(z);
        }
        let a = self.key_buf[0x12 + (z >> 24) as usize];
        let b = a.wrapping_add(self.key_buf[0x112 + ((z >> 16) & 0xFF) as usize]);
        let c = b ^ self.key_buf[0x212 + ((z >> 8) & 0xFF) as usize];
        let d = c.wrapping_add(self.key_buf[0x312 + (z & 0xFF) as usize]);
        (z, d ^ y)
    }

    /// Works the key code into the key buffer once.
    fn apply_key_code(&mut self, modulo: usize)
        requires
            1 <= modulo <= 3,
        ensures
            (final(self).key(), final(self).code()) == key_code_applied(
                old(self).key(),
                old(self).code(),
                modulo as int,
            ),
    {
        let r = self.encrypt_64_bit([self.key_code[1], self.key_code[2]]);
        self.key_code[1] = r[0];
        self.key_code[2] = r[1];
        let r = self.encrypt_64_bit([self.key_code[0], self.key_code[1]]);
        self.key_code[0] = r[0];
        self.key_code[1] = r[1];
        let ghost key0 = self.key();
        let mut i: usize = 0;
        while i < 0x12
            invariant
                i <= 0x12,
                1 <= modulo <= 3,
                self.code() == old(self).code().update(1, encrypted(
                    old(self).key(),
                    old(self).code()[1],
                    old(self).code()[2],
                ).0).update(2, encrypted(
                    old(self).key(),
                    old(self).code()[1],
                    old(self).code()[2],
                ).1).update(0, r[0]).update(1, r[1]),
                self.key() == keyed_up(key0, self.code(), modulo as int, i as int),
            decreases 0x12 - i,
        {
            let word = self.key_code[i % modulo];
            let swapped = ((word & 0xFF) << 24) | ((word & 0xFF00) << 8) | ((word >> 8) & 0xFF00) | (
            word >> 24);
            self.key_buf[i] = self.key_buf[i] ^ swapped;
            i += 1;
        }
        let ghost key1 = self.key();
        let mut scratch: [u32; 2] = [0, 0];
        let mut n: usize = 0;
        while n < 0x412
            invariant
                n <= 0x412,
                n % 2 == 0,
                self.code() == old(self).code().update(1, encrypted(
                    old(self).key(),
                    old(self).code()[1],
                    old(self).code()[2],
                ).0).update(2, encrypted(
                    old(self).key(),
                    old(self).code()[1],
                    old(self).code()[2],
                ).1).update(0, r[0]).update(1, r[1]),
                (self.key(), (scratch[0], scratch[1])) == filled_up(key1, (0u32, 0u32), n as int),
            decreases 0x412 - n,
        {
            scratch = self.encrypt_64_bit(scratch);
            self.key_buf[n] = scratch[1];
            self.key_buf[n + 1] = scratch[0];
            n += 2;
        }
    }

    /// The key buffer at the level that the command encryption uses: the BIOS seed with
    /// the key code of the game worked in twice. `modulo` is the number of key code words
    /// that take part.
    pub fn new(game_code: u32, arm7_bios: &Vec<u8>, modulo: usize) -> (buffer: Self)
        requires
            arm7_bios.len() >= 0x1078,
            1 <= modulo <= 3,
        ensures
            (buffer.key(), buffer.code()) == ({
                let seed = Seq::new(
                    0x412,
                    |i: int| crate::bytes::le_32(arm7_bios@, 0x30 + 4 * i),
                );
                let code = seq![game_code, game_code >> 1, game_code << 1];
                let (key, code) = key_code_applied(seed, code, modulo as int);
                key_code_applied(key, code, modulo as int)
            }),
    {
        let mut buffer = KeyBuffer {
            key_buf: [0; 0x412],
            key_code: [game_code, game_code >> 1, game_code << 1],
        };
        let mut i: usize = 0;
        while i < 0x412
            invariant
                i <= 0x412,
                arm7_bios.len() >= 0x1078,
                buffer.code() == seq![game_code, game_code >> 1, game_code << 1],
                forall|k: int|
                    0 <= k < i ==> (#[trigger] buffer.key()[k]) == crate::bytes::le_32(
                        arm7_bios@,
                        0x30 + 4 * k,
                    ),
            decreases 0x412 - i,
        {
            let ghost before = buffer.key();
            let word = crate::bytes::read_32(arm7_bios, 0x30 + 4 * i);
            buffer.key_buf[i] = word;
            proof {
                assert(buffer.key() == before.update(i as int, word));
            }
            i += 1;
        }
        proof {
            assert(buffer.key() =~= Seq::new(
                0x412,
                |i: int| crate::bytes::le_32(arm7_bios@, 0x30 + 4 * i),
            ));
        }
        buffer.apply_key_code(modulo);
        buffer.apply_key_code(modulo);
        buffer
    }

    /// The key buffer at the level that encrypts the secure area: the key code is shifted
    /// and worked in once more.
    pub fn level_3(&self, modulo: usize) -> (buffer: Self)
        requires
            1 <= modulo <= 3,
        ensures
            (buffer.key(), buffer.code()) == key_code_applied(
                self.key(),
                self.code().update(1, self.code()[1] << 1).update(2, self.code()[2] >> 1),
                modulo as int,
            ),
    {
        let mut buffer = KeyBuffer { key_buf: self.key_buf, key_code: self.key_code };
        buffer.key_code[1] = buffer.key_code[1] << 1;
        buffer.key_code[2] = buffer.key_code[2] >> 1;
        buffer.apply_key_code(modulo);
        buffer
    }
}

} // verus!
