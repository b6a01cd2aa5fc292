//! An ordinary cartridge ROM and its command protocol.
//!
//! The protocol has three stages. It starts with raw commands; command 3C switches to
//! commands under the first encryption, and one of those switches to the main stage, in
//! which data is read.

use super::key1::{decrypted, encrypted, key_code_applied, KeyBuffer};
use crate::bytes::{le_32, with_le_32};
use vstd::prelude::*;

verus! {

/// Why a ROM device could not be made of the given contents.
#[derive(Clone, Copy, Debug, PartialEq, Eq)]
pub enum CreationError {
    /// The size of the contents is not a power of two.
    SizeNotPowerOfTwo,
    /// The contents are smaller than a header.
    SizeTooSmall,
}

/// The stage of the command protocol.
#[derive(Clone, Copy, Debug, PartialEq, Eq, Structural)]
pub enum Stage {
    /// Raw commands.
    Initial,
    /// Commands under the first encryption.
    Key1,
    /// The main stage.
    Key2,
}

/// The number of bytes that a command puts out: a multiple of four, up to 0x4000.
#[derive(Clone, Copy, Debug, PartialEq, Eq)]
pub struct RomOutputLen {
    value: u16,
}

impl RomOutputLen {
    #[verifier::type_invariant]
    spec fn in_range(self) -> bool {
        self.value <= 0x4000 && self.value % 4 == 0
    }

    pub closed spec fn view(self) -> u16 {
        self.value
    }

    pub fn new(value: u16) -> (len: Self)
        requires
            value <= 0x4000,
            value % 4 == 0,
        ensures
            len@ == value,
    {
        RomOutputLen { value }
    }

    pub fn get(self) -> (value: u16)
        ensures
            value == self@,
            value <= 0x4000,
            value % 4 == 0,
    {
        proof {
            use_type_invariant(self);
        }
        self.value
    }
}

/// Whether a size is a power of two.
pub open spec fn is_power_of_two(len: usize) -> bool {
    len != 0 && len & ((len - 1) as usize) == 0
}

/// The chip ID of a ROM of the given size: the manufacturer code C2 with the size worked
/// in.
pub open spec fn chip_id_of(len: usize) -> u32 {
    let len = len as u32;
    0xC2u32 | (if len < 0x10_0000 {
        0u32
    } else if len < 0x1000_0000 {
        ((len >> 20) - 1) as u32
    } else {
        (0x100 - (len >> 28)) as u32
    })
}

/// The game code in the header of a ROM.
pub open spec fn game_code_of(rom: Seq<u8>) -> u32 {
    le_32(rom, 0xC)
}

/// The state of a ROM device, as contracts see it.
pub struct NormalView {
    /// The contents.
    pub rom: Seq<u8>,
    /// The chip ID.
    pub chip_id: u32,
    /// The key buffer of the first encryption, if the device was made with the ARM7 BIOS.
    pub key: Option<Seq<u32>>,
    /// The key code that belongs to the key buffer.
    pub key_code: Option<Seq<u32>>,
    /// The stage of the protocol.
    pub stage: Stage,
}

/// The output buffer with `value` in its first `len` bytes.
pub open spec fn const_output(output: Seq<u8>, len: int, value: u8) -> Seq<u8> {
    Seq::new(
        output.len(),
        |i: int|
            if i < len {
                value
            } else {
                output[i]
            },
    )
}

/// The output buffer with the chip ID, the lowest byte first, over and over in its first
/// `len` bytes.
pub open spec fn chip_id_output(output: Seq<u8>, len: int, chip_id: u32) -> Seq<u8> {
    Seq::new(
        output.len(),
        |i: int|
            if i < len {
                (chip_id >> ((8 * (i % 4)) as u32)) as u8
            } else {
                output[i]
            },
    )
}

/// The output buffer with ROM data in its first `len` bytes: the data of the 4 KiB from
/// `base` on, starting `offset` bytes into them and going round in them. Addresses beyond
/// the end of the ROM start over at its beginning.
pub open spec fn rom_output(output: Seq<u8>, len: int, rom: Seq<u8>, base: int, offset: int) -> Seq<
    u8,
> {
    Seq::new(
        output.len(),
        |i: int|
            if i < len {
                rom[(base + (offset + i) % 0x1000) % (rom.len() as int)]
            } else {
                output[i]
            },
    )
}

/// Whether the seven bytes after the command byte are zero.
pub open spec fn plain_command(cmd: Seq<u8>) -> bool {
    cmd[1] == 0 && cmd[2] == 0 && cmd[3] == 0 && cmd[4] == 0 && cmd[5] == 0 && cmd[6] == 0 && cmd[7]
        == 0
}

/// The stage and the output after a raw command: 9F puts out FF bytes, 00 the first
/// 4 KiB of the ROM, 90 the chip ID, each only with zeros behind it; 3C switches to the
/// first encryption and puts out FF bytes, as does every other command without the switch.
pub open spec fn initial_command(v: NormalView, cmd: Seq<u8>, output: Seq<u8>, len: int) -> (
    Stage,
    Seq<u8>,
) {
    if cmd[0] == 0x00 && plain_command(cmd) {
        (v.stage, rom_output(output, len, v.rom, 0, 0))
    } else if cmd[0] == 0x90 && plain_command(cmd) {
        (v.stage, chip_id_output(output, len, v.chip_id))
    } else if cmd[0] == 0x3C {
        (Stage::Key1, const_output(output, len, 0xFF))
    } else {
        (v.stage, const_output(output, len, 0xFF))
    }
}

/// The stage and the output after a decrypted command of the first encryption, by its
/// upper nibble: 4 puts out FF bytes, 1 the chip ID, 2 the 4 KiB of the secure area that
/// the third byte selects; A switches to the main stage and puts out zeros, as does every
/// other command without the switch.
pub open spec fn key1_command(v: NormalView, cmd: Seq<u8>, output: Seq<u8>, len: int) -> (
    Stage,
    Seq<u8>,
) {
    let kind = cmd[0] >> 4;
    if kind == 0x4 {
        (v.stage, const_output(output, len, 0xFF))
    } else if kind == 0x1 {
        (v.stage, chip_id_output(output, len, v.chip_id))
    } else if kind == 0x2 {
        (
            v.stage,
            rom_output(output, len, v.rom, (0x4000 | (((cmd[2] & 0x30) as usize) << 8)) as int, 0),
        )
    } else if kind == 0xA {
        (Stage::Key2, const_output(output, len, 0))
    } else {
        (v.stage, const_output(output, len, 0))
    }
}

/// The address that a read command of the main stage reads from: the four bytes behind
/// the command byte, the highest first, within the ROM; addresses below 0x8000 go to the
/// 512 bytes from 0x8000 on.
pub open spec fn read_address(cmd: Seq<u8>, rom_len: usize) -> u32 {
    let raw = ((cmd[1] as u32) << 24) | ((cmd[2] as u32) << 16) | ((cmd[3] as u32) << 8) | (
    cmd[4] as u32);
    let addr = ((raw as usize) & ((rom_len - 1) as usize)) as u32;
    if addr < 0x8000 {
        0x8000 | (addr & 0x1FF)
    } else {
        addr
    }
}

/// The output after a command of the main stage: B7 reads from the ROM, going round in
/// the 4 KiB page of its address; B8 with zeros behind it puts out the chip ID; every
/// other command puts out zeros.
pub open spec fn key2_command(v: NormalView, cmd: Seq<u8>, output: Seq<u8>, len: int) -> Seq<u8> {
    if cmd[0] == 0xB7 {
        let addr = read_address(cmd, v.rom.len() as usize);
        let page = addr & 0xFFFF_F000u32;
        rom_output(output, len, v.rom, page as int, addr - page)
    } else if cmd[0] == 0xB8 && plain_command(cmd) {
        chip_id_output(output, len, v.chip_id)
    } else {
        const_output(output, len, 0)
    }
}

/// A command as the first encryption decrypts it with a key buffer: the eight bytes are
/// one block, the highest byte first.
pub open spec fn decrypted_command(key: Seq<u32>, cmd: Seq<u8>) -> Seq<u8> {
    let hi = ((cmd[0] as u32) << 24) | ((cmd[1] as u32) << 16) | ((cmd[2] as u32) << 8) | (
    cmd[3] as u32);
    let lo = ((cmd[4] as u32) << 24) | ((cmd[5] as u32) << 16) | ((cmd[6] as u32) << 8) | (
    cmd[7] as u32);
    let (new_lo, new_hi) = decrypted(key, lo, hi);
    seq![
        (new_hi >> 24) as u8,
        (new_hi >> 16) as u8,
        (new_hi >> 8) as u8,
        new_hi as u8,
        (new_lo >> 24) as u8,
        (new_lo >> 16) as u8,
        (new_lo >> 8) as u8,
        new_lo as u8,
    ]
}

/// The stage and the output after a command.
pub open spec fn rom_command(v: NormalView, cmd: Seq<u8>, output: Seq<u8>, len: int) -> (
    Stage,
    Seq<u8>,
) {
    match v.stage {
        Stage::Initial => initial_command(v, cmd, output, len),
        Stage::Key1 => key1_command(v, decrypted_command(v.key.unwrap(), cmd), output, len),
        Stage::Key2 => (v.stage, key2_command(v, cmd, output, len)),
    }
}

/// The ROM with the block of eight bytes at `addr` encrypted.
pub open spec fn block_encrypted(rom: Seq<u8>, key: Seq<u32>, addr: int) -> Seq<u8> {
    let (a, b) = encrypted(key, le_32(rom, addr), le_32(rom, addr + 4));
    with_le_32(with_le_32(rom, addr, a), addr + 4, b)
}

/// The ROM with the first `n` blocks of its secure area encrypted.
pub open spec fn blocks_encrypted(rom: Seq<u8>, key: Seq<u32>, n: int) -> Seq<u8>
    decreases n,
{
    if n <= 0 {
        rom
    } else {
        block_encrypted(blocks_encrypted(rom, key, n - 1), key, 0x4000 + 8 * (n - 1))
    }
}

/// The ROM with its secure area as the firmware expects it. A secure area in the clear
/// starts with the word E7FFDEFF: its first eight bytes become the text `encryObj`, its
/// 2 KiB are encrypted with the key buffer of the third level, and its first eight bytes
/// once more with the key buffer of the commands. Any other secure area stays as it is.
pub open spec fn secure_area_set_up(rom: Seq<u8>, key: Seq<u32>, key_code: Seq<u32>) -> Seq<u8> {
    if le_32(rom, 0x4000) != 0xE7FF_DEFF {
        rom
    } else {
        let level_3 = key_code_applied(
            key,
            key_code.update(1, key_code[1] << 1).update(2, key_code[2] >> 1),
            2,
        ).0;
        let marked = with_le_32(with_le_32(rom, 0x4000, 0x7972_636E), 0x4004, 0x6A62_4F65);
        block_encrypted(blocks_encrypted(marked, level_3, 0x100), key, 0x4000)
    }
}

/// An ordinary cartridge ROM.
pub struct Normal {
    rom: Vec<u8>,
    chip_id: u32,
    key_buf: Option<KeyBuffer>,
    stage: Stage,
}

impl View for Normal {
    type V = NormalView;

    closed spec fn view(&self) -> NormalView {
        NormalView {
            rom: self.rom@,
            chip_id: self.chip_id,
            key: match self.key_buf {
                Some(k) => Some(k.key()),
                None => None,
            },
            key_code: match self.key_buf {
                Some(k) => Some(k.code()),
                None => None,
            },
            stage: self.stage,
        }
    }
}

/// The size of a ROM device's contents is a power of two, and at least that of a header.
pub open spec fn normal_wf(v: NormalView) -> bool {
    is_power_of_two(v.rom.len() as usize) && v.rom.len() >= 0x200 && v.rom.len() <= usize::MAX
}

/// Puts `value` into the first `len` bytes of the output buffer.
fn fill_const(output: &mut Vec<u8>, len: usize, value: u8)
    requires
        len <= old(output).len(),
    ensures
        final(output)@ == const_output(old(output)@, len as int, value),
{
    let mut i: usize = 0;
    while i < len
        invariant
            i <= len <= output.len(),
            output@ == const_output(old(output)@, i as int, value),
        decreases len - i,
    {
        output[i] = value;
        i += 1;
        assert(output@ =~= const_output(old(output)@, i as int, value));
    }
    assert(old(output)@ =~= const_output(old(output)@, 0, value));
}

/// Puts the chip ID over and over into the first `len` bytes of the output buffer.
fn fill_chip_id(output: &mut Vec<u8>, len: usize, chip_id: u32)
    requires
        len <= old(output).len(),
    ensures
        final(output)@ == chip_id_output(old(output)@, len as int, chip_id),
{
    let mut i: usize = 0;
    while i < len
        invariant
            i <= len <= output.len(),
            output@ == chip_id_output(old(output)@, i as int, chip_id),
        decreases len - i,
    {
        output[i] = #[verifier::truncate] ((chip_id >> ((8 * (i % 4)) as u32)) as u8);
        i += 1;
        assert(output@ =~= chip_id_output(old(output)@, i as int, chip_id));
    }
    assert(old(output)@ =~= chip_id_output(old(output)@, 0, chip_id));
}

/// Puts ROM data into the first `len` bytes of the output buffer.
fn fill_rom(output: &mut Vec<u8>, len: usize, rom: &Vec<u8>, base: usize, offset: usize)
    requires
        len <= old(output).len(),
        rom.len() > 0,
        base <= 0xFFFF_F000,
        offset <= 0x1000,
        len <= 0x4000,
    ensures
        final(output)@ == rom_output(old(output)@, len as int, rom@, base as int, offset as int),
{
    let rom_len = rom.len();
    let mut i: usize = 0;
    while i < len
        invariant
            i <= len <= output.len(),
            rom_len == rom.len(),
            rom_len > 0,
            base <= 0xFFFF_F000,
            offset <= 0x1000,
            len <= 0x4000,
            output@ == rom_output(old(output)@, i as int, rom@, base as int, offset as int),
        decreases len - i,
    {
        output[i] = rom[(base + (offset + i) % 0x1000) % rom_len];
        i += 1;
        assert(output@ =~= rom_output(old(output)@, i as int, rom@, base as int, offset as int));
    }
    assert(old(output)@ =~= rom_output(old(output)@, 0, rom@, base as int, offset as int));
}

/// Whether the seven bytes after the command byte are zero.
fn is_plain_command(cmd: &[u8; 8]) -> (plain: bool)
    ensures
        plain == plain_command(cmd@),
{
    cmd[1] == 0 && cmd[2] == 0 && cmd[3] == 0 && cmd[4] == 0 && cmd[5] == 0 && cmd[6] == 0 && cmd[7]
        == 0
}

impl Normal {
    /// A ROM device with the given contents, at the start of the protocol. With the ARM7
    /// BIOS, it gets the key buffer of the first encryption.
    pub fn new(rom: Vec<u8>, arm7_bios: Option<&Vec<u8>>) -> (result: Result<Self, CreationError>)
        requires
            arm7_bios matches Some(bios) ==> bios.len() >= 0x1078,
        ensures
            match result {
                Err(CreationError::SizeNotPowerOfTwo) => !is_power_of_two(rom.len()),
                Err(CreationError::SizeTooSmall) => is_power_of_two(rom.len()) && rom.len() < 0x200,
                Ok(device) => {
                    &&& is_power_of_two(rom.len())
                    &&& rom.len() >= 0x200
                    &&& normal_wf(device@)
                    &&& device@.rom == rom@
                    &&& device@.chip_id == chip_id_of(rom.len())
                    &&& device@.stage == Stage::Initial
                    &&& device@.key is Some == arm7_bios is Some
                    &&& arm7_bios matches Some(bios) ==> (device@.key.unwrap(), device@.key_code.unwrap())
                        == ({
                        let seed = Seq::new(0x412, |i: int| le_32(bios@, 0x30 + 4 * i));
                        let code = game_code_of(rom@);
                        let (key, code) = key_code_applied(
                            seed,
                            seq![code, code >> 1, code << 1],
                            2,
                        );
                        key_code_applied(key, code, 2)
                    })
                },
            },
    {
        let len = rom.len();
        if len == 0 || len & (len - 1) != 0 {
            return Err(CreationError::SizeNotPowerOfTwo);
        }
        if len < 0x200 {
            return Err(CreationError::SizeTooSmall);
        }
        let len32 = #[verifier::truncate] (len as u32);
        let chip_id = 0xC2u32 | (if len32 < 0x10_0000 {
            0u32
        } else if len32 < 0x1000_0000 {
            proof {
                assert(len32 >= 0x10_0000 ==> (len32 >> 20) >= 1) by (bit_vector);
            }
            (len32 >> 20) - 1
        } else {
            proof {
                assert((len32 >> 28) <= 15) by (bit_vector);
            }
            0x100 - (len32 >> 28)
        });
        let game_code = crate::bytes::read_32(&rom, 0xC);
        let key_buf = match arm7_bios {
            Some(bios) => Some(KeyBuffer::new(game_code, bios, 2)),
            None => None,
        };
        Ok(Normal { rom, chip_id, key_buf, stage: Stage::Initial })
    }

    /// The device at the start of the protocol again.
    pub fn reset(self) -> (device: Self)
        ensures
            device@ == (NormalView { stage: Stage::Initial, ..self@ }),
    {
        Normal { rom: self.rom, chip_id: self.chip_id, key_buf: self.key_buf, stage: Stage::Initial }
    }

    /// The stage of the protocol.
    pub fn stage(&self) -> (stage: Stage)
        ensures
            stage == self@.stage,
    {
        self.stage
    }

    /// Whether the device has the key buffer of the first encryption.
    pub fn has_key(&self) -> (has: bool)
        ensures
            has == self@.key is Some,
    {
        self.key_buf.is_some()
    }

    /// The contents.
    pub fn contents(&self) -> (rom: &Vec<u8>)
        ensures
            rom@ == self@.rom,
    {
        &self.rom
    }

    /// Reads from the ROM into the whole of `output`, from `addr` on, which is brought
    /// into the ROM and down to a multiple of four; the read goes round at the end of the
    /// ROM.
    pub fn read(&self, addr: u32, output: &mut Vec<u8>)
        requires
            normal_wf(self@),
        ensures
            final(output)@.len() == old(output)@.len(),
            forall|i: int|
                0 <= i < old(output)@.len() ==> (#[trigger] final(output)@[i]) == self@.rom[((((addr
                    & !3u32) as usize) & ((self@.rom.len() - 1) as usize)) + i) % (
                self@.rom.len() as int)],
    {
        let rom_len = self.rom.len();
        let mask = rom_len - 1;
        let start = ((addr & !3u32) as usize) & mask;
        proof {
            crate::bits::lemma_and_le_usize((addr & !3u32) as usize, mask);
        }
        let len = output.len();
        let mut pos = start;
        let mut i: usize = 0;
        proof {
            vstd::arithmetic::div_mod::lemma_small_mod(start as nat, rom_len as nat);
        }
        while i < len
            invariant
                i <= len,
                len == output.len(),
                len == old(output)@.len(),
                rom_len == self@.rom.len(),
                rom_len > 0,
                start < rom_len,
                pos == (start + i) % (rom_len as int),
                forall|k: int|
                    0 <= k < i ==> (#[trigger] output@[k]) == self@.rom[(start + k) % (
                    rom_len as int)],
            decreases len - i,
        {
            output[i] = self.rom[pos];
            proof {
                assert((start + i + 1) % (rom_len as int) == (if pos + 1 == rom_len {
                    0
                } else {
                    pos + 1
                })) by (nonlinear_arith)
                    requires
                        pos == (start + i) % (rom_len as int),
                        rom_len > 0,
                ;
            }
            pos = if pos + 1 == rom_len {
                0
            } else {
                pos + 1
            };
            i += 1;
        }
    }

    /// Copies the header of the ROM into `buf`.
    pub fn read_header(&self, buf: &mut Vec<u8>)
        requires
            normal_wf(self@),
            old(buf).len() == 0x170,
        ensures
            final(buf)@ == self@.rom.subrange(0, 0x170),
    {
        let mut i: usize = 0;
        while i < 0x170
            invariant
                i <= 0x170,
                buf.len() == 0x170,
                self@.rom.len() >= 0x200,
                forall|k: int| 0 <= k < i ==> (#[trigger] buf@[k]) == self@.rom[k],
            decreases 0x170 - i,
        {
            buf[i] = self.rom[i];
            i += 1;
        }
        assert(buf@ =~= self@.rom.subrange(0, 0x170));
    }

    pub fn chip_id(&self) -> (chip_id: u32)
        ensures
            chip_id == self@.chip_id,
    {
        self.chip_id
    }

    /// Encrypts the block of eight bytes at `addr` of the ROM.
    fn encrypt_block(rom: &mut Vec<u8>, key: &KeyBuffer, addr: usize)
        requires
            addr + 8 <= old(rom).len(),
        ensures
            final(rom)@ == block_encrypted(old(rom)@, key.key(), addr as int),
    {
        let block = [crate::bytes::read_32(rom, addr), crate::bytes::read_32(rom, addr + 4)];
        let res = key.encrypt_64_bit(block);
        crate::bytes::write_32(rom, addr, res[0]);
        crate::bytes::write_32(rom, addr + 4, res[1]);
    }

    /// Gets the device ready for a boot. After a boot that skipped the firmware, the
    /// protocol is in its main stage. Before a boot through the firmware, a secure area
    /// that the ROM holds in the clear is encrypted as the firmware expects it.
    pub fn setup(&mut self, direct_boot: bool)
        requires
            normal_wf(old(self)@),
            !direct_boot ==> old(self)@.key is Some && old(self)@.rom.len() >= 0x4800,
        ensures
            final(self)@ == (if direct_boot {
                NormalView { stage: Stage::Key2, ..old(self)@ }
            } else {
                NormalView {
                    rom: secure_area_set_up(
                        old(self)@.rom,
                        old(self)@.key.unwrap(),
                        old(self)@.key_code.unwrap(),
                    ),
                    ..old(self)@
                }
            }),
    {
        if direct_boot {
            self.stage = Stage::Key2;
            return ;
        }
        if crate::bytes::read_32(&self.rom, 0x4000) != 0xE7FF_DEFF {
            return ;
        }
        let key = match self.key_buf {
            Some(key) => key,
            None => {
                return ;
            },
        };
        let level_3 = key.level_3(2);
        crate::bytes::write_32(&mut self.rom, 0x4000, 0x7972_636E);
        crate::bytes::write_32(&mut self.rom, 0x4004, 0x6A62_4F65);
        let ghost marked = self.rom@;
        let mut n: usize = 0;
        while n < 0x100
            invariant
                n <= 0x100,
                self.rom.len() >= 0x4800,
                self.rom@ == blocks_encrypted(marked, level_3.key(), n as int),
                self@.key == old(self)@.key,
                self@.key_code == old(self)@.key_code,
                self@.stage == old(self)@.stage,
                self@.chip_id == old(self)@.chip_id,
            decreases 0x100 - n,
        {
            Self::encrypt_block(&mut self.rom, &level_3, 0x4000 + 8 * n);
            n += 1;
        }
        Self::encrypt_block(&mut self.rom, &key, 0x4000);
    }

    /// Handles a raw command.
    fn handle_initial_command(&mut self, cmd: &[u8; 8], output: &mut Vec<u8>, len: usize)
        requires
            normal_wf(old(self)@),
            len <= 0x4000,
            old(output).len() == 0x4000,
        ensures
            final(self)@ == (NormalView {
                stage: initial_command(old(self)@, cmd@, old(output)@, len as int).0,
                ..old(self)@
            }),
            final(output)@ == initial_command(old(self)@, cmd@, old(output)@, len as int).1,
    {
        let plain = is_plain_command(cmd);
        if cmd[0] == 0x00 && plain {
            fill_rom(output, len, &self.rom, 0, 0);
        } else if cmd[0] == 0x90 && plain {
            fill_chip_id(output, len, self.chip_id);
        } else if cmd[0] == 0x3C {
            self.stage = Stage::Key1;
            fill_const(output, len, 0xFF);
        } else {
            fill_const(output, len, 0xFF);
        }
    }

    /// Handles a command of the first encryption that is already decrypted.
    pub fn handle_key1_command(&mut self, cmd: &[u8; 8], output: &mut Vec<u8>, output_len: RomOutputLen)
        requires
            normal_wf(old(self)@),
            old(output).len() == 0x4000,
        ensures
            final(self)@ == (NormalView {
                stage: key1_command(old(self)@, cmd@, old(output)@, output_len@ as int).0,
                ..old(self)@
            }),
            final(output)@ == key1_command(old(self)@, cmd@, old(output)@, output_len@ as int).1,
    {
        let len = output_len.get() as usize;
        let kind = cmd[0] >> 4;
        if kind == 0x4 {
            fill_const(output, len, 0xFF);
        } else if kind == 0x1 {
            fill_chip_id(output, len, self.chip_id);
        } else if kind == 0x2 {
            let part = ((cmd[2] & 0x30) as usize) << 8;
            proof {
                let b = cmd[2];
                assert((0x4000usize | (((b & 0x30) as usize) << 8)) <= 0x7000) by (bit_vector);
            }
            fill_rom(output, len, &self.rom, 0x4000 | part, 0);
        } else if kind == 0xA {
            self.stage = Stage::Key2;
            fill_const(output, len, 0);
        } else {
            fill_const(output, len, 0);
        }
    }

    /// Handles a command of the main stage.
    fn handle_key2_command(&self, cmd: &[u8; 8], output: &mut Vec<u8>, len: usize)
        requires
            normal_wf(self@),
            len <= 0x4000,
            old(output).len() == 0x4000,
        ensures
            final(output)@ == key2_command(self@, cmd@, old(output)@, len as int),
    {
        if cmd[0] == 0xB7 {
            let raw = ((cmd[1] as u32) << 24) | ((cmd[2] as u32) << 16) | ((cmd[3] as u32) << 8) | (
            cmd[4] as u32);
            let mask = self.rom.len() - 1;
            proof {
                crate::bits::lemma_and_le_usize(raw as usize, mask);
            }
            let masked = ((raw as usize) & mask) as u32;
            let addr = if masked < 0x8000 {
                0x8000 | (masked & 0x1FF)
            } else {
                masked
            };
            let page = addr & 0xFFFF_F000u32;
            proof {
                crate::bits::lemma_page(addr);
            }
            fill_rom(output, len, &self.rom, page as usize, (addr - page) as usize);
        } else if cmd[0] == 0xB8 && is_plain_command(cmd) {
            fill_chip_id(output, len, self.chip_id);
        } else {
            fill_const(output, len, 0);
        }
    }

    /// Decrypts a command of the first encryption.
    fn decrypt_command(key: &KeyBuffer, cmd: &[u8; 8]) -> (result: [u8; 8])
        ensures
            result@ == decrypted_command(key.key(), cmd@),
    {
        let hi = ((cmd[0] as u32) << 24) | ((cmd[1] as u32) << 16) | ((cmd[2] as u32) << 8) | (
        cmd[3] as u32);
        let lo = ((cmd[4] as u32) << 24) | ((cmd[5] as u32) << 16) | ((cmd[6] as u32) << 8) | (
        cmd[7] as u32);
        let res = key.decrypt_64_bit([lo, hi]);
        let new_lo = res[0];
        let new_hi = res[1];
        let result = [
            #[verifier::truncate] ((new_hi >> 24) as u8),
            #[verifier::truncate] ((new_hi >> 16) as u8),
            #[verifier::truncate] ((new_hi >> 8) as u8),
            #[verifier::truncate] (new_hi as u8),
            #[verifier::truncate] ((new_lo >> 24) as u8),
            #[verifier::truncate] ((new_lo >> 16) as u8),
            #[verifier::truncate] ((new_lo >> 8) as u8),
            #[verifier::truncate] (new_lo as u8),
        ];
        assert(result@ =~= decrypted_command(key.key(), cmd@));
        result
    }

    /// Handles a command: puts its answer into the first `output_len` bytes of `output`
    /// and moves on in the protocol. A command of the first encryption needs the key
    /// buffer.
    pub fn handle_rom_command(&mut self, cmd: [u8; 8], output: &mut Vec<u8>, output_len: RomOutputLen)
        requires
            normal_wf(old(self)@),
            old(output).len() == 0x4000,
            old(self)@.stage == Stage::Key1 ==> old(self)@.key is Some,
        ensures
            final(self)@ == (NormalView {
                stage: rom_command(old(self)@, cmd@, old(output)@, output_len@ as int).0,
                ..old(self)@
            }),
            final(output)@ == rom_command(old(self)@, cmd@, old(output)@, output_len@ as int).1,
            normal_wf(final(self)@),
    {
        let len = output_len.get() as usize;
        match self.stage {
            Stage::Initial => {
                self.handle_initial_command(&cmd, output, len);
            },
            Stage::Key1 => {
                let decrypted = match &self.key_buf {
                    Some(key) => Self::decrypt_command(key, &cmd),
                    None => cmd,
                };
                self.handle_key1_command(&decrypted, output, output_len);
            },
            Stage::Key2 => {
                self.handle_key2_command(&cmd, output, len);
            },
        }
    }
}

} // verus!
