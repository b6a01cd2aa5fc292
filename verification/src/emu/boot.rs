//! Starting a program straight from the cartridge, as the firmware would: the cartridge's
//! header says where each CPU's program lies, and the program is copied into memory word
//! by word, through the memory accesses of the CPU that it is for.

use crate::bytes::le_32;
use crate::cpu::arm7::bus as bus7;
use crate::cpu::arm9::bus::fallback as bus9;
use crate::ds_slot::Rom;
use crate::emu::{emu_wf, Emu, EmuView};
use vstd::prelude::*;

verus! {

/// What the header of a cartridge says of the program of one CPU.
#[derive(Clone, Copy, Debug, PartialEq, Eq)]
pub struct Program {
    /// Where the program lies in the ROM.
    pub rom_offset: u32,
    /// The address at which the program starts to run.
    pub entry: u32,
    /// The address that the program is copied to.
    pub ram_addr: u32,
    /// The size of the program in bytes.
    pub size: u32,
}

/// The program of one CPU, as the header in `rom` describes it: four words, from 0x20 on
/// for the ARM9 and from 0x30 on for the ARM7.
pub open spec fn program_of(rom: Seq<u8>, arm7: bool) -> Program {
    let at: int = if arm7 {
        0x30
    } else {
        0x20
    };
    Program {
        rom_offset: le_32(rom, at),
        entry: le_32(rom, at + 4),
        ram_addr: le_32(rom, at + 8),
        size: le_32(rom, at + 12),
    }
}

/// Reads from a cartridge's header what it says of the program of one CPU.
pub fn header_program(rom: &Vec<u8>, arm7: bool) -> (program: Program)
    requires
        rom.len() >= 0x40,
    ensures
        program == program_of(rom@, arm7),
{
    let at: usize = if arm7 {
        0x30
    } else {
        0x20
    };
    Program {
        rom_offset: crate::bytes::read_32(rom, at),
        entry: crate::bytes::read_32(rom, at + 4),
        ram_addr: crate::bytes::read_32(rom, at + 8),
        size: crate::bytes::read_32(rom, at + 12),
    }
}

/// The `n` words that `rom` holds from `from` on.
pub open spec fn rom_words(rom: Seq<u8>, from: int, n: int) -> Seq<u32> {
    Seq::new(n as nat, |i: int| le_32(rom, from + 4 * i))
}

/// Takes `words` words out of a ROM, from `from` on.
fn read_words(rom: &Vec<u8>, from: usize, words: usize) -> (program: Vec<u32>)
    requires
        from + 4 * words <= rom.len(),
    ensures
        program@ == rom_words(rom@, from as int, words as int),
{
    let mut program: Vec<u32> = Vec::new();
    let mut i: usize = 0;
    while i < words
        invariant
            i <= words,
            from + 4 * words <= rom.len(),
            program@ == rom_words(rom@, from as int, i as int),
        decreases words - i,
    {
        let ghost before = program@;
        program.push(crate::bytes::read_32(rom, from + 4 * i));
        i += 1;
        proof {
            assert(program@ =~= rom_words(rom@, from as int, i as int));
        }
    }
    program
}

/// The machine after the first `n` words of `program` are written to memory from `to`
/// on, through the memory accesses of the ARM7 if `arm7`, else of the ARM9.
pub open spec fn words_loaded(v: EmuView, arm7: bool, program: Seq<u32>, to: u32, n: int) -> EmuView
    decreases n,
{
    if n <= 0 {
        v
    } else {
        let before = words_loaded(v, arm7, program, to, n - 1);
        let addr = to.wrapping_add((4 * (n - 1)) as u32);
        if arm7 {
            bus7::written_32(before, addr, program[n - 1])
        } else {
            bus9::written_32(before, addr, program[n - 1])
        }
    }
}

/// Whether the cartridge holds `words` words from `from` on.
pub open spec fn cartridge_holds(v: EmuView, from: usize, words: usize) -> bool {
    v.ds_slot.rom is Some && from + 4 * words <= v.ds_slot.rom.unwrap().rom.len()
}

impl Emu {
    /// Copies `words` words of the cartridge's ROM, from `from` on, into memory from `to`
    /// on, and says whether it did: it does nothing unless the cartridge holds them.
    pub fn load_program(&mut self, arm7: bool, from: usize, to: u32, words: usize) -> (loaded: bool)
        requires
            emu_wf(old(self)@),
            words <= 0x4000_0000,
        ensures
            loaded == cartridge_holds(old(self)@, from, words),
            final(self)@ == (if loaded {
                words_loaded(
                    old(self)@,
                    arm7,
                    rom_words(old(self)@.ds_slot.rom.unwrap().rom, from as int, words as int),
                    to,
                    words as int,
                )
            } else {
                old(self)@
            }),
            emu_wf(final(self)@),
    {
        let program = match &self.ds_slot.rom {
            Rom::Normal(normal) => {
                let rom = normal.contents();
                if from > rom.len() || words > (rom.len() - from) / 4 {
                    return false;
                }
                read_words(rom, from, words)
            },
            Rom::Empty => {
                return false;
            },
        };
        let mut n: usize = 0;
        while n < words
            invariant
                n <= words <= 0x4000_0000,
                program@.len() == words,
                emu_wf(self@),
                self@ == words_loaded(old(self)@, arm7, program@, to, n as int),
            decreases words - n,
        {
            let addr = to.wrapping_add(#[verifier::truncate] ((4 * n) as u32));
            if arm7 {
                bus7::write_32(self, addr, program[n]);
            } else {
                bus9::write_32(self, addr, program[n]);
            }
            n += 1;
        }
        true
    }
}

} // verus!
