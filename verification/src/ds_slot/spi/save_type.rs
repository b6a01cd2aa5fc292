//! The kinds of save memory that a cartridge can carry, and which kind to take for a
//! cartridge from what is known of it.

use vstd::prelude::*;

verus! {

/// A kind of save memory. The numbers in the names are the sizes in bits.
#[derive(Clone, Copy, Debug, PartialEq, Eq, Structural)]
pub enum SaveType {
    /// No save memory.
    Nothing,
    Eeprom4k,
    EepromFram64k,
    EepromFram512k,
    EepromFram1m,
    Flash2m,
    Flash4m,
    Flash8m,
    Nand64m,
    Nand128m,
    Nand256m,
}

/// The size in bytes of a save memory of the given kind, if the cartridge has one.
pub open spec fn expected_len_of(save_type: SaveType) -> Option<usize> {
    match save_type {
        SaveType::Nothing => None,
        SaveType::Eeprom4k => Some(0x200),
        SaveType::EepromFram64k => Some(0x2000),
        SaveType::EepromFram512k => Some(0x1_0000),
        SaveType::EepromFram1m => Some(0x2_0000),
        SaveType::Flash2m => Some(0x4_0000),
        SaveType::Flash4m => Some(0x8_0000),
        SaveType::Flash8m => Some(0x10_0000),
        SaveType::Nand64m => Some(0x80_0000),
        SaveType::Nand128m => Some(0x100_0000),
        SaveType::Nand256m => Some(0x200_0000),
    }
}

/// The kind of save memory that has `len` bytes, if there is one.
pub open spec fn save_type_of_len(len: usize) -> Option<SaveType> {
    if len == 0x200 {
        Some(SaveType::Eeprom4k)
    } else if len == 0x2000 {
        Some(SaveType::EepromFram64k)
    } else if len == 0x1_0000 {
        Some(SaveType::EepromFram512k)
    } else if len == 0x2_0000 {
        Some(SaveType::EepromFram1m)
    } else if len == 0x4_0000 {
        Some(SaveType::Flash2m)
    } else if len == 0x8_0000 {
        Some(SaveType::Flash4m)
    } else if len == 0x10_0000 {
        Some(SaveType::Flash8m)
    } else if len == 0x80_0000 {
        Some(SaveType::Nand64m)
    } else if len == 0x100_0000 {
        Some(SaveType::Nand128m)
    } else if len == 0x200_0000 {
        Some(SaveType::Nand256m)
    } else {
        None
    }
}

/// The kind of save memory to take for a cartridge, from the kind that a database gives
/// for the game and the length of the save file that exists, if any. A save file whose
/// length is that of some kind decides, unless the database's kind has that length too;
/// else the database decides; with neither, the cartridge has no save memory.
pub open spec fn chosen_save_type(known: Option<SaveType>, save_len: Option<usize>) -> SaveType {
    match (save_len, known) {
        (Some(len), Some(known)) => if expected_len_of(known) != Some(len) {
            match save_type_of_len(len) {
                Some(detected) => detected,
                None => known,
            }
        } else {
            known
        },
        (Some(len), None) => match save_type_of_len(len) {
            Some(detected) => detected,
            None => SaveType::Nothing,
        },
        (None, Some(known)) => known,
        (None, None) => SaveType::Nothing,
    }
}

/// The length of a kind and the kind of a length are inverse to each other.
pub proof fn lemma_len_round_trip(save_type: SaveType, len: usize)
    ensures
        expected_len_of(save_type) matches Some(l) ==> save_type_of_len(l) == Some(save_type),
        save_type_of_len(len) matches Some(t) ==> expected_len_of(t) == Some(len),
{
}

impl SaveType {
    /// The size in bytes of a save memory of this kind, if the cartridge has one.
    pub fn expected_len(self) -> (len: Option<usize>)
        ensures
            len == expected_len_of(self),
    {
        match self {
            SaveType::Nothing => None,
            SaveType::Eeprom4k => Some(0x200),
            SaveType::EepromFram64k => Some(0x2000),
            SaveType::EepromFram512k => Some(0x1_0000),
            SaveType::EepromFram1m => Some(0x2_0000),
            SaveType::Flash2m => Some(0x4_0000),
            SaveType::Flash4m => Some(0x8_0000),
            SaveType::Flash8m => Some(0x10_0000),
            SaveType::Nand64m => Some(0x80_0000),
            SaveType::Nand128m => Some(0x100_0000),
            SaveType::Nand256m => Some(0x200_0000),
        }
    }

    /// The kind of save memory that has `len` bytes, if there is one.
    pub fn from_save_len(len: usize) -> (save_type: Option<SaveType>)
        ensures
            save_type == save_type_of_len(len),
    {
        match len {
            0x200 => Some(SaveType::Eeprom4k),
            0x2000 => Some(SaveType::EepromFram64k),
            0x1_0000 => Some(SaveType::EepromFram512k),
            0x2_0000 => Some(SaveType::EepromFram1m),
            0x4_0000 => Some(SaveType::Flash2m),
            0x8_0000 => Some(SaveType::Flash4m),
            0x10_0000 => Some(SaveType::Flash8m),
            0x80_0000 => Some(SaveType::Nand64m),
            0x100_0000 => Some(SaveType::Nand128m),
            0x200_0000 => Some(SaveType::Nand256m),
            _ => None,
        }
    }

    /// Chooses the kind of save memory for a cartridge.
    pub fn select(known: Option<SaveType>, save_len: Option<usize>) -> (chosen: SaveType)
        ensures
            chosen == chosen_save_type(known, save_len),
    {
        match save_len {
            Some(len) => {
                let detected = SaveType::from_save_len(len);
                match known {
                    Some(known) => {
                        let fits = match known.expected_len() {
                            Some(expected) => expected == len,
                            None => false,
                        };
                        if fits {
                            known
                        } else {
                            match detected {
                                Some(detected) => detected,
                                None => known,
                            }
                        }
                    },
                    None => match detected {
                        Some(detected) => detected,
                        None => SaveType::Nothing,
                    },
                }
            },
            None => match known {
                Some(known) => known,
                None => SaveType::Nothing,
            },
        }
    }
}

} // verus!
