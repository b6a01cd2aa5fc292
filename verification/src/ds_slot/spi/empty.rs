//! The save device of a cartridge that has none.

use vstd::prelude::*;

verus! {

/// No save device: it has no contents and answers every byte with zero.
#[derive(Clone, Copy, Debug, PartialEq, Eq)]
pub struct Empty {}

impl Empty {
    pub fn new() -> (device: Self) {
        Empty {  }
    }

    /// The device as it is at reset: it has no state that a reset would change.
    pub fn reset(self) -> (device: Self)
        ensures
            device == self,
    {
        self
    }

    /// The contents: none.
    pub fn contents(&self) -> (contents: Vec<u8>)
        ensures
            contents@ == Seq::<u8>::empty(),
    {
        Vec::new()
    }

    /// Takes over contents that were loaded anew: there is nothing to take over.
    pub fn reload_contents(&mut self, contents: &Vec<u8>)
        ensures
            *final(self) == *old(self),
    {
    }

    /// Whether the contents changed since they were last stored: never.
    pub fn contents_dirty(&self) -> (dirty: bool)
        ensures
            !dirty,
    {
        false
    }

    /// Notes that the contents changed: there are none.
    pub fn mark_contents_dirty(&mut self)
        ensures
            *final(self) == *old(self),
    {
    }

    /// Notes that the contents were stored: there are none.
    pub fn mark_contents_flushed(&mut self)
        ensures
            *final(self) == *old(self),
    {
    }

    /// Takes a byte from the SPI bus and answers it: always with zero. `first` and `last`
    /// say whether the byte starts or ends a chip-select cycle.
    pub fn write_data(&mut self, data: u8, first: bool, last: bool) -> (answer: u8)
        ensures
            answer == 0,
            *final(self) == *old(self),
    {
        0
    }
}

} // verus!
