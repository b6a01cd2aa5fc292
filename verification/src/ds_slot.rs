//! The cartridge slot: the ROM and its command protocol, the save device behind the
//! slot's SPI bus, and the registers through which a CPU talks to them.

pub mod rom;
pub mod spi;

use crate::bytes::le_32;
use crate::cpu::irqs::{woken, IrqController, IrqFlags, IrqsView, IRQ_DS_SLOT_TRANSFER_COMPLETE};
use crate::cpu::schedule::{
    EventSlotIndex, Schedule, Scheduler, SchedulerView, SLOT_DS_SLOT_ROM,
};
use crate::cpu::timers::Timestamp;
use rom::normal::{const_output, normal_wf, rom_command, Normal, NormalView, RomOutputLen, Stage};
use spi::empty::Empty;
use vstd::prelude::*;

verus! {

/// The ROM control register: bit 23 says that a word of data is ready, bits 24 to 26
/// give the size of the answer, bit 27 selects the slower transfer clock, and bit 31
/// starts a transfer and stays set while it runs.
#[derive(Clone, Copy, Debug, PartialEq, Eq)]
pub struct RomControl(pub u32);

/// The SPI control register: bits 0 and 1 select the baud rate, bit 6 holds the chip
/// select after a byte, bit 13 selects the SPI mode of the slot, bit 14 enables the
/// interrupt at the end of a ROM transfer, and bit 15 enables the slot.
#[derive(Clone, Copy, Debug, PartialEq, Eq)]
pub struct AuxSpiControl(pub u16);

/// What is in the slot.
pub enum Rom {
    /// Nothing.
    Empty,
    /// An ordinary cartridge.
    Normal(Normal),
}

/// The save device behind the slot.
pub enum Spi {
    /// None.
    Empty(Empty),
}

/// The state of the slot, as contracts see it.
pub struct DsSlotView {
    /// The cartridge in the slot, if there is one.
    pub rom: Option<NormalView>,
    pub rom_control: u32,
    pub spi_control: u16,
    /// The answer of the save device to the last byte.
    pub spi_data_out: u8,
    /// Whether the chip select of the save device is held from the last byte.
    pub spi_held: bool,
    /// The eight bytes of the command register.
    pub rom_cmd: Seq<u8>,
    /// The answer to the last command.
    pub rom_output: Seq<u8>,
    /// The size of the answer.
    pub rom_output_len: u16,
    /// How much of the answer was read.
    pub rom_output_pos: u16,
    /// Whether the slot belongs to the ARM9; else it belongs to the ARM7.
    pub arm9_access: bool,
}

/// The slot is well-formed: its answer buffer has its size, the answer lies in it, and the
/// cartridge is well-formed.
pub open spec fn ds_slot_wf(v: DsSlotView) -> bool {
    &&& v.rom_cmd.len() == 8
    &&& v.rom_output.len() == 0x4000
    &&& v.rom_output_pos <= v.rom_output_len <= 0x4000
    &&& v.rom_output_len % 4 == 0
    &&& v.rom_output_pos % 4 == 0
    &&& v.rom matches Some(rom) ==> normal_wf(rom)
}

/// The size of the answer that a ROM control value asks for: nothing, 0x200 to 0x4000
/// bytes, or four bytes.
pub open spec fn output_len_of(control: u32) -> u16 {
    let size = (control >> 24) & 7;
    if size == 0 {
        0
    } else if size == 7 {
        4
    } else {
        (0x100u32 << size) as u16
    }
}

/// The number of cycles that a byte takes on the slot's bus.
pub open spec fn byte_cycles(control: u32) -> u64 {
    if control & 0x800_0000 != 0 {
        8
    } else {
        5
    }
}

/// The slot after its cartridge handles the command in the command register, with an
/// answer of `len` bytes. An empty slot answers with FF bytes, as does a cartridge that
/// cannot decrypt the command because it has no key buffer.
pub open spec fn command_handled(v: DsSlotView, len: u16) -> DsSlotView {
    match v.rom {
        Some(rom) if !(rom.stage == Stage::Key1 && rom.key is None) => {
            let (stage, output) = rom_command(rom, v.rom_cmd, v.rom_output, len as int);
            DsSlotView {
                rom: Some(NormalView { stage, ..rom }),
                rom_output: output,
                rom_output_len: len,
                rom_output_pos: 0,
                ..v
            }
        },
        _ => DsSlotView {
            rom_output: const_output(v.rom_output, len as int, 0xFF),
            rom_output_len: len,
            rom_output_pos: 0,
            ..v
        },
    }
}

/// Whether a write of `value` to the ROM control register starts a transfer: it sets the
/// start bit, and no transfer is under way.
pub open spec fn starts_transfer(v: DsSlotView, value: u32) -> bool {
    value & 0x8000_0000 != 0 && v.rom_control & 0x8000_0000 == 0
}

/// The slot after a write of `value` to the ROM control register. The settings are taken
/// over. A write that starts a transfer has the command handled; the busy bit is set, and
/// no data is ready yet.
pub open spec fn rom_control_written(v: DsSlotView, value: u32) -> DsSlotView {
    if starts_transfer(v, value) {
        DsSlotView {
            rom_control: (value & 0x7F7F_7FFF) | 0x8000_0000,
            ..command_handled(v, output_len_of(value))
        }
    } else {
        DsSlotView {
            rom_control: (value & 0x7F7F_7FFF) | (v.rom_control & 0x8080_0000),
            ..v
        }
    }
}

/// The time at which the first word of an answer is ready: after the eight bytes of the
/// command and the four bytes of the word went over the slot's bus.
pub open spec fn first_word_time(now: Timestamp, control: u32) -> Timestamp {
    Timestamp(now.0.saturating_add((12 * byte_cycles(control)) as u64))
}

/// The time at which the next word of an answer is ready.
pub open spec fn next_word_time(now: Timestamp, control: u32) -> Timestamp {
    Timestamp(now.0.saturating_add((4 * byte_cycles(control)) as u64))
}

/// Whether the transfer is over once the data-ready event fires or a word was read: the
/// whole answer was read.
pub open spec fn transfer_done(v: DsSlotView) -> bool {
    v.rom_output_pos >= v.rom_output_len
}

/// The slot after the data-ready event: a word is ready, or the transfer is over.
pub open spec fn data_ready_handled(v: DsSlotView) -> DsSlotView {
    if v.rom_control & 0x8000_0000 == 0 {
        v
    } else if transfer_done(v) {
        DsSlotView { rom_control: v.rom_control & 0x7F7F_FFFF, ..v }
    } else {
        DsSlotView { rom_control: v.rom_control | 0x80_0000, ..v }
    }
}

/// The word that a read of the data register returns: the next word of the answer if one
/// is ready, else zero.
pub open spec fn rom_data(v: DsSlotView) -> u32 {
    if v.rom_control & 0x80_0000 != 0 && v.rom_output_pos + 4 <= v.rom_output_len {
        le_32(v.rom_output, v.rom_output_pos as int)
    } else {
        0
    }
}

/// The slot after a read of the data register: the word that was ready is taken, and the
/// transfer is over once the last word is.
pub open spec fn rom_data_read(v: DsSlotView) -> DsSlotView {
    if v.rom_control & 0x80_0000 != 0 && v.rom_output_pos + 4 <= v.rom_output_len {
        let pos = (v.rom_output_pos + 4) as u16;
        DsSlotView {
            rom_output_pos: pos,
            rom_control: if pos >= v.rom_output_len {
                v.rom_control & 0x7F7F_FFFF
            } else {
                v.rom_control & 0xFF7F_FFFF
            },
            ..v
        }
    } else {
        v
    }
}

/// Whether a read of the data register takes the last word of the answer.
pub open spec fn read_ends_transfer(v: DsSlotView) -> bool {
    v.rom_control & 0x80_0000 != 0 && v.rom_output_pos + 4 == v.rom_output_len
}

/// Whether a read of the data register takes a word that is not the last.
pub open spec fn read_continues_transfer(v: DsSlotView) -> bool {
    v.rom_control & 0x80_0000 != 0 && v.rom_output_pos + 4 < v.rom_output_len
}

/// The interrupt controller after a transfer ended: the slot's interrupt is requested if
/// the SPI control register enables it.
pub open spec fn irqs_after_transfer(v: DsSlotView, irqs: IrqsView) -> IrqsView {
    if v.spi_control & 0x4000 != 0 {
        woken(IrqsView { requested: irqs.requested | IRQ_DS_SLOT_TRANSFER_COMPLETE, ..irqs })
    } else {
        irqs
    }
}

/// The cartridge slot.
pub struct DsSlot {
    pub rom: Rom,
    pub spi: Spi,
    pub rom_control: RomControl,
    pub spi_control: AuxSpiControl,
    pub spi_data_out: u8,
    pub spi_held: bool,
    pub rom_cmd: [u8; 8],
    pub rom_output: Vec<u8>,
    pub rom_output_len: u16,
    pub rom_output_pos: u16,
    pub arm9_access: bool,
}

impl View for DsSlot {
    type V = DsSlotView;

    open spec fn view(&self) -> DsSlotView {
        DsSlotView {
            rom: match self.rom {
                Rom::Normal(rom) => Some(rom@),
                Rom::Empty => None,
            },
            rom_control: self.rom_control.0,
            spi_control: self.spi_control.0,
            spi_data_out: self.spi_data_out,
            spi_held: self.spi_held,
            rom_cmd: self.rom_cmd@,
            rom_output: self.rom_output@,
            rom_output_len: self.rom_output_len,
            rom_output_pos: self.rom_output_pos,
            arm9_access: self.arm9_access,
        }
    }
}

/// The cartridge, as contracts see it: none, or the state of the one in the slot.
pub open spec fn rom_view(rom: Rom) -> Option<NormalView> {
    match rom {
        Rom::Normal(normal) => Some(normal@),
        Rom::Empty => None,
    }
}

/// The slot at power-on with the given cartridge: it belongs to the ARM9, and every
/// register is zero.
pub open spec fn initial_ds_slot(rom: Option<NormalView>) -> DsSlotView {
    DsSlotView {
        rom,
        rom_control: 0,
        spi_control: 0,
        spi_data_out: 0,
        spi_held: false,
        rom_cmd: Seq::new(8, |i: int| 0u8),
        rom_output: Seq::new(0x4000, |i: int| 0u8),
        rom_output_len: 0,
        rom_output_pos: 0,
        arm9_access: true,
    }
}

impl DsSlot {
    /// A slot with the given cartridge and save device, owned by the ARM9, with every
    /// register zero.
    pub fn new(rom: Rom, spi: Spi) -> (slot: Self)
        requires
            rom matches Rom::Normal(normal) ==> normal_wf(normal@),
        ensures
            slot@ == initial_ds_slot(rom_view(rom)),
            ds_slot_wf(slot@),
    {
        let slot = DsSlot {
            rom,
            spi,
            rom_control: RomControl(0),
            spi_control: AuxSpiControl(0),
            spi_data_out: 0,
            spi_held: false,
            rom_cmd: [0; 8],
            rom_output: vec![0u8; 0x4000],
            rom_output_len: 0,
            rom_output_pos: 0,
            arm9_access: true,
        };
        assert(slot@.rom_cmd =~= Seq::new(8, |i: int| 0u8));
        assert(slot@.rom_output =~= Seq::new(0x4000, |i: int| 0u8));
        slot
    }

    pub fn arm9_access(&self) -> (r: bool)
        ensures
            r == self@.arm9_access,
    {
        self.arm9_access
    }

    /// Gives the slot to the ARM9 or to the ARM7.
    pub fn set_arm9_access(&mut self, value: bool)
        ensures
            final(self)@ == (DsSlotView { arm9_access: value, ..old(self)@ }),
    {
        self.arm9_access = value;
    }

    pub fn spi_control(&self) -> (r: AuxSpiControl)
        ensures
            r.0 == self@.spi_control,
    {
        self.spi_control
    }

    /// Writes the SPI control register; the bits that it has are kept.
    pub fn write_spi_control(&mut self, value: AuxSpiControl)
        ensures
            final(self)@ == (DsSlotView { spi_control: value.0 & 0xE043, ..old(self)@ }),
    {
        self.spi_control = AuxSpiControl(value.0 & 0xE043);
    }

    pub fn spi_data_out(&self) -> (r: u8)
        ensures
            r == self@.spi_data_out,
    {
        self.spi_data_out
    }

    /// Sends a byte to the save device. The device's answer can be read afterwards. The
    /// byte is the first of a chip-select cycle unless the chip select was held, and the
    /// last unless the SPI control register holds it now. Without a save device the answer
    /// is zero.
    pub fn write_spi_data(&mut self, value: u8)
        ensures
            final(self)@ == (DsSlotView {
                spi_data_out: 0,
                spi_held: old(self)@.spi_control & 0x40 != 0,
                ..old(self)@
            }),
    {
        let first = !self.spi_held;
        let hold = self.spi_control.0 & 0x40 != 0;
        let answer = match &mut self.spi {
            Spi::Empty(device) => device.write_data(value, first, !hold),
        };
        self.spi_data_out = answer;
        self.spi_held = hold;
    }

    pub fn rom_control(&self) -> (r: RomControl)
        ensures
            r.0 == self@.rom_control,
    {
        self.rom_control
    }

    /// The size of the answer that a ROM control value asks for.
    fn output_len(control: u32) -> (len: RomOutputLen)
        ensures
            len@ == output_len_of(control),
    {
        let size = (control >> 24) & 7;
        proof {
            crate::bits::lemma_and_le_u32(control >> 24, 7);
            assert(0x100u32 << 1u32 == 0x200 && 0x100u32 << 2u32 == 0x400 && 0x100u32 << 3u32
                == 0x800 && 0x100u32 << 4u32 == 0x1000 && 0x100u32 << 5u32 == 0x2000 && 0x100u32
                << 6u32 == 0x4000) by (bit_vector);
        }
        if size == 0 {
            RomOutputLen::new(0)
        } else if size == 7 {
            RomOutputLen::new(4)
        } else {
            RomOutputLen::new((0x100u32 << size) as u16)
        }
    }

    /// Has the cartridge handle the command in the command register.
    fn handle_command(&mut self, len: RomOutputLen)
        requires
            ds_slot_wf(old(self)@),
        ensures
            final(self)@ == command_handled(old(self)@, len@),
            ds_slot_wf(final(self)@),
    {
        self.rom_output_len = len.get();
        self.rom_output_pos = 0;
        match &mut self.rom {
            Rom::Normal(rom) => {
                if rom.stage() == Stage::Key1 && !rom.has_key() {
                    fill_ff(&mut self.rom_output, len.get() as usize);
                } else {
                    rom.handle_rom_command(self.rom_cmd, &mut self.rom_output, len);
                }
            },
            Rom::Empty => {
                fill_ff(&mut self.rom_output, len.get() as usize);
            },
        }
    }

    /// Writes the ROM control register. A write that starts a transfer has the cartridge
    /// handle the command, and queues the data-ready event of the CPU that owns the slot:
    /// `schedule` is that CPU's schedule.
    pub fn write_rom_control(&mut self, value: RomControl, schedule: &mut Scheduler)
        requires
            ds_slot_wf(old(self)@),
        ensures
            final(self)@ == rom_control_written(old(self)@, value.0),
            ds_slot_wf(final(self)@),
            final(schedule)@.cur_time == old(schedule)@.cur_time,
            final(schedule)@.target_time.0 <= old(schedule)@.target_time.0,
            final(schedule)@.times == (if starts_transfer(old(self)@, value.0) {
                old(schedule)@.times.update(
                    SLOT_DS_SLOT_ROM as int,
                    Some(first_word_time(old(schedule)@.cur_time, value.0)),
                )
            } else {
                old(schedule)@.times
            }),
    {
        let prev = self.rom_control.0;
        if value.0 & 0x8000_0000 != 0 && prev & 0x8000_0000 == 0 {
            self.handle_command(Self::output_len(value.0));
            self.rom_control = RomControl((value.0 & 0x7F7F_7FFF) | 0x8000_0000);
            let cycles: u64 = if value.0 & 0x800_0000 != 0 {
                96
            } else {
                60
            };
            let time = Timestamp(schedule.cur_time().0.saturating_add(cycles));
            schedule.schedule_event(EventSlotIndex::new(SLOT_DS_SLOT_ROM), time);
        } else {
            self.rom_control = RomControl((value.0 & 0x7F7F_7FFF) | (prev & 0x8080_0000));
        }
    }

    /// Handles the data-ready event: a word of the answer is ready, or the transfer is
    /// over, which requests the slot's interrupt if it is enabled. `irqs` and `schedule`
    /// are those of the CPU that owns the slot. Returns whether a word is ready, which is
    /// the start condition of the DMA channels that wait for the slot.
    pub fn handle_rom_data_ready(&mut self, irqs: &mut IrqController, schedule: &mut Scheduler) -> (ready:
        bool)
        requires
            ds_slot_wf(old(self)@),
        ensures
            final(self)@ == data_ready_handled(old(self)@),
            ds_slot_wf(final(self)@),
            ready == (old(self)@.rom_control & 0x8000_0000 != 0 && !transfer_done(old(self)@)),
            final(irqs)@ == (if old(self)@.rom_control & 0x8000_0000 != 0 && transfer_done(
                old(self)@,
            ) {
                irqs_after_transfer(old(self)@, old(irqs)@)
            } else {
                old(irqs)@
            }),
            final(schedule)@.cur_time == old(schedule)@.cur_time,
            final(schedule)@.times == old(schedule)@.times,
            final(schedule)@.target_time.0 <= old(schedule)@.target_time.0,
    {
        if self.rom_control.0 & 0x8000_0000 == 0 {
            return false;
        }
        if self.rom_output_pos >= self.rom_output_len {
            self.rom_control = RomControl(self.rom_control.0 & 0x7F7F_FFFF);
            if self.spi_control.0 & 0x4000 != 0 {
                irqs.request(IrqFlags(IRQ_DS_SLOT_TRANSFER_COMPLETE), schedule);
            }
            false
        } else {
            self.rom_control = RomControl(self.rom_control.0 | 0x80_0000);
            true
        }
    }

    /// The word that a read of the data register would return, without reading it.
    pub fn peek_rom_data(&self) -> (value: u32)
        requires
            ds_slot_wf(self@),
        ensures
            value == rom_data(self@),
    {
        if self.rom_control.0 & 0x80_0000 != 0 && self.rom_output_pos + 4 <= self.rom_output_len {
            crate::bytes::read_32(&self.rom_output, self.rom_output_pos as usize)
        } else {
            0
        }
    }

    /// Reads the data register: takes the word that is ready. After the last word the
    /// transfer is over, which requests the slot's interrupt if it is enabled; else the
    /// data-ready event is queued for the next word. `irqs` and `schedule` are those of
    /// the CPU that owns the slot.
    pub fn read_rom_data(&mut self, irqs: &mut IrqController, schedule: &mut Scheduler) -> (value:
        u32)
        requires
            ds_slot_wf(old(self)@),
        ensures
            value == rom_data(old(self)@),
            final(self)@ == rom_data_read(old(self)@),
            ds_slot_wf(final(self)@),
            final(irqs)@ == (if read_ends_transfer(old(self)@) {
                irqs_after_transfer(old(self)@, old(irqs)@)
            } else {
                old(irqs)@
            }),
            final(schedule)@.cur_time == old(schedule)@.cur_time,
            final(schedule)@.target_time.0 <= old(schedule)@.target_time.0,
            final(schedule)@.times == (if read_continues_transfer(old(self)@) {
                old(schedule)@.times.update(
                    SLOT_DS_SLOT_ROM as int,
                    Some(next_word_time(old(schedule)@.cur_time, old(self)@.rom_control)),
                )
            } else {
                old(schedule)@.times
            }),
    {
        if self.rom_control.0 & 0x80_0000 == 0 || self.rom_output_pos + 4 > self.rom_output_len {
            return 0;
        }
        let value = crate::bytes::read_32(&self.rom_output, self.rom_output_pos as usize);
        self.rom_output_pos = self.rom_output_pos + 4;
        if self.rom_output_pos >= self.rom_output_len {
            self.rom_control = RomControl(self.rom_control.0 & 0x7F7F_FFFF);
            if self.spi_control.0 & 0x4000 != 0 {
                irqs.request(IrqFlags(IRQ_DS_SLOT_TRANSFER_COMPLETE), schedule);
            }
        } else {
            let cycles: u64 = if self.rom_control.0 & 0x800_0000 != 0 {
                32
            } else {
                20
            };
            self.rom_control = RomControl(self.rom_control.0 & 0xFF7F_FFFF);
            let time = Timestamp(schedule.cur_time().0.saturating_add(cycles));
            schedule.schedule_event(EventSlotIndex::new(SLOT_DS_SLOT_ROM), time);
        }
        value
    }
}

/// Puts FF bytes into the first `len` bytes of the answer buffer.
fn fill_ff(output: &mut Vec<u8>, len: usize)
    requires
        len <= old(output).len(),
    ensures
        final(output)@ == const_output(old(output)@, len as int, 0xFF),
{
    let mut i: usize = 0;
    while i < len
        invariant
            i <= len <= output.len(),
            output@ == const_output(old(output)@, i as int, 0xFF),
        decreases len - i,
    {
        output[i] = 0xFF;
        i += 1;
        assert(output@ =~= const_output(old(output)@, i as int, 0xFF));
    }
    assert(old(output)@ =~= const_output(old(output)@, 0, 0xFF));
}

} // verus!
