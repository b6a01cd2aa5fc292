use dust_core::cpu::arm9::bus::fallback::{read_16, read_32, read_8, write_16, write_32, write_8};
use dust_core::cpu::irqs::IrqFlags;
use dust_core::cpu::schedule::Schedule;
use dust_core::cpu::timers::Timestamp;
use dust_core::ds_slot::spi::empty::Empty;
use dust_core::ds_slot::{Rom, Spi};
use dust_core::emu::Emu;

fn emu() -> Emu {
    let mut bios9 = vec![0u8; 0x1000];
    bios9[0x10] = 0x5A;
    Emu::new(vec![0u8; 0x4000], bios9, Rom::Empty, Spi::Empty(Empty::new()))
}

#[test]
fn main_memory_and_shared_ram_take_every_width() {
    let mut emu = emu();
    write_32(&mut emu, 0x0200_0003, 0x1122_3344);
    assert_eq!(read_32(&mut emu, 0x0200_0000, false), 0x1122_3344);
    assert_eq!(read_16(&mut emu, 0x0240_0003, false), 0x1122);
    assert_eq!(read_8(&mut emu, 0x0200_0001, false), 0x33);
    write_8(&mut emu, 0x0200_0001, 0xAA);
    write_16(&mut emu, 0x0200_0002, 0xBBCC);
    assert_eq!(read_32(&mut emu, 0x0200_0000, true), 0xBBCC_AA44);
    write_32(&mut emu, 0x0300_8004, 5);
    assert_eq!(read_32(&mut emu, 0x0300_0004, false), 5);
    // With the whole shared RAM given to the ARM7, the ARM9 reads zero and writes nothing.
    write_8(&mut emu, 0x0400_0247, 3);
    assert_eq!(read_8(&mut emu, 0x0400_0247, false), 3);
    write_32(&mut emu, 0x0300_0004, 7);
    assert_eq!(read_32(&mut emu, 0x0300_0004, false), 0);
    assert_eq!(read_8(&mut emu, 0xFFFF_0010, false), 0x5A);
    assert_eq!(read_8(&mut emu, 0xFFFF_1010, false), 0);
    assert_eq!(read_16(&mut emu, 0x0800_0006, false), 3);
    assert_eq!(read_8(&mut emu, 0x0A00_0000, false), 0xFF);
    assert_eq!(read_32(&mut emu, 0x0100_0000, false), 0);
}

#[test]
fn vram_banks_follow_their_control_registers() {
    let mut emu = emu();
    write_8(&mut emu, 0x0400_0240, 0x81);
    write_32(&mut emu, 0x0600_0000, 0xDEAD_BEEF);
    assert_eq!(read_32(&mut emu, 0x0600_0000, false), 0xDEAD_BEEF);
    assert_eq!(read_32(&mut emu, 0x0608_0000, false), 0xDEAD_BEEF);
    // Bytes are not taken by video memory.
    write_8(&mut emu, 0x0600_0000, 0);
    assert_eq!(read_8(&mut emu, 0x0600_0000, false), 0xEF);
    write_8(&mut emu, 0x0400_0240, 0x80);
    assert_eq!(read_32(&mut emu, 0x0680_0000, false), 0xDEAD_BEEF);
    assert_eq!(read_32(&mut emu, 0x0600_0000, false), 0);
    assert_eq!(read_16(&mut emu, 0x0400_0240, false), 0x0080);
    write_16(&mut emu, 0x0500_0402, 0x7FFF);
    assert_eq!(read_16(&mut emu, 0x0500_0C02, false), 0x7FFF);
    write_32(&mut emu, 0x0700_0000, 0x0102_0304);
    assert_eq!(read_8(&mut emu, 0x0700_0803, false), 1);
}

#[test]
fn timer_registers_count_through_the_bus() {
    let mut emu = emu();
    write_32(&mut emu, 0x0400_0100, 0x00C0_FFFE);
    emu.arm9.schedule.set_cur_time(Timestamp(1));
    assert_eq!(read_16(&mut emu, 0x0400_0100, false), 0xFFFF);
    emu.arm9.schedule.set_cur_time(Timestamp(4));
    assert_eq!(read_32(&mut emu, 0x0400_0100, false), 0x00C0_FFFE);
    assert_eq!(read_32(&mut emu, 0x0400_0214, false), 8);
    // A one acknowledges the request.
    write_32(&mut emu, 0x0400_0214, 8);
    assert_eq!(emu.arm9.irqs.requested(), IrqFlags(0));
    write_32(&mut emu, 0x0400_0210, 0x0000_0048);
    assert_eq!(read_16(&mut emu, 0x0400_0210, false), 0x48);
    write_16(&mut emu, 0x0400_0208, 1);
    assert_eq!(read_8(&mut emu, 0x0400_0208, false), 1);
}

#[test]
fn ipc_and_dma_and_display_registers() {
    let mut emu = emu();
    write_16(&mut emu, 0x0400_0184, 0x8000);
    write_32(&mut emu, 0x0400_0188, 0x1122_3344);
    assert_eq!(read_16(&mut emu, 0x0400_0184, false) & 3, 0);
    write_32(&mut emu, 0x0400_00B0, 0xF200_0000);
    write_16(&mut emu, 0x0400_00B6, 0x0201);
    write_16(&mut emu, 0x0400_00B8, 4);
    assert_eq!(read_32(&mut emu, 0x0400_00B0, false), 0x0200_0000);
    assert_eq!(read_32(&mut emu, 0x0400_00B4, false), 0x0201_0000);
    assert_eq!(read_32(&mut emu, 0x0400_00B8, false), 4);
    write_16(&mut emu, 0x0400_00BA, 0x8400);
    assert_eq!(emu.arm9.dma.running, 1);
    write_32(&mut emu, 0x0400_00E4, 0xCAFE_F00D);
    assert_eq!(read_8(&mut emu, 0x0400_00E7, false), 0xCA);
    write_8(&mut emu, 0x0400_00E4, 0x0E);
    assert_eq!(read_32(&mut emu, 0x0400_00E4, false), 0xCAFE_F00E);
    // Engine A's control register, and a background's control by bytes.
    write_32(&mut emu, 0x0400_0000, 0x0001_0100);
    assert_eq!(read_32(&mut emu, 0x0400_0000, false), 0x0001_0100);
    write_8(&mut emu, 0x0400_0009, 0x12);
    write_8(&mut emu, 0x0400_0008, 0x03);
    assert_eq!(read_16(&mut emu, 0x0400_0008, false), 0x1203);
    write_16(&mut emu, 0x0400_1000, 0xFFFF);
    assert_eq!(read_16(&mut emu, 0x0400_1000, false), 0xFFF7);
    write_16(&mut emu, 0x0400_0304, 0x8203);
    assert_eq!(read_16(&mut emu, 0x0400_0304, false), 0x8203);
    assert!(emu.gpu.engine_2d_b.is_on_lower_screen());
    assert_eq!(read_32(&mut emu, 0x0400_0130, false), 0x03FF);
    assert_eq!(read_32(&mut emu, 0x0400_0ABC, false), 0);
}
