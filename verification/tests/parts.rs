use dust_core::cpu::arm9::cp15::{Cp15, Cycles};
use dust_core::cpu::interpreter::regs::Regs;
use dust_core::cpu::psr::{Mode, Psr, RegBank};
use dust_core::ds_slot::rom::normal::Normal;
use dust_core::ds_slot::spi::empty::Empty;
use dust_core::ds_slot::spi::save_type::SaveType;
use dust_core::ds_slot::{Rom, Spi};
use dust_core::emu::boot::{header_program, Program};
use dust_core::emu::swram::{Control, Swram};
use dust_core::emu::Emu;
use dust_core::gpu::Gpu;
use dust_core::wifi::WiFi;

#[test]
fn shared_ram_splits_four_ways() {
    let mut swram = Swram::new();
    assert_eq!(swram.control(), Control(0));
    assert_eq!(swram.locate(true, 0x0300_8004, 4), Some(4));
    assert_eq!(swram.locate(false, 0x0300_0004, 4), None);
    swram.write_control(Control(0xFD));
    assert_eq!(swram.control(), Control(1));
    assert_eq!(swram.locate(true, 0x0300_0006, 2), Some(0x4006));
    assert_eq!(swram.locate(false, 0x0300_4006, 2), Some(6));
    swram.write_control(Control(2));
    assert_eq!(swram.locate(true, 0x0300_4001, 1), Some(1));
    assert_eq!(swram.locate(false, 0x0300_0001, 1), Some(0x4001));
    swram.write_control(Control(3));
    assert_eq!(swram.locate(true, 0x0300_0000, 4), None);
    assert_eq!(swram.locate(false, 0x0300_7FFC, 4), Some(0x7FFC));
    swram.write_32(0x10, 0x0403_0201);
    swram.write_16(0x12, 0xBBAA);
    swram.write_8(0x10, 0xFF);
    assert_eq!(&swram.contents()[0x10..0x14], &[0xFF, 2, 0xAA, 0xBB]);
    assert_eq!(swram.contents().len(), 0x8000);
}

#[test]
fn protection_unit_decides_by_page_and_mode() {
    let mut cp15 = Cp15::new();
    assert!(cp15.high_exc_vectors());
    assert_eq!(cp15.control(), 0x2000);
    assert!(cp15.can_read(0x0200_0000, false));
    assert!(cp15.can_write(0x0200_0000, false));
    assert!(cp15.can_execute(0x0200_0000, true));
    // Privileged reads only.
    cp15.set_perms(0x0200_0000 >> 12, 0x01);
    assert!(cp15.can_read(0x0200_0FFF, true));
    assert!(!cp15.can_read(0x0200_0FFF, false));
    assert!(!cp15.can_write(0x0200_0FFF, true));
    assert!(!cp15.can_execute(0x0200_0FFF, true));
    assert!(cp15.can_read(0x0200_1000, false));
    assert_eq!(cp15.cycles(0x0200_0000), Cycles { code: 1, data: 1 });
    cp15.set_cycles(0x0200_0000 >> 14, Cycles { code: 3, data: 5 });
    assert_eq!(cp15.cycles(0x0200_3FFF), Cycles { code: 3, data: 5 });
    assert_eq!(cp15.cycles(0x0200_4000), Cycles { code: 1, data: 1 });
    cp15.write_control(0);
    assert!(!cp15.high_exc_vectors());
}

#[test]
fn save_type_follows_the_save_file_or_the_database() {
    assert_eq!(SaveType::Eeprom4k.expected_len(), Some(0x200));
    assert_eq!(SaveType::Flash8m.expected_len(), Some(0x10_0000));
    assert_eq!(SaveType::Nothing.expected_len(), None);
    assert_eq!(SaveType::from_save_len(0x2000), Some(SaveType::EepromFram64k));
    assert_eq!(SaveType::from_save_len(0x2001), None);
    assert_eq!(SaveType::select(None, None), SaveType::Nothing);
    assert_eq!(SaveType::select(Some(SaveType::Flash2m), None), SaveType::Flash2m);
    assert_eq!(SaveType::select(None, Some(0x8_0000)), SaveType::Flash4m);
    assert_eq!(SaveType::select(None, Some(7)), SaveType::Nothing);
    assert_eq!(SaveType::select(Some(SaveType::Flash2m), Some(0x4_0000)), SaveType::Flash2m);
    assert_eq!(SaveType::select(Some(SaveType::Flash2m), Some(0x200)), SaveType::Eeprom4k);
    assert_eq!(SaveType::select(Some(SaveType::Flash2m), Some(7)), SaveType::Flash2m);
    assert_eq!(SaveType::select(Some(SaveType::Nothing), Some(0x200)), SaveType::Eeprom4k);
}

#[test]
fn debugger_writes_registers_of_any_bank() {
    let mut regs = Regs::startup();
    // The CPU starts in supervisor mode.
    regs.set_banked_reg(RegBank::Supervisor, 13, 0x111);
    assert_eq!(regs.reg(13), 0x111);
    regs.set_banked_reg(RegBank::Irq, 13, 0x222);
    regs.set_banked_reg(RegBank::Irq, 14, 0x333);
    assert_eq!(regs.reg(13), 0x111);
    assert_eq!(regs.banked_r13_14(RegBank::Irq.index()), [0x222, 0x333]);
    regs.set_banked_reg(RegBank::User, 3, 7);
    regs.set_banked_reg(RegBank::Fiq, 15, 0x100);
    assert_eq!(regs.reg(3), 7);
    assert_eq!(regs.reg(15), 0x100);
    regs.set_banked_reg(RegBank::Fiq, 9, 0x444);
    regs.set_banked_reg(RegBank::User, 9, 0x555);
    assert_eq!(regs.reg(9), 0x555);
    regs.update_mode(Mode::supervisor(), Mode::fiq());
    regs.set_cpsr(Psr::from_raw(0x11));
    assert_eq!(regs.reg(9), 0x444);
    regs.set_banked_reg(RegBank::Abort, 10, 0x666);
    assert_eq!(regs.reg(10), 0);
    regs.update_mode(Mode::fiq(), Mode::irq());
    regs.set_cpsr(Psr::from_raw(0x12));
    assert_eq!(regs.reg(10), 0x666);
    assert_eq!(regs.reg(13), 0x222);
    assert_eq!(regs.reg(14), 0x333);
    regs.set_banked_reg(RegBank::Irq, 14, 0x777);
    assert_eq!(regs.reg(14), 0x777);
}

#[test]
fn machine_starts_from_zero() {
    let emu = Emu::new(vec![1u8; 0x4000], vec![2u8; 0x1000], Rom::Empty, Spi::Empty(Empty::new()));
    assert_eq!(emu.main_mem.len(), 0x40_0000);
    assert!(emu.main_mem.iter().all(|b| *b == 0));
    assert_eq!(emu.arm7.bios[0], 1);
    assert_eq!(emu.arm9.bios[0xFFF], 2);
    assert_eq!(emu.input_status, 0x007F_03FF);
    assert_eq!(emu.arm9.engine_data.cpsr().raw(), 0xD3);
    assert_eq!(emu.arm7.engine_data.cpsr().raw(), 0xD3);
    assert_eq!(emu.arm9.engine_data.r15(), 0);
    assert!(!emu.arm7_gba_slot_access());
    assert!(!emu.arm9.hle_bios_enabled);
    assert_eq!(emu.arm9.dma.running, 0);
    assert!(emu.gpu.engine_2d_a.is_on_lower_screen());
    assert_eq!(emu.swram.control().0, 0);
}

#[test]
fn display_registers_keep_their_bits() {
    let mut gpu = Gpu::new();
    gpu.write_disp_status_9(0xFFFF);
    assert_eq!(gpu.disp_status_9, 0xFFB8);
    gpu.write_power_control(0xFFFF);
    assert_eq!(gpu.power_control, 0x820F);
    assert!(!gpu.engine_2d_a.is_on_lower_screen());
    gpu.write_power_control(0x8003);
    assert!(gpu.engine_2d_a.is_enabled());
    assert!(!gpu.engine_2d_b.is_enabled());
    assert!(gpu.engine_2d_b.is_on_lower_screen() != gpu.engine_2d_a.is_on_lower_screen());
}

#[test]
fn wifi_and_empty_save_device() {
    let wifi = WiFi::new();
    assert_eq!(wifi.mmio.len(), 0x1000);
    assert_eq!(wifi.mmio[0x3D], 0x02);
    assert_eq!(wifi.ram.len(), 0x2000);
    assert_eq!(wifi.bb_reg(0x00), 0x6D);
    assert_eq!(wifi.bb_reg(0x4D), 0xBF);
    assert_eq!(wifi.bb_reg(0x5D), 0x01);
    assert_eq!(wifi.bb_reg(0x64), 0xFF);
    assert_eq!(wifi.bb_reg(0x01), 0);
    let mut device = Empty::new();
    assert_eq!(device.write_data(0x9F, true, false), 0);
    assert_eq!(device.write_data(0, false, true), 0);
    assert!(device.contents().is_empty());
    assert!(!device.contents_dirty());
    device.mark_contents_dirty();
    assert!(!device.contents_dirty());
    device.reload_contents(&vec![1, 2, 3]);
    assert!(device.contents().is_empty());
}

#[test]
fn program_is_copied_from_the_cartridge() {
    let mut rom = vec![0u8; 0x1000];
    rom[0x20..0x24].copy_from_slice(&0x200u32.to_le_bytes());
    rom[0x24..0x28].copy_from_slice(&0x0200_0800u32.to_le_bytes());
    rom[0x28..0x2C].copy_from_slice(&0x0200_0800u32.to_le_bytes());
    rom[0x2C..0x30].copy_from_slice(&8u32.to_le_bytes());
    rom[0x30..0x34].copy_from_slice(&0x400u32.to_le_bytes());
    rom[0x34..0x38].copy_from_slice(&0x0380_0000u32.to_le_bytes());
    rom[0x38..0x3C].copy_from_slice(&0x0380_0000u32.to_le_bytes());
    rom[0x3C..0x40].copy_from_slice(&4u32.to_le_bytes());
    rom[0x200..0x204].copy_from_slice(&0xE3A0_0001u32.to_le_bytes());
    rom[0x204..0x208].copy_from_slice(&0xEAFF_FFFEu32.to_le_bytes());
    rom[0x400..0x404].copy_from_slice(&0xEAFF_FFFEu32.to_le_bytes());
    let program9 = header_program(&rom, false);
    let program7 = header_program(&rom, true);
    assert_eq!(
        program9,
        Program { rom_offset: 0x200, entry: 0x0200_0800, ram_addr: 0x0200_0800, size: 8 }
    );
    assert_eq!(program7.ram_addr, 0x0380_0000);
    let mut normal = Normal::new(rom, None).unwrap();
    normal.setup(true);
    let mut emu =
        Emu::new(vec![0u8; 0x4000], vec![0u8; 0x1000], Rom::Normal(normal), Spi::Empty(Empty::new()));
    assert!(emu.load_program(false, 0x200, program9.ram_addr, 2));
    assert!(emu.load_program(true, 0x400, program7.ram_addr, 1));
    assert!(!emu.load_program(false, 0xFFC, 0x0200_0000, 2));
    assert!(!emu.load_program(false, 0x2000, 0x0200_0000, 0));
    assert!(emu.load_program(false, 0x1000, 0x0200_0000, 0));
    assert_eq!(&emu.main_mem[0x800..0x808], &[1, 0, 0xA0, 0xE3, 0xFE, 0xFF, 0xFF, 0xEA]);
    assert_eq!(&emu.arm7.wram[0..4], &[0xFE, 0xFF, 0xFF, 0xEA]);
    assert_eq!(emu.main_mem[0], 0);
    let mut emu = Emu::new(vec![0u8; 0x4000], vec![0u8; 0x1000], Rom::Empty, Spi::Empty(Empty::new()));
    assert!(!emu.load_program(false, 0, 0x0200_0000, 0));
}
