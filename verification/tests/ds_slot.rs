use dust_core::ds_slot::rom::key1::KeyBuffer;
use dust_core::ds_slot::rom::normal::{CreationError, Normal, RomOutputLen, Stage};
use dust_core::ds_slot::spi::empty::Empty;

fn rom(len: usize) -> Vec<u8> {
    (0..len).map(|i| (i * 7 + i / 256) as u8).collect()
}

#[test]
fn creation_checks_the_size() {
    assert!(matches!(Normal::new(rom(0x300), None), Err(CreationError::SizeNotPowerOfTwo)));
    assert!(matches!(Normal::new(Vec::new(), None), Err(CreationError::SizeNotPowerOfTwo)));
    assert!(matches!(Normal::new(rom(0x100), None), Err(CreationError::SizeTooSmall)));
    let device = Normal::new(rom(0x20_0000), None).unwrap();
    assert_eq!(device.chip_id(), 0xC2 | 1);
    assert_eq!(Normal::new(rom(0x200), None).unwrap().chip_id(), 0xC2);
    assert_eq!(device.stage(), Stage::Initial);
    assert!(!device.has_key());
}

#[test]
fn raw_commands_and_switch_to_key1_and_key2() {
    let contents = rom(0x1_0000);
    let mut device = Normal::new(contents.clone(), None).unwrap();
    let mut output = vec![0u8; 0x4000];
    device.handle_rom_command([0x9F, 0, 0, 0, 0, 0, 0, 0], &mut output, RomOutputLen::new(0x200));
    assert!(output[..0x200].iter().all(|b| *b == 0xFF));
    assert_eq!(output[0x200], 0);
    device.handle_rom_command([0x90, 0, 0, 0, 0, 0, 0, 0], &mut output, RomOutputLen::new(8));
    assert_eq!(&output[..8], &[0xC2, 0, 0, 0, 0xC2, 0, 0, 0]);
    device.handle_rom_command([0x00, 0, 0, 0, 0, 0, 0, 0], &mut output, RomOutputLen::new(0x2000));
    assert_eq!(&output[..0x1000], &contents[..0x1000]);
    assert_eq!(&output[0x1000..0x2000], &contents[..0x1000]);
    device.handle_rom_command([0x3C, 0, 0, 0, 0, 0, 0, 0], &mut output, RomOutputLen::new(4));
    assert_eq!(&output[..4], &[0xFF; 4]);
    assert_eq!(device.stage(), Stage::Key1);
    device.handle_key1_command(&[0x2A, 0, 0x10, 0, 0, 0, 0, 0], &mut output, RomOutputLen::new(0x200));
    assert_eq!(&output[..0x200], &contents[0x5000..0x5200]);
    assert_eq!(device.stage(), Stage::Key1);
    device.handle_key1_command(&[0xA5, 0, 0, 0, 0, 0, 0, 0], &mut output, RomOutputLen::new(0x200));
    assert!(output[..0x200].iter().all(|b| *b == 0));
    assert_eq!(device.stage(), Stage::Key2);
    let device = device.reset();
    assert_eq!(device.stage(), Stage::Initial);
}

#[test]
fn main_stage_reads_wrap_in_their_page() {
    let contents = rom(0x2_0000);
    let mut device = Normal::new(contents.clone(), None).unwrap();
    device.setup(true);
    assert_eq!(device.stage(), Stage::Key2);
    let mut output = vec![0u8; 0x4000];
    device.handle_rom_command([0xB7, 0, 0x00, 0x9F, 0xF0, 0, 0, 0], &mut output, RomOutputLen::new(0x200));
    assert_eq!(&output[..0x10], &contents[0x9FF0..0xA000]);
    assert_eq!(&output[0x10..0x200], &contents[0x9000..0x91F0]);
    // An address below 0x8000 goes to the 512 bytes from 0x8000 on.
    device.handle_rom_command([0xB7, 0, 0x00, 0x12, 0x34, 0, 0, 0], &mut output, RomOutputLen::new(4));
    assert_eq!(&output[..4], &contents[0x8034..0x8038]);
    device.handle_rom_command([0xB8, 0, 0, 0, 0, 0, 0, 0], &mut output, RomOutputLen::new(4));
    assert_eq!(&output[..4], &[0xC2, 0, 0, 0]);
    device.handle_rom_command([0x12, 0, 0, 0, 0, 0, 0, 0], &mut output, RomOutputLen::new(4));
    assert_eq!(&output[..4], &[0, 0, 0, 0]);
    let mut header = vec![0u8; 0x170];
    device.read_header(&mut header);
    assert_eq!(&header[..], &contents[..0x170]);
    let mut data = vec![0u8; 12];
    device.read(0x1_FFFA, &mut data);
    assert_eq!(&data[..8], &contents[0x1_FFF8..0x2_0000]);
    assert_eq!(&data[8..], &contents[..4]);
}

#[test]
fn key1_cipher_decrypts_what_it_encrypts() {
    let bios: Vec<u8> = (0..0x4000usize).map(|i| (i * 31 + 7) as u8).collect();
    let key = KeyBuffer::new(0x4142_4344, &bios, 2);
    let block = [0x0123_4567, 0x89AB_CDEF];
    let encrypted = key.encrypt_64_bit(block);
    assert_ne!(encrypted, block);
    assert_eq!(key.decrypt_64_bit(encrypted), block);
    let level_3 = key.level_3(2);
    assert_ne!(level_3.encrypt_64_bit(block), encrypted);
}

#[test]
fn encrypted_command_switches_to_main_stage() {
    let bios: Vec<u8> = (0..0x4000usize).map(|i| (i * 31 + 7) as u8).collect();
    let contents = rom(0x1_0000);
    let game_code = u32::from_le_bytes([contents[12], contents[13], contents[14], contents[15]]);
    let key = KeyBuffer::new(game_code, &bios, 2);
    let mut device = Normal::new(contents, Some(&bios)).unwrap();
    assert!(device.has_key());
    let mut output = vec![0u8; 0x4000];
    device.handle_rom_command([0x3C, 0, 0, 0, 0, 0, 0, 0], &mut output, RomOutputLen::new(0));
    // The command A0 00 .. 00 as the cartridge expects it: encrypted.
    let encrypted = key.encrypt_64_bit([0x0000_0000, 0xA000_0000]);
    let mut cmd = [0u8; 8];
    cmd[..4].copy_from_slice(&encrypted[1].to_be_bytes());
    cmd[4..].copy_from_slice(&encrypted[0].to_be_bytes());
    device.handle_rom_command(cmd, &mut output, RomOutputLen::new(4));
    assert_eq!(device.stage(), Stage::Key2);
    assert_eq!(&output[..4], &[0, 0, 0, 0]);
}

#[test]
fn empty_save_device_answers_zero() {
    let mut device = Empty::new();
    assert_eq!(device.write_data(0x9F, true, false), 0);
    assert_eq!(device.write_data(0x00, false, true), 0);
    assert!(device.contents().is_empty());
    assert!(!device.contents_dirty());
    device.mark_contents_dirty();
    device.mark_contents_flushed();
    device.reload_contents(&vec![1, 2, 3]);
    assert_eq!(device.reset(), Empty::new());
}
