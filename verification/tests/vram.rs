use dust_core::gpu::vram::{BankControl, Vram, ACCESS_R, ACCESS_RW, A_BG, B_BG};

#[test]
fn bank_a_written_through_bg_window_shows_in_lcdc() {
    let mut vram = Vram::new();
    // Bank A as the first 128 KiB of engine A's background memory.
    vram.write_bank_control_a(BankControl(0x81));
    for region in 0..8 {
        assert_eq!(vram.mapped(A_BG, region), 1);
        assert_eq!(vram.access(A_BG, region), ACCESS_RW);
    }
    assert_eq!(vram.mapped(A_BG, 8), 0);
    vram.write_window_32(A_BG, 0, 0xDEAD_BEEF);
    assert_eq!(vram.read_window_32(A_BG, 0), 0xDEAD_BEEF);
    // Remapped to the LCDC window, the bank holds what was written.
    vram.write_bank_control_a(BankControl(0x80));
    assert!(vram.lcdc_mapped(0));
    assert_eq!(vram.mapped(A_BG, 0), 0);
    assert_eq!(vram.read_window_32(A_BG, 0), 0);
    assert_eq!(&vram.bank(0)[0..4], &[0xEF, 0xBE, 0xAD, 0xDE]);
    assert_eq!(vram.bank_control()[0], BankControl(0x80));
}

#[test]
fn two_banks_show_their_or_and_writes_reach_the_bank_that_stays() {
    let mut vram = Vram::new();
    vram.write_bank_control_a(BankControl(0x80));
    vram.write_bank_control_b(BankControl(0x80));
    vram.write_lcdc_16(0, 6, 0x0F01);
    vram.write_lcdc_16(1, 6, 0x30F0);
    vram.write_bank_control_a(BankControl(0x81));
    vram.write_bank_control_b(BankControl(0x81));
    assert_eq!(vram.mapped(A_BG, 0), 3);
    assert_eq!(vram.access(A_BG, 0), ACCESS_R);
    assert_eq!(vram.read_window_16(A_BG, 6), 0x3FF1);
    assert_eq!(vram.read_window_8(A_BG, 7), 0x3F);
    vram.write_window_16(A_BG, 6, 0x00AB);
    vram.write_bank_control_b(BankControl(0));
    assert_eq!(vram.bank(0)[6], 0xAB);
    assert_eq!(vram.bank(0)[7], 0x00);
    assert_eq!(vram.bank(1)[6], 0xAB);
    assert_eq!(vram.read_window_16(A_BG, 6), 0x00AB);
    // A byte that was not written shows the bank that is left alone again.
    assert_eq!(vram.read_window_16(A_BG, 8), 0);
    assert_eq!(vram.mapped(A_BG, 0), 1);
    assert_eq!(vram.access(A_BG, 0), ACCESS_RW);
}

#[test]
fn small_banks_are_mirrored_and_invalid_settings_map_nothing() {
    let mut vram = Vram::new();
    vram.write_bank_control_h(BankControl(0x80));
    vram.write_lcdc_16(7, 0x10, 0x1234);
    vram.write_bank_control_h(BankControl(0x81));
    assert_eq!(vram.mapped(B_BG, 0), 2);
    assert_eq!(vram.mapped(B_BG, 2), 2);
    assert_eq!(vram.read_window_16(B_BG, 0x10), 0x1234);
    assert_eq!(vram.read_window_16(B_BG, 0x1_0010), 0x1234);
    assert_eq!(vram.access(B_BG, 0), ACCESS_R);
    // Bank C with a mapping selector that selects nothing.
    vram.write_bank_control_c(BankControl(0x87));
    assert_eq!(vram.bank_control()[2], BankControl(0x87));
    assert!(!vram.lcdc_mapped(2));
    assert_eq!(vram.arm7_status(), 0);
    vram.write_bank_control_c(BankControl(0x82));
    assert_eq!(vram.arm7_status(), 1);
    vram.flush_writeback();
    vram.restore_mappings();
    assert_eq!(vram.read_window_16(B_BG, 0x10), 0x1234);
}
