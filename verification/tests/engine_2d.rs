use dust_core::gpu::engine_2d::{
    AffineBgIndex, BgControl, BgIndex, BlendCoeffsRaw, BrightnessControl, CaptureControl,
    ColorEffectsControl, Control, Engine2d, EngineA, EngineB, OamAttr1, WindowControl,
    WindowControlIndex, WindowIndex,
};

#[test]
fn control_registers_give_their_fields() {
    let control = Control(0x2B00_0A05);
    assert_eq!(control.bg_mode(), 5);
    assert!(!control.bg0_enabled());
    assert!(control.bg1_enabled());
    assert!(control.bg_enabled(BgIndex::new(1)));
    assert!(!control.bg_enabled(BgIndex::new(2)));
    assert!(control.bg_enabled(BgIndex::new(3)));
    assert_eq!(control.a_tile_base_raw(), 3);
    assert_eq!(control.a_tile_base(), 0x3_0000);
    assert_eq!(control.a_map_base_raw(), 5);
    assert_eq!(control.a_map_base(), 0x5_0000);
    let bg = BgControl(0x5F8E);
    assert_eq!(bg.priority(), 2);
    assert_eq!(bg.tile_base_raw(), 3);
    assert_eq!(bg.tile_base(), 0xC000);
    assert_eq!(bg.map_base_raw(), 0x1F);
    assert_eq!(bg.map_base(), 0xF800);
    assert_eq!(bg.size_key(), 1);
    assert!(bg.use_256_colors());
    assert_eq!(OamAttr1(0x00FF).x_start(), 255);
    assert_eq!(OamAttr1(0x0100).x_start(), -256);
    assert_eq!(OamAttr1(0xC1FF).x_start(), -1);
    assert_eq!(OamAttr1(0xC1FF).size(), 3);
    assert_eq!(BgIndex::from_affine(AffineBgIndex::new(1)).get(), 3);
}

#[test]
fn engine_follows_its_registers() {
    let mut a: Engine2d<EngineA> = Engine2d::new();
    let mut b: Engine2d<EngineB> = Engine2d::new();
    assert!(a.is_on_lower_screen());
    assert!(!b.is_on_lower_screen());
    assert!(!a.is_enabled());
    assert_eq!(a.window_control()[2], WindowControl(0x3F));
    assert_eq!(a.capture_height(), 128);
    assert_eq!(a.bg(BgIndex::new(0)).priority(), 4);

    // A background takes its priority from its control register while it is shown.
    a.write_bg_control(BgIndex::new(1), BgControl(0x0003));
    assert_eq!(a.bg(BgIndex::new(1)).priority(), 4);
    a.write_control(Control(0xFFFF_FFFF));
    b.write_control(Control(0xFFFF_FFFF));
    assert_eq!(a.control(), Control(0xFFFF_FFFF));
    assert_eq!(b.control(), Control(0xC0B3_FFF7));
    assert_eq!(a.bg(BgIndex::new(1)).priority(), 3);
    assert_eq!(a.bg(BgIndex::new(0)).priority(), 0);
    a.write_bg_control(BgIndex::new(0), BgControl(0x0002));
    assert_eq!(a.bg(BgIndex::new(0)).priority(), 2);
    a.write_control(Control(0x0000_0200));
    assert_eq!(a.bg(BgIndex::new(0)).priority(), 4);
    assert_eq!(a.bg(BgIndex::new(1)).priority(), 3);
    assert_eq!(a.bg(BgIndex::new(0)).control(), BgControl(0x0002));

    a.write_blend_coeffs_raw(BlendCoeffsRaw(0xFF0A));
    assert_eq!(a.blend_coeffs_raw(), BlendCoeffsRaw(0x1F0A));
    assert_eq!(a.blend_coeffs(), (10, 16));
    a.write_brightness_coeff(0xEF);
    assert_eq!(a.brightness_coeff(), 15);
    a.write_brightness_coeff(0x1F);
    assert_eq!(a.brightness_coeff(), 16);
    a.write_color_effects_control(ColorEffectsControl(0xFFFF));
    assert_eq!(a.color_effects_control(), ColorEffectsControl(0x3FFF));

    a.write_capture_control(CaptureControl(0xFFFF_FFFF));
    b.write_capture_control(CaptureControl(0xFFFF_FFFF));
    assert_eq!(a.capture_control(), CaptureControl(0xEF3F_1F1F));
    assert_eq!(b.capture_control(), CaptureControl(0));
    assert_eq!(a.capture_height(), 192);
    assert_eq!(b.capture_height(), 128);
    a.write_capture_control(CaptureControl(0x0010_0000));
    assert_eq!(a.capture_height(), 64);

    a.write_affine_ref_point(AffineBgIndex::new(0), [5, -7]);
    assert_eq!(a.affine_bg(AffineBgIndex::new(0)).ref_point(), [5, -7]);
    a.write_window_x_range(WindowIndex::new(1), (3, 9));
    assert_eq!(a.window_x_ranges()[1], (3, 9));
    a.write_window_control(WindowControlIndex::new(0), WindowControl(0xFF));
    assert_eq!(a.window_control()[0], WindowControl(0x3F));
    a.write_master_brightness_control(BrightnessControl(0xFFFF));
    assert_eq!(a.master_brightness_control(), BrightnessControl(0xC01F));
}

#[test]
fn capture_ends_with_the_frame() {
    let mut a: Engine2d<EngineA> = Engine2d::new();
    a.set_enabled(true, true);
    assert!(a.is_enabled());
    a.write_capture_control(CaptureControl(0x8100_0000));
    assert!(!a.capture_enabled_in_frame());
    a.end_vblank();
    assert!(a.capture_enabled_in_frame());
    assert!(a.engine_3d_enabled_in_frame());
    assert!(a.is_capturing_3d_output());
    a.start_vblank();
    assert_eq!(a.capture_control(), CaptureControl(0x0100_0000));
    a.end_vblank();
    assert!(!a.capture_enabled_in_frame());
    assert!(!a.is_capturing_3d_output());
}

#[test]
fn windows_open_and_close_by_line() {
    let mut a: Engine2d<EngineA> = Engine2d::new();
    a.write_control(Control(0x0000_2000));
    a.write_window_y_range(WindowIndex::new(0), (10, 20));
    a.update_windows(9);
    assert_eq!(a.windows_active().0, 0);
    a.update_windows(10);
    assert_eq!(a.windows_active().0, 1);
    a.update_windows(15);
    assert_eq!(a.windows_active().0, 1);
    a.update_windows(20);
    assert_eq!(a.windows_active().0, 0);
    a.update_windows(10);
    a.write_control(Control(0));
    a.update_windows(11);
    assert_eq!(a.windows_active().0, 0);
}

#[test]
fn engine_registers_read_and_write_by_address() {
    let mut a: Engine2d<EngineA> = Engine2d::new();
    a.write_16(0x08, 0x1203);
    assert_eq!(a.read_16(0x08), 0x1203);
    assert_eq!(a.bg(BgIndex::new(0)).control(), BgControl(0x1203));
    a.write_16(0x00, 0x0100);
    a.write_16(0x02, 0x0001);
    assert_eq!(a.control(), Control(0x0001_0100));
    assert_eq!(a.read_16(0x00), 0x0100);
    assert_eq!(a.read_16(0x02), 0x0001);
    a.write_16(0x12, 0x01FF);
    assert_eq!(a.bg(BgIndex::new(0)).scroll_value(1), 0x01FF);
    // The scroll registers cannot be read.
    assert_eq!(a.read_16(0x12), 0);
    a.write_16(0x50, 0xFFFF);
    assert_eq!(a.read_16(0x50), 0x3FFF);
    a.write_16(0x52, 0x1008);
    assert_eq!(a.blend_coeffs(), (8, 16));
    a.write_16(0x6C, 0x8010);
    assert_eq!(a.read_16(0x6C), 0x8010);
}
