use gbemu::lcd::{Lcd, PpuMode};

#[test]
fn test_lcd_new() {
    let lcd = Lcd::new();
    assert_eq!(lcd.lcdc, 0x91);
    assert_eq!(lcd.bgp, 0xFC);
    assert!(lcd.lcd_enabled());
    assert!(lcd.bg_window_enabled());
}

#[test]
fn test_lcdc_bits() {
    let mut lcd = Lcd::new();

    lcd.lcdc = 0xFF;
    assert!(lcd.lcd_enabled());
    assert!(lcd.window_enabled());
    assert!(lcd.sprites_enabled());
    assert!(lcd.bg_window_enabled());
    assert_eq!(lcd.sprite_height(), 16);
    assert_eq!(lcd.window_tile_map(), 0x9C00);
    assert_eq!(lcd.bg_tile_map(), 0x9C00);
    assert_eq!(lcd.bg_tile_data(), 0x8000);

    lcd.lcdc = 0x00;
    assert!(!lcd.lcd_enabled());
    assert!(!lcd.window_enabled());
    assert!(!lcd.sprites_enabled());
    assert!(!lcd.bg_window_enabled());
    assert_eq!(lcd.sprite_height(), 8);
    assert_eq!(lcd.window_tile_map(), 0x9800);
    assert_eq!(lcd.bg_tile_map(), 0x9800);
    assert_eq!(lcd.bg_tile_data(), 0x8800);
}

#[test]
fn test_stat_mode() {
    let mut lcd = Lcd::new();

    lcd.set_mode(PpuMode::OamScan);
    assert_eq!(lcd.mode(), PpuMode::OamScan);

    lcd.set_mode(PpuMode::Transfer);
    assert_eq!(lcd.mode(), PpuMode::Transfer);

    lcd.set_mode(PpuMode::HBlank);
    assert_eq!(lcd.mode(), PpuMode::HBlank);

    lcd.set_mode(PpuMode::VBlank);
    assert_eq!(lcd.mode(), PpuMode::VBlank);
}

#[test]
fn test_lyc_coincidence() {
    let mut lcd = Lcd::new();
    lcd.stat = 0x40;

    lcd.lyc = 10;
    lcd.set_ly(10);

    assert!(lcd.lyc_flag());
    assert!(lcd.stat_interrupt);
}

#[test]
fn test_ly_read_only() {
    let mut lcd = Lcd::new();
    lcd.ly = 50;

    lcd.write(0xFF44, 0x00);

    assert_eq!(lcd.ly, 50);
}

#[test]
fn test_palette_colors() {
    let mut lcd = Lcd::new();
    lcd.bgp = 0b11_10_01_00;

    assert_eq!(lcd.bg_color(0), 0);
    assert_eq!(lcd.bg_color(1), 1);
    assert_eq!(lcd.bg_color(2), 2);
    assert_eq!(lcd.bg_color(3), 3);
}

#[test]
fn stat_reads_bit_seven_and_keeps_low_bits() {
    let mut lcd = Lcd::new();
    lcd.write(0xFF41, 0x07);
    assert_eq!(lcd.read(0xFF41), 0x82);
    lcd.write(0xFF41, 0x78);
    assert_eq!(lcd.read(0xFF41), 0xFA);
    assert_eq!(lcd.read(0xFF46), 0xFF);
}

#[test]
fn stat_interrupt_fires_on_rising_edge_only() {
    let mut lcd = Lcd::new();
    lcd.stat = 0x08; // HBlank source enabled
    lcd.set_mode(PpuMode::HBlank);
    assert!(lcd.stat_interrupt);
    lcd.clear_stat_interrupt();
    lcd.set_mode(PpuMode::HBlank);
    assert!(!lcd.stat_interrupt);
    lcd.set_mode(PpuMode::OamScan);
    lcd.set_mode(PpuMode::HBlank);
    assert!(lcd.stat_interrupt);
}

#[test]
fn sprite_palettes() {
    let mut lcd = Lcd::new();
    lcd.obp0 = 0b00_01_10_11;
    lcd.obp1 = 0b11_11_00_00;
    assert_eq!(lcd.sprite_color_0(0), 3);
    assert_eq!(lcd.sprite_color_0(3), 0);
    assert_eq!(lcd.sprite_color_1(3), 3);
    assert_eq!(lcd.sprite_color_1(1), 0);
}
