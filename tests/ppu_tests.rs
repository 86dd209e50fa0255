use gbemu::lcd::{Lcd, PpuMode};
use gbemu::ppu::{Ppu, SCREEN_HEIGHT, SCREEN_WIDTH};

#[test]
fn test_ppu_new() {
    let ppu = Ppu::new();
    assert_eq!(ppu.vram.len(), 0x2000);
    assert_eq!(ppu.oam.len(), 160);
    assert_eq!(ppu.video_buffer.len(), SCREEN_WIDTH * SCREEN_HEIGHT);
}

#[test]
fn test_vram_read_write() {
    let mut ppu = Ppu::new();

    ppu.vram_write(0x8000, 0x42);
    assert_eq!(ppu.vram_read(0x8000), 0x42);

    ppu.vram_write(0x9FFF, 0x55);
    assert_eq!(ppu.vram_read(0x9FFF), 0x55);
}

#[test]
fn test_oam_read_write() {
    let mut ppu = Ppu::new();

    ppu.oam_write(0xFE00, 0x10);
    assert_eq!(ppu.oam_read(0xFE00), 0x10);

    ppu.oam_write(0xFE9F, 0x20);
    assert_eq!(ppu.oam_read(0xFE9F), 0x20);
}

#[test]
fn test_oam_entry() {
    let mut ppu = Ppu::new();

    ppu.oam[0] = 32;
    ppu.oam[1] = 16;
    ppu.oam[2] = 5;
    ppu.oam[3] = 0b11110000;

    let entry = ppu.get_oam_entry(0);
    assert_eq!(entry.y, 32);
    assert_eq!(entry.x, 16);
    assert_eq!(entry.tile, 5);
    assert!(entry.bg_priority());
    assert!(entry.y_flip());
    assert!(entry.x_flip());
    assert!(entry.palette_number());
}

#[test]
fn test_color_to_argb() {
    let ppu = Ppu::new();

    assert_eq!(ppu.color_to_argb(0), 0xFF9BBC0F);
    assert_eq!(ppu.color_to_argb(3), 0xFF0F380F);
}

fn run_until_ly(ppu: &mut Ppu, lcd: &mut Lcd, ly: u8) -> u32 {
    let mut n = 0;
    while lcd.ly != ly {
        ppu.tick(lcd);
        n += 1;
        assert!(n < 200_000);
    }
    n
}

#[test]
fn scanline_takes_456_cycles() {
    let mut ppu = Ppu::new();
    let mut lcd = Lcd::new();
    assert_eq!(run_until_ly(&mut ppu, &mut lcd, 1), 456);
    assert_eq!(lcd.mode(), PpuMode::OamScan);
    for _ in 0..80 {
        ppu.tick(&mut lcd);
    }
    assert_eq!(lcd.mode(), PpuMode::Transfer);
    for _ in 0..172 {
        ppu.tick(&mut lcd);
    }
    assert_eq!(lcd.mode(), PpuMode::HBlank);
}

#[test]
fn frame_enters_vblank_and_wraps() {
    let mut ppu = Ppu::new();
    let mut lcd = Lcd::new();
    run_until_ly(&mut ppu, &mut lcd, 144);
    assert_eq!(lcd.mode(), PpuMode::VBlank);
    assert!(ppu.vblank_interrupt);
    assert_eq!(ppu.current_frame, 1);
    run_until_ly(&mut ppu, &mut lcd, 0);
    assert_eq!(lcd.mode(), PpuMode::OamScan);
    assert_eq!(run_until_ly(&mut ppu, &mut lcd, 1), 456);
}

#[test]
fn lcd_off_suspends() {
    let mut ppu = Ppu::new();
    let mut lcd = Lcd::new();
    lcd.lcdc = 0x11;
    for _ in 0..1000 {
        ppu.tick(&mut lcd);
    }
    assert_eq!(ppu.line_ticks, 0);
    assert_eq!(lcd.ly, 0);
}

#[test]
fn stat_coincidence_fires_once() {
    let mut ppu = Ppu::new();
    let mut lcd = Lcd::new();
    lcd.write(0xFF41, 0x40);
    lcd.write(0xFF45, 40);
    let mut count = 0;
    while lcd.ly != 41 {
        ppu.tick(&mut lcd);
        if lcd.stat_interrupt {
            count += 1;
            assert_eq!(lcd.ly, 40);
            lcd.clear_stat_interrupt();
        }
    }
    assert_eq!(count, 1);
}

#[test]
fn background_tile_renders_through_palette() {
    let mut ppu = Ppu::new();
    let mut lcd = Lcd::new();
    lcd.bgp = 0b11_10_01_00;
    // tile 1, row 0: colour 3 at pixel 0, colour 1 at pixel 1
    ppu.vram[0x10] = 0b1100_0000;
    ppu.vram[0x11] = 0b1000_0000;
    ppu.vram[0x1800] = 1;
    run_until_ly(&mut ppu, &mut lcd, 1);
    assert_eq!(ppu.video_buffer[0], ppu.color_to_argb(3));
    assert_eq!(ppu.video_buffer[1], ppu.color_to_argb(1));
    assert_eq!(ppu.video_buffer[2], ppu.color_to_argb(0));
}

#[test]
fn sprite_over_background() {
    let mut ppu = Ppu::new();
    let mut lcd = Lcd::new();
    lcd.lcdc = 0x93;
    lcd.obp0 = 0b11_10_01_00;
    // sprite 0 at screen (0, 0) using tile 2, row 0 all colour 2
    ppu.oam[0] = 16;
    ppu.oam[1] = 8;
    ppu.oam[2] = 2;
    ppu.oam[3] = 0;
    ppu.vram[0x20] = 0x00;
    ppu.vram[0x21] = 0xFF;
    run_until_ly(&mut ppu, &mut lcd, 1);
    assert_eq!(ppu.line_sprites.len(), 1);
    for x in 0..8 {
        assert_eq!(ppu.video_buffer[x], ppu.color_to_argb(2));
    }
    assert_eq!(ppu.video_buffer[8], ppu.color_to_argb(0));
}

#[test]
fn oam_scan_keeps_ten_sorted_by_x() {
    let mut ppu = Ppu::new();
    let mut lcd = Lcd::new();
    lcd.lcdc = 0x93;
    for i in 0..12usize {
        ppu.oam[i * 4] = 16;
        ppu.oam[i * 4 + 1] = (100 - i * 5) as u8;
        ppu.oam[i * 4 + 2] = i as u8;
    }
    for _ in 0..80 {
        ppu.tick(&mut lcd);
    }
    assert_eq!(ppu.line_sprites.len(), 10);
    for w in ppu.line_sprites.windows(2) {
        assert!(w[0].x <= w[1].x);
    }
    assert_eq!(ppu.line_sprites[0].tile, 9);
}

#[test]
fn lcd_reenable_starts_at_line_zero_in_oam_scan() {
    let mut ppu = Ppu::new();
    let mut lcd = Lcd::new();
    run_until_ly(&mut ppu, &mut lcd, 5);
    for _ in 0..100 {
        ppu.tick(&mut lcd);
    }
    let mode = lcd.mode();
    lcd.write(0xFF40, 0x11);
    for _ in 0..1000 {
        ppu.tick(&mut lcd);
    }
    assert_eq!(lcd.ly, 5);
    assert_eq!(lcd.mode(), mode);
    lcd.write(0xFF40, 0x91);
    ppu.restart_line();
    assert_eq!(lcd.ly, 0);
    assert_eq!(lcd.mode(), PpuMode::OamScan);
    assert_eq!(run_until_ly(&mut ppu, &mut lcd, 1), 456);
}
