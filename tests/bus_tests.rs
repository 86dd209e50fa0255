use gbemu::bus::{Bus, MemoryBus};
use gbemu::cart::Cartridge;

#[test]
fn test_wram_routing() {
    let mut bus = Bus::new();

    bus.write(0xC000, 0x42);
    assert_eq!(bus.read(0xC000), 0x42);

    bus.write(0xDFFF, 0xAB);
    assert_eq!(bus.read(0xDFFF), 0xAB);
}

#[test]
fn test_hram_routing() {
    let mut bus = Bus::new();

    bus.write(0xFF80, 0x12);
    assert_eq!(bus.read(0xFF80), 0x12);

    bus.write(0xFFFE, 0x34);
    assert_eq!(bus.read(0xFFFE), 0x34);
}

#[test]
fn test_ie_register() {
    let mut bus = Bus::new();

    bus.write(0xFFFF, 0x1F);
    assert_eq!(bus.read(0xFFFF), 0x1F);
    assert_eq!(bus.ie_register, 0x1F);
}

#[test]
fn test_if_register() {
    let mut bus = Bus::new();

    bus.write(0xFF0F, 0x05);
    assert_eq!(bus.read(0xFF0F) & 0x1F, 0x05);
    assert_eq!(bus.int_flags, 0x05);
}

#[test]
fn test_vram_routing() {
    let mut bus = Bus::new();

    bus.write(0x8000, 0x55);
    assert_eq!(bus.read(0x8000), 0x55);

    bus.write(0x9FFF, 0xAA);
    assert_eq!(bus.read(0x9FFF), 0xAA);
}

#[test]
fn test_oam_routing() {
    let mut bus = Bus::new();

    bus.write(0xFE00, 0x11);
    assert_eq!(bus.read(0xFE00), 0x11);

    bus.set_dma_active(true);
    assert_eq!(bus.read(0xFE00), 0xFF);
    bus.write(0xFE00, 0x22);
    bus.set_dma_active(false);
    assert_eq!(bus.read(0xFE00), 0x11);
}

#[test]
fn test_echo_ram() {
    let mut bus = Bus::new();
    bus.write(0xC000, 0x42);
    assert_eq!(bus.read(0xE000), 0x42);
}

#[test]
fn test_unusable_area() {
    let bus = Bus::new();
    assert_eq!(bus.read(0xFEA0), 0xFF);
    assert_eq!(bus.read(0xFEFF), 0xFF);
}

#[test]
fn test_read16_write16() {
    let mut bus = Bus::new();

    bus.write16(0xC000, 0x1234);
    assert_eq!(bus.read(0xC000), 0x34);
    assert_eq!(bus.read(0xC001), 0x12);
    assert_eq!(bus.read16(0xC000), 0x1234);
}

#[test]
fn if_reads_low_five_bits_with_top_bits_set() {
    let mut bus = Bus::new();
    for v in [0x00u8, 0x05, 0x1F, 0xFF, 0xA3] {
        bus.write(0xFF0F, v);
        assert_eq!(bus.read(0xFF0F), (v & 0x1F) | 0xE0);
    }
}

#[test]
fn echo_write_reaches_wram() {
    let mut bus = Bus::new();
    bus.write(0xFDFF, 0x77);
    assert_eq!(bus.read(0xDDFF), 0x77);
    bus.write(0xC123, 0x99);
    assert_eq!(bus.read(0xE123), 0x99);
}

#[test]
fn unusable_area_drops_writes() {
    let mut bus = Bus::new();
    bus.write(0xFEA5, 0x12);
    assert_eq!(bus.read(0xFEA5), 0xFF);
}

#[test]
fn word_round_trip_in_hram_and_vram() {
    let mut bus = Bus::new();
    bus.write16(0xFF90, 0xBEEF);
    assert_eq!(bus.read16(0xFF90), 0xBEEF);
    bus.write16(0x9000, 0x0102);
    assert_eq!(bus.read16(0x9000), 0x0102);
    assert!(bus.vram_dirty);
}

#[test]
fn ie_round_trip_every_value() {
    let mut bus = Bus::new();
    for v in 0..=255u8 {
        bus.write(0xFFFF, v);
        assert_eq!(bus.read(0xFFFF), v);
    }
}

#[test]
fn io_write_marks_register_written() {
    let mut bus = Bus::new();
    bus.write(0xFF46, 0xC0);
    assert!(bus.io_written[0x46]);
    assert_eq!(bus.read(0xFF46), 0xC0);
}

#[test]
fn cartridge_rom_reads_through_bus() {
    let mut rom = vec![0u8; 0x8000];
    rom[0x0150] = 0x3C;
    rom[0x4000] = 0x99;
    let cart = Cartridge::new(String::from("t.gb"), rom).unwrap();
    let mut bus = Bus::new();
    assert_eq!(bus.read(0x0150), 0xFF);
    bus.load_cartridge(cart);
    assert_eq!(bus.read(0x0150), 0x3C);
    assert_eq!(bus.read(0x4000), 0x99);
    assert_eq!(bus.read(0xA000), 0xFF);
}
