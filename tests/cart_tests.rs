use gbemu::cart::{
    Cartridge, RomHeader, HEADER_CART_TYPE, HEADER_CHECKSUM, HEADER_LIC_CODE, HEADER_RAM_SIZE, HEADER_ROM_SIZE,
    HEADER_TITLE_START, HEADER_VERSION,
};

fn create_test_rom() -> Vec<u8> {
    let mut rom = vec![0u8; 0x8000];
    let title = b"TEST ROM";
    for (i, &b) in title.iter().enumerate() {
        rom[HEADER_TITLE_START + i] = b;
    }
    rom[HEADER_CART_TYPE] = 0x00;
    rom[HEADER_ROM_SIZE] = 0x00;
    rom[HEADER_RAM_SIZE] = 0x00;
    rom[HEADER_LIC_CODE] = 0x00;
    rom[HEADER_VERSION] = 0x00;
    rom[HEADER_CHECKSUM] = Cartridge::calculate_checksum(&rom);
    rom
}

fn mbc1_rom(banks: usize) -> Vec<u8> {
    let mut rom = vec![0u8; banks * 0x4000];
    for b in 0..banks {
        rom[b * 0x4000] = b as u8;
        rom[b * 0x4000 + 1] = 0xA5;
    }
    rom[HEADER_CART_TYPE] = 0x03;
    rom[HEADER_RAM_SIZE] = 0x03;
    rom
}

#[test]
fn test_header_parse() {
    let rom = create_test_rom();
    let header = RomHeader::parse(&rom).unwrap();

    assert_eq!(header.title, "TEST ROM");
    assert_eq!(header.cart_type, 0x00);
    assert_eq!(header.rom_size, 0x00);
    assert_eq!(header.ram_size, 0x00);
}

#[test]
fn test_checksum_calculation() {
    let rom = create_test_rom();
    assert!(Cartridge::validate_checksum(&rom));
}

#[test]
fn test_rom_size_bytes() {
    let rom = create_test_rom();
    let header = RomHeader::parse(&rom).unwrap();
    assert_eq!(header.rom_size_bytes(), 32768);
}

#[test]
fn test_cart_type_name() {
    let rom = create_test_rom();
    let header = RomHeader::parse(&rom).unwrap();
    assert_eq!(header.cart_type_name(), "ROM ONLY");
}

#[test]
fn short_rom_has_no_header() {
    assert!(RomHeader::parse(&vec![0u8; 0x14F]).is_none());
    assert!(Cartridge::new(String::from("x"), vec![0u8; 0x100]).is_none());
    assert!(!Cartridge::validate_checksum(&vec![0u8; 0x14F]));
    assert_eq!(Cartridge::calculate_checksum(&vec![0u8; 0x10]), 0);
}

#[test]
fn checksum_of_zero_header_is_fold_of_minus_one() {
    let rom = vec![0u8; 0x150];
    // 25 bytes of zero: 0 - 25 (mod 256)
    assert_eq!(Cartridge::calculate_checksum(&rom), 0xE7);
    let mut bad = create_test_rom();
    bad[HEADER_CHECKSUM] ^= 1;
    assert!(!Cartridge::validate_checksum(&bad));
}

#[test]
fn header_sizes_and_flags() {
    let mut rom = create_test_rom();
    rom[HEADER_ROM_SIZE] = 6;
    rom[HEADER_RAM_SIZE] = 4;
    rom[HEADER_CART_TYPE] = 0x1B;
    let h = RomHeader::parse(&rom).unwrap();
    assert_eq!(h.rom_size_bytes(), 2 * 1024 * 1024);
    assert_eq!(h.ram_size_bytes(), 131072);
    assert!(h.has_battery());
    assert!(h.has_ram());
    assert_eq!(h.cart_type_name(), "MBC5+RAM+BATTERY");
    rom[HEADER_RAM_SIZE] = 5;
    assert_eq!(RomHeader::parse(&rom).unwrap().ram_size_bytes(), 65536);
    rom[HEADER_CART_TYPE] = 0x01;
    let h = RomHeader::parse(&rom).unwrap();
    assert!(!h.has_battery());
    assert!(!h.has_ram());
}

#[test]
fn header_round_trip() {
    let mut rom = create_test_rom();
    rom[HEADER_CART_TYPE] = 0x13;
    rom[HEADER_ROM_SIZE] = 0x05;
    rom[HEADER_RAM_SIZE] = 0x03;
    rom[HEADER_LIC_CODE] = 0x33;
    rom[HEADER_VERSION] = 0x01;
    rom[HEADER_CHECKSUM] = Cartridge::calculate_checksum(&rom);
    let h = RomHeader::parse(&rom).unwrap();
    assert_eq!(h.to_bytes(), rom[0x134..0x14E].to_vec());
}

#[test]
fn title_stops_at_first_zero() {
    let mut rom = create_test_rom();
    for i in 0..16 {
        rom[HEADER_TITLE_START + i] = b'A' + i as u8;
    }
    assert_eq!(RomHeader::parse(&rom).unwrap().title, "ABCDEFGHIJKLMNOP");
    rom[HEADER_TITLE_START + 3] = 0;
    assert_eq!(RomHeader::parse(&rom).unwrap().title, "ABC");
}

#[test]
fn mbc1_bank_zero_maps_to_bank_one() {
    let rom = mbc1_rom(128);
    let mut cart = Cartridge::new(String::from("big.gb"), rom).unwrap();
    cart.write(0x2000, 0x00);
    assert_eq!(cart.read(0x4000), 1);
    assert_eq!(cart.read(0x4001), 0xA5);
    cart.write(0x2000, 0x05);
    assert_eq!(cart.read(0x4000), 5);
    cart.write(0x2000, 0x20);
    assert_eq!(cart.read(0x4000), 1);
    assert_eq!(cart.read(0x0000), 0);
}

#[test]
fn mbc1_upper_bits_and_advanced_mode() {
    let rom = mbc1_rom(128);
    let mut cart = Cartridge::new(String::from("big.gb"), rom).unwrap();
    cart.write(0x2000, 0x02);
    cart.write(0x4000, 0x01);
    assert_eq!(cart.read(0x4000), 0x22);
    assert_eq!(cart.read(0x0000), 0);
    cart.write(0x6000, 0x01);
    assert_eq!(cart.read(0x0000), 0x20);
    assert_eq!(cart.read(0x4000), 0x22);
    cart.write(0x2000, 0x01);
    assert_eq!(cart.read(0x4000), 0x21);
}

#[test]
fn cart_ram_gated_by_enable() {
    let rom = mbc1_rom(4);
    let mut cart = Cartridge::new(String::from("r.gb"), rom).unwrap();
    cart.write(0xA000, 0x12);
    assert_eq!(cart.read(0xA000), 0xFF);
    assert!(!cart.needs_save());
    cart.write(0x0000, 0x0A);
    cart.write(0xA000, 0x12);
    assert_eq!(cart.read(0xA000), 0x12);
    assert!(cart.needs_save());
    cart.write(0x0000, 0x00);
    assert_eq!(cart.read(0xA000), 0xFF);
}

#[test]
fn mbc5_bank_zero_is_bank_zero() {
    let mut rom = mbc1_rom(8);
    rom[HEADER_CART_TYPE] = 0x19;
    let mut cart = Cartridge::new(String::from("m5.gb"), rom).unwrap();
    cart.write(0x2000, 0x00);
    assert_eq!(cart.read(0x4000), 0);
    cart.write(0x2000, 0x0B);
    assert_eq!(cart.read(0x4000), 3);
}

#[test]
fn rom_only_ignores_bank_writes() {
    let mut rom = mbc1_rom(2);
    rom[HEADER_CART_TYPE] = 0x00;
    let mut cart = Cartridge::new(String::from("p.gb"), rom).unwrap();
    cart.write(0x2000, 0x00);
    assert_eq!(cart.read(0x4000), 1);
}

#[test]
fn battery_save_loads_into_ram() {
    let rom = mbc1_rom(4);
    let mut cart = Cartridge::new(String::from("s.gb"), rom).unwrap();
    cart.load_battery_save(&[1, 2, 3]);
    cart.write(0x0000, 0x0A);
    assert_eq!(cart.read(0xA000), 1);
    assert_eq!(cart.read(0xA002), 3);
    assert_eq!(cart.read(0xA003), 0);
}
