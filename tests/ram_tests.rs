use gbemu::ram::Ram;

#[test]
fn test_wram_read_write() {
    let mut ram = Ram::new();

    ram.wram_write(0xC000, 0x42);
    assert_eq!(ram.wram_read(0xC000), 0x42);

    ram.wram_write(0xDFFF, 0xAB);
    assert_eq!(ram.wram_read(0xDFFF), 0xAB);

    ram.wram_write(0xC100, 0x55);
    assert_eq!(ram.wram_read(0xC100), 0x55);
}

#[test]
fn test_hram_read_write() {
    let mut ram = Ram::new();

    ram.hram_write(0xFF80, 0x12);
    assert_eq!(ram.hram_read(0xFF80), 0x12);

    ram.hram_write(0xFFFE, 0x34);
    assert_eq!(ram.hram_read(0xFFFE), 0x34);

    ram.hram_write(0xFFA0, 0x78);
    assert_eq!(ram.hram_read(0xFFA0), 0x78);
}

#[test]
fn test_ram_initial_state() {
    let ram = Ram::new();

    assert_eq!(ram.wram_read(0xC000), 0);
    assert_eq!(ram.wram_read(0xDFFF), 0);
    assert_eq!(ram.hram_read(0xFF80), 0);
    assert_eq!(ram.hram_read(0xFFFE), 0);
}

#[test]
fn ram_out_of_range_reads_ff() {
    let ram = Ram::new();
    assert_eq!(ram.wram_read(0xE000), 0xFF);
    assert_eq!(ram.hram_read(0xFFFF), 0xFF);
}
