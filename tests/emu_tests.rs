use gbemu::emu::Emulator;
use gbemu::gamepad::Button;

fn rom_with_program(program: &[u8]) -> Vec<u8> {
    let mut rom = vec![0u8; 0x8000];
    for (i, b) in program.iter().enumerate() {
        rom[0x100 + i] = *b;
    }
    rom
}

#[test]
fn short_image_is_rejected() {
    assert!(Emulator::new(String::from("x.gb"), vec![0u8; 0x20]).is_err());
}

#[test]
fn post_boot_register_defaults() {
    let emu = Emulator::new(String::from("x.gb"), rom_with_program(&[])).unwrap();
    assert_eq!(emu.cpu.regs.pc, 0x0100);
    assert_eq!(emu.cpu.regs.af(), 0x01B0);
    assert_eq!(emu.bus.read(0xFF40), 0x91);
    assert_eq!(emu.bus.read(0xFF47), 0xFC);
    assert_eq!(emu.bus.read(0xFF24), 0x77);
    assert_eq!(emu.bus.read(0xFF25), 0xF3);
    assert_eq!(emu.bus.read(0xFF10), 0x80);
    assert_eq!(emu.bus.read(0xFF11), 0xBF);
    assert_eq!(emu.bus.read(0xFF12), 0xF3);
    assert_eq!(emu.bus.read(0xFF26), 0xF1);
    assert_eq!(emu.bus.read(0xFF41), 0x82);
    assert!(emu.is_running());
    assert!(!emu.is_paused());
}

#[test]
fn program_runs_and_charges_cycles() {
    // LD A,0x42 ; LD (0xC000),A ; NOP
    let mut emu = Emulator::new(String::from("x.gb"), rom_with_program(&[0x3E, 0x42, 0xEA, 0x00, 0xC0, 0x00])).unwrap();
    assert!(emu.step());
    assert!(emu.step());
    assert_eq!(emu.bus.read(0xC000), 0x42);
    assert_eq!(emu.ctx.ticks, 8 + 16);
    assert!(emu.step());
    assert_eq!(emu.ctx.ticks, 8 + 16 + 4);
}

#[test]
fn undefined_opcode_stops() {
    let mut emu = Emulator::new(String::from("x.gb"), rom_with_program(&[0xD3])).unwrap();
    assert!(!emu.step());
    assert!(!emu.is_running());
}

#[test]
fn paused_emulator_does_nothing() {
    let mut emu = Emulator::new(String::from("x.gb"), rom_with_program(&[0x3C])).unwrap();
    emu.pause();
    assert!(emu.step());
    assert_eq!(emu.cpu.regs.pc, 0x0100);
    emu.toggle_pause();
    assert!(emu.step());
    assert_eq!(emu.cpu.regs.pc, 0x0101);
    emu.stop();
    assert!(!emu.is_running());
}

#[test]
fn dma_gates_oam_reads_then_copies() {
    let mut emu = Emulator::new(String::from("x.gb"), rom_with_program(&[])).unwrap();
    for i in 0..0xA0u16 {
        emu.bus.write(0xC000 + i, (i as u8) ^ 0x5A);
    }
    emu.bus.write(0xFF46, 0xC0);
    assert!(emu.step());
    assert!(emu.dma.active);
    for a in 0xFE00..=0xFE9Fu16 {
        assert_eq!(emu.bus.read(a), 0xFF);
    }
    let mut n = 0;
    while emu.dma.active {
        emu.step();
        n += 1;
        assert!(n < 100);
    }
    for i in 0..0xA0u16 {
        assert_eq!(emu.bus.read(0xFE00 + i), (i as u8) ^ 0x5A);
        assert_eq!(emu.ppu.oam[i as usize], (i as u8) ^ 0x5A);
    }
}

#[test]
fn div_write_through_bus_resets_timer() {
    let mut emu = Emulator::new(String::from("x.gb"), rom_with_program(&[])).unwrap();
    emu.step();
    emu.bus.write(0xFF04, 0x12);
    emu.step();
    assert!(emu.timer.div < 16);
    assert_eq!(emu.bus.read(0xFF04), 0);
}

#[test]
fn vblank_interrupt_is_dispatched() {
    // EI ; then loop: JR -2
    let mut emu = Emulator::new(String::from("x.gb"), rom_with_program(&[0xFB, 0x18, 0xFE])).unwrap();
    emu.bus.write(0xFFFF, 0x01);
    let mut steps = 0;
    while emu.cpu.regs.pc != 0x0040 {
        emu.step();
        steps += 1;
        assert!(steps < 40_000);
    }
    assert!(!emu.cpu.ime);
    assert_eq!(emu.bus.read(0xFF0F) & 0x01, 0);
}

#[test]
fn run_frame_completes_a_frame() {
    let mut emu = Emulator::new(String::from("x.gb"), rom_with_program(&[0x18, 0xFE])).unwrap();
    emu.run_frame();
    assert_eq!(emu.current_frame(), 1);
    assert_eq!(emu.get_video_buffer().len(), 160 * 144);
    let audio = emu.get_audio_buffer();
    assert!(!audio.is_empty());
}

#[test]
fn button_press_requests_joypad_interrupt() {
    let mut emu = Emulator::new(String::from("x.gb"), rom_with_program(&[0x00, 0x00, 0x00])).unwrap();
    emu.set_button(Button::Start, true);
    emu.step();
    assert_eq!(emu.bus.read(0xFF0F) & 0x10, 0x00);
    emu.set_button(Button::Start, false);
    emu.bus.write(0xFF00, 0x10);
    emu.step();
    emu.set_button(Button::Start, true);
    emu.step();
    assert_eq!(emu.bus.read(0xFF0F) & 0x10, 0x10);
    assert_eq!(emu.bus.read(0xFF00) & 0x0F, 0x07);
}
