use gbemu::apu::channels::{duty_pattern, Channel1, Channel4};
use gbemu::apu::Apu;

#[test]
fn test_duty_patterns() {
    let ones = |d: u8| (0..8u8).filter(|&p| duty_pattern(d, p) == 1).count();
    assert_eq!(ones(0), 1);
    assert_eq!(ones(1), 2);
    assert_eq!(ones(2), 4);
    assert_eq!(ones(3), 6);
}

#[test]
fn test_channel1_new() {
    let ch = Channel1::new();
    assert!(!ch.enabled);
    assert!(!ch.dac_enabled);
}

#[test]
fn test_channel4_lfsr() {
    let mut ch = Channel4::new();
    ch.enabled = true;
    ch.dac_enabled = true;
    ch.volume = 15;
    ch.timer = 1;

    let initial_lfsr = ch.lfsr;
    ch.tick();
    assert_ne!(ch.lfsr, initial_lfsr);
}

#[test]
fn test_apu_new() {
    let apu = Apu::new();
    assert!(apu.enabled);
    assert_eq!(apu.nr50, 0x77);
    assert_eq!(apu.nr51, 0xF3);
}

#[test]
fn test_nr52_read() {
    let apu = Apu::new();
    let nr52 = apu.read(0xFF26);
    assert_eq!(nr52 & 0xF0, 0xF0);
}

#[test]
fn test_apu_disable() {
    let mut apu = Apu::new();
    apu.nr50 = 0x77;
    apu.nr51 = 0xF3;

    apu.write(0xFF26, 0x00);

    assert!(!apu.enabled);
    assert_eq!(apu.nr50, 0);
    assert_eq!(apu.nr51, 0);
}

#[test]
fn noise_lfsr_sequence_from_seed() {
    let mut ch = Channel4::new();
    ch.write_nr42(0xF0);
    ch.write_nr43(0x01);
    ch.write_nr44(0x80);
    assert_eq!(ch.lfsr, 0x7FFF);
    assert_eq!(ch.timer, 16);
    let mut bits = Vec::new();
    let mut model: u16 = 0x7FFF;
    let mut expected = Vec::new();
    for _ in 0..15 {
        for _ in 0..16 {
            ch.tick();
        }
        bits.push(ch.lfsr & 1);
        let x = (model & 1) ^ ((model >> 1) & 1);
        model = (model >> 1) | (x << 14);
        expected.push(model & 1);
    }
    assert_eq!(bits, expected);
    assert_eq!(&bits[..4], &[1, 1, 1, 1]);
}

#[test]
fn powered_off_apu_drops_register_writes() {
    let mut apu = Apu::new();
    apu.write(0xFF26, 0x00);
    apu.write(0xFF24, 0x55);
    assert_eq!(apu.nr50, 0);
    apu.write(0xFF30, 0xAB);
    assert_eq!(apu.read(0xFF30), 0xAB);
    apu.write(0xFF26, 0x80);
    apu.write(0xFF24, 0x55);
    assert_eq!(apu.read(0xFF24), 0x55);
}

#[test]
fn register_read_masks() {
    let mut apu = Apu::new();
    apu.write(0xFF11, 0x80);
    assert_eq!(apu.read(0xFF11), 0xBF);
    assert_eq!(apu.read(0xFF13), 0xFF);
    apu.write(0xFF10, 0x00);
    assert_eq!(apu.read(0xFF10), 0x80);
    apu.write(0xFF1C, 0x40);
    assert_eq!(apu.read(0xFF1C), 0xDF);
    assert_eq!(apu.read(0xFF26), 0xF0);
}

#[test]
fn trigger_enables_channel_with_dac() {
    let mut apu = Apu::new();
    apu.write(0xFF12, 0xF0);
    apu.write(0xFF14, 0x80);
    assert_eq!(apu.read(0xFF26) & 0x01, 0x01);
    apu.write(0xFF12, 0x00);
    assert_eq!(apu.read(0xFF26) & 0x01, 0x00);
}

#[test]
fn samples_are_produced_at_the_output_rate() {
    let mut apu = Apu::new();
    for _ in 0..4_194_304 / 100 {
        apu.tick();
    }
    let buf = apu.get_audio_buffer();
    assert_eq!(buf.len(), 2 * 440);
    assert!(apu.get_audio_buffer().is_empty());
}

#[test]
fn mixer_scales_by_master_volume() {
    let mut apu = Apu::new();
    apu.ch4.enabled = true;
    apu.ch4.dac_enabled = true;
    apu.ch4.volume = 15;
    apu.ch4.lfsr = 0x7FFE;
    apu.nr51 = 0x88;
    apu.nr50 = 0x70;
    apu.generate_sample();
    let buf = apu.get_audio_buffer();
    assert_eq!(buf, vec![(15 * 8 / 4 * 256) as i16, (15 * 1 / 4 * 256) as i16]);
}
