use gbemu::timer::Timer;

#[test]
fn test_timer_new() {
    let timer = Timer::new();
    assert_eq!(timer.div, 0xABCC);
    assert_eq!(timer.tima, 0);
    assert_eq!(timer.tma, 0);
    assert_eq!(timer.tac, 0);
    assert!(!timer.interrupt_requested);
}

#[test]
fn test_div_read() {
    let timer = Timer::new();
    assert_eq!(timer.read(0xFF04), 0xAB);
}

#[test]
fn test_div_write_resets() {
    let mut timer = Timer::new();
    timer.write(0xFF04, 0x42);
    assert_eq!(timer.div, 0);
    assert_eq!(timer.read(0xFF04), 0);
}

#[test]
fn test_tima_tma_tac_read_write() {
    let mut timer = Timer::new();

    timer.write(0xFF05, 0x12);
    timer.write(0xFF06, 0x34);
    timer.write(0xFF07, 0x05);

    assert_eq!(timer.read(0xFF05), 0x12);
    assert_eq!(timer.read(0xFF06), 0x34);
    assert_eq!(timer.read(0xFF07), 0x05);
}

#[test]
fn test_timer_disabled() {
    let mut timer = Timer::new();
    timer.div = 0;
    timer.tima = 0;
    timer.tac = 0x00;

    for _ in 0..1000 {
        timer.tick();
    }

    assert_eq!(timer.tima, 0);
}

#[test]
fn test_timer_overflow() {
    let mut timer = Timer::new();
    timer.div = 0;
    timer.tima = 0xFF;
    timer.tma = 0x42;
    timer.tac = 0x05;

    for _ in 0..16 {
        timer.tick();
    }

    assert_eq!(timer.tima, 0x42);
    assert!(timer.interrupt_requested);
}

#[test]
fn div_reset_fires_the_falling_edge() {
    let mut timer = Timer::new();
    timer.tac = 0b101;
    timer.tima = 0x00;
    timer.div = 0b0000_1000;
    timer.write(0xFF04, 0x99);
    assert_eq!(timer.div, 0);
    assert_eq!(timer.tima, 0x01);
}

#[test]
fn tac_keeps_low_three_bits() {
    let mut timer = Timer::new();
    timer.write(0xFF07, 0xFF);
    assert_eq!(timer.read(0xFF07), 0x07);
    assert_eq!(timer.timer_frequency(), 256);
    assert!(timer.timer_enabled());
    assert_eq!(timer.read(0xFF08), 0xFF);
}

#[test]
fn tima_steps_only_on_falling_edges() {
    for tac in [4u8, 5, 6, 7] {
        let mut timer = Timer::new();
        timer.div = 0;
        timer.tac = tac;
        let period = timer.timer_frequency() as u32;
        for _ in 0..(period * 3) {
            timer.tick();
        }
        assert_eq!(timer.tima, 3);
    }
}
