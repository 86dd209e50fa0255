use gbemu::gamepad::{Button, Gamepad};

#[test]
fn test_gamepad_new() {
    let gamepad = Gamepad::new();
    assert!(!gamepad.button_a);
    assert!(!gamepad.dpad_up);
    assert_eq!(gamepad.selection, 0x30);
}

#[test]
fn test_joyp_read_no_selection() {
    let gamepad = Gamepad::new();
    assert_eq!(gamepad.read(), 0xFF);
}

#[test]
fn test_joyp_read_buttons() {
    let mut gamepad = Gamepad::new();
    gamepad.write(0x10);

    assert_eq!(gamepad.read() & 0x0F, 0x0F);

    gamepad.button_a = true;
    assert_eq!(gamepad.read() & 0x0F, 0x0E);

    gamepad.button_start = true;
    assert_eq!(gamepad.read() & 0x0F, 0x06);
}

#[test]
fn test_joyp_read_directions() {
    let mut gamepad = Gamepad::new();
    gamepad.write(0x20);

    assert_eq!(gamepad.read() & 0x0F, 0x0F);

    gamepad.dpad_right = true;
    assert_eq!(gamepad.read() & 0x0F, 0x0E);

    gamepad.dpad_up = true;
    assert_eq!(gamepad.read() & 0x0F, 0x0A);
}

#[test]
fn test_button_interrupt() {
    let mut gamepad = Gamepad::new();

    assert!(!gamepad.interrupt_requested);

    // Neither group is selected (0x30), so the press raises no interrupt.
    gamepad.set_button(Button::A, true);
    assert!(!gamepad.interrupt_requested);

    gamepad.clear_interrupt();
    assert!(!gamepad.interrupt_requested);

    gamepad.set_button(Button::A, false);
    assert!(!gamepad.interrupt_requested);
}

#[test]
fn press_in_selected_group_raises_interrupt() {
    let mut gamepad = Gamepad::new();
    gamepad.write(0x10);
    gamepad.set_button(Button::Up, true);
    assert!(!gamepad.interrupt_requested);
    gamepad.set_button(Button::A, true);
    assert!(gamepad.interrupt_requested);
    gamepad.clear_interrupt();
    gamepad.write(0x20);
    gamepad.set_button(Button::Down, true);
    assert!(gamepad.interrupt_requested);
}

#[test]
fn joyp_write_keeps_selection_bits_only() {
    let mut gamepad = Gamepad::new();
    gamepad.write(0xFF);
    assert_eq!(gamepad.selection, 0x30);
    gamepad.write(0x00);
    gamepad.set_button(Button::Down, true);
    gamepad.set_button(Button::B, true);
    assert_eq!(gamepad.read(), 0xC0 | 0x0F & !0x08 & !0x02);
    assert!(gamepad.is_pressed(Button::Down));
    assert!(!gamepad.is_pressed(Button::Up));
}

#[test]
fn holding_a_button_raises_no_second_interrupt() {
    let mut gamepad = Gamepad::new();
    gamepad.write(0x10);
    gamepad.set_button(Button::Start, true);
    assert!(gamepad.interrupt_requested);
    gamepad.clear_interrupt();
    gamepad.set_button(Button::Start, true);
    assert!(!gamepad.interrupt_requested);
}
