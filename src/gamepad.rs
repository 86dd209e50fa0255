//! Joypad: eight buttons read through the JOYP register (0xFF00) by group selection.

use vstd::prelude::*;
use crate::common::Byte;

verus! {

/// Game Boy buttons.
#[derive(Debug, Clone, Copy, PartialEq, Eq, Structural)]
pub enum Button {
    A,
    B,
    Select,
    Start,
    Right,
    Left,
    Up,
    Down,
}

/// Joypad state.
#[derive(Debug, Clone)]
pub struct Gamepad {
    pub button_a: bool,
    pub button_b: bool,
    pub button_select: bool,
    pub button_start: bool,
    pub dpad_right: bool,
    pub dpad_left: bool,
    pub dpad_up: bool,
    pub dpad_down: bool,
    /// Selection bits 4-5 of JOYP (0 = group selected)
    pub selection: Byte,
    /// Joypad interrupt requested
    pub interrupt_requested: bool,
}

/// Low-nibble mask of four pressed buttons (bit 3 down to bit 0).
pub open spec fn nibble(b3: bool, b2: bool, b1: bool, b0: bool) -> u8 {
    ((if b3 { 8u8 } else { 0 }) + (if b2 { 4u8 } else { 0 }) + (if b1 { 2u8 } else { 0 }) + (if b0 { 1u8 } else { 0 })) as u8
}

fn nibble_exec(b3: bool, b2: bool, b1: bool, b0: bool) -> (r: u8)
    ensures
        r == nibble(b3, b2, b1, b0),
{
    (if b3 { 8u8 } else { 0 }) + (if b2 { 4u8 } else { 0 }) + (if b1 { 2u8 } else { 0 }) + (if b0 { 1u8 } else { 0 })
}

/// Whether a button's group is selected: bit 5 clear for A/B/Select/Start, bit 4 clear
/// for the directions.
pub open spec fn group_selected(selection: u8, b: Button) -> bool {
    match b {
        Button::A | Button::B | Button::Select | Button::Start => selection & 0x20 == 0,
        _ => selection & 0x10 == 0,
    }
}

impl Gamepad {
    /// Whether a button is pressed.
    pub open spec fn pressed(&self, b: Button) -> bool {
        match b {
            Button::A => self.button_a,
            Button::B => self.button_b,
            Button::Select => self.button_select,
            Button::Start => self.button_start,
            Button::Right => self.dpad_right,
            Button::Left => self.dpad_left,
            Button::Up => self.dpad_up,
            Button::Down => self.dpad_down,
        }
    }

    /// The JOYP value: 0xCF with the selection bits, and for each selected group the bits
    /// of its pressed buttons cleared (Start/Select/B/A and Down/Up/Left/Right on bits 3-0).
    pub open spec fn joyp(&self) -> u8 {
        let act = if self.selection & 0x20 == 0 {
            nibble(self.button_start, self.button_select, self.button_b, self.button_a)
        } else {
            0
        };
        let dir = if self.selection & 0x10 == 0 {
            nibble(self.dpad_down, self.dpad_up, self.dpad_left, self.dpad_right)
        } else {
            0
        };
        (0xCF | self.selection) & !(act | dir)
    }

    /// No button pressed, neither group selected.
    pub fn new() -> (r: Self)
        ensures
            forall|b: Button| !r.pressed(b),
            r.selection == 0x30,
            !r.interrupt_requested,
    {
        Gamepad {
            button_a: false,
            button_b: false,
            button_select: false,
            button_start: false,
            dpad_right: false,
            dpad_left: false,
            dpad_up: false,
            dpad_down: false,
            selection: 0x30,
            interrupt_requested: false,
        }
    }

    /// Release every button and deselect both groups.
    pub fn init(&mut self)
        ensures
            forall|b: Button| !final(self).pressed(b),
            final(self).selection == 0x30,
            !final(self).interrupt_requested,
    {
        self.button_a = false;
        self.button_b = false;
        self.button_select = false;
        self.button_start = false;
        self.dpad_right = false;
        self.dpad_left = false;
        self.dpad_up = false;
        self.dpad_down = false;
        self.selection = 0x30;
        self.interrupt_requested = false;
    }

    /// Read JOYP.
    pub fn read(&self) -> (r: Byte)
        ensures
            r == self.joyp(),
    {
        let act = if (self.selection & 0x20) == 0 {
            nibble_exec(self.button_start, self.button_select, self.button_b, self.button_a)
        } else {
            0
        };
        let dir = if (self.selection & 0x10) == 0 {
            nibble_exec(self.dpad_down, self.dpad_up, self.dpad_left, self.dpad_right)
        } else {
            0
        };
        (0xCF | self.selection) & !(act | dir)
    }

    /// Write JOYP: only the selection bits 4-5 are kept.
    pub fn write(&mut self, value: Byte)
        ensures
            *final(self) == (Gamepad { selection: value & 0x30, ..*old(self) }),
    {
        self.selection = value & 0x30;
    }

    /// Set a button; a press of a released button whose group is selected requests the
    /// joypad interrupt.
    pub fn set_button(&mut self, button: Button, pressed: bool)
        ensures
            final(self).pressed(button) == pressed,
            forall|b: Button| b != button ==> final(self).pressed(b) == old(self).pressed(b),
            final(self).selection == old(self).selection,
            final(self).interrupt_requested == (old(self).interrupt_requested || (pressed && !old(self).pressed(button)
                && group_selected(old(self).selection, button))),
    {
        let was_pressed = self.is_pressed(button);
        match button {
            Button::A => self.button_a = pressed,
            Button::B => self.button_b = pressed,
            Button::Select => self.button_select = pressed,
            Button::Start => self.button_start = pressed,
            Button::Right => self.dpad_right = pressed,
            Button::Left => self.dpad_left = pressed,
            Button::Up => self.dpad_up = pressed,
            Button::Down => self.dpad_down = pressed,
        }
        let selected = match button {
            Button::A | Button::B | Button::Select | Button::Start => self.selection & 0x20 == 0,
            _ => self.selection & 0x10 == 0,
        };
        if pressed && !was_pressed && selected {
            self.interrupt_requested = true;
        }
    }

    /// Whether a button is pressed.
    pub fn is_pressed(&self, button: Button) -> (r: bool)
        ensures
            r == self.pressed(button),
    {
        match button {
            Button::A => self.button_a,
            Button::B => self.button_b,
            Button::Select => self.button_select,
            Button::Start => self.button_start,
            Button::Right => self.dpad_right,
            Button::Left => self.dpad_left,
            Button::Up => self.dpad_up,
            Button::Down => self.dpad_down,
        }
    }

    /// Clear the interrupt request.
    pub fn clear_interrupt(&mut self)
        ensures
            *final(self) == (Gamepad { interrupt_requested: false, ..*old(self) }),
    {
        self.interrupt_requested = false;
    }
}

impl Default for Gamepad {
    /// Same as `Gamepad::new`.
    fn default() -> (r: Self)
        ensures
            r.selection == 0x30 && !r.interrupt_requested,
    {
        Gamepad::new()
    }
}

} // verus!
