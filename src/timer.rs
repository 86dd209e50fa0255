//! Timer: a 16-bit counter whose upper byte is DIV, and TIMA driven by a falling-edge
//! detector on one tap bit of the counter.

use vstd::prelude::*;
use crate::common::Byte;

verus! {

/// Game Boy timer.
#[derive(Debug, Clone)]
pub struct Timer {
    /// Internal 16-bit counter; DIV (0xFF04) is its upper byte
    pub div: u16,
    /// TIMA (0xFF05)
    pub tima: Byte,
    /// TMA (0xFF06)
    pub tma: Byte,
    /// TAC (0xFF07), low three bits
    pub tac: Byte,
    /// Timer interrupt requested
    pub interrupt_requested: bool,
}

/// The counter bit watched for TAC frequency code `code`: 9, 3, 5 or 7.
pub open spec fn tap_bit(tac: u8) -> u16 {
    let code = tac & 3;
    if code == 0 {
        9
    } else if code == 1 {
        3
    } else if code == 2 {
        5
    } else {
        7
    }
}

/// The detector input: timer enabled (TAC bit 2) and the tap bit of the counter set.
pub open spec fn timer_signal(div: u16, tac: u8) -> bool {
    tac & 4 != 0 && (div >> tap_bit(tac)) & 1 == 1
}

/// TIMA after one increment: reload from TMA on overflow.
pub open spec fn tima_step(tima: u8, tma: u8) -> u8 {
    if tima == 0xFF {
        tma
    } else {
        (tima + 1) as u8
    }
}

impl Timer {
    /// Timer state after the boot ROM: counter 0xABCC, other registers zero.
    pub fn new() -> (r: Self)
        ensures
            r.div == 0xABCC && r.tima == 0 && r.tma == 0 && r.tac == 0 && !r.interrupt_requested,
    {
        Timer { div: 0xABCC, tima: 0, tma: 0, tac: 0, interrupt_requested: false }
    }

    /// Reset to the state after the boot ROM.
    pub fn init(&mut self)
        ensures
            final(self).div == 0xABCC && final(self).tima == 0 && final(self).tma == 0,
            final(self).tac == 0 && !final(self).interrupt_requested,
    {
        self.div = 0xABCC;
        self.tima = 0;
        self.tma = 0;
        self.tac = 0;
        self.interrupt_requested = false;
    }

    /// Read DIV, TIMA, TMA or TAC; 0xFF elsewhere.
    pub fn read(&self, address: u16) -> (r: Byte)
        ensures
            r == if address == 0xFF04 {
                (self.div >> 8u16) as u8
            } else if address == 0xFF05 {
                self.tima
            } else if address == 0xFF06 {
                self.tma
            } else if address == 0xFF07 {
                self.tac
            } else {
                0xFF
            },
    {
        match address {
            0xFF04 => (self.div >> 8u16) as Byte,
            0xFF05 => self.tima,
            0xFF06 => self.tma,
            0xFF07 => self.tac,
            _ => 0xFF,
        }
    }

    /// Write DIV (any value zeroes the counter; a falling edge of the detector input
    /// increments TIMA), TIMA, TMA or TAC (low three bits kept).
    pub fn write(&mut self, address: u16, value: Byte)
        ensures
            address == 0xFF04 ==> {
                &&& final(self).div == 0
                &&& final(self).tac == old(self).tac && final(self).tma == old(self).tma
                &&& final(self).tima == if timer_signal(old(self).div, old(self).tac) {
                    tima_step(old(self).tima, old(self).tma)
                } else {
                    old(self).tima
                }
                &&& final(self).interrupt_requested == (old(self).interrupt_requested
                    || (timer_signal(old(self).div, old(self).tac) && old(self).tima == 0xFF))
            },
            address == 0xFF05 ==> *final(self) == (Timer { tima: value, ..*old(self) }),
            address == 0xFF06 ==> *final(self) == (Timer { tma: value, ..*old(self) }),
            address == 0xFF07 ==> *final(self) == (Timer { tac: value & 0x07, ..*old(self) }),
            address != 0xFF04 && address != 0xFF05 && address != 0xFF06 && address != 0xFF07
                ==> *final(self) == *old(self),
    {
        match address {
            0xFF04 => {
                let fell = self.signal();
                self.div = 0;
                if fell {
                    self.increment_tima();
                }
            },
            0xFF05 => self.tima = value,
            0xFF06 => self.tma = value,
            0xFF07 => self.tac = value & 0x07,
            _ => {},
        }
    }

    /// Whether TAC enables the timer (bit 2).
    pub fn timer_enabled(&self) -> (r: bool)
        ensures
            r == (self.tac & 4 != 0),
    {
        (self.tac & 0x04) != 0
    }

    /// T-cycles per TIMA increment for the TAC frequency code: 1024, 16, 64 or 256.
    pub fn timer_frequency(&self) -> (r: u16)
        ensures
            r == (if self.tac & 3 == 0 { 1024u16 } else if self.tac & 3 == 1 { 16u16 } else if self.tac & 3 == 2 {
                64u16
            } else {
                256u16
            }),
    {
        match self.tac & 0x03 {
            0 => 1024,
            1 => 16,
            2 => 64,
            _ => 256,
        }
    }

    fn tap(&self) -> (r: u16)
        ensures
            r == tap_bit(self.tac),
    {
        match self.tac & 0x03 {
            0 => 9,
            1 => 3,
            2 => 5,
            _ => 7,
        }
    }

    fn signal(&self) -> (r: bool)
        ensures
            r == timer_signal(self.div, self.tac),
    {
        self.timer_enabled() && ((self.div >> self.tap()) & 1) == 1
    }

    fn increment_tima(&mut self)
        ensures
            final(self).tima == tima_step(old(self).tima, old(self).tma),
            final(self).interrupt_requested == (old(self).interrupt_requested || old(self).tima == 0xFF),
            final(self).div == old(self).div && final(self).tma == old(self).tma && final(self).tac == old(self).tac,
    {
        if self.tima == 0xFF {
            self.tima = self.tma;
            self.interrupt_requested = true;
        } else {
            self.tima = self.tima + 1;
        }
    }

    /// Advance one T-cycle: the counter increments, and a 1-to-0 transition of the
    /// detector input increments TIMA (reloading TMA and requesting the interrupt on
    /// overflow).
    pub fn tick(&mut self)
        ensures
            final(self).div == old(self).div.wrapping_add(1),
            final(self).tac == old(self).tac && final(self).tma == old(self).tma,
            ({
                let fell = timer_signal(old(self).div, old(self).tac) && !timer_signal(final(self).div, old(self).tac);
                &&& final(self).tima == if fell { tima_step(old(self).tima, old(self).tma) } else { old(self).tima }
                &&& final(self).interrupt_requested == (old(self).interrupt_requested || (fell && old(self).tima == 0xFF))
            }),
    {
        let before = self.signal();
        self.div = self.div.wrapping_add(1);
        let after = self.signal();
        if before && !after {
            self.increment_tima();
        }
    }

    /// Clear the interrupt request.
    pub fn clear_interrupt(&mut self)
        ensures
            *final(self) == (Timer { interrupt_requested: false, ..*old(self) }),
    {
        self.interrupt_requested = false;
    }
}

/// Over one tick, the detector input can fall from 1 to 0 only on a tick where TIMA
/// steps (increments, or reloads from TMA on overflow).
pub proof fn lemma_timer_edge(old: Timer, new: Timer)
    requires
        new.div == old.div.wrapping_add(1),
        new.tac == old.tac && new.tma == old.tma,
        ({
            let fell = timer_signal(old.div, old.tac) && !timer_signal(new.div, old.tac);
            new.tima == if fell { tima_step(old.tima, old.tma) } else { old.tima }
        }),
    ensures
        timer_signal(old.div, old.tac) && !timer_signal(new.div, new.tac) ==> new.tima == tima_step(old.tima, old.tma),
{
}

impl Default for Timer {
    /// Same as `Timer::new`.
    fn default() -> (r: Self)
        ensures
            r.div == 0xABCC && r.tima == 0 && r.tma == 0 && r.tac == 0 && !r.interrupt_requested,
    {
        Timer::new()
    }
}

} // verus!
