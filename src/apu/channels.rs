//! The four sound channels: two square waves (the first with frequency sweep), a
//! wave-table channel and an LFSR noise channel.

use vstd::prelude::*;
use crate::common::{lemma_mask_bounds, Byte};
use crate::ram::filled;

verus! {

/// Duty pattern table: step `pos` of pattern `duty` (12.5%, 25%, 50%, 75%).
pub open spec fn duty_bit(duty: u8, pos: u8) -> u8 {
    if duty == 0 {
        if pos == 7 { 1 } else { 0 }
    } else if duty == 1 {
        if pos == 0 || pos == 7 { 1 } else { 0 }
    } else if duty == 2 {
        if pos == 0 || pos >= 5 { 1 } else { 0 }
    } else {
        if pos == 0 || pos == 7 { 0 } else { 1 }
    }
}

/// Step `pos` of duty pattern `duty`.
pub fn duty_pattern(duty: u8, pos: u8) -> (r: u8)
    ensures
        r == duty_bit(duty, pos),
{
    if duty == 0 {
        if pos == 7 { 1 } else { 0 }
    } else if duty == 1 {
        if pos == 0 || pos == 7 { 1 } else { 0 }
    } else if duty == 2 {
        if pos == 0 || pos >= 5 { 1 } else { 0 }
    } else {
        if pos == 0 || pos == 7 { 0 } else { 1 }
    }
}

/// Volume after one envelope step.
pub open spec fn envelope_step(volume: u8, add: bool) -> u8 {
    if add && volume < 15 {
        (volume + 1) as u8
    } else if !add && volume > 0 {
        (volume - 1) as u8
    } else {
        volume
    }
}

/// Channel 1: square wave with sweep.
#[derive(Debug, Clone)]
pub struct Channel1 {
    pub enabled: bool,
    pub dac_enabled: bool,
    pub sweep_period: u8,
    pub sweep_negate: bool,
    pub sweep_shift: u8,
    pub sweep_timer: u8,
    pub sweep_enabled: bool,
    pub sweep_shadow: u16,
    pub duty: u8,
    pub length_counter: u16,
    pub volume: u8,
    pub volume_initial: u8,
    pub envelope_add: bool,
    pub envelope_period: u8,
    pub envelope_timer: u8,
    pub frequency: u16,
    pub length_enabled: bool,
    pub timer: u16,
    pub duty_position: u8,
}

impl Channel1 {
    /// The freshly built (powered-off) state.
    pub open spec fn initial() -> Channel1 {
        Channel1 {
            enabled: false,
            dac_enabled: false,
            sweep_period: 0,
            sweep_negate: false,
            sweep_shift: 0,
            sweep_timer: 0,
            sweep_enabled: false,
            sweep_shadow: 0,
            duty: 0,
            length_counter: 0,
            volume: 0,
            volume_initial: 0,
            envelope_add: false,
            envelope_period: 0,
            envelope_timer: 0,
            frequency: 0,
            length_enabled: false,
            timer: 0,
            duty_position: 0,
        }
    }

    /// State after one T-cycle of the period timer.
    pub open spec fn after_tick(o: Channel1) -> Channel1 {
        let t: int = if o.timer > 0 { o.timer - 1 } else { 0 };
        if t == 0 {
            Channel1 { timer: ((2048 - o.frequency) * 4) as u16, duty_position: ((o.duty_position + 1) % 8) as u8, ..o }
        } else {
            Channel1 { timer: t as u16, ..o }
        }
    }

    /// State after one length tick.
    pub open spec fn after_length(o: Channel1) -> Channel1 {
        if o.length_enabled && o.length_counter > 0 {
            Channel1 { length_counter: (o.length_counter - 1) as u16, enabled: o.enabled && o.length_counter != 1, ..o }
        } else {
            o
        }
    }

    /// State after one envelope tick.
    pub open spec fn after_envelope(o: Channel1) -> Channel1 {
        if o.envelope_period == 0 {
            o
        } else {
            let t: int = if o.envelope_timer > 0 { o.envelope_timer - 1 } else { 0 };
            if t == 0 {
                Channel1 { envelope_timer: o.envelope_period, volume: envelope_step(o.volume, o.envelope_add), ..o }
            } else {
                Channel1 { envelope_timer: t as u8, ..o }
            }
        }
    }

    /// State after one sweep tick: the timer reloads (period, or 8 for 0) when it runs
    /// out; then with sweep enabled and a non-zero period the target is computed, a target
    /// past 2047 stops the channel, and otherwise with a non-zero shift it becomes the
    /// frequency and shadow, followed by a second overflow check.
    pub open spec fn after_sweep(o: Channel1) -> Channel1 {
        let t: int = if o.sweep_timer > 0 { o.sweep_timer - 1 } else { 0 };
        let reload: u8 = if t == 0 { if o.sweep_period > 0 { o.sweep_period } else { 8 } } else { t as u8 };
        let fire = t == 0 && o.sweep_enabled && o.sweep_period > 0;
        let target = o.sweep_target();
        if !fire {
            Channel1 { sweep_timer: reload, ..o }
        } else if target <= 2047 && o.sweep_shift > 0 {
            let o2 = Channel1 { frequency: target, sweep_shadow: target, ..o };
            Channel1 {
                sweep_timer: reload,
                frequency: target,
                sweep_shadow: target,
                enabled: o.enabled && o2.sweep_target() <= 2047,
                ..o
            }
        } else {
            Channel1 { sweep_timer: reload, enabled: o.enabled && target <= 2047, ..o }
        }
    }

    pub open spec fn wf(&self) -> bool {
        &&& self.sweep_period < 8 && self.sweep_shift < 8 && self.sweep_timer <= 8
        &&& self.duty < 4 && self.length_counter <= 64
        &&& self.volume < 16 && self.volume_initial < 16
        &&& self.envelope_period < 8 && self.envelope_timer < 8
        &&& self.frequency < 2048 && self.duty_position < 8
    }

    /// Sweep target: shadow plus or minus shadow shifted right by the sweep shift.
    pub open spec fn sweep_target(&self) -> u16 {
        if self.sweep_negate {
            self.sweep_shadow.wrapping_sub(self.sweep_shadow >> self.sweep_shift)
        } else {
            self.sweep_shadow.wrapping_add(self.sweep_shadow >> self.sweep_shift)
        }
    }

    /// A silent channel with all registers zero.
    pub fn new() -> (r: Self)
        ensures
            r == Channel1::initial(),
            r.wf(),
            !r.enabled && !r.dac_enabled,
            r.frequency == 0 && r.volume == 0 && r.length_counter == 0 && r.duty == 0,
            r.sweep_period == 0 && !r.sweep_negate && r.sweep_shift == 0,
    {
        Channel1 {
            enabled: false,
            dac_enabled: false,
            sweep_period: 0,
            sweep_negate: false,
            sweep_shift: 0,
            sweep_timer: 0,
            sweep_enabled: false,
            sweep_shadow: 0,
            duty: 0,
            length_counter: 0,
            volume: 0,
            volume_initial: 0,
            envelope_add: false,
            envelope_period: 0,
            envelope_timer: 0,
            frequency: 0,
            length_enabled: false,
            timer: 0,
            duty_position: 0,
        }
    }

    /// One T-cycle: the period timer counts down and, on reaching zero, reloads to
    /// (2048 - frequency) * 4 and advances the duty step.
    pub fn tick(&mut self)
        requires
            old(self).wf(),
        ensures
            final(self).wf(),
            *final(self) == Channel1::after_tick(*old(self)),
    {
        if self.timer > 0 {
            self.timer = self.timer - 1;
        }
        if self.timer == 0 {
            self.timer = (2048 - self.frequency) * 4;
            self.duty_position = (self.duty_position + 1) % 8;
        }
    }

    /// Length tick: when enabled, the counter counts down and the channel stops at zero.
    pub fn tick_length(&mut self)
        requires
            old(self).wf(),
        ensures
            final(self).wf(),
            *final(self) == Channel1::after_length(*old(self)),
    {
        if self.length_enabled && self.length_counter > 0 {
            self.length_counter = self.length_counter - 1;
            if self.length_counter == 0 {
                self.enabled = false;
            }
        }
    }

    /// Envelope tick: every `envelope_period` ticks the volume steps up or down within 0-15.
    pub fn tick_envelope(&mut self)
        requires
            old(self).wf(),
        ensures
            final(self).wf(),
            *final(self) == Channel1::after_envelope(*old(self)),
    {
        if self.envelope_period == 0 {
            return;
        }
        if self.envelope_timer > 0 {
            self.envelope_timer = self.envelope_timer - 1;
        }
        if self.envelope_timer == 0 {
            self.envelope_timer = self.envelope_period;
            if self.envelope_add && self.volume < 15 {
                self.volume = self.volume + 1;
            } else if !self.envelope_add && self.volume > 0 {
                self.volume = self.volume - 1;
            }
        }
    }

    /// Sweep tick: when the sweep timer runs out it reloads (period, or 8 for 0); with
    /// sweep enabled and a non-zero period the target is computed, an overflow past 2047
    /// stops the channel, and otherwise with a non-zero shift the target becomes the
    /// frequency and shadow, followed by a second overflow check.
    pub fn tick_sweep(&mut self)
        requires
            old(self).wf(),
        ensures
            final(self).wf(),
            *final(self) == Channel1::after_sweep(*old(self)),
    {
        if self.sweep_timer > 0 {
            self.sweep_timer = self.sweep_timer - 1;
        }
        if self.sweep_timer == 0 {
            self.sweep_timer = if self.sweep_period > 0 {
                self.sweep_period
            } else {
                8
            };
            if self.sweep_enabled && self.sweep_period > 0 {
                let new_freq = self.calculate_sweep();
                if new_freq <= 2047 && self.sweep_shift > 0 {
                    self.frequency = new_freq;
                    self.sweep_shadow = new_freq;
                    self.calculate_sweep();
                }
            }
        }
    }

    /// Compute the sweep target; a target past 2047 stops the channel.
    pub fn calculate_sweep(&mut self) -> (r: u16)
        requires
            old(self).wf(),
        ensures
            final(self).wf(),
            r == old(self).sweep_target(),
            final(self).enabled == (old(self).enabled && r <= 2047),
            *final(self) == (Channel1 { enabled: final(self).enabled, ..*old(self) }),
    {
        let delta = self.sweep_shadow >> self.sweep_shift;
        let new_freq = if self.sweep_negate {
            self.sweep_shadow.wrapping_sub(delta)
        } else {
            self.sweep_shadow.wrapping_add(delta)
        };
        if new_freq > 2047 {
            self.enabled = false;
        }
        new_freq
    }

    /// Output level: duty step times volume, 0 when the channel or its DAC is off.
    pub open spec fn out(&self) -> u8 {
        if !self.enabled || !self.dac_enabled { 0 } else { (duty_bit(self.duty, self.duty_position) * self.volume) as u8 }
    }

    /// Current output level: duty step times volume, 0 when the channel or its DAC is off.
    pub fn output(&self) -> (r: u8)
        requires
            self.wf(),
        ensures
            r == self.out(),
            r < 16,
    {
        if !self.enabled || !self.dac_enabled {
            return 0;
        }
        duty_pattern(self.duty, self.duty_position) * self.volume
    }

    /// Trigger (NR14 bit 7).
    pub fn trigger(&mut self)
        requires
            old(self).wf(),
        ensures
            final(self).wf(),
            final(self).length_counter == if old(self).length_counter == 0 { 64 } else { old(self).length_counter },
            final(self).timer == (2048 - old(self).frequency) * 4,
            final(self).volume == old(self).volume_initial,
            final(self).envelope_timer == old(self).envelope_period,
            final(self).sweep_shadow == old(self).frequency,
            final(self).sweep_timer == if old(self).sweep_period > 0 { old(self).sweep_period } else { 8 },
            final(self).sweep_enabled == (old(self).sweep_period > 0 || old(self).sweep_shift > 0),
            final(self).frequency == old(self).frequency,
            final(self).length_enabled == old(self).length_enabled,
            final(self).dac_enabled == old(self).dac_enabled,
            final(self).duty == old(self).duty,
            !old(self).dac_enabled ==> !final(self).enabled,
            old(self).dac_enabled && old(self).sweep_shift == 0 ==> final(self).enabled,
    {
        self.enabled = self.dac_enabled;
        if self.length_counter == 0 {
            self.length_counter = 64;
        }
        self.timer = (2048 - self.frequency) * 4;
        self.envelope_timer = self.envelope_period;
        self.volume = self.volume_initial;
        self.sweep_shadow = self.frequency;
        self.sweep_timer = if self.sweep_period > 0 {
            self.sweep_period
        } else {
            8
        };
        self.sweep_enabled = self.sweep_period > 0 || self.sweep_shift > 0;
        if self.sweep_shift > 0 {
            self.calculate_sweep();
        }
    }

    /// Value that NR10 reads as.
    pub open spec fn nr10_value(&self) -> u8 {
        0x80 | (self.sweep_period << 4u8) | (if self.sweep_negate { 0x08u8 } else { 0 }) | self.sweep_shift
    }

    /// NR10 read: bit 7 set, sweep period, negate, shift.
    pub fn read_nr10(&self) -> (r: Byte)
        requires
            self.wf(),
        ensures
            r == self.nr10_value(),
    {
        0x80 | (self.sweep_period << 4u8) | (if self.sweep_negate { 0x08u8 } else { 0 }) | self.sweep_shift
    }

    /// NR10 write: sweep period (bits 4-6), negate (bit 3), shift (bits 0-2).
    pub fn write_nr10(&mut self, value: Byte)
        requires
            old(self).wf(),
        ensures
            final(self).wf(),
            *final(self) == (Channel1 {
                sweep_period: (value >> 4u8) & 0x07,
                sweep_negate: (value & 0x08) != 0,
                sweep_shift: value & 0x07,
                ..*old(self)
            }),
    {
        proof {
            lemma_mask_bounds(0, value >> 4u8);
            lemma_mask_bounds(0, value);
        }
        self.sweep_period = (value >> 4u8) & 0x07;
        self.sweep_negate = (value & 0x08) != 0;
        self.sweep_shift = value & 0x07;
    }

    /// Value that NR11 reads as.
    pub open spec fn nr11_value(&self) -> u8 {
        (self.duty << 6u8) | 0x3F
    }

    /// NR11 read: duty in bits 6-7, the rest reads as 1.
    pub fn read_nr11(&self) -> (r: Byte)
        ensures
            r == self.nr11_value(),
    {
        (self.duty << 6u8) | 0x3F
    }

    /// NR11 write: duty (bits 6-7) and length load (64 minus bits 0-5).
    pub fn write_nr11(&mut self, value: Byte)
        requires
            old(self).wf(),
        ensures
            final(self).wf(),
            *final(self) == (Channel1 {
                duty: (value >> 6u8) & 0x03,
                length_counter: (64 - (value & 0x3F)) as u16,
                ..*old(self)
            }),
    {
        proof {
            lemma_mask_bounds(0, value >> 6u8);
            lemma_mask_bounds(0, value);
        }
        self.duty = (value >> 6u8) & 0x03;
        self.length_counter = 64 - (value & 0x3F) as u16;
    }

    /// Value that NR12 reads as.
    pub open spec fn nr12_value(&self) -> u8 {
        (self.volume_initial << 4u8) | (if self.envelope_add { 0x08u8 } else { 0 }) | self.envelope_period
    }

    /// NR12 read: initial volume, direction, period.
    pub fn read_nr12(&self) -> (r: Byte)
        requires
            self.wf(),
        ensures
            r == self.nr12_value(),
    {
        (self.volume_initial << 4u8) | (if self.envelope_add { 0x08u8 } else { 0 }) | self.envelope_period
    }

    /// NR12 write: envelope; a zero in the upper five bits turns the DAC and channel off.
    pub fn write_nr12(&mut self, value: Byte)
        requires
            old(self).wf(),
        ensures
            final(self).wf(),
            *final(self) == (Channel1 {
                volume_initial: (value >> 4u8) & 0x0F,
                envelope_add: (value & 0x08) != 0,
                envelope_period: value & 0x07,
                dac_enabled: (value & 0xF8) != 0,
                enabled: old(self).enabled && (value & 0xF8) != 0,
                ..*old(self)
            }),
    {
        proof {
            lemma_mask_bounds(0, value >> 4u8);
            lemma_mask_bounds(0, value);
        }
        self.volume_initial = (value >> 4u8) & 0x0F;
        self.envelope_add = (value & 0x08) != 0;
        self.envelope_period = value & 0x07;
        self.dac_enabled = (value & 0xF8) != 0;
        if !self.dac_enabled {
            self.enabled = false;
        }
    }

    /// NR13 write: low eight bits of the frequency.
    pub fn write_nr13(&mut self, value: Byte)
        requires
            old(self).wf(),
        ensures
            final(self).wf(),
            *final(self) == (Channel1 { frequency: (old(self).frequency & 0x700) | value as u16, ..*old(self) }),
    {
        proof {
            lemma_mask_bounds(self.frequency, value);
        }
        self.frequency = (self.frequency & 0x700) | value as u16;
    }

    /// Value that NR14 reads as.
    pub open spec fn nr14_value(&self) -> u8 {
        (if self.length_enabled { 0x40u8 } else { 0 }) | 0xBF
    }

    /// NR14 read: length enable in bit 6, the rest reads as 1.
    pub fn read_nr14(&self) -> (r: Byte)
        ensures
            r == self.nr14_value(),
    {
        (if self.length_enabled { 0x40u8 } else { 0 }) | 0xBF
    }

    /// NR14 write: length enable, frequency bits 8-10, and trigger on bit 7.
    pub fn write_nr14(&mut self, value: Byte)
        requires
            old(self).wf(),
        ensures
            final(self).wf(),
            final(self).length_enabled == ((value & 0x40) != 0),
            final(self).frequency == (old(self).frequency & 0xFF) | (((value as u16) & 0x07) << 8u16),
            value & 0x80 == 0 ==> *final(self) == (Channel1 {
                length_enabled: (value & 0x40) != 0,
                frequency: (old(self).frequency & 0xFF) | (((value as u16) & 0x07) << 8u16),
                ..*old(self)
            }),
            value & 0x80 != 0 ==> final(self).volume == old(self).volume_initial
                && final(self).length_counter == (if old(self).length_counter == 0 { 64 } else { old(self).length_counter })
                && (final(self).enabled ==> old(self).dac_enabled),
    {
        proof {
            lemma_mask_bounds(self.frequency, value);
        }
        self.length_enabled = (value & 0x40) != 0;
        self.frequency = (self.frequency & 0xFF) | (((value as u16) & 0x07) << 8u16);
        if (value & 0x80) != 0 {
            self.trigger();
        }
    }
}

/// Channel 2: square wave without sweep.
#[derive(Debug, Clone)]
pub struct Channel2 {
    pub enabled: bool,
    pub dac_enabled: bool,
    pub duty: u8,
    pub length_counter: u16,
    pub volume: u8,
    pub volume_initial: u8,
    pub envelope_add: bool,
    pub envelope_period: u8,
    pub envelope_timer: u8,
    pub frequency: u16,
    pub length_enabled: bool,
    pub timer: u16,
    pub duty_position: u8,
}

impl Channel2 {
    /// The freshly built (powered-off) state.
    pub open spec fn initial() -> Channel2 {
        Channel2 {
            enabled: false,
            dac_enabled: false,
            duty: 0,
            length_counter: 0,
            volume: 0,
            volume_initial: 0,
            envelope_add: false,
            envelope_period: 0,
            envelope_timer: 0,
            frequency: 0,
            length_enabled: false,
            timer: 0,
            duty_position: 0,
        }
    }

    /// State after one T-cycle of the period timer.
    pub open spec fn after_tick(o: Channel2) -> Channel2 {
        let t: int = if o.timer > 0 { o.timer - 1 } else { 0 };
        if t == 0 {
            Channel2 { timer: ((2048 - o.frequency) * 4) as u16, duty_position: ((o.duty_position + 1) % 8) as u8, ..o }
        } else {
            Channel2 { timer: t as u16, ..o }
        }
    }

    /// State after one length tick.
    pub open spec fn after_length(o: Channel2) -> Channel2 {
        if o.length_enabled && o.length_counter > 0 {
            Channel2 { length_counter: (o.length_counter - 1) as u16, enabled: o.enabled && o.length_counter != 1, ..o }
        } else {
            o
        }
    }

    /// State after one envelope tick.
    pub open spec fn after_envelope(o: Channel2) -> Channel2 {
        if o.envelope_period == 0 {
            o
        } else {
            let t: int = if o.envelope_timer > 0 { o.envelope_timer - 1 } else { 0 };
            if t == 0 {
                Channel2 { envelope_timer: o.envelope_period, volume: envelope_step(o.volume, o.envelope_add), ..o }
            } else {
                Channel2 { envelope_timer: t as u8, ..o }
            }
        }
    }

    /// State after a trigger.
    pub open spec fn after_trigger(o: Channel2) -> Channel2 {
        Channel2 {
            enabled: o.dac_enabled,
            length_counter: if o.length_counter == 0 { 64 } else { o.length_counter },
            timer: ((2048 - o.frequency) * 4) as u16,
            envelope_timer: o.envelope_period,
            volume: o.volume_initial,
            ..o
        }
    }

    pub open spec fn wf(&self) -> bool {
        &&& self.duty < 4 && self.length_counter <= 64
        &&& self.volume < 16 && self.volume_initial < 16
        &&& self.envelope_period < 8 && self.envelope_timer < 8
        &&& self.frequency < 2048 && self.duty_position < 8
    }

    /// A silent channel with all registers zero.
    pub fn new() -> (r: Self)
        ensures
            r == Channel2::initial(),
            r.wf(),
            !r.enabled && !r.dac_enabled,
            r.frequency == 0 && r.volume == 0 && r.length_counter == 0 && r.duty == 0,
    {
        Channel2 {
            enabled: false,
            dac_enabled: false,
            duty: 0,
            length_counter: 0,
            volume: 0,
            volume_initial: 0,
            envelope_add: false,
            envelope_period: 0,
            envelope_timer: 0,
            frequency: 0,
            length_enabled: false,
            timer: 0,
            duty_position: 0,
        }
    }

    /// One T-cycle: the period timer counts down and, on reaching zero, reloads to
    /// (2048 - frequency) * 4 and advances the duty step.
    pub fn tick(&mut self)
        requires
            old(self).wf(),
        ensures
            final(self).wf(),
            *final(self) == Channel2::after_tick(*old(self)),
    {
        if self.timer > 0 {
            self.timer = self.timer - 1;
        }
        if self.timer == 0 {
            self.timer = (2048 - self.frequency) * 4;
            self.duty_position = (self.duty_position + 1) % 8;
        }
    }

    /// Length tick: when enabled, the counter counts down and the channel stops at zero.
    pub fn tick_length(&mut self)
        requires
            old(self).wf(),
        ensures
            final(self).wf(),
            *final(self) == Channel2::after_length(*old(self)),
    {
        if self.length_enabled && self.length_counter > 0 {
            self.length_counter = self.length_counter - 1;
            if self.length_counter == 0 {
                self.enabled = false;
            }
        }
    }

    /// Envelope tick: every `envelope_period` ticks the volume steps up or down within 0-15.
    pub fn tick_envelope(&mut self)
        requires
            old(self).wf(),
        ensures
            final(self).wf(),
            *final(self) == Channel2::after_envelope(*old(self)),
    {
        if self.envelope_period == 0 {
            return;
        }
        if self.envelope_timer > 0 {
            self.envelope_timer = self.envelope_timer - 1;
        }
        if self.envelope_timer == 0 {
            self.envelope_timer = self.envelope_period;
            if self.envelope_add && self.volume < 15 {
                self.volume = self.volume + 1;
            } else if !self.envelope_add && self.volume > 0 {
                self.volume = self.volume - 1;
            }
        }
    }

    /// Output level: duty step times volume, 0 when the channel or its DAC is off.
    pub open spec fn out(&self) -> u8 {
        if !self.enabled || !self.dac_enabled { 0 } else { (duty_bit(self.duty, self.duty_position) * self.volume) as u8 }
    }

    /// Current output level: duty step times volume, 0 when the channel or its DAC is off.
    pub fn output(&self) -> (r: u8)
        requires
            self.wf(),
        ensures
            r == self.out(),
            r < 16,
    {
        if !self.enabled || !self.dac_enabled {
            return 0;
        }
        duty_pattern(self.duty, self.duty_position) * self.volume
    }

    /// Trigger (NR24 bit 7).
    pub fn trigger(&mut self)
        requires
            old(self).wf(),
        ensures
            final(self).wf(),
            *final(self) == Channel2::after_trigger(*old(self)),
    {
        self.enabled = self.dac_enabled;
        if self.length_counter == 0 {
            self.length_counter = 64;
        }
        self.timer = (2048 - self.frequency) * 4;
        self.envelope_timer = self.envelope_period;
        self.volume = self.volume_initial;
    }

    /// Value that NR21 reads as.
    pub open spec fn nr21_value(&self) -> u8 {
        (self.duty << 6u8) | 0x3F
    }

    /// NR21 read: duty in bits 6-7, the rest reads as 1.
    pub fn read_nr21(&self) -> (r: Byte)
        ensures
            r == self.nr21_value(),
    {
        (self.duty << 6u8) | 0x3F
    }

    /// NR21 write: duty (bits 6-7) and length load (64 minus bits 0-5).
    pub fn write_nr21(&mut self, value: Byte)
        requires
            old(self).wf(),
        ensures
            final(self).wf(),
            *final(self) == (Channel2 {
                duty: (value >> 6u8) & 0x03,
                length_counter: (64 - (value & 0x3F)) as u16,
                ..*old(self)
            }),
    {
        proof {
            lemma_mask_bounds(0, value >> 6u8);
            lemma_mask_bounds(0, value);
        }
        self.duty = (value >> 6u8) & 0x03;
        self.length_counter = 64 - (value & 0x3F) as u16;
    }

    /// Value that NR22 reads as.
    pub open spec fn nr22_value(&self) -> u8 {
        (self.volume_initial << 4u8) | (if self.envelope_add { 0x08u8 } else { 0 }) | self.envelope_period
    }

    /// NR22 read: initial volume, direction, period.
    pub fn read_nr22(&self) -> (r: Byte)
        requires
            self.wf(),
        ensures
            r == self.nr22_value(),
    {
        (self.volume_initial << 4u8) | (if self.envelope_add { 0x08u8 } else { 0 }) | self.envelope_period
    }

    /// NR22 write: envelope; a zero in the upper five bits turns the DAC and channel off.
    pub fn write_nr22(&mut self, value: Byte)
        requires
            old(self).wf(),
        ensures
            final(self).wf(),
            *final(self) == (Channel2 {
                volume_initial: (value >> 4u8) & 0x0F,
                envelope_add: (value & 0x08) != 0,
                envelope_period: value & 0x07,
                dac_enabled: (value & 0xF8) != 0,
                enabled: old(self).enabled && (value & 0xF8) != 0,
                ..*old(self)
            }),
    {
        proof {
            lemma_mask_bounds(0, value >> 4u8);
            lemma_mask_bounds(0, value);
        }
        self.volume_initial = (value >> 4u8) & 0x0F;
        self.envelope_add = (value & 0x08) != 0;
        self.envelope_period = value & 0x07;
        self.dac_enabled = (value & 0xF8) != 0;
        if !self.dac_enabled {
            self.enabled = false;
        }
    }

    /// NR23 write: low eight bits of the frequency.
    pub fn write_nr23(&mut self, value: Byte)
        requires
            old(self).wf(),
        ensures
            final(self).wf(),
            *final(self) == (Channel2 { frequency: (old(self).frequency & 0x700) | value as u16, ..*old(self) }),
    {
        proof {
            lemma_mask_bounds(self.frequency, value);
        }
        self.frequency = (self.frequency & 0x700) | value as u16;
    }

    /// Value that NR24 reads as.
    pub open spec fn nr24_value(&self) -> u8 {
        (if self.length_enabled { 0x40u8 } else { 0 }) | 0xBF
    }

    /// NR24 read: length enable in bit 6, the rest reads as 1.
    pub fn read_nr24(&self) -> (r: Byte)
        ensures
            r == self.nr24_value(),
    {
        (if self.length_enabled { 0x40u8 } else { 0 }) | 0xBF
    }

    /// NR24 write: length enable, frequency bits 8-10, and trigger on bit 7.
    pub fn write_nr24(&mut self, value: Byte)
        requires
            old(self).wf(),
        ensures
            final(self).wf(),
            ({
                let m = Channel2 {
                    length_enabled: (value & 0x40) != 0,
                    frequency: (old(self).frequency & 0xFF) | (((value as u16) & 0x07) << 8u16),
                    ..*old(self)
                };
                *final(self) == if value & 0x80 != 0 { Channel2::after_trigger(m) } else { m }
            }),
    {
        proof {
            lemma_mask_bounds(self.frequency, value);
        }
        self.length_enabled = (value & 0x40) != 0;
        self.frequency = (self.frequency & 0xFF) | (((value as u16) & 0x07) << 8u16);
        if (value & 0x80) != 0 {
            self.trigger();
        }
    }
}

/// Channel 3: 32-step 4-bit wave table.
#[derive(Debug, Clone)]
pub struct Channel3 {
    pub enabled: bool,
    pub dac_enabled: bool,
    pub length_counter: u16,
    pub volume_code: u8,
    pub frequency: u16,
    pub length_enabled: bool,
    pub wave_ram: Vec<Byte>,
    pub timer: u16,
    pub wave_position: u8,
}

/// The 4-bit sample at step `pos` of the wave table, high nibble first.
pub open spec fn wave_sample(ram: Seq<u8>, pos: u8) -> u8 {
    let b = ram[(pos / 2) as int];
    if pos % 2 == 0 { b >> 4u8 } else { b & 0x0F }
}

/// Right shift applied for a volume code: 4, 0, 1, 2.
pub open spec fn wave_shift(code: u8) -> u8 {
    if code == 0 {
        4
    } else if code == 1 {
        0
    } else if code == 2 {
        1
    } else {
        2
    }
}

impl Channel3 {
    /// The freshly built (powered-off) state.
    pub open spec fn is_initial(&self) -> bool {
        &&& !self.enabled && !self.dac_enabled && self.length_counter == 0 && self.volume_code == 0
        &&& self.frequency == 0 && !self.length_enabled && self.timer == 0 && self.wave_position == 0
        &&& self.wave_ram@ == Seq::new(16, |i: int| 0u8)
    }

    /// State after one T-cycle of the period timer.
    pub open spec fn after_tick(o: Channel3) -> Channel3 {
        let t: int = if o.timer > 0 { o.timer - 1 } else { 0 };
        if t == 0 {
            Channel3 { timer: ((2048 - o.frequency) * 2) as u16, wave_position: ((o.wave_position + 1) % 32) as u8, ..o }
        } else {
            Channel3 { timer: t as u16, ..o }
        }
    }

    /// State after one length tick.
    pub open spec fn after_length(o: Channel3) -> Channel3 {
        if o.length_enabled && o.length_counter > 0 {
            Channel3 { length_counter: (o.length_counter - 1) as u16, enabled: o.enabled && o.length_counter != 1, ..o }
        } else {
            o
        }
    }

    pub open spec fn wf(&self) -> bool {
        &&& self.length_counter <= 256 && self.volume_code < 4 && self.frequency < 2048
        &&& self.wave_ram@.len() == 16 && self.wave_position < 32
    }

    /// A silent channel with an all-zero wave table.
    pub fn new() -> (r: Self)
        ensures
            r.is_initial(),
            r.wf(),
            !r.enabled && !r.dac_enabled,
            forall|i: int| 0 <= i < 16 ==> r.wave_ram@[i] == 0,
    {
        Channel3 {
            enabled: false,
            dac_enabled: false,
            length_counter: 0,
            volume_code: 0,
            frequency: 0,
            length_enabled: false,
            wave_ram: filled(16, 0u8),
            timer: 0,
            wave_position: 0,
        }
    }

    /// One T-cycle: the timer reloads to (2048 - frequency) * 2 and the wave step advances.
    pub fn tick(&mut self)
        requires
            old(self).wf(),
        ensures
            final(self).wf(),
            *final(self) == Channel3::after_tick(*old(self)),
    {
        if self.timer > 0 {
            self.timer = self.timer - 1;
        }
        if self.timer == 0 {
            self.timer = (2048 - self.frequency) * 2;
            self.wave_position = (self.wave_position + 1) % 32;
        }
    }

    /// Length tick.
    pub fn tick_length(&mut self)
        requires
            old(self).wf(),
        ensures
            final(self).wf(),
            *final(self) == Channel3::after_length(*old(self)),
    {
        if self.length_enabled && self.length_counter > 0 {
            self.length_counter = self.length_counter - 1;
            if self.length_counter == 0 {
                self.enabled = false;
            }
        }
    }

    /// Output level: the wave sample shifted right by 4, 0, 1 or 2 for volume codes 0-3.
    pub open spec fn out(&self) -> u8 {
        if !self.enabled || !self.dac_enabled {
            0
        } else {
            wave_sample(self.wave_ram@, self.wave_position) >> wave_shift(self.volume_code)
        }
    }

    /// Current output: the wave sample shifted right by 4, 0, 1 or 2 for volume codes 0-3.
    pub fn output(&self) -> (r: u8)
        requires
            self.wf(),
        ensures
            r == self.out(),
            r < 16,
    {
        if !self.enabled || !self.dac_enabled {
            return 0;
        }
        let b = self.wave_ram[(self.wave_position / 2) as usize];
        let sample = if self.wave_position % 2 == 0 { b >> 4u8 } else { b & 0x0F };
        let shift: u8 = match self.volume_code {
            0 => 4,
            1 => 0,
            2 => 1,
            _ => 2,
        };
        proof {
            lemma_mask_bounds(0, b);
            assert(b >> 4u8 < 16) by (bit_vector);
            assert(sample >> shift <= sample) by (bit_vector);
        }
        sample >> shift
    }

    /// Trigger (NR34 bit 7): length 256 when zero, timer reload, wave step 0.
    pub fn trigger(&mut self)
        requires
            old(self).wf(),
        ensures
            final(self).wf(),
            final(self).enabled == old(self).dac_enabled,
            final(self).length_counter == if old(self).length_counter == 0 { 256 } else { old(self).length_counter },
            final(self).timer == (2048 - old(self).frequency) * 2,
            final(self).wave_position == 0,
            final(self).wave_ram@ == old(self).wave_ram@,
            final(self).dac_enabled == old(self).dac_enabled && final(self).frequency == old(self).frequency,
            final(self).length_enabled == old(self).length_enabled && final(self).volume_code == old(self).volume_code,
    {
        self.enabled = self.dac_enabled;
        if self.length_counter == 0 {
            self.length_counter = 256;
        }
        self.timer = (2048 - self.frequency) * 2;
        self.wave_position = 0;
    }

    /// Value that NR30 reads as.
    pub open spec fn nr30_value(&self) -> u8 {
        (if self.dac_enabled { 0x80u8 } else { 0 }) | 0x7F
    }

    /// NR30 read: DAC enable in bit 7, the rest reads as 1.
    pub fn read_nr30(&self) -> (r: Byte)
        ensures
            r == self.nr30_value(),
    {
        (if self.dac_enabled { 0x80u8 } else { 0 }) | 0x7F
    }

    /// NR30 write: DAC enable; turning it off stops the channel.
    pub fn write_nr30(&mut self, value: Byte)
        requires
            old(self).wf(),
        ensures
            final(self).wf(),
            final(self).dac_enabled == ((value & 0x80) != 0),
            final(self).enabled == (old(self).enabled && (value & 0x80) != 0),
            final(self).wave_ram@ == old(self).wave_ram@ && final(self).frequency == old(self).frequency,
    {
        self.dac_enabled = (value & 0x80) != 0;
        if !self.dac_enabled {
            self.enabled = false;
        }
    }

    /// NR31 write: length load (256 minus the value).
    pub fn write_nr31(&mut self, value: Byte)
        requires
            old(self).wf(),
        ensures
            final(self).wf(),
            final(self).length_counter == 256 - value,
            final(self).wave_ram@ == old(self).wave_ram@ && final(self).enabled == old(self).enabled,
    {
        self.length_counter = 256 - value as u16;
    }

    /// Value that NR32 reads as.
    pub open spec fn nr32_value(&self) -> u8 {
        (self.volume_code << 5u8) | 0x9F
    }

    /// NR32 read: volume code in bits 5-6, the rest reads as 1.
    pub fn read_nr32(&self) -> (r: Byte)
        ensures
            r == self.nr32_value(),
    {
        (self.volume_code << 5u8) | 0x9F
    }

    /// NR32 write: volume code (bits 5-6).
    pub fn write_nr32(&mut self, value: Byte)
        requires
            old(self).wf(),
        ensures
            final(self).wf(),
            final(self).volume_code == (value >> 5u8) & 0x03,
            final(self).wave_ram@ == old(self).wave_ram@ && final(self).enabled == old(self).enabled,
    {
        proof {
            lemma_mask_bounds(0, value >> 5u8);
        }
        self.volume_code = (value >> 5u8) & 0x03;
    }

    /// NR33 write: low eight bits of the frequency.
    pub fn write_nr33(&mut self, value: Byte)
        requires
            old(self).wf(),
        ensures
            final(self).wf(),
            final(self).frequency == (old(self).frequency & 0x700) | value as u16,
            final(self).wave_ram@ == old(self).wave_ram@ && final(self).enabled == old(self).enabled,
    {
        proof {
            lemma_mask_bounds(self.frequency, value);
        }
        self.frequency = (self.frequency & 0x700) | value as u16;
    }

    /// Value that NR34 reads as.
    pub open spec fn nr34_value(&self) -> u8 {
        (if self.length_enabled { 0x40u8 } else { 0 }) | 0xBF
    }

    /// NR34 read: length enable in bit 6, the rest reads as 1.
    pub fn read_nr34(&self) -> (r: Byte)
        ensures
            r == self.nr34_value(),
    {
        (if self.length_enabled { 0x40u8 } else { 0 }) | 0xBF
    }

    /// NR34 write: length enable, frequency bits 8-10, and trigger on bit 7.
    pub fn write_nr34(&mut self, value: Byte)
        requires
            old(self).wf(),
        ensures
            final(self).wf(),
            final(self).length_enabled == ((value & 0x40) != 0),
            final(self).frequency == (old(self).frequency & 0xFF) | (((value as u16) & 0x07) << 8u16),
            final(self).wave_ram@ == old(self).wave_ram@,
            value & 0x80 != 0 ==> final(self).enabled == old(self).dac_enabled && final(self).wave_position == 0,
            value & 0x80 == 0 ==> final(self).enabled == old(self).enabled,
    {
        proof {
            lemma_mask_bounds(self.frequency, value);
        }
        self.length_enabled = (value & 0x40) != 0;
        self.frequency = (self.frequency & 0xFF) | (((value as u16) & 0x07) << 8u16);
        if (value & 0x80) != 0 {
            self.trigger();
        }
    }

    /// Read wave RAM (0xFF30-0xFF3F).
    pub fn read_wave_ram(&self, address: u16) -> (r: Byte)
        requires
            self.wf(),
            0xFF30 <= address <= 0xFF3F,
        ensures
            r == self.wave_ram@[address - 0xFF30],
    {
        self.wave_ram[(address - 0xFF30) as usize]
    }

    /// Write wave RAM (0xFF30-0xFF3F).
    pub fn write_wave_ram(&mut self, address: u16, value: Byte)
        requires
            old(self).wf(),
            0xFF30 <= address <= 0xFF3F,
        ensures
            final(self).wf(),
            final(self).wave_ram@ == old(self).wave_ram@.update(address - 0xFF30, value),
            final(self).enabled == old(self).enabled,
    {
        self.wave_ram.set((address - 0xFF30) as usize, value);
    }
}

/// Channel 4: noise from a 15-bit LFSR.
#[derive(Debug, Clone)]
pub struct Channel4 {
    pub enabled: bool,
    pub dac_enabled: bool,
    pub length_counter: u16,
    pub volume: u8,
    pub volume_initial: u8,
    pub envelope_add: bool,
    pub envelope_period: u8,
    pub envelope_timer: u8,
    pub clock_shift: u8,
    pub width_mode: bool,
    pub divisor_code: u8,
    pub length_enabled: bool,
    pub timer: u32,
    pub lfsr: u16,
}

/// One LFSR step: the xor of the two low bits is shifted in at bit 14, and also written
/// to bit 6 in 7-bit width mode.
pub open spec fn lfsr_step(lfsr: u16, width: bool) -> u16 {
    let x = (lfsr & 1) ^ ((lfsr >> 1u16) & 1);
    let l = (lfsr >> 1u16) | (x << 14u16);
    if width { (l & !(1u16 << 6u16)) | (x << 6u16) } else { l }
}

/// The noise period: divisor (8 for code 0, else 16 times the code) shifted left by the
/// clock shift.
pub open spec fn noise_period(code: u8, shift: u8) -> u32 {
    let d: u32 = if code == 0 { 8 } else { (code * 16) as u32 };
    d << shift
}

impl Channel4 {
    /// The freshly built (powered-off) state.
    pub open spec fn initial() -> Channel4 {
        Channel4 {
            enabled: false,
            dac_enabled: false,
            length_counter: 0,
            volume: 0,
            volume_initial: 0,
            envelope_add: false,
            envelope_period: 0,
            envelope_timer: 0,
            clock_shift: 0,
            width_mode: false,
            divisor_code: 0,
            length_enabled: false,
            timer: 0,
            lfsr: 0x7FFF,
        }
    }

    /// State after one T-cycle of the period timer.
    pub open spec fn after_tick(o: Channel4) -> Channel4 {
        let t: int = if o.timer > 0 { o.timer - 1 } else { 0 };
        if t == 0 {
            Channel4 { timer: (noise_period(o.divisor_code, o.clock_shift)) as u32, lfsr: lfsr_step(o.lfsr, o.width_mode), ..o }
        } else {
            Channel4 { timer: t as u32, ..o }
        }
    }

    /// State after one length tick.
    pub open spec fn after_length(o: Channel4) -> Channel4 {
        if o.length_enabled && o.length_counter > 0 {
            Channel4 { length_counter: (o.length_counter - 1) as u16, enabled: o.enabled && o.length_counter != 1, ..o }
        } else {
            o
        }
    }

    /// State after one envelope tick.
    pub open spec fn after_envelope(o: Channel4) -> Channel4 {
        if o.envelope_period == 0 {
            o
        } else {
            let t: int = if o.envelope_timer > 0 { o.envelope_timer - 1 } else { 0 };
            if t == 0 {
                Channel4 { envelope_timer: o.envelope_period, volume: envelope_step(o.volume, o.envelope_add), ..o }
            } else {
                Channel4 { envelope_timer: t as u8, ..o }
            }
        }
    }

    /// State after a trigger: the LFSR is seeded with 0x7FFF.
    pub open spec fn after_trigger(o: Channel4) -> Channel4 {
        Channel4 {
            enabled: o.dac_enabled,
            length_counter: if o.length_counter == 0 { 64 } else { o.length_counter },
            timer: noise_period(o.divisor_code, o.clock_shift),
            envelope_timer: o.envelope_period,
            volume: o.volume_initial,
            lfsr: 0x7FFF,
            ..o
        }
    }

    pub open spec fn wf(&self) -> bool {
        &&& self.length_counter <= 64 && self.volume < 16 && self.volume_initial < 16
        &&& self.envelope_period < 8 && self.envelope_timer < 8
        &&& self.clock_shift < 16 && self.divisor_code < 8
    }

    /// A silent channel with the LFSR at 0x7FFF.
    pub fn new() -> (r: Self)
        ensures
            r == Channel4::initial(),
            r.wf(),
            !r.enabled && !r.dac_enabled && r.lfsr == 0x7FFF && r.timer == 0,
    {
        Channel4 {
            enabled: false,
            dac_enabled: false,
            length_counter: 0,
            volume: 0,
            volume_initial: 0,
            envelope_add: false,
            envelope_period: 0,
            envelope_timer: 0,
            clock_shift: 0,
            width_mode: false,
            divisor_code: 0,
            length_enabled: false,
            timer: 0,
            lfsr: 0x7FFF,
        }
    }

    /// One T-cycle: when the timer runs out it reloads with the noise period and the LFSR steps.
    pub fn tick(&mut self)
        requires
            old(self).wf(),
        ensures
            final(self).wf(),
            *final(self) == Channel4::after_tick(*old(self)),
    {
        if self.timer > 0 {
            self.timer = self.timer - 1;
        }
        if self.timer == 0 {
            self.timer = self.get_timer_period();
            let xor_result = (self.lfsr & 1) ^ ((self.lfsr >> 1u16) & 1);
            let l = (self.lfsr >> 1u16) | (xor_result << 14u16);
            self.lfsr = if self.width_mode {
                (l & !(1u16 << 6u16)) | (xor_result << 6u16)
            } else {
                l
            };
        }
    }

    /// The noise period.
    pub fn get_timer_period(&self) -> (r: u32)
        requires
            self.wf(),
        ensures
            r == noise_period(self.divisor_code, self.clock_shift),
    {
        let divisor: u32 = if self.divisor_code == 0 {
            8
        } else {
            self.divisor_code as u32 * 16
        };
        divisor << self.clock_shift
    }

    /// Length tick.
    pub fn tick_length(&mut self)
        requires
            old(self).wf(),
        ensures
            final(self).wf(),
            *final(self) == Channel4::after_length(*old(self)),
    {
        if self.length_enabled && self.length_counter > 0 {
            self.length_counter = self.length_counter - 1;
            if self.length_counter == 0 {
                self.enabled = false;
            }
        }
    }

    /// Envelope tick.
    pub fn tick_envelope(&mut self)
        requires
            old(self).wf(),
        ensures
            final(self).wf(),
            *final(self) == Channel4::after_envelope(*old(self)),
    {
        if self.envelope_period == 0 {
            return;
        }
        if self.envelope_timer > 0 {
            self.envelope_timer = self.envelope_timer - 1;
        }
        if self.envelope_timer == 0 {
            self.envelope_timer = self.envelope_period;
            if self.envelope_add && self.volume < 15 {
                self.volume = self.volume + 1;
            } else if !self.envelope_add && self.volume > 0 {
                self.volume = self.volume - 1;
            }
        }
    }

    /// Output level: the volume while LFSR bit 0 is clear, else 0.
    pub open spec fn out(&self) -> u8 {
        if !self.enabled || !self.dac_enabled { 0 } else if self.lfsr & 1 == 0 { self.volume } else { 0 }
    }

    /// Current output: the volume while LFSR bit 0 is clear, else 0.
    pub fn output(&self) -> (r: u8)
        requires
            self.wf(),
        ensures
            r == self.out(),
            r < 16,
    {
        if !self.enabled || !self.dac_enabled {
            return 0;
        }
        if (self.lfsr & 1) == 0 {
            self.volume
        } else {
            0
        }
    }

    /// Trigger (NR44 bit 7): the LFSR is seeded with 0x7FFF.
    pub fn trigger(&mut self)
        requires
            old(self).wf(),
        ensures
            final(self).wf(),
            *final(self) == Channel4::after_trigger(*old(self)),
    {
        self.enabled = self.dac_enabled;
        if self.length_counter == 0 {
            self.length_counter = 64;
        }
        self.timer = self.get_timer_period();
        self.envelope_timer = self.envelope_period;
        self.volume = self.volume_initial;
        self.lfsr = 0x7FFF;
    }

    /// NR41 write: length load (64 minus bits 0-5).
    pub fn write_nr41(&mut self, value: Byte)
        requires
            old(self).wf(),
        ensures
            final(self).wf(),
            *final(self) == (Channel4 { length_counter: (64 - (value & 0x3F)) as u16, ..*old(self) }),
    {
        proof {
            lemma_mask_bounds(0, value);
        }
        self.length_counter = 64 - (value & 0x3F) as u16;
    }

    /// Value that NR42 reads as.
    pub open spec fn nr42_value(&self) -> u8 {
        (self.volume_initial << 4u8) | (if self.envelope_add { 0x08u8 } else { 0 }) | self.envelope_period
    }

    /// NR42 read: initial volume, direction, period.
    pub fn read_nr42(&self) -> (r: Byte)
        requires
            self.wf(),
        ensures
            r == self.nr42_value(),
    {
        (self.volume_initial << 4u8) | (if self.envelope_add { 0x08u8 } else { 0 }) | self.envelope_period
    }

    /// NR42 write: envelope; a zero in the upper five bits turns the DAC and channel off.
    pub fn write_nr42(&mut self, value: Byte)
        requires
            old(self).wf(),
        ensures
            final(self).wf(),
            *final(self) == (Channel4 {
                volume_initial: (value >> 4u8) & 0x0F,
                envelope_add: (value & 0x08) != 0,
                envelope_period: value & 0x07,
                dac_enabled: (value & 0xF8) != 0,
                enabled: old(self).enabled && (value & 0xF8) != 0,
                ..*old(self)
            }),
    {
        proof {
            lemma_mask_bounds(0, value >> 4u8);
            lemma_mask_bounds(0, value);
        }
        self.volume_initial = (value >> 4u8) & 0x0F;
        self.envelope_add = (value & 0x08) != 0;
        self.envelope_period = value & 0x07;
        self.dac_enabled = (value & 0xF8) != 0;
        if !self.dac_enabled {
            self.enabled = false;
        }
    }

    /// Value that NR43 reads as.
    pub open spec fn nr43_value(&self) -> u8 {
        (self.clock_shift << 4u8) | (if self.width_mode { 0x08u8 } else { 0 }) | self.divisor_code
    }

    /// NR43 read: clock shift, width mode, divisor code.
    pub fn read_nr43(&self) -> (r: Byte)
        requires
            self.wf(),
        ensures
            r == self.nr43_value(),
    {
        (self.clock_shift << 4u8) | (if self.width_mode { 0x08u8 } else { 0 }) | self.divisor_code
    }

    /// NR43 write: clock shift (bits 4-7), width mode (bit 3), divisor code (bits 0-2).
    pub fn write_nr43(&mut self, value: Byte)
        requires
            old(self).wf(),
        ensures
            final(self).wf(),
            *final(self) == (Channel4 {
                clock_shift: (value >> 4u8) & 0x0F,
                width_mode: (value & 0x08) != 0,
                divisor_code: value & 0x07,
                ..*old(self)
            }),
    {
        proof {
            lemma_mask_bounds(0, value >> 4u8);
            lemma_mask_bounds(0, value);
        }
        self.clock_shift = (value >> 4u8) & 0x0F;
        self.width_mode = (value & 0x08) != 0;
        self.divisor_code = value & 0x07;
    }

    /// Value that NR44 reads as.
    pub open spec fn nr44_value(&self) -> u8 {
        (if self.length_enabled { 0x40u8 } else { 0 }) | 0xBF
    }

    /// NR44 read: length enable in bit 6, the rest reads as 1.
    pub fn read_nr44(&self) -> (r: Byte)
        ensures
            r == self.nr44_value(),
    {
        (if self.length_enabled { 0x40u8 } else { 0 }) | 0xBF
    }

    /// NR44 write: length enable, and trigger on bit 7.
    pub fn write_nr44(&mut self, value: Byte)
        requires
            old(self).wf(),
        ensures
            final(self).wf(),
            ({
                let m = Channel4 { length_enabled: (value & 0x40) != 0, ..*old(self) };
                *final(self) == if value & 0x80 != 0 { Channel4::after_trigger(m) } else { m }
            }),
    {
        self.length_enabled = (value & 0x40) != 0;
        if (value & 0x80) != 0 {
            self.trigger();
        }
    }
}

impl Default for Channel1 {
    /// Same as `Channel1::new`.
    fn default() -> (r: Self)
        ensures
            r.wf(),
    {
        Channel1::new()
    }
}

impl Default for Channel2 {
    /// Same as `Channel2::new`.
    fn default() -> (r: Self)
        ensures
            r.wf(),
    {
        Channel2::new()
    }
}

impl Default for Channel3 {
    /// Same as `Channel3::new`.
    fn default() -> (r: Self)
        ensures
            r.wf(),
    {
        Channel3::new()
    }
}

impl Default for Channel4 {
    /// Same as `Channel4::new`.
    fn default() -> (r: Self)
        ensures
            r.wf(),
    {
        Channel4::new()
    }
}

} // verus!
