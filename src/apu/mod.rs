//! Audio processing unit: four channels, the 512 Hz frame sequencer and the stereo mixer.

pub mod channels;

use vstd::prelude::*;
use crate::common::Byte;
use crate::ram::filled;
use channels::{Channel1, Channel2, Channel3, Channel4};

verus! {

/// Output sample rate.
pub const SAMPLE_RATE: u32 = 44100;
/// CPU clock frequency.
pub const CPU_CLOCK: u32 = 4194304;
/// T-cycles per frame-sequencer step (512 Hz).
pub const FRAME_SEQUENCER_RATE: u32 = 8192;
/// Capacity of the sample ring, in samples (two per stereo frame).
pub const AUDIO_BUFFER_SIZE: usize = 4096;

/// A mixed side: the channel sum scaled by (volume + 1), divided by 4, times 256.
pub open spec fn mix_side(sum: int, vol: int) -> i16 {
    ((sum * (vol + 1)) / 4 * 256) as i16
}

/// Scale a side's channel sum by its master volume and project it to 16 bits.
fn mix(sum: i32, vol: u8) -> (r: i16)
    requires
        0 <= sum <= 60,
        vol < 8,
    ensures
        r == mix_side(sum as int, vol as int),
{
    let v = vol as i32 + 1;
    assert(0 <= sum * v <= 480) by (nonlinear_arith)
        requires
            0 <= sum <= 60,
            1 <= v <= 8,
    ;
    ((sum * v) / 4 * 256) as i16
}

/// Channel 1 after frame-sequencer step `s`: length on even steps, then sweep on 2 and
/// 6, envelope on 7.
pub open spec fn fs_ch1(c: Channel1, s: u8) -> Channel1 {
    if s == 2 || s == 6 {
        Channel1::after_sweep(Channel1::after_length(c))
    } else if s % 2 == 0 {
        Channel1::after_length(c)
    } else if s == 7 {
        Channel1::after_envelope(c)
    } else {
        c
    }
}

/// Channel 2 after frame-sequencer step `s`: length on even steps, envelope on 7.
pub open spec fn fs_ch2(c: Channel2, s: u8) -> Channel2 {
    if s % 2 == 0 {
        Channel2::after_length(c)
    } else if s == 7 {
        Channel2::after_envelope(c)
    } else {
        c
    }
}

/// Channel 3 after frame-sequencer step `s`: length on even steps.
pub open spec fn fs_ch3(c: Channel3, s: u8) -> Channel3 {
    if s % 2 == 0 {
        Channel3::after_length(c)
    } else {
        c
    }
}

/// Channel 4 after frame-sequencer step `s`: length on even steps, envelope on 7.
pub open spec fn fs_ch4(c: Channel4, s: u8) -> Channel4 {
    if s % 2 == 0 {
        Channel4::after_length(c)
    } else if s == 7 {
        Channel4::after_envelope(c)
    } else {
        c
    }
}

/// Audio processing unit.
#[derive(Debug)]
pub struct Apu {
    pub ch1: Channel1,
    pub ch2: Channel2,
    pub ch3: Channel3,
    pub ch4: Channel4,
    /// NR50: master volume and VIN
    pub nr50: Byte,
    /// NR51: panning
    pub nr51: Byte,
    /// NR52: power
    pub nr52: Byte,
    /// T-cycles into the current frame-sequencer step
    pub frame_sequencer_timer: u32,
    /// Frame-sequencer step (0-7)
    pub frame_sequencer_step: u8,
    /// Rate-matching accumulator for sample output
    pub sample_timer: u32,
    /// Output samples, left and right interleaved
    pub audio_buffer: Vec<i16>,
    /// Number of samples in the buffer
    pub buffer_pos: usize,
    /// Power
    pub enabled: bool,
}

impl Apu {
    pub open spec fn wf(&self) -> bool {
        &&& self.ch1.wf() && self.ch2.wf() && self.ch3.wf() && self.ch4.wf()
        &&& self.frame_sequencer_step < 8
        &&& self.frame_sequencer_timer < FRAME_SEQUENCER_RATE
        &&& self.sample_timer < CPU_CLOCK
        &&& self.audio_buffer@.len() == AUDIO_BUFFER_SIZE
        &&& self.buffer_pos <= AUDIO_BUFFER_SIZE
    }

    /// Sum of the channel outputs whose NR51 bits (at `base`..`base`+3) route them to a side.
    pub open spec fn side_sum(&self, base: u8) -> int {
        (if self.nr51 & (1u8 << base) != 0 { self.ch1.out() as int } else { 0 })
            + (if self.nr51 & (1u8 << (base + 1) as u8) != 0 { self.ch2.out() as int } else { 0 })
            + (if self.nr51 & (1u8 << (base + 2) as u8) != 0 { self.ch3.out() as int } else { 0 })
            + (if self.nr51 & (1u8 << (base + 3) as u8) != 0 { self.ch4.out() as int } else { 0 })
    }

    /// Value that NR52 reads as: power bit (from the power flag), channel-on bits, bits 4-6 set.
    pub open spec fn nr52_value(&self) -> u8 {
        (if self.enabled { 0x80u8 } else { 0 }) | (if self.ch1.enabled { 1u8 } else { 0 }) | (if self.ch2.enabled { 2u8 } else { 0 })
            | (if self.ch3.enabled { 4u8 } else { 0 }) | (if self.ch4.enabled { 8u8 } else { 0 }) | 0x70
    }

    /// What a read of `address` returns.
    pub open spec fn read_spec(&self, address: u16) -> u8 {
        if address == 0xFF10 {
            self.ch1.nr10_value()
        } else if address == 0xFF11 {
            self.ch1.nr11_value()
        } else if address == 0xFF12 {
            self.ch1.nr12_value()
        } else if address == 0xFF14 {
            self.ch1.nr14_value()
        } else if address == 0xFF16 {
            self.ch2.nr21_value()
        } else if address == 0xFF17 {
            self.ch2.nr22_value()
        } else if address == 0xFF19 {
            self.ch2.nr24_value()
        } else if address == 0xFF1A {
            self.ch3.nr30_value()
        } else if address == 0xFF1C {
            self.ch3.nr32_value()
        } else if address == 0xFF1E {
            self.ch3.nr34_value()
        } else if 0xFF30 <= address <= 0xFF3F {
            self.ch3.wave_ram@[address - 0xFF30]
        } else if address == 0xFF21 {
            self.ch4.nr42_value()
        } else if address == 0xFF22 {
            self.ch4.nr43_value()
        } else if address == 0xFF23 {
            self.ch4.nr44_value()
        } else if address == 0xFF24 {
            self.nr50
        } else if address == 0xFF25 {
            self.nr51
        } else if address == 0xFF26 {
            self.nr52_value()
        } else {
            0xFF
        }
    }

    /// Powered on with NR50=0x77, NR51=0xF3, NR52=0xF1 and silent channels.
    pub fn new() -> (r: Self)
        ensures
            r.wf(),
            r.enabled && r.nr50 == 0x77 && r.nr51 == 0xF3 && r.nr52 == 0xF1,
            r.buffer_pos == 0 && r.frame_sequencer_step == 0,
            !r.ch1.enabled && !r.ch2.enabled && !r.ch3.enabled && !r.ch4.enabled,
            r.ch1.sweep_period == 0 && !r.ch1.sweep_negate && r.ch1.sweep_shift == 0,
    {
        Apu {
            ch1: Channel1::new(),
            ch2: Channel2::new(),
            ch3: Channel3::new(),
            ch4: Channel4::new(),
            nr50: 0x77,
            nr51: 0xF3,
            nr52: 0xF1,
            frame_sequencer_timer: 0,
            frame_sequencer_step: 0,
            sample_timer: 0,
            audio_buffer: filled(AUDIO_BUFFER_SIZE, 0i16),
            buffer_pos: 0,
            enabled: true,
        }
    }

    /// Back to the power-on state.
    pub fn init(&mut self)
        ensures
            final(self).wf(),
            final(self).enabled && final(self).nr50 == 0x77 && final(self).nr51 == 0xF3 && final(self).nr52 == 0xF1,
            final(self).buffer_pos == 0 && final(self).frame_sequencer_step == 0,
    {
        *self = Apu::new();
    }

    /// One T-cycle: frame sequencer every 8192 cycles, channel timers, and one stereo
    /// frame each time the rate accumulator passes the CPU clock. Nothing while off.
    pub fn tick(&mut self)
        requires
            old(self).wf(),
        ensures
            final(self).wf(),
            !old(self).enabled ==> *final(self) == *old(self),
            old(self).enabled ==> ({
                let fs = old(self).frame_sequencer_timer + 1 >= FRAME_SEQUENCER_RATE;
                let st = old(self).frame_sequencer_step;
                let emit = old(self).sample_timer + SAMPLE_RATE >= CPU_CLOCK && old(self).buffer_pos + 2 <= AUDIO_BUFFER_SIZE;
                let pos = old(self).buffer_pos as int;
                &&& final(self).frame_sequencer_timer == if fs { 0 } else { old(self).frame_sequencer_timer + 1 }
                &&& final(self).frame_sequencer_step == if fs { (st + 1) % 8 } else { st as int }
                &&& final(self).ch1 == Channel1::after_tick(if fs { fs_ch1(old(self).ch1, st) } else { old(self).ch1 })
                &&& final(self).ch2 == Channel2::after_tick(if fs { fs_ch2(old(self).ch2, st) } else { old(self).ch2 })
                &&& final(self).ch3 == Channel3::after_tick(if fs { fs_ch3(old(self).ch3, st) } else { old(self).ch3 })
                &&& final(self).ch4 == Channel4::after_tick(if fs { fs_ch4(old(self).ch4, st) } else { old(self).ch4 })
                &&& final(self).sample_timer == (old(self).sample_timer + SAMPLE_RATE) % (CPU_CLOCK as int)
                &&& final(self).buffer_pos == if emit { pos + 2 } else { pos }
                &&& final(self).audio_buffer@ == if emit {
                    old(self).audio_buffer@
                        .update(pos, mix_side(final(self).side_sum(4), ((old(self).nr50 >> 4u8) & 7) as int))
                        .update(pos + 1, mix_side(final(self).side_sum(0), (old(self).nr50 & 7) as int))
                } else {
                    old(self).audio_buffer@
                }
                &&& final(self).nr50 == old(self).nr50 && final(self).nr51 == old(self).nr51
                &&& final(self).nr52 == old(self).nr52
            }),
            final(self).enabled == old(self).enabled,
    {
        if !self.enabled {
            return;
        }
        self.frame_sequencer_timer = self.frame_sequencer_timer + 1;
        if self.frame_sequencer_timer >= FRAME_SEQUENCER_RATE {
            self.frame_sequencer_timer = 0;
            self.tick_frame_sequencer();
        }
        self.ch1.tick();
        self.ch2.tick();
        self.ch3.tick();
        self.ch4.tick();
        self.sample_timer = self.sample_timer + SAMPLE_RATE;
        if self.sample_timer >= CPU_CLOCK {
            self.sample_timer = self.sample_timer - CPU_CLOCK;
            self.generate_sample();
        }
    }

    /// One frame-sequencer step: length ticks on steps 0, 2, 4, 6; sweep on 2 and 6;
    /// envelope on 7; then the step advances modulo 8.
    pub fn tick_frame_sequencer(&mut self)
        requires
            old(self).wf(),
        ensures
            final(self).wf(),
            final(self).frame_sequencer_step == (old(self).frame_sequencer_step + 1) % 8,
            final(self).ch1 == fs_ch1(old(self).ch1, old(self).frame_sequencer_step),
            final(self).ch2 == fs_ch2(old(self).ch2, old(self).frame_sequencer_step),
            final(self).ch3 == fs_ch3(old(self).ch3, old(self).frame_sequencer_step),
            final(self).ch4 == fs_ch4(old(self).ch4, old(self).frame_sequencer_step),
            final(self).enabled == old(self).enabled && final(self).nr50 == old(self).nr50 && final(self).nr51 == old(self).nr51,
            final(self).nr52 == old(self).nr52,
            final(self).frame_sequencer_timer == old(self).frame_sequencer_timer,
            final(self).sample_timer == old(self).sample_timer,
            final(self).audio_buffer@ == old(self).audio_buffer@ && final(self).buffer_pos == old(self).buffer_pos,
    {
        match self.frame_sequencer_step {
            0 | 4 => {
                self.ch1.tick_length();
                self.ch2.tick_length();
                self.ch3.tick_length();
                self.ch4.tick_length();
            },
            2 | 6 => {
                self.ch1.tick_length();
                self.ch2.tick_length();
                self.ch3.tick_length();
                self.ch4.tick_length();
                self.ch1.tick_sweep();
            },
            7 => {
                self.ch1.tick_envelope();
                self.ch2.tick_envelope();
                self.ch4.tick_envelope();
            },
            _ => {},
        }
        self.frame_sequencer_step = (self.frame_sequencer_step + 1) % 8;
    }

    fn side_sum_exec(&self, base: u8) -> (r: i32)
        requires
            self.wf(),
            base == 0 || base == 4,
        ensures
            r == self.side_sum(base),
            0 <= r <= 60,
    {
        let mut sum: i32 = 0;
        if self.nr51 & (1u8 << base) != 0 {
            sum = sum + self.ch1.output() as i32;
        }
        if self.nr51 & (1u8 << (base + 1)) != 0 {
            sum = sum + self.ch2.output() as i32;
        }
        if self.nr51 & (1u8 << (base + 2)) != 0 {
            sum = sum + self.ch3.output() as i32;
        }
        if self.nr51 & (1u8 << (base + 3)) != 0 {
            sum = sum + self.ch4.output() as i32;
        }
        sum
    }

    /// Mix one stereo frame into the buffer, while there is room for it.
    pub fn generate_sample(&mut self)
        requires
            old(self).wf(),
        ensures
            final(self).wf(),
            old(self).buffer_pos + 2 <= AUDIO_BUFFER_SIZE ==> {
                &&& final(self).buffer_pos == old(self).buffer_pos + 2
                &&& final(self).audio_buffer@ == old(self).audio_buffer@
                    .update(old(self).buffer_pos as int, mix_side(old(self).side_sum(4), ((old(self).nr50 >> 4u8) & 7) as int))
                    .update(old(self).buffer_pos + 1, mix_side(old(self).side_sum(0), (old(self).nr50 & 7) as int))
            },
            old(self).buffer_pos + 2 > AUDIO_BUFFER_SIZE ==> *final(self) == *old(self),
            final(self).ch1 == old(self).ch1 && final(self).ch2 == old(self).ch2,
            final(self).ch3 == old(self).ch3 && final(self).ch4 == old(self).ch4,
            final(self).nr50 == old(self).nr50 && final(self).nr51 == old(self).nr51 && final(self).nr52 == old(self).nr52,
            final(self).frame_sequencer_step == old(self).frame_sequencer_step,
            final(self).frame_sequencer_timer == old(self).frame_sequencer_timer,
            final(self).sample_timer == old(self).sample_timer,
            final(self).enabled == old(self).enabled,
    {
        if self.buffer_pos + 2 > self.audio_buffer.len() {
            return;
        }
        let left = self.side_sum_exec(4);
        let right = self.side_sum_exec(0);
        proof {
            crate::common::lemma_mask_bounds(0, self.nr50 >> 4u8);
            crate::common::lemma_mask_bounds(0, self.nr50);
        }
        let l = mix(left, (self.nr50 >> 4u8) & 0x07);
        let r = mix(right, self.nr50 & 0x07);
        let pos = self.buffer_pos;
        self.audio_buffer.set(pos, l);
        self.audio_buffer.set(pos + 1, r);
        self.buffer_pos = pos + 2;
    }

    /// Take the samples produced so far (left and right interleaved); the buffer restarts.
    pub fn get_audio_buffer(&mut self) -> (r: Vec<i16>)
        requires
            old(self).wf(),
        ensures
            final(self).wf(),
            r@ == old(self).audio_buffer@.subrange(0, old(self).buffer_pos as int),
            final(self).buffer_pos == 0,
            final(self).audio_buffer@ == old(self).audio_buffer@,
    {
        let len = self.buffer_pos;
        let mut out: Vec<i16> = Vec::new();
        let mut i: usize = 0;
        while i < len
            invariant
                self.wf(),
                len == self.buffer_pos,
                i <= len,
                out@ == self.audio_buffer@.subrange(0, i as int),
            decreases len - i,
        {
            out.push(self.audio_buffer[i]);
            i = i + 1;
            proof {
                assert(out@ =~= self.audio_buffer@.subrange(0, i as int));
            }
        }
        self.buffer_pos = 0;
        out
    }

    /// Read an APU register, with the unused bits reading as 1.
    pub fn read(&self, address: u16) -> (r: Byte)
        requires
            self.wf(),
        ensures
            r == self.read_spec(address),
    {
        match address {
            0xFF10 => self.ch1.read_nr10(),
            0xFF11 => self.ch1.read_nr11(),
            0xFF12 => self.ch1.read_nr12(),
            0xFF14 => self.ch1.read_nr14(),
            0xFF16 => self.ch2.read_nr21(),
            0xFF17 => self.ch2.read_nr22(),
            0xFF19 => self.ch2.read_nr24(),
            0xFF1A => self.ch3.read_nr30(),
            0xFF1C => self.ch3.read_nr32(),
            0xFF1E => self.ch3.read_nr34(),
            0xFF30..=0xFF3F => self.ch3.read_wave_ram(address),
            0xFF21 => self.ch4.read_nr42(),
            0xFF22 => self.ch4.read_nr43(),
            0xFF23 => self.ch4.read_nr44(),
            0xFF24 => self.nr50,
            0xFF25 => self.nr51,
            0xFF26 => {
                (if self.enabled { 0x80u8 } else { 0 }) | (if self.ch1.enabled { 1u8 } else { 0 }) | (if self.ch2.enabled { 2u8 } else { 0 })
                    | (if self.ch3.enabled { 4u8 } else { 0 }) | (if self.ch4.enabled { 8u8 } else { 0 }) | 0x70
            },
            _ => 0xFF,
        }
    }

    /// Write an APU register. While powered off only NR52 and wave RAM take writes;
    /// clearing NR52 bit 7 resets all channels and zeroes NR50 and NR51.
    #[verifier::rlimit(80)]
    pub fn write(&mut self, address: u16, value: Byte)
        requires
            old(self).wf(),
        ensures
            final(self).wf(),
            !old(self).enabled && address != 0xFF26 && !(0xFF30 <= address <= 0xFF3F) ==> *final(self) == *old(self),
            0xFF30 <= address <= 0xFF3F ==> final(self).ch3.wave_ram@ == old(self).ch3.wave_ram@.update(address - 0xFF30, value),
            address == 0xFF24 && old(self).enabled ==> *final(self) == (Apu { nr50: value, ..*old(self) }),
            address == 0xFF25 && old(self).enabled ==> *final(self) == (Apu { nr51: value, ..*old(self) }),
            address == 0xFF26 ==> {
                &&& final(self).enabled == ((value & 0x80) != 0)
                &&& final(self).nr52 == value & 0x80
                &&& old(self).enabled && (value & 0x80) == 0 ==> {
                    &&& final(self).nr50 == 0 && final(self).nr51 == 0
                    &&& final(self).ch1 == Channel1::initial() && final(self).ch2 == Channel2::initial()
                    &&& final(self).ch3.is_initial() && final(self).ch4 == Channel4::initial()
                }
            },
            old(self).enabled && address == 0xFF10 ==> final(self).ch1 == (Channel1 {
                sweep_period: (value >> 4u8) & 0x07,
                sweep_negate: (value & 0x08) != 0,
                sweep_shift: value & 0x07,
                ..old(self).ch1
            }),
            old(self).enabled && address == 0xFF11 ==> final(self).ch1 == (Channel1 {
                duty: (value >> 6u8) & 0x03,
                length_counter: (64 - (value & 0x3F)) as u16,
                ..old(self).ch1
            }),
            old(self).enabled && address == 0xFF12 ==> final(self).ch1 == (Channel1 {
                volume_initial: (value >> 4u8) & 0x0F,
                envelope_add: (value & 0x08) != 0,
                envelope_period: value & 0x07,
                dac_enabled: (value & 0xF8) != 0,
                enabled: old(self).ch1.enabled && (value & 0xF8) != 0,
                ..old(self).ch1
            }),
            old(self).enabled && address == 0xFF13 ==> final(self).ch1 == (Channel1 {
                frequency: (old(self).ch1.frequency & 0x700) | value as u16,
                ..old(self).ch1
            }),
            old(self).enabled && address == 0xFF14 ==> final(self).ch1.length_enabled == ((value & 0x40) != 0)
                && final(self).ch1.frequency == (old(self).ch1.frequency & 0xFF) | (((value as u16) & 0x07) << 8u16),
            old(self).enabled && address == 0xFF16 ==> final(self).ch2 == (Channel2 {
                duty: (value >> 6u8) & 0x03,
                length_counter: (64 - (value & 0x3F)) as u16,
                ..old(self).ch2
            }),
            old(self).enabled && address == 0xFF17 ==> final(self).ch2 == (Channel2 {
                volume_initial: (value >> 4u8) & 0x0F,
                envelope_add: (value & 0x08) != 0,
                envelope_period: value & 0x07,
                dac_enabled: (value & 0xF8) != 0,
                enabled: old(self).ch2.enabled && (value & 0xF8) != 0,
                ..old(self).ch2
            }),
            old(self).enabled && address == 0xFF18 ==> final(self).ch2 == (Channel2 {
                frequency: (old(self).ch2.frequency & 0x700) | value as u16,
                ..old(self).ch2
            }),
            old(self).enabled && address == 0xFF19 ==> ({
                let m = Channel2 {
                    length_enabled: (value & 0x40) != 0,
                    frequency: (old(self).ch2.frequency & 0xFF) | (((value as u16) & 0x07) << 8u16),
                    ..old(self).ch2
                };
                final(self).ch2 == if value & 0x80 != 0 { Channel2::after_trigger(m) } else { m }
            }),
            old(self).enabled && address == 0xFF1B ==> final(self).ch3.length_counter == 256 - value,
            old(self).enabled && address == 0xFF1D ==> final(self).ch3.frequency == (old(self).ch3.frequency & 0x700) | value as u16,
            old(self).enabled && address == 0xFF1E ==> {
                &&& final(self).ch3.length_enabled == ((value & 0x40) != 0)
                &&& final(self).ch3.frequency == (old(self).ch3.frequency & 0xFF) | (((value as u16) & 0x07) << 8u16)
                &&& value & 0x80 != 0 ==> final(self).ch3.enabled == old(self).ch3.dac_enabled && final(self).ch3.wave_position == 0
            },
            old(self).enabled && address == 0xFF20 ==> final(self).ch4 == (Channel4 {
                length_counter: (64 - (value & 0x3F)) as u16,
                ..old(self).ch4
            }),
            old(self).enabled && address == 0xFF23 ==> ({
                let m = Channel4 { length_enabled: (value & 0x40) != 0, ..old(self).ch4 };
                final(self).ch4 == if value & 0x80 != 0 { Channel4::after_trigger(m) } else { m }
            }),
            old(self).enabled && address == 0xFF21 ==> final(self).ch4 == (Channel4 {
                volume_initial: (value >> 4u8) & 0x0F,
                envelope_add: (value & 0x08) != 0,
                envelope_period: value & 0x07,
                dac_enabled: (value & 0xF8) != 0,
                enabled: old(self).ch4.enabled && (value & 0xF8) != 0,
                ..old(self).ch4
            }),
            old(self).enabled && address == 0xFF22 ==> final(self).ch4 == (Channel4 {
                clock_shift: (value >> 4u8) & 0x0F,
                width_mode: (value & 0x08) != 0,
                divisor_code: value & 0x07,
                ..old(self).ch4
            }),
            old(self).enabled && address == 0xFF1A ==> final(self).ch3.dac_enabled == ((value & 0x80) != 0),
            old(self).enabled && address == 0xFF1C ==> final(self).ch3.volume_code == (value >> 5u8) & 0x03,
            address != 0xFF24 && address != 0xFF25 && address != 0xFF26 ==> final(self).nr50 == old(self).nr50
                && final(self).nr51 == old(self).nr51 && final(self).nr52 == old(self).nr52
                && final(self).enabled == old(self).enabled && final(self).frame_sequencer_step == old(self).frame_sequencer_step,
            0xFF10 <= address <= 0xFF14 ==> final(self).ch2 == old(self).ch2 && final(self).ch3 == old(self).ch3
                && final(self).ch4 == old(self).ch4,
            0xFF16 <= address <= 0xFF19 ==> final(self).ch1 == old(self).ch1 && final(self).ch3 == old(self).ch3
                && final(self).ch4 == old(self).ch4,
            0xFF20 <= address <= 0xFF23 ==> final(self).ch1 == old(self).ch1 && final(self).ch2 == old(self).ch2
                && final(self).ch3 == old(self).ch3,
    {
        if !self.enabled && address != 0xFF26 && !(0xFF30 <= address && address <= 0xFF3F) {
            return;
        }
        match address {
            0xFF10 => self.ch1.write_nr10(value),
            0xFF11 => self.ch1.write_nr11(value),
            0xFF12 => self.ch1.write_nr12(value),
            0xFF13 => self.ch1.write_nr13(value),
            0xFF14 => self.ch1.write_nr14(value),
            0xFF16 => self.ch2.write_nr21(value),
            0xFF17 => self.ch2.write_nr22(value),
            0xFF18 => self.ch2.write_nr23(value),
            0xFF19 => self.ch2.write_nr24(value),
            0xFF1A => self.ch3.write_nr30(value),
            0xFF1B => self.ch3.write_nr31(value),
            0xFF1C => self.ch3.write_nr32(value),
            0xFF1D => self.ch3.write_nr33(value),
            0xFF1E => self.ch3.write_nr34(value),
            0xFF30..=0xFF3F => self.ch3.write_wave_ram(address, value),
            0xFF20 => self.ch4.write_nr41(value),
            0xFF21 => self.ch4.write_nr42(value),
            0xFF22 => self.ch4.write_nr43(value),
            0xFF23 => self.ch4.write_nr44(value),
            0xFF24 => self.nr50 = value,
            0xFF25 => self.nr51 = value,
            0xFF26 => {
                let was_enabled = self.enabled;
                self.enabled = (value & 0x80) != 0;
                self.nr52 = value & 0x80;
                if was_enabled && !self.enabled {
                    self.ch1 = Channel1::new();
                    self.ch2 = Channel2::new();
                    self.ch3 = Channel3::new();
                    self.ch4 = Channel4::new();
                    self.nr50 = 0;
                    self.nr51 = 0;
                }
            },
            _ => {},
        }
    }
}

impl Default for Apu {
    /// Same as `Apu::new`.
    fn default() -> (r: Self)
        ensures
            r.wf(),
    {
        Apu::new()
    }
}

} // verus!
