//! LCD register file: LCDC, STAT, scroll, LY/LYC, palettes and window position, with the
//! edge-triggered STAT interrupt line.

use vstd::prelude::*;
use crate::common::{bit, bit_of, bit_set, Byte};

verus! {

/// PPU modes, as stored in STAT bits 0-1.
#[derive(Debug, Clone, Copy, PartialEq, Eq, Structural)]
pub enum PpuMode {
    HBlank,
    VBlank,
    OamScan,
    Transfer,
}

/// The STAT encoding of a mode.
pub open spec fn mode_bits(m: PpuMode) -> u8 {
    match m {
        PpuMode::HBlank => 0,
        PpuMode::VBlank => 1,
        PpuMode::OamScan => 2,
        PpuMode::Transfer => 3,
    }
}

impl PpuMode {
    /// The mode encoded in the low two bits of a byte.
    pub fn from_bits(value: u8) -> (r: PpuMode)
        ensures
            r == mode_of(value),
    {
        proof {
            lemma_stat_bits(value, 0, 0, 0);
        }
        match value & 0x03 {
            0 => PpuMode::HBlank,
            1 => PpuMode::VBlank,
            2 => PpuMode::OamScan,
            _ => PpuMode::Transfer,
        }
    }
}

/// The mode held in bits 0-1 of a STAT value.
pub open spec fn mode_of(stat: u8) -> PpuMode {
    if bit_of(stat, 1) {
        if bit_of(stat, 0) { PpuMode::Transfer } else { PpuMode::OamScan }
    } else {
        if bit_of(stat, 0) { PpuMode::VBlank } else { PpuMode::HBlank }
    }
}

/// The STAT interrupt line: the OR of the enabled sources (HBlank, VBlank, OAM scan
/// by mode, and LY==LYC).
pub open spec fn stat_line_of(stat: u8) -> bool {
    let m = mode_of(stat);
    (m == PpuMode::HBlank && bit_of(stat, 3)) || (m == PpuMode::VBlank && bit_of(stat, 4))
        || (m == PpuMode::OamScan && bit_of(stat, 5)) || (bit_of(stat, 2) && bit_of(stat, 6))
}

pub proof fn lemma_stat_bits(s: u8, m: u8, v: u8, k: u8)
    by (bit_vector)
    requires
        m < 4,
        k < 8,
    ensures
        bit_of((s & 0xFC) | m, k) == if k < 2 { bit_of(m, k) } else { bit_of(s, k) },
        bit_of((s & 0x07) | (v & 0xF8), k) == if k < 3 { bit_of(s, k) } else { bit_of(v, k) },
        s & 3 == (if bit_of(s, 1) { 2u8 } else { 0 }) + (if bit_of(s, 0) { 1u8 } else { 0 }),
        bit_of(m, 0) == (m == 1 || m == 3),
        bit_of(m, 1) == (m >= 2),
{
}

/// LCD controller registers.
#[derive(Debug, Clone)]
pub struct Lcd {
    /// LCDC - LCD Control (0xFF40)
    pub lcdc: Byte,
    /// STAT - LCD Status (0xFF41)
    pub stat: Byte,
    /// SCY - Scroll Y (0xFF42)
    pub scy: Byte,
    /// SCX - Scroll X (0xFF43)
    pub scx: Byte,
    /// LY - Current scanline (0xFF44)
    pub ly: Byte,
    /// LYC - LY Compare (0xFF45)
    pub lyc: Byte,
    /// BGP - Background Palette (0xFF47)
    pub bgp: Byte,
    /// OBP0 - Object Palette 0 (0xFF48)
    pub obp0: Byte,
    /// OBP1 - Object Palette 1 (0xFF49)
    pub obp1: Byte,
    /// WY - Window Y Position (0xFF4A)
    pub wy: Byte,
    /// WX - Window X Position (0xFF4B)
    pub wx: Byte,
    /// STAT interrupt requested
    pub stat_interrupt: bool,
    /// Level of the STAT interrupt line when last sampled
    pub stat_line: bool,
}

impl Lcd {
    /// The other registers are those of `o`.
    pub open spec fn same_regs(&self, o: Lcd) -> bool {
        self.lcdc == o.lcdc && self.scy == o.scy && self.scx == o.scx && self.lyc == o.lyc
            && self.bgp == o.bgp && self.obp0 == o.obp0 && self.obp1 == o.obp1 && self.wy == o.wy
            && self.wx == o.wx
    }

    /// STAT after `o`'s line was sampled again: a rising edge requests the interrupt.
    pub open spec fn sampled_from(&self, o: Lcd) -> bool {
        &&& self.stat_line == stat_line_of(self.stat)
        &&& self.stat_interrupt == (o.stat_interrupt || (stat_line_of(self.stat) && !o.stat_line))
    }

    /// Registers after the boot ROM: LCDC=0x91, STAT=0x02 (mode 2), BGP=0xFC, OBP0=OBP1=0xFF.
    pub fn new() -> (r: Self)
        ensures
            r.lcdc == 0x91 && r.stat == 0x02 && r.bgp == 0xFC && r.obp0 == 0xFF && r.obp1 == 0xFF,
            r.scy == 0 && r.scx == 0 && r.ly == 0 && r.lyc == 0 && r.wy == 0 && r.wx == 0,
            !r.stat_interrupt && !r.stat_line,
    {
        Lcd {
            lcdc: 0x91,
            stat: 0x02,
            scy: 0,
            scx: 0,
            ly: 0,
            lyc: 0,
            bgp: 0xFC,
            obp0: 0xFF,
            obp1: 0xFF,
            wy: 0,
            wx: 0,
            stat_interrupt: false,
            stat_line: false,
        }
    }

    /// Reset to the state after the boot ROM.
    pub fn init(&mut self)
        ensures
            final(self).lcdc == 0x91 && final(self).stat == 0x02 && final(self).bgp == 0xFC,
            final(self).obp0 == 0xFF && final(self).obp1 == 0xFF,
            final(self).scy == 0 && final(self).scx == 0 && final(self).ly == 0 && final(self).lyc == 0,
            final(self).wy == 0 && final(self).wx == 0,
            !final(self).stat_interrupt && !final(self).stat_line,
    {
        *self = Lcd::new();
    }

    /// Read an LCD register; STAT bit 7 reads as 1; 0xFF elsewhere.
    pub fn read(&self, address: u16) -> (r: Byte)
        ensures
            r == if address == 0xFF40 {
                self.lcdc
            } else if address == 0xFF41 {
                self.stat | 0x80
            } else if address == 0xFF42 {
                self.scy
            } else if address == 0xFF43 {
                self.scx
            } else if address == 0xFF44 {
                self.ly
            } else if address == 0xFF45 {
                self.lyc
            } else if address == 0xFF47 {
                self.bgp
            } else if address == 0xFF48 {
                self.obp0
            } else if address == 0xFF49 {
                self.obp1
            } else if address == 0xFF4A {
                self.wy
            } else if address == 0xFF4B {
                self.wx
            } else {
                0xFF
            },
    {
        match address {
            0xFF40 => self.lcdc,
            0xFF41 => self.stat | 0x80,
            0xFF42 => self.scy,
            0xFF43 => self.scx,
            0xFF44 => self.ly,
            0xFF45 => self.lyc,
            0xFF47 => self.bgp,
            0xFF48 => self.obp0,
            0xFF49 => self.obp1,
            0xFF4A => self.wy,
            0xFF4B => self.wx,
            _ => 0xFF,
        }
    }

    /// Write an LCD register. LY is read-only; STAT keeps its low three bits; a LYC or
    /// STAT write samples the STAT line again.
    pub fn write(&mut self, address: u16, value: Byte)
        ensures
            address != 0xFF40 ==> final(self).ly == old(self).ly,
            address == 0xFF40 && !(!bit_of(old(self).lcdc, 7) && bit_of(value, 7)) ==> *final(self) == (Lcd {
                lcdc: value,
                ..*old(self)
            }),
            address == 0xFF40 && !bit_of(old(self).lcdc, 7) && bit_of(value, 7) ==> {
                &&& final(self).lcdc == value && final(self).ly == 0
                &&& mode_of(final(self).stat) == PpuMode::OamScan
                &&& bit_of(final(self).stat, 2) == (old(self).lyc == 0)
                &&& forall|k: u8| 3 <= k < 8 ==> #[trigger] bit_of(final(self).stat, k) == bit_of(old(self).stat, k)
                &&& final(self).scy == old(self).scy && final(self).scx == old(self).scx && final(self).lyc == old(self).lyc
                &&& final(self).bgp == old(self).bgp && final(self).obp0 == old(self).obp0 && final(self).obp1 == old(self).obp1
                &&& final(self).wy == old(self).wy && final(self).wx == old(self).wx
            },
            address == 0xFF41 ==> {
                &&& final(self).same_regs(*old(self))
                &&& forall|k: u8| k < 8 ==> #[trigger] bit_of(final(self).stat, k) == if k < 3 {
                    bit_of(old(self).stat, k)
                } else {
                    bit_of(value, k)
                }
                &&& final(self).sampled_from(*old(self))
            },
            address == 0xFF42 ==> *final(self) == (Lcd { scy: value, ..*old(self) }),
            address == 0xFF43 ==> *final(self) == (Lcd { scx: value, ..*old(self) }),
            address == 0xFF44 ==> *final(self) == *old(self),
            address == 0xFF45 ==> {
                &&& final(self).lyc == value
                &&& final(self).lcdc == old(self).lcdc && final(self).bgp == old(self).bgp
                &&& final(self).scy == old(self).scy && final(self).scx == old(self).scx
                &&& final(self).obp0 == old(self).obp0 && final(self).obp1 == old(self).obp1
                &&& final(self).wy == old(self).wy && final(self).wx == old(self).wx
                &&& bit_of(final(self).stat, 2) == (old(self).ly == value)
                &&& forall|k: u8| k < 8 && k != 2 ==> #[trigger] bit_of(final(self).stat, k) == bit_of(old(self).stat, k)
                &&& final(self).sampled_from(*old(self))
            },
            address == 0xFF47 ==> *final(self) == (Lcd { bgp: value, ..*old(self) }),
            address == 0xFF48 ==> *final(self) == (Lcd { obp0: value, ..*old(self) }),
            address == 0xFF49 ==> *final(self) == (Lcd { obp1: value, ..*old(self) }),
            address == 0xFF4A ==> *final(self) == (Lcd { wy: value, ..*old(self) }),
            address == 0xFF4B ==> *final(self) == (Lcd { wx: value, ..*old(self) }),
    {
        match address {
            0xFF40 => {
                let was_on = self.lcd_enabled();
                self.lcdc = value;
                if !was_on && bit(value, 7) {
                    self.ly = 0;
                    self.set_mode(PpuMode::OamScan);
                    self.check_lyc();
                }
            },
            0xFF41 => {
                self.stat = (self.stat & 0x07) | (value & 0xF8);
                proof {
                    assert forall|k: u8| k < 8 implies #[trigger] bit_of(self.stat, k) == if k < 3 {
                        bit_of(old(self).stat, k)
                    } else {
                        bit_of(value, k)
                    } by {
                        lemma_stat_bits(old(self).stat, 0, value, k);
                    }
                }
                self.check_stat_interrupt();
            },
            0xFF42 => self.scy = value,
            0xFF43 => self.scx = value,
            0xFF44 => {},
            0xFF45 => {
                self.lyc = value;
                self.check_lyc();
            },
            0xFF47 => self.bgp = value,
            0xFF48 => self.obp0 = value,
            0xFF49 => self.obp1 = value,
            0xFF4A => self.wy = value,
            0xFF4B => self.wx = value,
            _ => {},
        }
    }

    /// LCD display enable (LCDC bit 7).
    pub fn lcd_enabled(&self) -> (r: bool)
        ensures
            r == bit_of(self.lcdc, 7),
    {
        bit(self.lcdc, 7)
    }

    /// Window tile map base (LCDC bit 6): 0x9C00 or 0x9800.
    pub fn window_tile_map(&self) -> (r: u16)
        ensures
            r == if bit_of(self.lcdc, 6) { 0x9C00u16 } else { 0x9800u16 },
    {
        if bit(self.lcdc, 6) { 0x9C00 } else { 0x9800 }
    }

    /// Window enable (LCDC bit 5).
    pub fn window_enabled(&self) -> (r: bool)
        ensures
            r == bit_of(self.lcdc, 5),
    {
        bit(self.lcdc, 5)
    }

    /// Tile data base (LCDC bit 4): 0x8000 (unsigned indices) or 0x8800 (signed).
    pub fn bg_tile_data(&self) -> (r: u16)
        ensures
            r == if bit_of(self.lcdc, 4) { 0x8000u16 } else { 0x8800u16 },
    {
        if bit(self.lcdc, 4) { 0x8000 } else { 0x8800 }
    }

    /// Background tile map base (LCDC bit 3): 0x9C00 or 0x9800.
    pub fn bg_tile_map(&self) -> (r: u16)
        ensures
            r == if bit_of(self.lcdc, 3) { 0x9C00u16 } else { 0x9800u16 },
    {
        if bit(self.lcdc, 3) { 0x9C00 } else { 0x9800 }
    }

    /// Sprite height (LCDC bit 2): 16 or 8.
    pub fn sprite_height(&self) -> (r: u8)
        ensures
            r == if bit_of(self.lcdc, 2) { 16u8 } else { 8u8 },
    {
        if bit(self.lcdc, 2) { 16 } else { 8 }
    }

    /// Sprite enable (LCDC bit 1).
    pub fn sprites_enabled(&self) -> (r: bool)
        ensures
            r == bit_of(self.lcdc, 1),
    {
        bit(self.lcdc, 1)
    }

    /// Background and window enable (LCDC bit 0).
    pub fn bg_window_enabled(&self) -> (r: bool)
        ensures
            r == bit_of(self.lcdc, 0),
    {
        bit(self.lcdc, 0)
    }

    /// Current mode (STAT bits 0-1).
    pub fn mode(&self) -> (r: PpuMode)
        ensures
            r == mode_of(self.stat),
    {
        PpuMode::from_bits(self.stat)
    }

    /// Set the mode bits and sample the STAT line.
    pub fn set_mode(&mut self, mode: PpuMode)
        ensures
            mode_of(final(self).stat) == mode,
            forall|k: u8| 2 <= k < 8 ==> #[trigger] bit_of(final(self).stat, k) == bit_of(old(self).stat, k),
            final(self).same_regs(*old(self)),
            final(self).ly == old(self).ly,
            final(self).sampled_from(*old(self)),
    {
        let m: u8 = match mode {
            PpuMode::HBlank => 0,
            PpuMode::VBlank => 1,
            PpuMode::OamScan => 2,
            PpuMode::Transfer => 3,
        };
        self.stat = (self.stat & 0xFC) | m;
        proof {
            assert forall|k: u8| k < 8 implies #[trigger] bit_of(self.stat, k) == if k < 2 {
                bit_of(m, k)
            } else {
                bit_of(old(self).stat, k)
            } by {
                lemma_stat_bits(old(self).stat, m, 0, k);
            }
            lemma_stat_bits(old(self).stat, m, 0, 0);
            assert(bit_of(self.stat, 0) == bit_of(m, 0));
            assert(bit_of(self.stat, 1) == bit_of(m, 1));
        }
        self.check_stat_interrupt();
    }

    /// LY==LYC flag (STAT bit 2).
    pub fn lyc_flag(&self) -> (r: bool)
        ensures
            r == bit_of(self.stat, 2),
    {
        bit(self.stat, 2)
    }

    /// Set the LY==LYC flag.
    pub fn set_lyc_flag(&mut self, value: bool)
        ensures
            bit_of(final(self).stat, 2) == value,
            forall|k: u8| k < 8 && k != 2 ==> #[trigger] bit_of(final(self).stat, k) == bit_of(old(self).stat, k),
            final(self).same_regs(*old(self)),
            final(self).ly == old(self).ly,
            final(self).stat_interrupt == old(self).stat_interrupt && final(self).stat_line == old(self).stat_line,
    {
        bit_set(&mut self.stat, 2, value);
    }

    /// HBlank STAT source enable (bit 3).
    pub fn hblank_int_enabled(&self) -> (r: bool)
        ensures
            r == bit_of(self.stat, 3),
    {
        bit(self.stat, 3)
    }

    /// VBlank STAT source enable (bit 4).
    pub fn vblank_int_enabled(&self) -> (r: bool)
        ensures
            r == bit_of(self.stat, 4),
    {
        bit(self.stat, 4)
    }

    /// OAM-scan STAT source enable (bit 5).
    pub fn oam_int_enabled(&self) -> (r: bool)
        ensures
            r == bit_of(self.stat, 5),
    {
        bit(self.stat, 5)
    }

    /// LY==LYC STAT source enable (bit 6).
    pub fn lyc_int_enabled(&self) -> (r: bool)
        ensures
            r == bit_of(self.stat, 6),
    {
        bit(self.stat, 6)
    }

    /// Set LY and update the coincidence flag and the STAT line.
    pub fn set_ly(&mut self, value: Byte)
        ensures
            final(self).ly == value,
            bit_of(final(self).stat, 2) == (value == old(self).lyc),
            forall|k: u8| k < 8 && k != 2 ==> #[trigger] bit_of(final(self).stat, k) == bit_of(old(self).stat, k),
            final(self).same_regs(*old(self)),
            final(self).sampled_from(*old(self)),
    {
        self.ly = value;
        self.check_lyc();
    }

    /// Advance LY, wrapping from 153 to 0, and update the coincidence flag and STAT line.
    pub fn inc_ly(&mut self)
        ensures
            final(self).ly == if old(self).ly >= 153 { 0 } else { old(self).ly + 1 },
            bit_of(final(self).stat, 2) == (final(self).ly == old(self).lyc),
            forall|k: u8| k < 8 && k != 2 ==> #[trigger] bit_of(final(self).stat, k) == bit_of(old(self).stat, k),
            final(self).same_regs(*old(self)),
            final(self).sampled_from(*old(self)),
    {
        self.ly = self.ly.wrapping_add(1);
        if self.ly > 153 {
            self.ly = 0;
        }
        self.check_lyc();
    }

    fn check_lyc(&mut self)
        ensures
            bit_of(final(self).stat, 2) == (old(self).ly == old(self).lyc),
            forall|k: u8| k < 8 && k != 2 ==> #[trigger] bit_of(final(self).stat, k) == bit_of(old(self).stat, k),
            final(self).same_regs(*old(self)),
            final(self).ly == old(self).ly,
            final(self).sampled_from(*old(self)),
    {
        let coincidence = self.ly == self.lyc;
        self.set_lyc_flag(coincidence);
        self.check_stat_interrupt();
    }

    /// Sample the STAT line; a rising edge requests the STAT interrupt.
    pub fn check_stat_interrupt(&mut self)
        ensures
            final(self).stat == old(self).stat,
            final(self).same_regs(*old(self)),
            final(self).ly == old(self).ly,
            final(self).sampled_from(*old(self)),
    {
        let line = match self.mode() {
            PpuMode::HBlank => self.hblank_int_enabled(),
            PpuMode::VBlank => self.vblank_int_enabled(),
            PpuMode::OamScan => self.oam_int_enabled(),
            PpuMode::Transfer => false,
        } || (self.lyc_flag() && self.lyc_int_enabled());
        if line && !self.stat_line {
            self.stat_interrupt = true;
        }
        self.stat_line = line;
    }

    /// Clear the STAT interrupt request.
    pub fn clear_stat_interrupt(&mut self)
        ensures
            *final(self) == (Lcd { stat_interrupt: false, ..*old(self) }),
    {
        self.stat_interrupt = false;
    }

    /// Shade of colour `color_id` through BGP.
    pub fn bg_color(&self, color_id: u8) -> (r: u8)
        requires
            color_id < 4,
        ensures
            r == (self.bgp >> (color_id * 2)) & 3,
    {
        (self.bgp >> (color_id * 2)) & 0x03
    }

    /// Shade of colour `color_id` through OBP0.
    pub fn sprite_color_0(&self, color_id: u8) -> (r: u8)
        requires
            color_id < 4,
        ensures
            r == (self.obp0 >> (color_id * 2)) & 3,
    {
        (self.obp0 >> (color_id * 2)) & 0x03
    }

    /// Shade of colour `color_id` through OBP1.
    pub fn sprite_color_1(&self, color_id: u8) -> (r: u8)
        requires
            color_id < 4,
        ensures
            r == (self.obp1 >> (color_id * 2)) & 3,
    {
        (self.obp1 >> (color_id * 2)) & 0x03
    }
}

impl Default for Lcd {
    /// Same as `Lcd::new`.
    fn default() -> (r: Self)
        ensures
            r.lcdc == 0x91 && r.stat == 0x02 && !r.stat_interrupt,
    {
        Lcd::new()
    }
}

} // verus!
