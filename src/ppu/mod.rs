//! Pixel processing unit: the per-scanline mode machine, OAM scan and the background,
//! window and sprite compositor.

use vstd::prelude::*;
use crate::common::{bit, bit_of, lemma_mask_bounds, Byte, Word};
use crate::lcd::{mode_of, stat_line_of, Lcd, PpuMode};
use crate::ram::filled;

verus! {

/// Screen width in pixels.
pub const SCREEN_WIDTH: usize = 160;
/// Screen height in pixels.
pub const SCREEN_HEIGHT: usize = 144;
/// Scanlines per frame, VBlank included.
pub const LINES_PER_FRAME: u8 = 154;
/// T-cycles per scanline.
pub const TICKS_PER_LINE: u32 = 456;

/// One sprite of OAM.
#[derive(Debug, Clone, Copy, Default, PartialEq, Eq, Structural)]
pub struct OamEntry {
    /// Y position plus 16
    pub y: Byte,
    /// X position plus 8
    pub x: Byte,
    /// Tile index
    pub tile: Byte,
    /// Flags (priority, flips, palette)
    pub flags: Byte,
}

impl OamEntry {
    /// CGB palette number (bits 0-2).
    pub fn cgb_palette(&self) -> (r: Byte)
        ensures
            r == self.flags & 0x07,
    {
        self.flags & 0x07
    }

    /// CGB VRAM bank (bit 3).
    pub fn cgb_vram_bank(&self) -> (r: bool)
        ensures
            r == bit_of(self.flags, 3),
    {
        bit(self.flags, 3)
    }

    /// DMG palette: OBP1 when set (bit 4).
    pub fn palette_number(&self) -> (r: bool)
        ensures
            r == bit_of(self.flags, 4),
    {
        bit(self.flags, 4)
    }

    /// Horizontal flip (bit 5).
    pub fn x_flip(&self) -> (r: bool)
        ensures
            r == bit_of(self.flags, 5),
    {
        bit(self.flags, 5)
    }

    /// Vertical flip (bit 6).
    pub fn y_flip(&self) -> (r: bool)
        ensures
            r == bit_of(self.flags, 6),
    {
        bit(self.flags, 6)
    }

    /// Background over sprite (bit 7).
    pub fn bg_priority(&self) -> (r: bool)
        ensures
            r == bit_of(self.flags, 7),
    {
        bit(self.flags, 7)
    }
}

/// The ARGB colour of a shade (a green DMG palette).
pub open spec fn argb(shade: u8) -> u32 {
    let s = shade & 3;
    if s == 0 {
        0xFF9BBC0F
    } else if s == 1 {
        0xFF8BAC0F
    } else if s == 2 {
        0xFF306230
    } else {
        0xFF0F380F
    }
}

/// The 2-bit colour number at bit `bitp` of a tile row's two bytes.
pub open spec fn color_id(lo: u8, hi: u8, bitp: u8) -> u8 {
    (((hi >> bitp) & 1) * 2 + ((lo >> bitp) & 1)) as u8
}

/// Index in VRAM of the first byte of tile `idx` for the given data area.
pub open spec fn tile_base(data: u16, idx: u8) -> int {
    if data == 0x8000 {
        idx * 16
    } else if idx < 128 {
        0x1000 + idx * 16
    } else {
        0x1000 - (256 - idx) * 16
    }
}

/// Colour number of pixel (x, y) of the 256x256 plane drawn from tile map `map` and
/// tile data area `data`.
pub open spec fn tile_color_id(vram: Seq<u8>, map: u16, data: u16, x: u8, y: u8) -> u8 {
    let idx = vram[(map - 0x8000) + (y / 8) * 32 + x / 8];
    let row = tile_base(data, idx) + (y % 8) * 2;
    color_id(vram[row], vram[row + 1], (7 - x % 8) as u8)
}

/// Sprite test of one OAM entry at screen pixel (x, y): colour number is non-zero;
/// the result is the shade through OBP0/OBP1 and the background-priority flag.
pub open spec fn sprite_hit(s: OamEntry, vram: Seq<u8>, lcd: Lcd, x: u8, y: u8) -> Option<(u8, bool)> {
    let h: u8 = if bit_of(lcd.lcdc, 2) { 16 } else { 8 };
    if !(s.x <= x + 8 < s.x + 8) {
        None
    } else {
        let px0 = (x + 8 - s.x) as u8;
        let py0 = y.wrapping_add(16).wrapping_sub(s.y);
        let px = if bit_of(s.flags, 5) { (7 - px0) as u8 } else { px0 };
        let py = if bit_of(s.flags, 6) { (h - 1) as u8 } else { 0u8 };
        let py = if bit_of(s.flags, 6) { py.wrapping_sub(py0) } else { py0 };
        let tile = if h == 16 { s.tile & 0xFE } else { s.tile };
        let addr = tile * 16 + py * 2;
        if addr + 1 >= 0x2000 {
            None
        } else {
            let cid = color_id(vram[addr], vram[addr + 1], (7 - px) as u8);
            if cid == 0 {
                None
            } else {
                let pal = if bit_of(s.flags, 4) { lcd.obp1 } else { lcd.obp0 };
                Some(((pal >> (cid * 2)) & 3, bit_of(s.flags, 7)))
            }
        }
    }
}

/// The first sprite from index `i` on that is drawn at (x, y).
pub open spec fn sprite_pixel_from(sprites: Seq<OamEntry>, i: int, vram: Seq<u8>, lcd: Lcd, x: u8, y: u8) -> Option<(u8, bool)>
    decreases sprites.len() - i,
{
    if i >= sprites.len() || i < 0 {
        None
    } else {
        match sprite_hit(sprites[i], vram, lcd, x, y) {
            Some(r) => Some(r),
            None => sprite_pixel_from(sprites, i + 1, vram, lcd, x, y),
        }
    }
}

/// Window colour number at screen pixel (x, y), when the window covers it.
pub open spec fn window_id(vram: Seq<u8>, lcd: Lcd, window_line: u8, x: u8, y: u8) -> Option<u8> {
    if lcd.wx > 166 || lcd.wy > y || x + 7 < lcd.wx {
        None
    } else {
        let map: u16 = if bit_of(lcd.lcdc, 6) { 0x9C00 } else { 0x9800 };
        let data: u16 = if bit_of(lcd.lcdc, 4) { 0x8000 } else { 0x8800 };
        Some(tile_color_id(vram, map, data, (x + 7 - lcd.wx) as u8, window_line))
    }
}

/// Shade of screen pixel (x, LY): background, then window, then the first sprite,
/// which wins unless it yields to a non-zero background colour.
pub open spec fn pixel_shade(vram: Seq<u8>, sprites: Seq<OamEntry>, lcd: Lcd, window_line: u8, x: u8) -> u8 {
    let y = lcd.ly;
    let bg_on = bit_of(lcd.lcdc, 0);
    let map: u16 = if bit_of(lcd.lcdc, 3) { 0x9C00 } else { 0x9800 };
    let data: u16 = if bit_of(lcd.lcdc, 4) { 0x8000 } else { 0x8800 };
    let bg = if bg_on { tile_color_id(vram, map, data, lcd.scx.wrapping_add(x), lcd.scy.wrapping_add(y)) } else { 0 };
    let id = if bg_on && bit_of(lcd.lcdc, 5) {
        match window_id(vram, lcd, window_line, x, y) {
            Some(w) => w,
            None => bg,
        }
    } else {
        bg
    };
    let shade = if bg_on { (lcd.bgp >> (id * 2)) & 3 } else { 0 };
    if bit_of(lcd.lcdc, 1) {
        match sprite_pixel_from(sprites, 0, vram, lcd, x, y) {
            Some((s, pri)) => if !pri || id == 0 { s } else { shade },
            None => shade,
        }
    } else {
        shade
    }
}

/// Whether an OAM entry is on scanline `ly` for the given sprite height.
pub open spec fn on_line(e: OamEntry, ly: u8, h: u8) -> bool {
    e.y <= ly + 16 < e.y + h
}

/// OAM entry `i` of an OAM image.
pub open spec fn oam_entry(oam: Seq<u8>, i: int) -> OamEntry {
    OamEntry { y: oam[4 * i], x: oam[4 * i + 1], tile: oam[4 * i + 2], flags: oam[4 * i + 3] }
}

/// Number of the first `n` OAM entries that are on scanline `ly`.
pub open spec fn visible_count(oam: Seq<u8>, ly: u8, h: u8, n: int) -> nat
    decreases n,
{
    if n <= 0 {
        0
    } else {
        visible_count(oam, ly, h, n - 1) + if on_line(oam_entry(oam, n - 1), ly, h) { 1nat } else { 0 }
    }
}

proof fn lemma_visible_count_grows(oam: Seq<u8>, ly: u8, h: u8, i: int, j: int)
    requires
        0 <= i <= j,
    ensures
        visible_count(oam, ly, h, i) <= visible_count(oam, ly, h, j),
    decreases j - i,
{
    if i < j {
        lemma_visible_count_grows(oam, ly, h, i, j - 1);
    }
}

/// Sorted by x, ties kept in the order of the sequence.
pub open spec fn sorted_by_x(s: Seq<OamEntry>) -> bool {
    forall|i: int, j: int| 0 <= i < j < s.len() ==> s[i].x <= s[j].x
}

/// Pixel processing unit.
#[derive(Debug)]
pub struct Ppu {
    /// Video RAM (8 KiB)
    pub vram: Vec<Byte>,
    /// Object attribute memory (40 sprites of 4 bytes)
    pub oam: Vec<Byte>,
    /// Video buffer (160x144 pixels, ARGB)
    pub video_buffer: Vec<u32>,
    /// Frames completed
    pub current_frame: u32,
    /// T-cycles into the current line
    pub line_ticks: u32,
    /// Window internal line counter
    pub window_line: u8,
    /// VBlank interrupt requested
    pub vblank_interrupt: bool,
    /// Sprites on the current line (at most 10), sorted by x
    pub line_sprites: Vec<OamEntry>,
    /// Number of sprites on the current line
    pub sprite_count: usize,
}

impl Ppu {
    pub open spec fn wf(&self) -> bool {
        &&& self.vram@.len() == 0x2000
        &&& self.oam@.len() == 160
        &&& self.video_buffer@.len() == SCREEN_WIDTH * SCREEN_HEIGHT
        &&& self.line_sprites@.len() <= 10
    }

    /// OAM entry `i` as stored.
    pub open spec fn entry(&self, i: int) -> OamEntry {
        OamEntry { y: self.oam@[4 * i], x: self.oam@[4 * i + 1], tile: self.oam@[4 * i + 2], flags: self.oam@[4 * i + 3] }
    }

    /// A PPU with zeroed memory and a blank screen.
    pub fn new() -> (r: Self)
        ensures
            r.wf(),
            r.current_frame == 0 && r.line_ticks == 0 && r.window_line == 0 && !r.vblank_interrupt,
            r.line_sprites@.len() == 0,
            forall|i: int| 0 <= i < 0x2000 ==> r.vram@[i] == 0,
            forall|i: int| 0 <= i < 160 ==> r.oam@[i] == 0,
    {
        Ppu {
            vram: filled(0x2000, 0u8),
            oam: filled(160, 0u8),
            video_buffer: filled(SCREEN_WIDTH * SCREEN_HEIGHT, 0u32),
            current_frame: 0,
            line_ticks: 0,
            window_line: 0,
            vblank_interrupt: false,
            line_sprites: Vec::new(),
            sprite_count: 0,
        }
    }

    /// Reset memory, screen and counters.
    pub fn init(&mut self)
        ensures
            final(self).wf(),
            final(self).current_frame == 0 && final(self).line_ticks == 0 && final(self).window_line == 0,
            !final(self).vblank_interrupt,
            final(self).line_sprites@.len() == 0,
    {
        *self = Ppu::new();
    }

    /// Read VRAM at 0x8000-0x9FFF; 0xFF elsewhere.
    pub fn vram_read(&self, address: Word) -> (r: Byte)
        requires
            self.wf(),
        ensures
            r == if 0x8000 <= address <= 0x9FFF { self.vram@[address - 0x8000] } else { 0xFF },
    {
        let offset = address.wrapping_sub(0x8000) as usize;
        if offset < self.vram.len() {
            self.vram[offset]
        } else {
            0xFF
        }
    }

    /// Write VRAM at 0x8000-0x9FFF; ignored elsewhere.
    pub fn vram_write(&mut self, address: Word, value: Byte)
        requires
            old(self).wf(),
        ensures
            final(self).wf(),
            final(self).vram@ == if 0x8000 <= address <= 0x9FFF {
                old(self).vram@.update(address - 0x8000, value)
            } else {
                old(self).vram@
            },
            final(self).oam@ == old(self).oam@,
    {
        let offset = address.wrapping_sub(0x8000) as usize;
        if offset < self.vram.len() {
            self.vram.set(offset, value);
        }
    }

    /// Read OAM at 0xFE00-0xFE9F; 0xFF elsewhere.
    pub fn oam_read(&self, address: Word) -> (r: Byte)
        requires
            self.wf(),
        ensures
            r == if 0xFE00 <= address <= 0xFE9F { self.oam@[address - 0xFE00] } else { 0xFF },
    {
        let offset = address.wrapping_sub(0xFE00) as usize;
        if offset < self.oam.len() {
            self.oam[offset]
        } else {
            0xFF
        }
    }

    /// Write OAM at 0xFE00-0xFE9F; ignored elsewhere.
    pub fn oam_write(&mut self, address: Word, value: Byte)
        requires
            old(self).wf(),
        ensures
            final(self).wf(),
            final(self).oam@ == if 0xFE00 <= address <= 0xFE9F {
                old(self).oam@.update(address - 0xFE00, value)
            } else {
                old(self).oam@
            },
            final(self).vram@ == old(self).vram@,
    {
        let offset = address.wrapping_sub(0xFE00) as usize;
        if offset < self.oam.len() {
            self.oam.set(offset, value);
        }
    }

    /// OAM entry `index` (an all-zero entry past the 40th).
    pub fn get_oam_entry(&self, index: usize) -> (r: OamEntry)
        requires
            self.wf(),
        ensures
            index < 40 ==> r == self.entry(index as int),
            index >= 40 ==> r == (OamEntry { y: 0, x: 0, tile: 0, flags: 0 }),
    {
        if index >= 40 {
            return OamEntry { y: 0, x: 0, tile: 0, flags: 0 };
        }
        let offset = index * 4;
        OamEntry {
            y: self.oam[offset],
            x: self.oam[offset + 1],
            tile: self.oam[offset + 2],
            flags: self.oam[offset + 3],
        }
    }

    /// ARGB colour of a shade.
    pub fn color_to_argb(&self, color: u8) -> (r: u32)
        ensures
            r == argb(color),
    {
        match color & 0x03 {
            0 => 0xFF9BBC0F,
            1 => 0xFF8BAC0F,
            2 => 0xFF306230,
            _ => 0xFF0F380F,
        }
    }

    /// Clear the VBlank interrupt request.
    pub fn clear_vblank_interrupt(&mut self)
        ensures
            final(self).vblank_interrupt == false,
            final(self).vram == old(self).vram && final(self).oam == old(self).oam,
            final(self).video_buffer == old(self).video_buffer,
            final(self).line_sprites == old(self).line_sprites,
            final(self).current_frame == old(self).current_frame,
            final(self).line_ticks == old(self).line_ticks,
            final(self).window_line == old(self).window_line,
    {
        self.vblank_interrupt = false;
    }
}


/// Where a sprite with the given x goes in a list sorted by x: after every entry whose x
/// is not larger.
fn insert_pos(v: &Vec<OamEntry>, x: u8) -> (pos: usize)
    ensures
        pos <= v@.len(),
        forall|k: int| 0 <= k < pos ==> (#[trigger] v@[k]).x <= x,
        pos < v@.len() ==> v@[pos as int].x > x,
{
    let mut pos: usize = 0;
    while pos < v.len() && v[pos].x <= x
        invariant
            pos <= v@.len(),
            forall|k: int| 0 <= k < pos ==> (#[trigger] v@[k]).x <= x,
        decreases v@.len() - pos,
    {
        pos = pos + 1;
    }
    pos
}

impl Ppu {
    fn get_tile_pixel(&self, tile_map: u16, tile_data: u16, x: u8, y: u8) -> (r: u8)
        requires
            self.wf(),
            tile_map == 0x9800 || tile_map == 0x9C00,
            tile_data == 0x8000 || tile_data == 0x8800,
        ensures
            r == tile_color_id(self.vram@, tile_map, tile_data, x, y),
            r < 4,
    {
        let map_index = (tile_map - 0x8000) as usize + (y / 8) as usize * 32 + (x / 8) as usize;
        let idx = self.vram[map_index];
        let base: usize = if tile_data == 0x8000 {
            idx as usize * 16
        } else if idx < 128 {
            0x1000 + idx as usize * 16
        } else {
            0x1000 - (256 - idx as usize) * 16
        };
        let row = base + (y % 8) as usize * 2;
        let bitp = 7 - x % 8;
        let lo = self.vram[row];
        let hi = self.vram[row + 1];
        proof {
            lemma_mask_bounds(0, hi >> bitp);
            lemma_mask_bounds(0, lo >> bitp);
        }
        ((hi >> bitp) & 1) * 2 + ((lo >> bitp) & 1)
    }

    fn get_bg_pixel(&self, lcd: &Lcd, x: u8, y: u8) -> (r: u8)
        requires
            self.wf(),
        ensures
            r == tile_color_id(
                self.vram@,
                if bit_of(lcd.lcdc, 3) { 0x9C00u16 } else { 0x9800u16 },
                if bit_of(lcd.lcdc, 4) { 0x8000u16 } else { 0x8800u16 },
                lcd.scx.wrapping_add(x),
                lcd.scy.wrapping_add(y),
            ),
            r < 4,
    {
        let scroll_x = lcd.scx.wrapping_add(x);
        let scroll_y = lcd.scy.wrapping_add(y);
        self.get_tile_pixel(lcd.bg_tile_map(), lcd.bg_tile_data(), scroll_x, scroll_y)
    }

    fn get_window_pixel(&self, lcd: &Lcd, x: u8, y: u8) -> (r: Option<u8>)
        requires
            self.wf(),
        ensures
            r == window_id(self.vram@, *lcd, self.window_line, x, y),
            r matches Some(w) ==> w < 4,
    {
        if lcd.wx > 166 || lcd.wy > y {
            return None;
        }
        if (x as u16 + 7) < lcd.wx as u16 {
            return None;
        }
        let win_x = (x as u16 + 7 - lcd.wx as u16) as u8;
        Some(self.get_tile_pixel(lcd.window_tile_map(), lcd.bg_tile_data(), win_x, self.window_line))
    }

    fn sprite_hit_exec(&self, s: OamEntry, lcd: &Lcd, x: u8, y: u8) -> (r: Option<(u8, bool)>)
        requires
            self.wf(),
        ensures
            r == sprite_hit(s, self.vram@, *lcd, x, y),
    {
        let h = lcd.sprite_height();
        if !(s.x as u16 <= x as u16 + 8 && (x as u16 + 8) < s.x as u16 + 8) {
            return None;
        }
        let px0 = (x as u16 + 8 - s.x as u16) as u8;
        let py0 = y.wrapping_add(16).wrapping_sub(s.y);
        let px = if s.x_flip() { 7 - px0 } else { px0 };
        let py = if s.y_flip() { (h - 1).wrapping_sub(py0) } else { py0 };
        let tile = if h == 16 { s.tile & 0xFE } else { s.tile };
        let addr = tile as usize * 16 + py as usize * 2;
        if addr + 1 >= 0x2000 {
            return None;
        }
        let lo = self.vram[addr];
        let hi = self.vram[addr + 1];
        let bitp = 7 - px;
        proof {
            lemma_mask_bounds(0, hi >> bitp);
            lemma_mask_bounds(0, lo >> bitp);
        }
        let cid = ((hi >> bitp) & 1) * 2 + ((lo >> bitp) & 1);
        if cid == 0 {
            return None;
        }
        let color = if s.palette_number() {
            lcd.sprite_color_1(cid)
        } else {
            lcd.sprite_color_0(cid)
        };
        Some((color, s.bg_priority()))
    }

    fn get_sprite_pixel(&self, lcd: &Lcd, x: u8, y: u8) -> (r: Option<(u8, bool)>)
        requires
            self.wf(),
        ensures
            r == sprite_pixel_from(self.line_sprites@, 0, self.vram@, *lcd, x, y),
    {
        let mut i: usize = 0;
        while i < self.line_sprites.len()
            invariant
                self.wf(),
                i <= self.line_sprites@.len(),
                sprite_pixel_from(self.line_sprites@, 0, self.vram@, *lcd, x, y)
                    == sprite_pixel_from(self.line_sprites@, i as int, self.vram@, *lcd, x, y),
            decreases self.line_sprites@.len() - i,
        {
            let s = self.line_sprites[i];
            match self.sprite_hit_exec(s, lcd, x, y) {
                Some(hit) => return Some(hit),
                None => {},
            }
            i = i + 1;
        }
        None
    }

    fn scan_oam(&mut self, lcd: &Lcd)
        requires
            old(self).wf(),
        ensures
            final(self).wf(),
            sorted_by_x(final(self).line_sprites@),
            final(self).sprite_count == final(self).line_sprites@.len(),
            forall|k: int| 0 <= k < final(self).line_sprites@.len() ==>
                on_line(#[trigger] final(self).line_sprites@[k], lcd.ly, if bit_of(lcd.lcdc, 2) { 16u8 } else { 8u8 }),
            ({
                let n = visible_count(old(self).oam@, lcd.ly, if bit_of(lcd.lcdc, 2) { 16u8 } else { 8u8 }, 40);
                final(self).line_sprites@.len() == if n < 10 { n } else { 10 }
            }),
            final(self).vram == old(self).vram && final(self).oam == old(self).oam,
            final(self).video_buffer == old(self).video_buffer,
            final(self).current_frame == old(self).current_frame,
            final(self).line_ticks == old(self).line_ticks,
            final(self).window_line == old(self).window_line,
            final(self).vblank_interrupt == old(self).vblank_interrupt,
    {
        self.line_sprites.clear();
        self.sprite_count = 0;
        let ly = lcd.ly;
        let h = lcd.sprite_height();
        let ghost hs: u8 = if bit_of(lcd.lcdc, 2) { 16u8 } else { 8u8 };
        let mut i: usize = 0;
        while i < 40 && self.sprite_count < 10
            invariant
                self.wf(),
                h == hs,
                hs == (if bit_of(lcd.lcdc, 2) { 16u8 } else { 8u8 }),
                ly == lcd.ly,
                i <= 40,
                self.sprite_count == self.line_sprites@.len(),
                self.sprite_count == visible_count(old(self).oam@, ly, hs, i as int),
                sorted_by_x(self.line_sprites@),
                forall|k: int| 0 <= k < self.line_sprites@.len() ==> on_line(#[trigger] self.line_sprites@[k], ly, hs),
                self.vram == old(self).vram && self.oam == old(self).oam,
                self.oam@ == old(self).oam@,
                self.video_buffer == old(self).video_buffer,
                self.current_frame == old(self).current_frame,
                self.line_ticks == old(self).line_ticks,
                self.window_line == old(self).window_line,
                self.vblank_interrupt == old(self).vblank_interrupt,
            decreases 40 - i,
        {
            let entry = self.get_oam_entry(i);
            if entry.y as u16 <= ly as u16 + 16 && (ly as u16 + 16) < entry.y as u16 + h as u16 {
                let pos = insert_pos(&self.line_sprites, entry.x);
                let ghost before = self.line_sprites@;
                self.line_sprites.insert(pos, entry);
                proof {
                    assert forall|k: int| pos <= k < before.len() implies (#[trigger] before[k]).x > entry.x by {
                        assert(before[pos as int].x > entry.x);
                    }
                    assert(self.line_sprites@ == before.insert(pos as int, entry));
                    assert forall|a: int, b: int| 0 <= a < b < self.line_sprites@.len() implies
                        self.line_sprites@[a].x <= self.line_sprites@[b].x by {
                        if b < pos {
                        } else if b == pos {
                        } else if a < pos {
                            assert(self.line_sprites@[b] == before[b - 1]);
                        } else if a == pos {
                            assert(self.line_sprites@[b] == before[b - 1]);
                        } else {
                            assert(self.line_sprites@[b] == before[b - 1]);
                            assert(self.line_sprites@[a] == before[a - 1]);
                        }
                    }
                    assert forall|k: int| 0 <= k < self.line_sprites@.len() implies on_line(
                        #[trigger] self.line_sprites@[k],
                        ly,
                        hs,
                    ) by {
                        if k < pos {
                            assert(self.line_sprites@[k] == before[k]);
                        } else if k == pos {
                        } else {
                            assert(self.line_sprites@[k] == before[k - 1]);
                        }
                    }
                }
                self.sprite_count = self.sprite_count + 1;
            }
            i = i + 1;
        }
        proof {
            lemma_visible_count_grows(old(self).oam@, ly, hs, i as int, 40);
        }
    }

    /// Render scanline LY into the video buffer, pixel by pixel.
    fn render_scanline(&mut self, lcd: &Lcd)
        requires
            old(self).wf(),
        ensures
            final(self).wf(),
            lcd.ly < 144 ==> forall|x: int| 0 <= x < 160 ==> #[trigger] final(self).video_buffer@[lcd.ly * 160 + x]
                == argb(pixel_shade(old(self).vram@, old(self).line_sprites@, *lcd, old(self).window_line, x as u8)),
            lcd.ly < 144 ==> forall|i: int| 0 <= i < 23040 && !(lcd.ly * 160 <= i < lcd.ly * 160 + 160)
                ==> #[trigger] final(self).video_buffer@[i] == old(self).video_buffer@[i],
            lcd.ly >= 144 ==> final(self).video_buffer == old(self).video_buffer,
            final(self).window_line == if lcd.ly < 144 && bit_of(lcd.lcdc, 5) && bit_of(lcd.lcdc, 0) && lcd.wy <= lcd.ly
                && lcd.wx <= 166 {
                old(self).window_line.wrapping_add(1)
            } else {
                old(self).window_line
            },
            final(self).vram == old(self).vram && final(self).oam == old(self).oam,
            final(self).line_sprites == old(self).line_sprites,
            final(self).current_frame == old(self).current_frame,
            final(self).line_ticks == old(self).line_ticks,
            final(self).vblank_interrupt == old(self).vblank_interrupt,
            final(self).sprite_count == old(self).sprite_count,
    {
        let ly = lcd.ly;
        if ly as usize >= SCREEN_HEIGHT {
            return;
        }
        let mut x: u8 = 0;
        while x < 160
            invariant
                self.wf(),
                ly == lcd.ly,
                ly < 144,
                x <= 160,
                self.vram == old(self).vram && self.oam == old(self).oam,
                self.vram@ == old(self).vram@,
                self.line_sprites == old(self).line_sprites,
                self.line_sprites@ == old(self).line_sprites@,
                self.window_line == old(self).window_line,
                self.current_frame == old(self).current_frame,
                self.line_ticks == old(self).line_ticks,
                self.vblank_interrupt == old(self).vblank_interrupt,
                self.sprite_count == old(self).sprite_count,
                forall|j: int| 0 <= j < x ==> #[trigger] self.video_buffer@[ly * 160 + j]
                    == argb(pixel_shade(old(self).vram@, old(self).line_sprites@, *lcd, old(self).window_line, j as u8)),
                forall|i: int| 0 <= i < 23040 && !(ly * 160 <= i < ly * 160 + x)
                    ==> #[trigger] self.video_buffer@[i] == old(self).video_buffer@[i],
            decreases 160 - x,
        {
            let bg_on = lcd.bg_window_enabled();
            let bg = if bg_on {
                self.get_bg_pixel(lcd, x, ly)
            } else {
                0
            };
            let mut id = bg;
            if bg_on && lcd.window_enabled() {
                match self.get_window_pixel(lcd, x, ly) {
                    Some(w) => id = w,
                    None => {},
                }
            }
            let mut shade = if bg_on {
                lcd.bg_color(id)
            } else {
                0
            };
            if lcd.sprites_enabled() {
                match self.get_sprite_pixel(lcd, x, ly) {
                    Some((s, pri)) => {
                        if !pri || id == 0 {
                            shade = s;
                        }
                    },
                    None => {},
                }
            }
            let argb_value = self.color_to_argb(shade);
            let idx = ly as usize * SCREEN_WIDTH + x as usize;
            self.video_buffer.set(idx, argb_value);
            x = x + 1;
        }
        if lcd.window_enabled() && lcd.bg_window_enabled() && lcd.wy <= ly && lcd.wx <= 166 {
            self.window_line = self.window_line.wrapping_add(1);
        }
    }
}


/// LY after one more scanline: 153 wraps to 0.
pub open spec fn next_ly(ly: u8) -> u8 {
    if ly >= 153 {
        0
    } else {
        (ly + 1) as u8
    }
}

/// One T-cycle of the mode machine with the LCD on: line ticks advance; OAM scan lasts
/// 80 cycles, transfer ends at 252, and at 456 the line ends (HBlank: next line, VBlank
/// from line 144 with the VBlank interrupt and a new frame; VBlank: back to OAM scan
/// when LY wraps to 0).
pub open spec fn ppu_step(op: Ppu, np: Ppu, ol: Lcd, nl: Lcd) -> bool {
    let lt = op.line_ticks.wrapping_add(1);
    let same_lcd = nl == ol;
    match mode_of(ol.stat) {
        PpuMode::OamScan => if lt >= 80 {
            mode_of(nl.stat) == PpuMode::Transfer && nl.ly == ol.ly && np.line_ticks == lt
                && sorted_by_x(np.line_sprites@)
        } else {
            same_lcd && np.line_ticks == lt
        },
        PpuMode::Transfer => if lt >= 252 {
            &&& mode_of(nl.stat) == PpuMode::HBlank && nl.ly == ol.ly && np.line_ticks == lt
            &&& ol.ly < 144 ==> forall|x: int| 0 <= x < 160 ==> #[trigger] np.video_buffer@[ol.ly * 160 + x]
                == argb(pixel_shade(op.vram@, op.line_sprites@, ol, op.window_line, x as u8))
        } else {
            same_lcd && np.line_ticks == lt
        },
        PpuMode::HBlank => if lt >= TICKS_PER_LINE {
            &&& np.line_ticks == 0
            &&& nl.ly == next_ly(ol.ly)
            &&& if nl.ly >= 144 {
                &&& mode_of(nl.stat) == PpuMode::VBlank
                &&& np.vblank_interrupt
                &&& np.current_frame == op.current_frame.wrapping_add(1)
                &&& np.window_line == 0
            } else {
                mode_of(nl.stat) == PpuMode::OamScan && np.current_frame == op.current_frame
            }
        } else {
            same_lcd && np.line_ticks == lt
        },
        PpuMode::VBlank => if lt >= TICKS_PER_LINE {
            &&& np.line_ticks == 0
            &&& nl.ly == next_ly(ol.ly)
            &&& mode_of(nl.stat) == if nl.ly == 0 { PpuMode::OamScan } else { PpuMode::VBlank }
            &&& np.current_frame == op.current_frame
        } else {
            same_lcd && np.line_ticks == lt
        },
    }
}

impl Ppu {
    /// Advance one T-cycle (nothing happens while the LCD is off).
    pub fn tick(&mut self, lcd: &mut Lcd)
        requires
            old(self).wf(),
        ensures
            final(self).wf(),
            old(lcd).stat_interrupt ==> final(lcd).stat_interrupt,
            !old(lcd).stat_line && final(lcd).stat_line ==> final(lcd).stat_interrupt,
            *final(lcd) == *old(lcd) || final(lcd).stat_line == stat_line_of(final(lcd).stat),
            !bit_of(old(lcd).lcdc, 7) ==> *final(self) == *old(self) && *final(lcd) == *old(lcd),
            bit_of(old(lcd).lcdc, 7) ==> ppu_step(*old(self), *final(self), *old(lcd), *final(lcd)),
            final(lcd).lcdc == old(lcd).lcdc,
            final(self).vram == old(self).vram && final(self).oam == old(self).oam,
            !old(self).vblank_interrupt && final(self).vblank_interrupt ==> mode_of(final(lcd).stat) == PpuMode::VBlank,
    {
        if !lcd.lcd_enabled() {
            return;
        }
        self.line_ticks = self.line_ticks.wrapping_add(1);
        match lcd.mode() {
            PpuMode::OamScan => self.mode_oam_scan(lcd),
            PpuMode::Transfer => self.mode_transfer(lcd),
            PpuMode::HBlank => self.mode_hblank(lcd),
            PpuMode::VBlank => self.mode_vblank(lcd),
        }
    }

    fn mode_oam_scan(&mut self, lcd: &mut Lcd)
        requires
            old(self).wf(),
        ensures
            final(self).wf(),
            old(lcd).stat_interrupt ==> final(lcd).stat_interrupt,
            !old(lcd).stat_line && final(lcd).stat_line ==> final(lcd).stat_interrupt,
            *final(lcd) == *old(lcd) || final(lcd).stat_line == stat_line_of(final(lcd).stat),
            old(self).line_ticks >= 80 ==> mode_of(final(lcd).stat) == PpuMode::Transfer && final(lcd).ly == old(lcd).ly
                && sorted_by_x(final(self).line_sprites@),
            old(self).line_ticks < 80 ==> *final(lcd) == *old(lcd),
            final(self).line_ticks == old(self).line_ticks,
            final(lcd).lcdc == old(lcd).lcdc,
            final(self).vram == old(self).vram && final(self).oam == old(self).oam,
            final(self).vblank_interrupt == old(self).vblank_interrupt,
            final(self).current_frame == old(self).current_frame,
            final(self).window_line == old(self).window_line,
    {
        if self.line_ticks >= 80 {
            self.scan_oam(lcd);
            lcd.set_mode(PpuMode::Transfer);
        }
    }

    fn mode_transfer(&mut self, lcd: &mut Lcd)
        requires
            old(self).wf(),
        ensures
            final(self).wf(),
            old(lcd).stat_interrupt ==> final(lcd).stat_interrupt,
            !old(lcd).stat_line && final(lcd).stat_line ==> final(lcd).stat_interrupt,
            *final(lcd) == *old(lcd) || final(lcd).stat_line == stat_line_of(final(lcd).stat),
            old(self).line_ticks >= 252 ==> mode_of(final(lcd).stat) == PpuMode::HBlank && final(lcd).ly == old(lcd).ly,
            old(self).line_ticks >= 252 && old(lcd).ly < 144 ==> forall|x: int| 0 <= x < 160 ==>
                #[trigger] final(self).video_buffer@[old(lcd).ly * 160 + x] == argb(
                    pixel_shade(old(self).vram@, old(self).line_sprites@, *old(lcd), old(self).window_line, x as u8),
                ),
            old(self).line_ticks < 252 ==> *final(lcd) == *old(lcd),
            final(self).line_ticks == old(self).line_ticks,
            final(lcd).lcdc == old(lcd).lcdc,
            final(self).vram == old(self).vram && final(self).oam == old(self).oam,
            final(self).vblank_interrupt == old(self).vblank_interrupt,
            final(self).current_frame == old(self).current_frame,
    {
        if self.line_ticks >= 80 + 172 {
            self.render_scanline(lcd);
            lcd.set_mode(PpuMode::HBlank);
        }
    }

    fn mode_hblank(&mut self, lcd: &mut Lcd)
        requires
            old(self).wf(),
        ensures
            final(self).wf(),
            old(lcd).stat_interrupt ==> final(lcd).stat_interrupt,
            !old(lcd).stat_line && final(lcd).stat_line ==> final(lcd).stat_interrupt,
            *final(lcd) == *old(lcd) || final(lcd).stat_line == stat_line_of(final(lcd).stat),
            old(self).line_ticks >= TICKS_PER_LINE ==> {
                &&& final(self).line_ticks == 0
                &&& final(lcd).ly == next_ly(old(lcd).ly)
                &&& if final(lcd).ly >= 144 {
                    &&& mode_of(final(lcd).stat) == PpuMode::VBlank
                    &&& final(self).vblank_interrupt
                    &&& final(self).current_frame == old(self).current_frame.wrapping_add(1)
                    &&& final(self).window_line == 0
                } else {
                    &&& mode_of(final(lcd).stat) == PpuMode::OamScan
                    &&& final(self).current_frame == old(self).current_frame
                    &&& final(self).vblank_interrupt == old(self).vblank_interrupt
                }
            },
            old(self).line_ticks < TICKS_PER_LINE ==> *final(lcd) == *old(lcd) && *final(self) == *old(self),
            final(lcd).lcdc == old(lcd).lcdc,
            final(self).vram == old(self).vram && final(self).oam == old(self).oam,
    {
        if self.line_ticks >= TICKS_PER_LINE {
            self.line_ticks = 0;
            lcd.inc_ly();
            if lcd.ly as usize >= SCREEN_HEIGHT {
                lcd.set_mode(PpuMode::VBlank);
                self.vblank_interrupt = true;
                self.current_frame = self.current_frame.wrapping_add(1);
                self.window_line = 0;
            } else {
                lcd.set_mode(PpuMode::OamScan);
            }
        }
    }

    fn mode_vblank(&mut self, lcd: &mut Lcd)
        requires
            old(self).wf(),
        ensures
            final(self).wf(),
            old(lcd).stat_interrupt ==> final(lcd).stat_interrupt,
            !old(lcd).stat_line && final(lcd).stat_line ==> final(lcd).stat_interrupt,
            *final(lcd) == *old(lcd) || final(lcd).stat_line == stat_line_of(final(lcd).stat),
            old(self).line_ticks >= TICKS_PER_LINE ==> {
                &&& final(self).line_ticks == 0
                &&& final(lcd).ly == next_ly(old(lcd).ly)
                &&& mode_of(final(lcd).stat) == if final(lcd).ly == 0 { PpuMode::OamScan } else { mode_of(old(lcd).stat) }
                &&& final(self).current_frame == old(self).current_frame
                &&& final(self).vblank_interrupt == old(self).vblank_interrupt
            },
            old(self).line_ticks < TICKS_PER_LINE ==> *final(lcd) == *old(lcd) && *final(self) == *old(self),
            final(lcd).lcdc == old(lcd).lcdc,
            final(self).vram == old(self).vram && final(self).oam == old(self).oam,
    {
        if self.line_ticks >= TICKS_PER_LINE {
            self.line_ticks = 0;
            lcd.inc_ly();
            if lcd.ly == 0 {
                lcd.set_mode(PpuMode::OamScan);
                self.window_line = 0;
            }
        }
    }
}

impl Default for Ppu {
    /// Same as `Ppu::new`.
    fn default() -> (r: Self)
        ensures
            r.wf(),
    {
        Ppu::new()
    }
}

impl Ppu {
    /// Start a new scanline from its first cycle (when the LCD is switched on).
    pub fn restart_line(&mut self)
        ensures
            *final(self) == (Ppu { line_ticks: 0, ..*old(self) }),
    {
        self.line_ticks = 0;
    }
}

} // verus!
