//! Memory bus: routes every CPU access to the cartridge, RAM, VRAM, OAM, I/O registers,
//! high RAM or the interrupt-enable register.

use vstd::prelude::*;
use crate::cart::Cartridge;
use crate::common::{Byte, Word};
use crate::ram::{filled, hram_at, wram_at, Ram};

verus! {

/// Byte-addressed memory, with little-endian word helpers made of two byte accesses.
pub trait MemoryBus: Sized {
    /// Whether the memory is well formed.
    spec fn ready(&self) -> bool;

    /// What a read of `address` returns.
    spec fn byte_at(&self, address: u16) -> u8;

    /// The state after a write of `value` to `address`.
    spec fn written(old: Self, new: Self, address: u16, value: u8) -> bool;

    /// Read a byte.
    fn read(&self, address: Word) -> (r: Byte)
        requires
            self.ready(),
        ensures
            r == self.byte_at(address),
    ;

    /// Write a byte.
    fn write(&mut self, address: Word, value: Byte)
        requires
            old(self).ready(),
        ensures
            final(self).ready(),
            Self::written(*old(self), *final(self), address, value),
    ;

    /// Read a little-endian word: the byte at `address`, then the byte after it.
    fn read16(&self, address: Word) -> (r: Word)
        requires
            self.ready(),
        ensures
            r == self.byte_at(address) as int + 256 * self.byte_at(address.wrapping_add(1)) as int,
    {
        let lo = self.read(address);
        let hi = self.read(address.wrapping_add(1));
        proof {
            crate::cpu::registers::lemma_pair_bits(hi, lo, 0);
        }
        ((hi as Word) << 8) | (lo as Word)
    }

    /// Write a little-endian word: the low byte at `address`, then the high byte after it.
    fn write16(&mut self, address: Word, value: Word)
        requires
            old(self).ready(),
        ensures
            final(self).ready(),
            exists|mid: Self|
                Self::written(*old(self), mid, address, (value % 256) as u8)
                    && #[trigger] Self::written(mid, *final(self), address.wrapping_add(1), (value / 256) as u8),
    {
        proof {
            crate::cpu::registers::lemma_pair_bits(0, 0, value);
        }
        self.write(address, (value & 0xFF) as Byte);
        let ghost mid = *self;
        self.write(address.wrapping_add(1), ((value >> 8) & 0xFF) as Byte);
        proof {
            assert(Self::written(mid, *self, address.wrapping_add(1), (value / 256) as u8));
        }
    }
}

/// Game Boy memory bus.
#[derive(Debug)]
pub struct Bus {
    /// Work RAM and high RAM
    pub ram: Ram,
    /// Interrupt enable register (0xFFFF)
    pub ie_register: Byte,
    /// Interrupt flag register (0xFF0F)
    pub int_flags: Byte,
    /// Cartridge, when one is loaded
    pub cart: Option<Cartridge>,
    /// Video RAM (8 KiB)
    pub vram: Vec<Byte>,
    /// Object attribute memory (160 bytes)
    pub oam: Vec<Byte>,
    /// I/O register backing store (0xFF00-0xFF7F)
    pub io_regs: Vec<Byte>,
    /// Which I/O registers the bus wrote since the driver last looked
    pub io_written: Vec<bool>,
    /// VRAM written since the driver last copied it
    pub vram_dirty: bool,
    /// OAM written since the driver last copied it
    pub oam_dirty: bool,
    /// OAM DMA in progress
    pub dma_active: bool,
}

/// An address whose byte the bus stores plainly: VRAM, work RAM and its echo, high RAM.
pub open spec fn plain_ram(a: u16) -> bool {
    (0x8000 <= a <= 0x9FFF) || (0xC000 <= a <= 0xFDFF) || (0xFF80 <= a <= 0xFFFE)
}

/// The storage cell behind a plain RAM address: which memory, and the index in it.
pub open spec fn cell(a: u16) -> (int, int) {
    if 0x8000 <= a <= 0x9FFF {
        (0, a - 0x8000)
    } else if 0xC000 <= a <= 0xDFFF {
        (1, a - 0xC000)
    } else if 0xE000 <= a <= 0xFDFF {
        (1, a - 0xE000)
    } else {
        (2, a - 0xFF80)
    }
}

impl Bus {
    pub open spec fn wf(&self) -> bool {
        &&& self.ram.wf()
        &&& self.vram@.len() == 0x2000
        &&& self.oam@.len() == 0xA0
        &&& self.io_regs@.len() == 0x80
        &&& self.io_written@.len() == 0x80
        &&& self.cart matches Some(c) ==> c.wf()
    }

    /// What a read of `address` returns.
    pub open spec fn read_spec(&self, address: u16) -> u8 {
        if address <= 0x7FFF || (0xA000 <= address <= 0xBFFF) {
            match self.cart {
                Some(c) => c.read_spec(address),
                None => 0xFF,
            }
        } else if address <= 0x9FFF {
            self.vram@[address - 0x8000]
        } else if address <= 0xDFFF {
            wram_at(self.ram.wram@, address)
        } else if address <= 0xFDFF {
            wram_at(self.ram.wram@, (address - 0x2000) as u16)
        } else if address <= 0xFE9F {
            if self.dma_active {
                0xFF
            } else {
                self.oam@[address - 0xFE00]
            }
        } else if address <= 0xFEFF {
            0xFF
        } else if address == 0xFF0F {
            (self.int_flags & 0x1F) | 0xE0
        } else if address <= 0xFF7F {
            self.io_regs@[address - 0xFF00]
        } else if address <= 0xFFFE {
            hram_at(self.ram.hram@, address)
        } else {
            self.ie_register
        }
    }

    /// The state after a write of `value` to `address` (see `write`).
    pub open spec fn write_post(old: Bus, new: Bus, address: u16, value: u8) -> bool {
        let to_cart = address <= 0x7FFF || (0xA000 <= address <= 0xBFFF);
        let to_vram = 0x8000 <= address <= 0x9FFF;
        let to_oam = 0xFE00 <= address <= 0xFE9F && !old.dma_active;
        let to_io = 0xFF00 <= address <= 0xFF7F && address != 0xFF0F;
        &&& new.wf()
        &&& new.dma_active == old.dma_active
        &&& new.ram.wram@ == if 0xC000 <= address <= 0xDFFF {
            old.ram.wram@.update(address - 0xC000, value)
        } else if 0xE000 <= address <= 0xFDFF {
            old.ram.wram@.update(address - 0xE000, value)
        } else {
            old.ram.wram@
        }
        &&& new.ram.hram@ == if 0xFF80 <= address <= 0xFFFE {
            old.ram.hram@.update(address - 0xFF80, value)
        } else {
            old.ram.hram@
        }
        &&& new.vram@ == if to_vram {
            old.vram@.update(address - 0x8000, value)
        } else {
            old.vram@
        }
        &&& new.vram_dirty == (old.vram_dirty || to_vram)
        &&& new.oam@ == if to_oam {
            old.oam@.update(address - 0xFE00, value)
        } else {
            old.oam@
        }
        &&& new.oam_dirty == (old.oam_dirty || to_oam)
        &&& new.io_regs@ == if to_io {
            old.io_regs@.update(address - 0xFF00, value)
        } else {
            old.io_regs@
        }
        &&& new.io_written@ == if to_io {
            old.io_written@.update(address - 0xFF00, true)
        } else {
            old.io_written@
        }
        &&& new.int_flags == if address == 0xFF0F {
            value
        } else {
            old.int_flags
        }
        &&& new.ie_register == if address == 0xFFFF {
            value
        } else {
            old.ie_register
        }
        &&& if to_cart {
            match old.cart {
                Some(c) => (new.cart matches Some(c2) && Cartridge::write_post(c, c2, address, value)),
                None => new.cart is None,
            }
        } else {
            new.cart == old.cart
        }
    }

    /// A bus with all memory zeroed and no cartridge.
    pub fn new() -> (r: Self)
        ensures
            r.wf(),
            r.cart is None,
            r.ie_register == 0 && r.int_flags == 0,
            !r.dma_active && !r.vram_dirty && !r.oam_dirty,
            forall|i: int| 0 <= i < 0x2000 ==> r.vram@[i] == 0,
            forall|i: int| 0 <= i < 0xA0 ==> r.oam@[i] == 0,
            forall|i: int| 0 <= i < 0x80 ==> r.io_regs@[i] == 0 && !r.io_written@[i],
            forall|i: int| 0 <= i < 0x2000 ==> r.ram.wram@[i] == 0,
            forall|i: int| 0 <= i < 0x7F ==> r.ram.hram@[i] == 0,
    {
        Bus {
            ram: Ram::new(),
            ie_register: 0,
            int_flags: 0,
            cart: None,
            vram: filled(0x2000, 0u8),
            oam: filled(0xA0, 0u8),
            io_regs: filled(0x80, 0u8),
            io_written: filled(0x80, false),
            vram_dirty: false,
            oam_dirty: false,
            dma_active: false,
        }
    }

    /// Insert a cartridge.
    pub fn load_cartridge(&mut self, cart: Cartridge)
        requires
            old(self).wf(),
            cart.wf(),
        ensures
            final(self).wf(),
            final(self).cart == Some(cart),
            final(self).ram == old(self).ram,
            final(self).vram == old(self).vram && final(self).oam == old(self).oam,
            final(self).io_regs == old(self).io_regs && final(self).io_written == old(self).io_written,
            final(self).ie_register == old(self).ie_register,
            final(self).int_flags == old(self).int_flags,
            final(self).dma_active == old(self).dma_active,
            final(self).vram_dirty == old(self).vram_dirty,
            final(self).oam_dirty == old(self).oam_dirty,
    {
        self.cart = Some(cart);
    }

    /// Set whether OAM DMA is in progress.
    pub fn set_dma_active(&mut self, active: bool)
        ensures
            final(self).dma_active == active,
            final(self).ram == old(self).ram && final(self).cart == old(self).cart,
            final(self).vram == old(self).vram && final(self).oam == old(self).oam,
            final(self).io_regs == old(self).io_regs && final(self).io_written == old(self).io_written,
            final(self).ie_register == old(self).ie_register,
            final(self).int_flags == old(self).int_flags,
            final(self).vram_dirty == old(self).vram_dirty,
            final(self).oam_dirty == old(self).oam_dirty,
    {
        self.dma_active = active;
    }

    /// Whether OAM DMA is in progress.
    pub fn is_dma_active(&self) -> (r: bool)
        ensures
            r == self.dma_active,
    {
        self.dma_active
    }

    /// Read a byte.
    pub fn read(&self, address: Word) -> (r: Byte)
        requires
            self.wf(),
        ensures
            r == self.read_spec(address),
    {
        if address <= 0x7FFF || (0xA000 <= address && address <= 0xBFFF) {
            match &self.cart {
                Some(c) => c.read(address),
                None => 0xFF,
            }
        } else if address <= 0x9FFF {
            self.vram[(address - 0x8000) as usize]
        } else if address <= 0xDFFF {
            self.ram.wram_read(address)
        } else if address <= 0xFDFF {
            self.ram.wram_read(address - 0x2000)
        } else if address <= 0xFE9F {
            if self.dma_active {
                0xFF
            } else {
                self.oam[(address - 0xFE00) as usize]
            }
        } else if address <= 0xFEFF {
            0xFF
        } else if address == 0xFF0F {
            (self.int_flags & 0x1F) | 0xE0
        } else if address <= 0xFF7F {
            self.io_regs[(address - 0xFF00) as usize]
        } else if address <= 0xFFFE {
            self.ram.hram_read(address)
        } else {
            self.ie_register
        }
    }

    /// Write a byte.
    pub fn write(&mut self, address: Word, value: Byte)
        requires
            old(self).wf(),
        ensures
            Bus::write_post(*old(self), *final(self), address, value),
    {
        if address <= 0x7FFF || (0xA000 <= address && address <= 0xBFFF) {
            match &mut self.cart {
                Some(c) => c.write(address, value),
                None => {},
            }
        } else if address <= 0x9FFF {
            self.vram.set((address - 0x8000) as usize, value);
            self.vram_dirty = true;
        } else if address <= 0xDFFF {
            self.ram.wram_write(address, value);
        } else if address <= 0xFDFF {
            self.ram.wram_write(address - 0x2000, value);
        } else if address <= 0xFE9F {
            if !self.dma_active {
                self.oam.set((address - 0xFE00) as usize, value);
                self.oam_dirty = true;
            }
        } else if address <= 0xFEFF {
        } else if address == 0xFF0F {
            self.int_flags = value;
        } else if address <= 0xFF7F {
            self.io_regs.set((address - 0xFF00) as usize, value);
            self.io_written.set((address - 0xFF00) as usize, true);
        } else if address <= 0xFFFE {
            self.ram.hram_write(address, value);
        } else {
            self.ie_register = value;
        }
    }

    /// Hand the cartridge RAM to be saved when a battery save is due, and mark it saved.
    pub fn save_battery(&mut self) -> (r: Option<Vec<Byte>>)
        requires
            old(self).wf(),
        ensures
            final(self).wf(),
            match old(self).cart {
                Some(c) => if c.battery && c.need_save {
                    (r matches Some(d) && d@ == c.ram@) && (final(self).cart matches Some(c2) && !c2.need_save)
                } else {
                    r is None && final(self).cart == old(self).cart
                },
                None => r is None && final(self).cart is None,
            },
    {
        match &mut self.cart {
            Some(c) => {
                if c.needs_save() {
                    let d = c.ram.clone();
                    c.mark_saved();
                    Some(d)
                } else {
                    None
                }
            },
            None => None,
        }
    }
}

/// A write to a plain RAM address is read back, and leaves every other plain RAM cell alone.
pub proof fn lemma_plain_write_read(old: Bus, new: Bus, a: u16, v: u8, b: u16)
    requires
        old.wf(),
        Bus::write_post(old, new, a, v),
        plain_ram(a),
        plain_ram(b),
    ensures
        new.read_spec(a) == v,
        cell(a) != cell(b) ==> new.read_spec(b) == old.read_spec(b),
{
}

/// Work RAM keeps what was written, and the echo region reads it back 0x2000 higher.
pub proof fn lemma_wram_round_trip(old: Bus, new: Bus, a: u16, v: u8)
    requires
        old.wf(),
        Bus::write_post(old, new, a, v),
        0xC000 <= a <= 0xDFFF,
    ensures
        new.read_spec(a) == v,
        a <= 0xDDFF ==> new.read_spec((a + 0x2000) as u16) == v,
{
}

/// Whatever is written to IF, it reads back as its low five bits with bits 5-7 set.
pub proof fn lemma_if_read(old: Bus, new: Bus, v: u8)
    requires
        old.wf(),
        Bus::write_post(old, new, 0xFF0F, v),
    ensures
        new.read_spec(0xFF0F) == (v & 0x1F) | 0xE0,
{
}

/// The interrupt-enable register reads back what was written.
pub proof fn lemma_ie_round_trip(old: Bus, new: Bus, v: u8)
    requires
        old.wf(),
        Bus::write_post(old, new, 0xFFFF, v),
    ensures
        new.read_spec(0xFFFF) == v,
{
}

/// A word written to two plain RAM addresses in a row is read back unchanged.
pub proof fn lemma_word_round_trip(old: Bus, mid: Bus, new: Bus, a: u16, v: u16)
    requires
        old.wf(),
        a < 0xFFFF,
        plain_ram(a),
        plain_ram((a + 1) as u16),
        Bus::write_post(old, mid, a, (v % 256) as u8),
        Bus::write_post(mid, new, (a + 1) as u16, (v / 256) as u8),
    ensures
        new.read_spec(a) as int + 256 * new.read_spec((a + 1) as u16) as int == v,
{
    lemma_plain_write_read(old, mid, a, (v % 256) as u8, a);
    lemma_plain_write_read(mid, new, (a + 1) as u16, (v / 256) as u8, a);
}

impl Default for Bus {
    /// Same as `Bus::new`.
    fn default() -> (r: Self)
        ensures
            r.wf(),
    {
        Bus::new()
    }
}

impl MemoryBus for Bus {
    open spec fn ready(&self) -> bool {
        self.wf()
    }

    open spec fn byte_at(&self, address: u16) -> u8 {
        self.read_spec(address)
    }

    open spec fn written(old: Bus, new: Bus, address: u16, value: u8) -> bool {
        Bus::write_post(old, new, address, value)
    }

    fn read(&self, address: Word) -> (r: Byte) {
        Bus::read(self, address)
    }

    fn write(&mut self, address: Word, value: Byte) {
        Bus::write(self, address, value)
    }
}

} // verus!
