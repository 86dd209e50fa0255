//! Work RAM (8 KiB at 0xC000-0xDFFF) and high RAM (127 bytes at 0xFF80-0xFFFE).

use vstd::prelude::*;
use crate::common::{Byte, Word};

verus! {

/// Work RAM size.
pub const WRAM_SIZE: usize = 0x2000;

/// High RAM size.
pub const HRAM_SIZE: usize = 0x7F;

/// A vector of `n` copies of `x`.
pub fn filled<T: Copy>(n: usize, x: T) -> (r: Vec<T>)
    ensures
        r@ == Seq::new(n as nat, |i: int| x),
{
    let mut v: Vec<T> = Vec::new();
    let mut i: usize = 0;
    while i < n
        invariant
            i <= n,
            v@ == Seq::new(i as nat, |k: int| x),
        decreases n - i,
    {
        v.push(x);
        i = i + 1;
        proof {
            assert(v@ =~= Seq::new(i as nat, |k: int| x));
        }
    }
    v
}

/// Work RAM and high RAM.
#[derive(Debug)]
pub struct Ram {
    /// Work RAM (8 KiB)
    pub wram: Vec<Byte>,
    /// High RAM (127 bytes)
    pub hram: Vec<Byte>,
}

/// The byte that work RAM holds for an address of 0xC000-0xDFFF, else 0xFF.
pub open spec fn wram_at(wram: Seq<u8>, address: u16) -> u8 {
    if 0xC000 <= address < 0xE000 {
        wram[address - 0xC000]
    } else {
        0xFF
    }
}

/// The byte that high RAM holds for an address of 0xFF80-0xFFFE, else 0xFF.
pub open spec fn hram_at(hram: Seq<u8>, address: u16) -> u8 {
    if 0xFF80 <= address < 0xFFFF {
        hram[address - 0xFF80]
    } else {
        0xFF
    }
}

impl Ram {
    pub open spec fn wf(&self) -> bool {
        self.wram@.len() == WRAM_SIZE && self.hram@.len() == HRAM_SIZE
    }

    /// Zeroed work and high RAM.
    pub fn new() -> (r: Self)
        ensures
            r.wf(),
            forall|i: int| 0 <= i < WRAM_SIZE ==> r.wram@[i] == 0,
            forall|i: int| 0 <= i < HRAM_SIZE ==> r.hram@[i] == 0,
    {
        Ram { wram: filled(WRAM_SIZE, 0u8), hram: filled(HRAM_SIZE, 0u8) }
    }

    /// Read work RAM; 0xFF outside 0xC000-0xDFFF.
    pub fn wram_read(&self, address: Word) -> (r: Byte)
        requires
            self.wf(),
        ensures
            r == wram_at(self.wram@, address),
    {
        let offset = address.wrapping_sub(0xC000) as usize;
        if offset >= WRAM_SIZE {
            return 0xFF;
        }
        self.wram[offset]
    }

    /// Write work RAM; addresses outside 0xC000-0xDFFF are ignored.
    pub fn wram_write(&mut self, address: Word, value: Byte)
        requires
            old(self).wf(),
        ensures
            final(self).wf(),
            final(self).hram@ == old(self).hram@,
            final(self).wram@ == if 0xC000 <= address < 0xE000 {
                old(self).wram@.update(address - 0xC000, value)
            } else {
                old(self).wram@
            },
    {
        let offset = address.wrapping_sub(0xC000) as usize;
        if offset < WRAM_SIZE {
            self.wram.set(offset, value);
        }
    }

    /// Read high RAM; 0xFF outside 0xFF80-0xFFFE.
    pub fn hram_read(&self, address: Word) -> (r: Byte)
        requires
            self.wf(),
        ensures
            r == hram_at(self.hram@, address),
    {
        let offset = address.wrapping_sub(0xFF80) as usize;
        if offset >= HRAM_SIZE {
            return 0xFF;
        }
        self.hram[offset]
    }

    /// Write high RAM; addresses outside 0xFF80-0xFFFE are ignored.
    pub fn hram_write(&mut self, address: Word, value: Byte)
        requires
            old(self).wf(),
        ensures
            final(self).wf(),
            final(self).wram@ == old(self).wram@,
            final(self).hram@ == if 0xFF80 <= address < 0xFFFF {
                old(self).hram@.update(address - 0xFF80, value)
            } else {
                old(self).hram@
            },
    {
        let offset = address.wrapping_sub(0xFF80) as usize;
        if offset < HRAM_SIZE {
            self.hram.set(offset, value);
        }
    }
}

impl Default for Ram {
    /// Same as `Ram::new`.
    fn default() -> (r: Self)
        ensures
            r.wf(),
    {
        Ram::new()
    }
}

} // verus!
