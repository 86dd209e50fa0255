//! OAM DMA: 160 bytes copied from a source page to OAM, one per T-cycle after a
//! two-cycle start-up delay.

use vstd::prelude::*;
use crate::common::Byte;

verus! {

/// DMA transfer controller.
#[derive(Debug, Clone)]
pub struct Dma {
    /// Transfer in progress
    pub active: bool,
    /// Index of the next byte (0-159)
    pub byte: u8,
    /// Source page (the value written to 0xFF46)
    pub value: Byte,
    /// Start-up delay left, in T-cycles
    pub delay: u8,
}

impl Dma {
    pub open spec fn wf(&self) -> bool {
        self.byte <= 160 && (self.active ==> self.byte < 160)
    }

    /// An idle controller.
    pub fn new() -> (r: Self)
        ensures
            r.wf(),
            !r.active && r.byte == 0 && r.value == 0 && r.delay == 0,
    {
        Dma { active: false, byte: 0, value: 0, delay: 0 }
    }

    /// Back to idle.
    pub fn init(&mut self)
        ensures
            final(self).wf(),
            !final(self).active && final(self).byte == 0 && final(self).value == 0 && final(self).delay == 0,
    {
        self.active = false;
        self.byte = 0;
        self.value = 0;
        self.delay = 0;
    }

    /// Start a transfer from page `value`, after a two-cycle delay.
    pub fn start(&mut self, value: Byte)
        ensures
            final(self).wf(),
            final(self).active && final(self).byte == 0 && final(self).value == value && final(self).delay == 2,
    {
        self.value = value;
        self.active = true;
        self.byte = 0;
        self.delay = 2;
    }

    /// Source address of the next byte.
    pub fn source_address(&self) -> (r: u16)
        ensures
            r == self.value as int * 256 + self.byte as int,
    {
        proof {
            crate::cpu::registers::lemma_pair_bits(self.value, self.byte, 0);
        }
        ((self.value as u16) << 8) | (self.byte as u16)
    }

    /// Destination address of the next byte.
    pub fn dest_address(&self) -> (r: u16)
        ensures
            r == 0xFE00 + self.byte as int,
    {
        0xFE00 + self.byte as u16
    }

    /// Advance one T-cycle; returns the (source, destination) of the byte to copy now.
    pub fn tick(&mut self) -> (r: Option<(u16, u16)>)
        requires
            old(self).wf(),
        ensures
            final(self).wf(),
            final(self).value == old(self).value,
            !old(self).active ==> r is None && *final(self) == *old(self),
            old(self).active && old(self).delay > 0 ==> r is None
                && *final(self) == (Dma { delay: (old(self).delay - 1) as u8, ..*old(self) }),
            old(self).active && old(self).delay == 0 ==> {
                &&& r == Some(((old(self).value as int * 256 + old(self).byte as int) as u16,
                    (0xFE00 + old(self).byte as int) as u16))
                &&& final(self).byte == old(self).byte + 1
                &&& final(self).active == (old(self).byte + 1 < 160)
                &&& final(self).delay == 0
            },
    {
        if !self.active {
            return None;
        }
        if self.delay > 0 {
            self.delay = self.delay - 1;
            return None;
        }
        let source = self.source_address();
        let dest = self.dest_address();
        self.byte = self.byte + 1;
        if self.byte >= 160 {
            self.active = false;
        }
        Some((source, dest))
    }

    /// Whether bytes are being copied (active and past the delay).
    pub fn is_transferring(&self) -> (r: bool)
        ensures
            r == (self.active && self.delay == 0),
    {
        self.active && self.delay == 0
    }

    /// The DMA register reads back the last page written.
    pub fn read(&self) -> (r: Byte)
        ensures
            r == self.value,
    {
        self.value
    }

    /// Writing the DMA register starts a transfer.
    pub fn write(&mut self, value: Byte)
        ensures
            final(self).wf(),
            final(self).active && final(self).byte == 0 && final(self).value == value && final(self).delay == 2,
    {
        self.start(value);
    }
}

impl Default for Dma {
    /// Same as `Dma::new`.
    fn default() -> (r: Self)
        ensures
            r.wf(),
    {
        Dma::new()
    }
}

} // verus!
