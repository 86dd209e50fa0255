//! CPU registers of the Sharp LR35902 and their flag accessors.

use vstd::prelude::*;
use crate::common::{bit, bit_set, bit_of, lemma_low_nibble, Byte, Word};

verus! {

/// A word made of a high and a low byte.
pub open spec fn pair(hi: u8, lo: u8) -> u16 {
    (hi as int * 256 + lo as int) as u16
}

/// Joining two bytes by shift and or, and splitting a word by shift and mask.
pub proof fn lemma_pair_bits(hi: u8, lo: u8, v: u16)
    by (bit_vector)
    ensures
        ((hi as u16) << 8u16) | (lo as u16) == hi as int * 256 + lo as int,
        ((v >> 8u16) & 0xFF) == v / 256,
        (v & 0xFF) == v % 256,
        (v & 0xF0) == (v % 256) & 0xF0,
        ((v & 0xF0) as u8) & 0x0F == 0,
{
}

/// CPU registers: eight 8-bit registers and the 16-bit SP and PC.
#[derive(Debug, Clone, Copy, Default)]
pub struct Registers {
    /// Accumulator register
    pub a: Byte,
    /// Flags register (Z, N, H, C in bits 7, 6, 5, 4)
    pub f: Byte,
    /// General purpose register B
    pub b: Byte,
    /// General purpose register C
    pub c: Byte,
    /// General purpose register D
    pub d: Byte,
    /// General purpose register E
    pub e: Byte,
    /// General purpose register H
    pub h: Byte,
    /// General purpose register L
    pub l: Byte,
    /// Program Counter
    pub pc: Word,
    /// Stack Pointer
    pub sp: Word,
}

impl Registers {
    /// The low nibble of F is always zero.
    pub open spec fn wf(&self) -> bool {
        self.f & 0x0F == 0
    }

    /// Zero flag.
    pub open spec fn zf(&self) -> bool {
        bit_of(self.f, 7)
    }

    /// Subtract flag.
    pub open spec fn nf(&self) -> bool {
        bit_of(self.f, 6)
    }

    /// Half-carry flag.
    pub open spec fn hf(&self) -> bool {
        bit_of(self.f, 5)
    }

    /// Carry flag.
    pub open spec fn cf(&self) -> bool {
        bit_of(self.f, 4)
    }

    /// All registers but F are those of `o`.
    pub open spec fn same_but_f(&self, o: Registers) -> bool {
        self.a == o.a && self.b == o.b && self.c == o.c && self.d == o.d && self.e == o.e
            && self.h == o.h && self.l == o.l && self.pc == o.pc && self.sp == o.sp
    }

    /// Create new registers, all zero.
    pub fn new() -> (r: Self)
        ensures
            r.a == 0 && r.f == 0 && r.b == 0 && r.c == 0 && r.d == 0 && r.e == 0,
            r.h == 0 && r.l == 0 && r.pc == 0 && r.sp == 0,
            r.wf(),
    {
        assert(0u8 & 0x0F == 0) by (bit_vector);
        Registers { a: 0, f: 0, b: 0, c: 0, d: 0, e: 0, h: 0, l: 0, pc: 0, sp: 0 }
    }

    /// AF register pair.
    pub fn af(&self) -> (r: Word)
        ensures
            r == pair(self.a, self.f),
    {
        proof {
            lemma_pair_bits(self.a, self.f, 0);
        }
        ((self.a as Word) << 8) | (self.f as Word)
    }

    /// Set the AF register pair; the low nibble of F stays zero.
    pub fn set_af(&mut self, value: Word)
        ensures
            final(self).a == value / 256,
            final(self).f == (value % 256) & 0xF0,
            final(self).wf(),
            final(self).b == old(self).b && final(self).c == old(self).c,
            final(self).d == old(self).d && final(self).e == old(self).e,
            final(self).h == old(self).h && final(self).l == old(self).l,
            final(self).pc == old(self).pc && final(self).sp == old(self).sp,
    {
        proof {
            lemma_pair_bits(0, 0, value);
        }
        self.a = ((value >> 8) & 0xFF) as Byte;
        self.f = (value & 0xF0) as Byte;
    }

    /// BC register pair.
    pub fn bc(&self) -> (r: Word)
        ensures
            r == pair(self.b, self.c),
    {
        proof {
            lemma_pair_bits(self.b, self.c, 0);
        }
        ((self.b as Word) << 8) | (self.c as Word)
    }

    /// Set the BC register pair.
    pub fn set_bc(&mut self, value: Word)
        ensures
            final(self).b == value / 256,
            final(self).c == value % 256,
            final(self).a == old(self).a && final(self).f == old(self).f,
            final(self).d == old(self).d && final(self).e == old(self).e,
            final(self).h == old(self).h && final(self).l == old(self).l,
            final(self).pc == old(self).pc && final(self).sp == old(self).sp,
    {
        proof {
            lemma_pair_bits(0, 0, value);
        }
        self.b = ((value >> 8) & 0xFF) as Byte;
        self.c = (value & 0xFF) as Byte;
    }

    /// DE register pair.
    pub fn de(&self) -> (r: Word)
        ensures
            r == pair(self.d, self.e),
    {
        proof {
            lemma_pair_bits(self.d, self.e, 0);
        }
        ((self.d as Word) << 8) | (self.e as Word)
    }

    /// Set the DE register pair.
    pub fn set_de(&mut self, value: Word)
        ensures
            final(self).d == value / 256,
            final(self).e == value % 256,
            final(self).a == old(self).a && final(self).f == old(self).f,
            final(self).b == old(self).b && final(self).c == old(self).c,
            final(self).h == old(self).h && final(self).l == old(self).l,
            final(self).pc == old(self).pc && final(self).sp == old(self).sp,
    {
        proof {
            lemma_pair_bits(0, 0, value);
        }
        self.d = ((value >> 8) & 0xFF) as Byte;
        self.e = (value & 0xFF) as Byte;
    }

    /// HL register pair.
    pub fn hl(&self) -> (r: Word)
        ensures
            r == pair(self.h, self.l),
    {
        proof {
            lemma_pair_bits(self.h, self.l, 0);
        }
        ((self.h as Word) << 8) | (self.l as Word)
    }

    /// Set the HL register pair.
    pub fn set_hl(&mut self, value: Word)
        ensures
            final(self).h == value / 256,
            final(self).l == value % 256,
            final(self).a == old(self).a && final(self).f == old(self).f,
            final(self).b == old(self).b && final(self).c == old(self).c,
            final(self).d == old(self).d && final(self).e == old(self).e,
            final(self).pc == old(self).pc && final(self).sp == old(self).sp,
    {
        proof {
            lemma_pair_bits(0, 0, value);
        }
        self.h = ((value >> 8) & 0xFF) as Byte;
        self.l = (value & 0xFF) as Byte;
    }

    /// Zero flag (bit 7 of F).
    pub fn flag_z(&self) -> (r: bool)
        ensures
            r == self.zf(),
    {
        bit(self.f, 7)
    }

    /// Set the zero flag.
    pub fn set_flag_z(&mut self, value: bool)
        ensures
            final(self).zf() == value,
            final(self).nf() == old(self).nf(),
            final(self).hf() == old(self).hf(),
            final(self).cf() == old(self).cf(),
            old(self).wf() ==> final(self).wf(),
            final(self).same_but_f(*old(self)),
    {
        self.set_flag_bit(7, value);
    }

    /// Subtract flag (bit 6 of F).
    pub fn flag_n(&self) -> (r: bool)
        ensures
            r == self.nf(),
    {
        bit(self.f, 6)
    }

    /// Set the subtract flag.
    pub fn set_flag_n(&mut self, value: bool)
        ensures
            final(self).nf() == value,
            final(self).zf() == old(self).zf(),
            final(self).hf() == old(self).hf(),
            final(self).cf() == old(self).cf(),
            old(self).wf() ==> final(self).wf(),
            final(self).same_but_f(*old(self)),
    {
        self.set_flag_bit(6, value);
    }

    /// Half-carry flag (bit 5 of F).
    pub fn flag_h(&self) -> (r: bool)
        ensures
            r == self.hf(),
    {
        bit(self.f, 5)
    }

    /// Set the half-carry flag.
    pub fn set_flag_h(&mut self, value: bool)
        ensures
            final(self).hf() == value,
            final(self).zf() == old(self).zf(),
            final(self).nf() == old(self).nf(),
            final(self).cf() == old(self).cf(),
            old(self).wf() ==> final(self).wf(),
            final(self).same_but_f(*old(self)),
    {
        self.set_flag_bit(5, value);
    }

    /// Carry flag (bit 4 of F).
    pub fn flag_c(&self) -> (r: bool)
        ensures
            r == self.cf(),
    {
        bit(self.f, 4)
    }

    /// Set the carry flag.
    pub fn set_flag_c(&mut self, value: bool)
        ensures
            final(self).cf() == value,
            final(self).zf() == old(self).zf(),
            final(self).nf() == old(self).nf(),
            final(self).hf() == old(self).hf(),
            old(self).wf() ==> final(self).wf(),
            final(self).same_but_f(*old(self)),
    {
        self.set_flag_bit(4, value);
    }

    fn set_flag_bit(&mut self, n: u8, value: bool)
        requires
            4 <= n < 8,
        ensures
            bit_of(final(self).f, n) == value,
            forall|m: u8| m < 8 && m != n ==> (#[trigger] bit_of(final(self).f, m) == bit_of(old(self).f, m)),
            old(self).wf() ==> final(self).wf(),
            final(self).same_but_f(*old(self)),
    {
        bit_set(&mut self.f, n, value);
        proof {
            lemma_low_nibble(old(self).f);
            lemma_low_nibble(self.f);
            assert(bit_of(self.f, 0) == bit_of(old(self).f, 0));
            assert(bit_of(self.f, 1) == bit_of(old(self).f, 1));
            assert(bit_of(self.f, 2) == bit_of(old(self).f, 2));
            assert(bit_of(self.f, 3) == bit_of(old(self).f, 3));
        }
    }

    /// Set all four flags at once.
    pub fn set_flags(&mut self, z: bool, n: bool, h: bool, c: bool)
        ensures
            final(self).zf() == z,
            final(self).nf() == n,
            final(self).hf() == h,
            final(self).cf() == c,
            old(self).wf() ==> final(self).wf(),
            final(self).same_but_f(*old(self)),
    {
        self.set_flag_z(z);
        self.set_flag_n(n);
        self.set_flag_h(h);
        self.set_flag_c(c);
    }
}

} // verus!
