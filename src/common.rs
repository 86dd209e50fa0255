//! Byte and word primitives shared by every component.

use vstd::prelude::*;

verus! {

/// 8-bit unsigned integer (Game Boy byte)
pub type Byte = u8;

/// 16-bit unsigned integer (Game Boy word)
pub type Word = u16;

/// Whether bit `n` of `v` is set.
pub open spec fn bit_of(v: u8, n: u8) -> bool {
    v & (1u8 << n) != 0
}

/// Setting and clearing one bit leaves the other bits alone.
pub proof fn lemma_bit_set(v: u8, n: u8, m: u8)
    by (bit_vector)
    requires
        n < 8,
        m < 8,
    ensures
        bit_of(v | (1u8 << n), n),
        !bit_of(v & !(1u8 << n), n),
        m != n ==> bit_of(v | (1u8 << n), m) == bit_of(v, m),
        m != n ==> bit_of(v & !(1u8 << n), m) == bit_of(v, m),
{
}

/// The low nibble of a byte is zero exactly when none of bits 0 to 3 is set.
pub proof fn lemma_low_nibble(v: u8)
    by (bit_vector)
    ensures
        (v & 0x0F == 0) == (!bit_of(v, 0) && !bit_of(v, 1) && !bit_of(v, 2) && !bit_of(v, 3)),
{
}

/// Masking a byte with a run of low bits is taking it modulo a power of two.
pub proof fn lemma_low_mask(v: u8)
    by (bit_vector)
    ensures
        v & 0x01 == v % 2,
        v & 0x03 == v % 4,
        v & 0x07 == v % 8,
        v & 0x0F == v % 16,
        v & 0x1F == v % 32,
        v & 0x3F == v % 64,
        v & 0x7F == v % 128,
        v >> 4 == v / 16,
        v >> 5 == v / 32,
        v >> 6 == v / 64,
{
}

/// Bounds of masked values.
pub proof fn lemma_mask_bounds(x: u16, b: u8)
    by (bit_vector)
    ensures
        x & 0xF <= 0xF,
        x & 0xFF <= 0xFF,
        x & 0xFFF <= 0xFFF,
        b & 0xF <= 0xF,
        b & 7 < 8,
        (b >> 3u8) & 7 < 8,
        b >> 6u8 < 4,
        b & 1 <= 1,
        b & 3 < 4,
        b & 0x3F < 64,
        x & 0x700 <= 0x700,
        (x & 0x700) | (b as u16) < 0x800,
        (x & 0xFF) | (((b as u16) & 7) << 8u16) < 0x800,
        (x & 0xFF) | (((b as u16) & 7) << 8u16) == (x & 0xFF) + ((b as u16) & 7) * 256,
        (x & 0x700) | (b as u16) == (x & 0x700) + b as u16,
{
}

/// Check if bit `n` of `value` is set.
pub fn bit(value: Byte, n: u8) -> (r: bool)
    requires
        n < 8,
    ensures
        r == bit_of(value, n),
{
    (value & (1u8 << n)) != 0
}

/// Set (`on`) or clear bit `n` of `value`, leaving the other bits alone.
pub fn bit_set(value: &mut Byte, n: u8, on: bool)
    requires
        n < 8,
    ensures
        bit_of(*final(value), n) == on,
        forall|m: u8| m < 8 && m != n ==> (#[trigger] bit_of(*final(value), m) == bit_of(*old(value), m)),
{
    let ghost v0 = *value;
    if on {
        *value = *value | (1u8 << n);
    } else {
        *value = *value & !(1u8 << n);
    }
    proof {
        assert forall|m: u8| m < 8 && m != n implies (bit_of(*value, m) == bit_of(v0, m)) by {
            lemma_bit_set(v0, n, m);
        }
        lemma_bit_set(v0, n, n);
    }
}

/// Check if `low <= value <= high`.
pub fn between(value: Word, low: Word, high: Word) -> (r: bool)
    ensures
        r == (low <= value && value <= high),
{
    value >= low && value <= high
}

} // verus!
