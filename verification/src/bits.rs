//! Bit-level facts about bytes, 16-bit words and indices that the rest of the
//! crate relies on, each proved once by the bit-vector solver.
use vstd::prelude::*;

use crate::interrupt::word;

verus! {

/// Masks, shifts and field extractions of a 16-bit word `a`: address decoding,
/// nametable/palette indexing, the scroll register's fields, and the split of
/// a word into its two bytes.
pub proof fn lemma_word_bits(a: u16)
    ensures
        (a & 0xE000 == 0x0000) == (a < 0x2000),
        (a & 0xE000 == 0x2000) == (0x2000 <= a && a < 0x4000),
        (a & 0xFFE0 == 0x4000) == (0x4000 <= a && a < 0x4020),
        a & 0x07FF < 2048,
        a & 0xFF00 == 0x0100 ==> a < 0x2000,
        a & 0x00FF == a as u8 as u16,
        a as u8 == (a % 256) as u8,
        word(a as u8, (a >> 8u16) as u8) == a,
        (a >> 11u16) & 1 < 2,
        (a >> 10u16) & 1 < 2,
        (a >> 10u16) & 3 == (a / 0x400) % 4,
        a & 0x3FF < 0x400,
        a & 0x1F < 0x20,
        (a & 0x1F) & 0x0F < 0x20,
        (a & 0x3FFF) & 0x3FFF == a & 0x3FFF,
        a & 0x3FFF == a % 0x4000,
        a & 0x1FFF == a % 0x2000,
        a & 0x7FFF == a % 0x8000,
        a & 0x0FFF == a % 0x1000,
        a & 0x03FF == a % 0x400,
        0x3000 <= a ==> ((a & 0x2FFF) >> 11u16) & 1 == (a >> 11u16) & 1,
        0x3000 <= a ==> ((a & 0x2FFF) >> 10u16) & 1 == (a >> 10u16) & 1,
        (a & 0x2FFF) & 0x3FF == a & 0x3FF,
        a < 0x3F00 ==> (a & 0x2FFF) & 0x3FFF == a & 0x2FFF,
        a & 7 < 8,
        a & 0xFE <= 0xFE,
        (a & 0x1F) << 3u16 <= 248,
        ((a >> 5u16) & 0x1F) << 3u16 <= 248,
        (a >> 12u16) & 7 < 8,
        a & 0x1F != 31 ==> a < 0xFFFF,
        a & !0x1Fu16 == a & 0xFFE0,
        a & 0x03E0 != 0x03C0 && a & 0x03E0 != 0x03E0 ==> a + 0x20 <= 0xFFFF,
        a & !0x03E0u16 == a & 0xFC1F,
        (a >> 12u16) & 7 != 7 ==> a + 0x1000 <= 0xFFFF,
        a & !0x7000u16 == a & 0x8FFF,
        a & !0x041Fu16 == a & 0xFBE0,
        a & !0x7BE0u16 == a & 0x841F,
{
    assert({
        &&& (a & 0xE000 == 0x0000) == (a < 0x2000)
        &&& (a & 0xE000 == 0x2000) == (0x2000 <= a && a < 0x4000)
        &&& (a & 0xFFE0 == 0x4000) == (0x4000 <= a && a < 0x4020)
        &&& a & 0x07FF < 2048
        &&& a & 0xFF00 == 0x0100 ==> a < 0x2000
        &&& a & 0x00FF == a as u8 as u16
        &&& a as u8 == (a % 256) as u8
        &&& word(a as u8, (a >> 8u16) as u8) == a
        &&& (a >> 11u16) & 1 < 2
        &&& (a >> 10u16) & 1 < 2
        &&& a & 0x3FF < 0x400
        &&& a & 0x1F < 0x20
        &&& (a & 0x1F) & 0x0F < 0x20
        &&& (a & 0x3FFF) & 0x3FFF == a & 0x3FFF
        &&& a & 0x3FFF == a % 0x4000
        &&& a & 0x1FFF == a % 0x2000
        &&& a & 0x7FFF == a % 0x8000
        &&& a & 0x0FFF == a % 0x1000
        &&& a & 0x03FF == a % 0x400
        &&& 0x3000 <= a ==> ((a & 0x2FFF) >> 11u16) & 1 == (a >> 11u16) & 1
        &&& 0x3000 <= a ==> ((a & 0x2FFF) >> 10u16) & 1 == (a >> 10u16) & 1
        &&& (a & 0x2FFF) & 0x3FF == a & 0x3FF
        &&& a < 0x3F00 ==> (a & 0x2FFF) & 0x3FFF == a & 0x2FFF
        &&& a & 7 < 8
        &&& a & 0xFE <= 0xFE
        &&& (a & 0x1F) << 3u16 <= 248
        &&& ((a >> 5u16) & 0x1F) << 3u16 <= 248
        &&& (a >> 12u16) & 7 < 8
        &&& a & 0x1F != 31 ==> a < 0xFFFF
        &&& a & !0x1Fu16 == a & 0xFFE0
        &&& a & 0x03E0 != 0x03C0 && a & 0x03E0 != 0x03E0 ==> a + 0x20 <= 0xFFFF
        &&& a & !0x03E0u16 == a & 0xFC1F
        &&& (a >> 12u16) & 7 != 7 ==> a + 0x1000 <= 0xFFFF
        &&& a & !0x7000u16 == a & 0x8FFF
        &&& a & !0x041Fu16 == a & 0xFBE0
        &&& a & !0x7BE0u16 == a & 0x841F
    }) by (bit_vector);
    assert((a >> 10u16) & 3 == (a / 0x400) % 4) by (bit_vector);
}

/// Field extractions and flag updates of a byte `v`: register fields, status
/// bits, and the stack page.
pub proof fn lemma_byte_bits(v: u8)
    by (bit_vector)
    ensures
        v & 0xFF == v,
        v >> 0u8 == v,
        (v & 1 != 0) == (v % 2 == 1),
        v & 1 <= 1,
        v & 3 < 4,
        v & 7 < 8,
        v & 0x0F < 16,
        v & 0x7F <= 127,
        v & 0xFE <= 0xFE,
        v >> 6u8 < 4,
        v >> 3u8 < 32,
        (v >> 4u8) & 7 < 8,
        v & !0x80u8 == v & 0x7F,
        (v & 0x7F) & 0x80 == 0,
        (v | 0x80) & !0x20u8 == (v | 0x80) & 0xDF,
        v & !(0x80u8 | 0x40u8 | 0x20u8) == v & 0x1F,
        (v | 0x20) | 0x20 == v | 0x20,
        (v | 0x40) & 0x9F == v & 0x9F,
        (v | 0x20) & 0x9F == v & 0x9F,
        (v | 0x40) & 0x80 == v & 0x80,
        (v | 0x20) & 0x80 == v & 0x80,
        0xC000u16 | ((v as u16) << 6u16) == 0xC000 + 64 * v,
        0x0100u16 | (v as u16) == (0x0100 + v) as u16,
        ((0x0100 + v) as u16) & 0x07FF == 0x100 + v,
{
}

/// Masks of an index `x`.
pub proof fn lemma_index_bits(x: usize)
    ensures
        x as u8 == (x % 256) as u8,
        x as u16 == (x % 0x10000) as u16,
        x & 0x3FF == x % 0x400,
        x & 0xFFF == x % 0x1000,
        x & 0x3FFF == x % 0x4000,
        x & 0x1E <= 0x1E,
        x & 0xFE <= 0xFE,
        (x & 0xFE) | 1 == (x & 0xFE) + 1,
{
    assert({
        &&& x as u8 == (x % 256) as u8
        &&& x as u16 == (x % 0x10000) as u16
        &&& x & 0x3FF == x % 0x400
        &&& x & 0xFFF == x % 0x1000
        &&& x & 0x3FFF == x % 0x4000
        &&& x & 0x1E <= 0x1E
        &&& x & 0xFE <= 0xFE
        &&& (x & 0xFE) | 1 == (x & 0xFE) + 1
    }) by (bit_vector);
}

/// The attribute-byte shift of a tile, in either of its two spellings, is below 8.
pub proof fn lemma_attr_shift(tx: u16, ty: u16)
    by (bit_vector)
    ensures
        ((tx >> 1u16) & 1) << 1u16 | ((ty >> 1u16) & 1) << 2u16 < 8,
        ((tx & 2) >> 1u16) | ((ty & 2) << 1u16) < 8,
{
}

/// A palette group and a 2-bit pixel, packed by shifts and ors, index the palette
/// arithmetically.
pub proof fn lemma_palette_index(g: u8, p: u8)
    by (bit_vector)
    requires
        g < 4,
        p < 4,
    ensures
        ((g as usize) << 2usize) | (p as usize) == g * 4 + p,
        0x10usize | ((g as usize) << 2usize) | (p as usize) == 0x10 + g * 4 + p,
{
}

/// Replacing one byte of an 11-bit timer period keeps it within 11 bits.
pub proof fn lemma_timer_bytes(t: u16, v: u8)
    by (bit_vector)
    ensures
        t <= 0x7FF ==> (t & 0xFF00) | (v as u16) <= 0x7FF,
        (t & 0x00FF) | (((v as u16) & 7) << 8u16) <= 0x7FF,
{
}

/// A controller port read keeps the open-bus bits 1-7.
pub proof fn lemma_port_bits(p: u8, ob: u8)
    by (bit_vector)
    ensures
        ((p & 0x01) | (ob & 0xFE)) & 0xFE == ob & 0xFE,
{
}

} // verus!
