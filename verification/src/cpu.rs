use vstd::prelude::*;

use crate::interrupt::word;

verus! {

pub const FLAG_CARRY: u8 = 0b0000_0001;
pub const FLAG_ZERO: u8 = 0b0000_0010;
pub const FLAG_INTERRUPT: u8 = 0b0000_0100;
pub const FLAG_DECIMAL: u8 = 0b0000_1000;
pub const FLAG_BREAK: u8 = 0b0001_0000;
pub const FLAG_OVERFLOW: u8 = 0b0100_0000;
pub const FLAG_NEGATIVE: u8 = 0b1000_0000;

/// The status register `sr` with the bits of `flag` set when `set` holds and cleared otherwise.
pub open spec fn with_flag(sr: u8, flag: u8, set: bool) -> u8 {
    if set { sr | flag } else { sr & !flag }
}

/// RP2A03 CPU register file: program counter, accumulator, index registers,
/// stack pointer and status register.
#[derive(Clone, Copy)]
pub struct CpuRp2a03 {
    pub pc: u16,
    pub a: u8,
    pub x: u8,
    pub y: u8,
    pub st: u8,
    pub sr: u8,
}

/// The register file stored as seven bytes: pc (low byte first), A, X, Y, ST, SR.
pub open spec fn register_bytes(c: CpuRp2a03) -> Seq<u8> {
    seq![c.pc as u8, (c.pc >> 8u16) as u8, c.a, c.x, c.y, c.st, c.sr]
}

/// The register file that seven bytes in the layout of `register_bytes` hold.
pub open spec fn registers_from(b: Seq<u8>) -> CpuRp2a03 {
    CpuRp2a03 { pc: word(b[0], b[1]), a: b[2], x: b[3], y: b[4], st: b[5], sr: b[6] }
}

/// Saving the register file as bytes and loading them back gives it unchanged.
pub proof fn lemma_bytes_round_trip(c: CpuRp2a03)
    ensures
        registers_from(register_bytes(c)) == c,
{
    crate::bits::lemma_word_bits(c.pc);
}

impl CpuRp2a03 {
    /// The register file as seven bytes: pc (low byte first), A, X, Y, ST, SR.
    pub fn as_bytes(&self) -> (r: [u8; 7])
        ensures
            r@ == register_bytes(*self),
    {
        let r = [self.pc as u8, (self.pc >> 8) as u8, self.a, self.x, self.y, self.st, self.sr];
        assert(r@ =~= register_bytes(*self));
        r
    }

    /// A register file from seven bytes in the layout of `as_bytes`.
    pub fn from_bytes(bytes: [u8; 7]) -> (r: Self)
        ensures
            r == registers_from(bytes@),
    {
        CpuRp2a03 {
            pc: (bytes[0] as u16) | ((bytes[1] as u16) << 8),
            a: bytes[2],
            x: bytes[3],
            y: bytes[4],
            st: bytes[5],
            sr: bytes[6],
        }
    }

    /// Power-on register file: every register zero except the program counter.
    pub fn new(reset_addr: u16) -> (r: Self)
        ensures
            r == (CpuRp2a03 { pc: reset_addr, a: 0, x: 0, y: 0, st: 0, sr: 0 }),
    {
        CpuRp2a03 { pc: reset_addr, a: 0, x: 0, y: 0, st: 0, sr: 0 }
    }

    #[inline(always)]
    pub fn pc(&self) -> (r: u16)
        ensures
            r == self.pc,
    {
        self.pc
    }

    #[inline(always)]
    pub fn set_pc(&mut self, val: u16)
        ensures
            *final(self) == (CpuRp2a03 { pc: val, ..*old(self) }),
    {
        self.pc = val;
    }

    /// Moves the program counter forward by `n`, wrapping at 16 bits.
    #[inline(always)]
    pub fn advance_pc(&mut self, n: u16)
        ensures
            *final(self) == (CpuRp2a03 { pc: ((old(self).pc + n) % 0x10000) as u16, ..*old(self) }),
    {
        self.pc = self.pc.wrapping_add(n);
    }

    #[inline(always)]
    pub fn a(&self) -> (r: u8)
        ensures
            r == self.a,
    {
        self.a
    }

    #[inline(always)]
    pub fn set_a(&mut self, val: u8)
        ensures
            *final(self) == (CpuRp2a03 { a: val, ..*old(self) }),
    {
        self.a = val;
    }

    #[inline(always)]
    pub fn x(&self) -> (r: u8)
        ensures
            r == self.x,
    {
        self.x
    }

    #[inline(always)]
    pub fn set_x(&mut self, val: u8)
        ensures
            *final(self) == (CpuRp2a03 { x: val, ..*old(self) }),
    {
        self.x = val;
    }

    #[inline(always)]
    pub fn y(&self) -> (r: u8)
        ensures
            r == self.y,
    {
        self.y
    }

    #[inline(always)]
    pub fn set_y(&mut self, val: u8)
        ensures
            *final(self) == (CpuRp2a03 { y: val, ..*old(self) }),
    {
        self.y = val;
    }

    #[inline(always)]
    pub fn st(&self) -> (r: u8)
        ensures
            r == self.st,
    {
        self.st
    }

    #[inline(always)]
    pub fn set_st(&mut self, val: u8)
        ensures
            *final(self) == (CpuRp2a03 { st: val, ..*old(self) }),
    {
        self.st = val;
    }

    #[inline(always)]
    pub fn sr(&self) -> (r: u8)
        ensures
            r == self.sr,
    {
        self.sr
    }

    #[inline(always)]
    pub fn set_sr(&mut self, val: u8)
        ensures
            *final(self) == (CpuRp2a03 { sr: val, ..*old(self) }),
    {
        self.sr = val;
    }

    /// Whether any bit of `flag` is set in the status register.
    #[inline(always)]
    pub fn get_flag(&self, flag: u8) -> (r: bool)
        ensures
            r == (self.sr & flag != 0),
    {
        self.sr & flag != 0
    }

    /// Sets the bits of `flag` in the status register when `set` holds, clears them otherwise.
    #[inline(always)]
    pub fn set_flag(&mut self, flag: u8, set: bool)
        ensures
            *final(self) == (CpuRp2a03 { sr: with_flag(old(self).sr, flag, set), ..*old(self) }),
    {
        let mask: u8 = if set { 0xFF } else { 0 };
        let sr = self.sr;
        let r = (sr & !flag) | (flag & mask);
        assert(r == with_flag(sr, flag, set)) by (bit_vector)
            requires
                r == (sr & !flag) | (flag & mask),
                mask == (if set { 0xFFu8 } else { 0u8 }),
        ;
        self.sr = r;
    }

    /// Negative flag := bit 7 of `val`.
    #[inline(always)]
    pub fn set_sign(&mut self, val: u8)
        ensures
            *final(self) == (CpuRp2a03 {
                sr: with_flag(old(self).sr, FLAG_NEGATIVE, val & 0x80 != 0),
                ..*old(self)
            }),
    {
        self.set_flag(FLAG_NEGATIVE, (val & 0x80) != 0);
    }

    /// Zero flag := `val == 0`.
    #[inline(always)]
    pub fn set_zero(&mut self, val: u8)
        ensures
            *final(self) == (CpuRp2a03 { sr: with_flag(old(self).sr, FLAG_ZERO, val == 0), ..*old(self) }),
    {
        self.set_flag(FLAG_ZERO, val == 0);
    }

    /// Zero and negative flags from `val` in one step.
    #[inline(always)]
    pub fn update_zn_flags(&mut self, val: u8)
        ensures
            *final(self) == (CpuRp2a03 {
                sr: with_flag(with_flag(old(self).sr, FLAG_ZERO, val == 0), FLAG_NEGATIVE, val & 0x80 != 0),
                ..*old(self)
            }),
    {
        let zbit: u8 = if val == 0 { FLAG_ZERO } else { 0 };
        let sr = self.sr;
        let r = (sr & 0x7D) | zbit | (val & FLAG_NEGATIVE);
        assert(r == with_flag(with_flag(sr, FLAG_ZERO, val == 0), FLAG_NEGATIVE, val & 0x80 != 0))
            by (bit_vector)
            requires
                r == (sr & 0x7D) | zbit | (val & 0x80u8),
                zbit == (if val == 0 { 2u8 } else { 0u8 }),
        ;
        self.sr = r;
    }
}

impl Default for CpuRp2a03 {
    /// All registers zero.
    fn default() -> (r: Self)
        ensures
            r == (CpuRp2a03 { pc: 0, a: 0, x: 0, y: 0, st: 0, sr: 0 }),
    {
        CpuRp2a03::new(0)
    }
}

} // verus!
