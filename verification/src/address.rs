use vstd::prelude::*;

use crate::bits::lemma_word_bits;

verus! {

/// Internal 2 KiB RAM and its mirrors: $0000-$1FFF.
pub fn is_ram(addr: u16) -> (r: bool)
    ensures
        r == (addr < 0x2000),
{
    let r = addr & 0xE000 == 0x0000;
    proof {
        lemma_word_bits(addr);
    }
    r
}

/// PPU registers and their mirrors: $2000-$3FFF.
pub fn is_ppu(addr: u16) -> (r: bool)
    ensures
        r == (0x2000 <= addr < 0x4000),
{
    let r = addr & 0xE000 == 0x2000;
    proof {
        lemma_word_bits(addr);
    }
    r
}

/// APU and I/O registers: $4000-$401F.
pub fn is_apu_io(addr: u16) -> (r: bool)
    ensures
        r == (0x4000 <= addr < 0x4020),
{
    let r = addr & 0xFFE0 == 0x4000;
    proof {
        lemma_word_bits(addr);
    }
    r
}

/// Cartridge space: $4020-$FFFF.
pub fn is_cartridge(addr: u16) -> (r: bool)
    ensures
        r == (addr >= 0x4020),
{
    addr >= 0x4020
}

/// Every CPU address falls in exactly one of the four regions.
pub proof fn lemma_regions_partition(addr: u16)
    ensures
        (addr < 0x2000) as int + (0x2000 <= addr < 0x4000) as int + (0x4000 <= addr < 0x4020) as int
            + (addr >= 0x4020) as int == 1,
{
}

} // verus!
