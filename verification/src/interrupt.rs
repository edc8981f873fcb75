use vstd::prelude::*;

verus! {

pub const NMI_VECTOR: u16 = 0xFFFA;
pub const RESET_VECTOR: u16 = 0xFFFC;
pub const IRQ_VECTOR: u16 = 0xFFFE;

/// Little-endian 16-bit value from two bytes.
pub open spec fn word(lo: u8, hi: u8) -> u16 {
    (lo as u16 | ((hi as u16) << 8u16)) as u16
}

/// Reads the little-endian vector stored at `addr` and `addr + 1` (wrapping) through `bus`.
pub fn read_vector(bus: &impl Fn(u16) -> u8, addr: u16) -> (r: u16)
    requires
        call_requires(*bus, (addr,)),
        call_requires(*bus, (((addr + 1) % 0x10000) as u16,)),
    ensures
        exists|lo: u8, hi: u8|
            call_ensures(*bus, (addr,), lo) && call_ensures(
                *bus,
                (((addr + 1) % 0x10000) as u16,),
                hi,
            ) && r == word(lo, hi),
{
    let lo = bus(addr);
    let next = addr.wrapping_add(1);
    assert(next == ((addr + 1) % 0x10000) as u16);
    let hi = bus(next);
    let r = (lo as u16) | ((hi as u16) << 8);
    assert(call_ensures(*bus, (addr,), lo) && call_ensures(*bus, (next,), hi) && r == word(lo, hi));
    r
}

} // verus!
