use vstd::prelude::*;

verus! {

/// Master-clock ticks spent in `cpu_cycles` CPU cycles (12 per CPU cycle).
pub fn master_cycles(cpu_cycles: u8) -> (r: u32)
    ensures
        r == cpu_cycles * 12,
{
    cpu_cycles as u32 * 12
}

/// PPU dots spent in `cpu_cycles` CPU cycles (3 per CPU cycle).
pub fn ppu_cycles(cpu_cycles: u8) -> (r: u32)
    ensures
        r == cpu_cycles * 3,
{
    cpu_cycles as u32 * 3
}

/// Four PPU dots make up one master-clock CPU period.
pub proof fn lemma_master_is_four_ppu_dots(c: u8)
    ensures
        c * 12 == 4 * (c * 3),
{
}

} // verus!
