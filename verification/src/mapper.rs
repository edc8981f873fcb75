use vstd::prelude::*;

verus! {

/// The operations a cartridge board offers to the CPU and the PPU.
pub trait MapperImpl: Sized {
    /// The board's internal invariant.
    spec fn wf(&self) -> bool;

    /// The part of the invariant that the CPU side needs (PRG and PRG-RAM access).
    spec fn cpu_wf(&self) -> bool;

    /// The part of the invariant that a CPU write needs.
    spec fn write_wf(&self) -> bool;

    /// The part of the invariant that the PPU side needs (CHR access).
    spec fn ppu_wf(&self) -> bool;

    fn cpu_read(&mut self, addr: u16) -> (r: u8)
        requires
            old(self).cpu_wf(),
        ensures
            final(self).cpu_wf(),
            old(self).wf() ==> final(self).wf(),
    ;

    fn cpu_write(&mut self, addr: u16, val: u8)
        requires
            old(self).write_wf(),
        ensures
            final(self).write_wf(),
            old(self).cpu_wf() ==> final(self).cpu_wf(),
            old(self).ppu_wf() ==> final(self).ppu_wf(),
            old(self).wf() ==> final(self).wf(),
    ;

    fn ppu_read(&mut self, addr: u16) -> (r: u8)
        requires
            old(self).ppu_wf(),
        ensures
            final(self).ppu_wf(),
            old(self).wf() ==> final(self).wf(),
    ;

    fn ppu_write(&mut self, addr: u16, val: u8)
        requires
            old(self).ppu_wf(),
        ensures
            final(self).ppu_wf(),
            old(self).write_wf() ==> final(self).write_wf(),
            old(self).cpu_wf() ==> final(self).cpu_wf(),
            old(self).wf() ==> final(self).wf(),
    ;

    fn mirroring(&self) -> u8;

    fn irq_pending(&self) -> bool;

    fn ack_irq(&mut self)
        ensures
            old(self).wf() ==> final(self).wf(),
            old(self).ppu_wf() ==> final(self).ppu_wf(),
    ;

    fn clock_scanline(&mut self)
        ensures
            old(self).wf() ==> final(self).wf(),
            old(self).ppu_wf() ==> final(self).ppu_wf(),
        default_ensures
            *final(self) == *old(self),
    {
    }

    fn has_chr_ram(&self) -> bool;
}

pub open spec fn min_spec(a: int, b: int) -> int {
    if a <= b { a } else { b }
}

/// Byte `i` of an 8 KiB CHR image built from `chr`: the ROM bytes when the board has
/// CHR-ROM, zeros past its end, and all zeros for CHR-RAM.
pub open spec fn chr_image(chr: Seq<u8>, chr_ram: bool, i: int) -> u8 {
    if !chr_ram && i < chr.len() { chr[i] } else { 0 }
}

/// Byte `i` (< 32 KiB) of the fixed 32 KiB PRG window built from `prg`: the last
/// 32 KiB of a larger ROM, a 16 KiB ROM mirrored into both halves, zeros past the end
/// of a shorter one.
pub open spec fn prg32_image(prg: Seq<u8>, i: int) -> u8 {
    let off = if prg.len() > 0x8000 { prg.len() - 0x8000 } else { 0 };
    let j = if prg.len() <= 0x4000 { i % 0x4000 } else { i };
    if off + j < prg.len() { prg[off + j] } else { 0 }
}


/// Facts about the address masks the boards use.
pub proof fn lemma_masks(addr: u16)
    ensures
        addr & 0x1FFF < 0x2000,
        addr & 0x3FFF < 0x4000,
        addr & 0x7FFF < 0x8000,
        addr & 0x03FF < 0x400,
        addr & 0x0FFF < 0x1000,
        addr & 0x1FFF == addr % 0x2000,
        addr & 0x3FFF == addr % 0x4000,
        addr & 0x7FFF == addr % 0x8000,
        addr & 0x03FF == addr % 0x400,
        addr & 0x0FFF == addr % 0x1000,
{
    crate::bits::lemma_word_bits(addr);
}

/// Narrowing to a byte keeps the low eight bits.
pub proof fn lemma_trunc_u8(x: usize)
    ensures
        x as u8 == (x % 256) as u8,
        (x % 256) < 256,
{
    crate::bits::lemma_index_bits(x);
}

/// A masked index stays at or below the mask.
pub proof fn lemma_and_le(x: usize, m: usize)
    ensures
        x & m <= m,
{
    assert(x & m <= m) by (bit_vector);
}

/// `q * s <= n` when `q <= n / s`.
pub proof fn lemma_mul_div_le(q: int, n: int, s: int)
    requires
        s > 0,
        0 <= q <= n / s,
        n >= 0,
    ensures
        q * s <= n,
{
    assert(q * s <= (n / s) * s) by (nonlinear_arith)
        requires
            0 <= q <= n / s,
            s > 0,
    ;
    assert((n / s) * s <= n) by (nonlinear_arith)
        requires
            s > 0,
            n >= 0,
    ;
}

/// Builds the 8 KiB CHR array of a board with a fixed CHR window.
fn build_chr8k(chr: &[u8], chr_ram: bool) -> (c: [u8; 0x2000])
    ensures
        forall|i: int| 0 <= i < 0x2000 ==> c[i] == chr_image(chr@, chr_ram, i),
{
    let mut c = [0u8; 0x2000];
    if !chr_ram && chr.len() > 0 {
        let clen = if chr.len() < 0x2000 { chr.len() } else { 0x2000 };
        let mut i: usize = 0;
        while i < clen
            invariant
                clen <= chr@.len(),
                clen <= 0x2000,
                clen == min_spec(chr@.len() as int, 0x2000),
                !chr_ram,
                i <= clen,
                forall|k: int| 0 <= k < i ==> c[k] == chr@[k],
                forall|k: int| i <= k < 0x2000 ==> c[k] == 0,
            decreases clen - i,
        {
            c[i] = chr[i];
            i = i + 1;
        }
    }
    c
}

/// Builds the fixed 32 KiB PRG array of NROM and CNROM boards.
fn build_prg32k(prg: &[u8]) -> (p: [u8; 0x8000])
    ensures
        forall|i: int| 0 <= i < 0x8000 ==> p[i] == prg32_image(prg@, i),
{
    let mut p = [0u8; 0x8000];
    let len = prg.len();
    let off: usize = if len > 0x8000 { len - 0x8000 } else { 0 };
    let n: usize = if len - off < 0x8000 { len - off } else { 0x8000 };
    let mut i: usize = 0;
    while i < n
        invariant
            len == prg@.len(),
            off == (if len > 0x8000 { len - 0x8000 } else { 0int }),
            n == min_spec(len - off, 0x8000),
            i <= n,
            forall|k: int| 0 <= k < i ==> p[k] == prg@[off + k],
            forall|k: int| i <= k < 0x8000 ==> p[k] == 0,
        decreases n - i,
    {
        p[i] = prg[off + i];
        i = i + 1;
    }
    if len <= 0x4000 {
        let mut j: usize = 0;
        while j < 0x4000
            invariant
                len == prg@.len(),
                len <= 0x4000,
                off == 0,
                n == len,
                j <= 0x4000,
                forall|k: int| 0 <= k < 0x4000 ==> p[k] == (if k < len { prg@[k] } else { 0u8 }),
                forall|k: int| 0x4000 <= k < 0x4000 + j ==> #[trigger] p[k] == p[k - 0x4000],
                forall|k: int| 0x4000 + j <= k < 0x8000 ==> p[k] == 0,
            decreases 0x4000 - j,
        {
            p[0x4000 + j] = p[j];
            j = j + 1;
        }
        assert forall|i: int| 0 <= i < 0x8000 implies p[i] == prg32_image(prg@, i) by {
            if i >= 0x4000 {
                assert(p[i] == p[i - 0x4000]);
            }
        }
    }
    p
}

// ---------------------------------------------------------------------------
// NROM - iNES mapper 0
// ---------------------------------------------------------------------------
/// NROM: a fixed 32 KiB PRG window and a fixed 8 KiB CHR window.
pub struct Nrom {
    pub prg: [u8; 0x8000],
    pub chr: [u8; 0x2000],
    pub chr_ram: bool,
    pub mirror: u8,
    pub prg_size: usize,
}

impl Nrom {
    /// The state of a freshly built board for ROM images `prg` and `chr`.
    pub open spec fn is_new(&self, prg: Seq<u8>, chr: Seq<u8>, chr_ram: bool, mirror: u8) -> bool {
        &&& forall|i: int| 0 <= i < 0x8000 ==> self.prg[i] == prg32_image(prg, i)
        &&& forall|i: int| 0 <= i < 0x2000 ==> self.chr[i] == chr_image(chr, chr_ram, i)
        &&& self.chr_ram == chr_ram
        &&& self.mirror == mirror
        &&& self.prg_size == prg.len()
    }

    pub fn new(prg: &[u8], chr: &[u8], chr_ram: bool, mirror: u8) -> (r: Self)
        ensures
            r.is_new(prg@, chr@, chr_ram, mirror),
            r.wf(),
    {
        let p = build_prg32k(prg);
        let c = build_chr8k(chr, chr_ram);
        Nrom { prg: p, chr: c, chr_ram, mirror, prg_size: prg.len() }
    }

    /// CPU read: $8000-$FFFF is the PRG window, the rest reads 0.
    pub open spec fn spec_cpu_read(&self, addr: u16) -> u8 {
        if addr >= 0x8000 { self.prg[addr - 0x8000] } else { 0 }
    }

    /// PPU read: $0000-$1FFF (of the 14-bit address) is the CHR window, the rest reads 0.
    pub open spec fn spec_ppu_read(&self, addr: u16) -> u8 {
        let a = addr % 0x4000;
        if a < 0x2000 { self.chr[a as int] } else { 0 }
    }

    /// PPU write: lands in CHR (address modulo 8 KiB) only on a board with CHR-RAM.
    pub open spec fn after_ppu_write(self, addr: u16, val: u8, next: Self) -> bool {
        &&& next.prg == self.prg
        &&& next.chr_ram == self.chr_ram
        &&& next.mirror == self.mirror
        &&& next.prg_size == self.prg_size
        &&& next.chr@ == (if self.chr_ram {
            self.chr@.update((addr % 0x2000) as int, val)
        } else {
            self.chr@
        })
    }
}

impl MapperImpl for Nrom {
    /// A 16 KiB ROM is mirrored into both halves of the PRG window.
    open spec fn wf(&self) -> bool {
        self.prg_size <= 0x4000 ==> forall|i: int| 0x4000 <= i < 0x8000 ==> #[trigger] self.prg[i] == self.prg[i - 0x4000]
    }

    open spec fn cpu_wf(&self) -> bool {
        self.wf()
    }

    open spec fn write_wf(&self) -> bool {
        true
    }

    open spec fn ppu_wf(&self) -> bool {
        true
    }

    fn cpu_read(&mut self, addr: u16) -> (r: u8)
        ensures
            r == old(self).spec_cpu_read(addr),
            *final(self) == *old(self),
    {
        if addr >= 0x8000 {
            let idx = (addr & 0x7FFF) as usize;
            proof {
                crate::bits::lemma_word_bits(addr);
            }
            if self.prg_size <= 0x4000 && idx >= 0x4000 {
                self.prg[idx % 0x4000]
            } else {
                self.prg[idx]
            }
        } else {
            0
        }
    }

    fn cpu_write(&mut self, _addr: u16, _val: u8)
        ensures
            *final(self) == *old(self),
    {
    }

    fn ppu_read(&mut self, addr: u16) -> (r: u8)
        ensures
            r == old(self).spec_ppu_read(addr),
            *final(self) == *old(self),
    {
        let a = addr & 0x3FFF;
        proof {
            crate::bits::lemma_word_bits(addr);
        }
        if a < 0x2000 {
            self.chr[a as usize]
        } else {
            0
        }
    }

    fn ppu_write(&mut self, addr: u16, val: u8)
        ensures
            old(self).after_ppu_write(addr, val, *final(self)),
    {
        if self.chr_ram {
            let a = addr & 0x1FFF;
            proof {
                crate::bits::lemma_word_bits(addr);
            }
            self.chr[a as usize] = val;
        }
    }

    fn mirroring(&self) -> (r: u8)
        ensures
            r == self.mirror,
    {
        self.mirror
    }

    fn irq_pending(&self) -> (r: bool)
        ensures
            !r,
    {
        false
    }

    fn ack_irq(&mut self)
        ensures
            *final(self) == *old(self),
    {
    }

    fn has_chr_ram(&self) -> (r: bool)
        ensures
            r == self.chr_ram,
    {
        self.chr_ram
    }
}


// ---------------------------------------------------------------------------
// UxROM - iNES mapper 2
// ---------------------------------------------------------------------------
/// UxROM: a switchable 16 KiB PRG bank at $8000 and the last bank fixed at $C000.
pub struct UxRom {
    pub prg: Vec<u8>,
    pub chr: [u8; 0x2000],
    pub chr_ram: bool,
    pub mirror: u8,
    pub bank: u8,
    pub prg_banks: u8,
}

/// Number of 16 KiB banks an UxROM board counts for a PRG ROM of `len` bytes.
pub open spec fn uxrom_bank_count(len: int) -> u8 {
    let q = ((len / 0x4000) % 256) as u8;
    if q >= 1 { q } else { 1 }
}

impl UxRom {
    /// The state of a freshly built board for ROM images `prg` and `chr`.
    pub open spec fn is_new(&self, prg: Seq<u8>, chr: Seq<u8>, chr_ram: bool, mirror: u8) -> bool {
        &&& self.prg@ == prg
        &&& forall|i: int| 0 <= i < 0x2000 ==> self.chr[i] == chr_image(chr, chr_ram, i)
        &&& self.chr_ram == chr_ram
        &&& self.mirror == mirror
        &&& self.bank == 0
        &&& self.prg_banks == uxrom_bank_count(prg.len() as int)
    }

    pub fn new(prg: &[u8], chr: &[u8], chr_ram: bool, mirror: u8) -> (r: Self)
        ensures
            r.is_new(prg@, chr@, chr_ram, mirror),
            r.wf() <==> prg@.len() >= 0x4000,
    {
        let q = #[verifier::truncate] ((prg.len() / 0x4000) as u8);
        proof {
            lemma_trunc_u8(prg.len() / 0x4000);
        }
        let c = build_chr8k(chr, chr_ram);
        UxRom {
            prg: vstd::slice::slice_to_vec(prg),
            chr: c,
            chr_ram,
            mirror,
            bank: 0,
            prg_banks: if q >= 1 { q } else { 1 },
        }
    }

    /// $8000-$BFFF: the selected bank; $C000-$FFFF: the last counted bank.
    pub open spec fn spec_cpu_read(&self, addr: u16) -> u8 {
        let off = (addr & 0x3FFF) as int;
        if 0x8000 <= addr < 0xC000 {
            self.prg@[(self.bank * 0x4000 + off) % (self.prg@.len() as int)]
        } else if addr >= 0xC000 {
            self.prg@[(self.prg_banks - 1) * 0x4000 + off]
        } else {
            0
        }
    }

    pub open spec fn spec_ppu_read(&self, addr: u16) -> u8 {
        let a = addr & 0x3FFF;
        if a < 0x2000 { self.chr[a as int] } else { 0 }
    }

    /// A write anywhere in $8000-$FFFF selects the bank (masked by the bank count minus one).
    pub open spec fn after_cpu_write(self, addr: u16, val: u8, next: Self) -> bool {
        next == (if addr >= 0x8000 { UxRom { bank: val & ((self.prg_banks - 1) as u8), ..self } } else { self })
    }

    pub open spec fn after_ppu_write(self, addr: u16, val: u8, next: Self) -> bool {
        &&& next.prg == self.prg
        &&& next.chr_ram == self.chr_ram
        &&& next.mirror == self.mirror
        &&& next.bank == self.bank
        &&& next.prg_banks == self.prg_banks
        &&& next.chr@ == (if self.chr_ram {
            self.chr@.update((addr & 0x1FFF) as int, val)
        } else {
            self.chr@
        })
    }
}

impl MapperImpl for UxRom {
    /// The ROM holds at least one full bank, and the bank count covers whole banks of it.
    open spec fn wf(&self) -> bool {
        &&& self.prg@.len() >= 0x4000
        &&& self.prg_banks == uxrom_bank_count(self.prg@.len() as int)
    }

    open spec fn cpu_wf(&self) -> bool {
        self.wf()
    }

    open spec fn write_wf(&self) -> bool {
        self.prg_banks >= 1
    }

    open spec fn ppu_wf(&self) -> bool {
        true
    }

    fn cpu_read(&mut self, addr: u16) -> (r: u8)
        ensures
            r == old(self).spec_cpu_read(addr),
            *final(self) == *old(self),
    {
        proof {
            lemma_masks(addr);
        }
        if addr >= 0x8000 && addr <= 0xBFFF {
            let bank = self.bank as usize;
            let off = (addr & 0x3FFF) as usize;
            let idx = bank * 0x4000 + off;
            self.prg[idx % self.prg.len()]
        } else if addr >= 0xC000 {
            let bank = (self.prg_banks - 1) as usize;
            let off = (addr & 0x3FFF) as usize;
            proof {
                let len = self.prg@.len() as int;
                let q = len / 0x4000;
                assert(q >= 1);
                assert((q % 256) <= q);
                lemma_mul_div_le(self.prg_banks as int, len, 0x4000);
            }
            self.prg[bank * 0x4000 + off]
        } else {
            0
        }
    }

    fn cpu_write(&mut self, addr: u16, val: u8)
        ensures
            old(self).after_cpu_write(addr, val, *final(self)),
    {
        if addr >= 0x8000 {
            self.bank = val & (self.prg_banks - 1);
        }
    }

    fn ppu_read(&mut self, addr: u16) -> (r: u8)
        ensures
            r == old(self).spec_ppu_read(addr),
            *final(self) == *old(self),
    {
        proof {
            lemma_masks(addr);
        }
        let a = addr & 0x3FFF;
        if a < 0x2000 {
            self.chr[a as usize]
        } else {
            0
        }
    }

    fn ppu_write(&mut self, addr: u16, val: u8)
        ensures
            old(self).after_ppu_write(addr, val, *final(self)),
    {
        proof {
            lemma_masks(addr);
        }
        if self.chr_ram {
            let a = addr & 0x1FFF;
            self.chr[a as usize] = val;
        }
    }

    fn mirroring(&self) -> (r: u8)
        ensures
            r == self.mirror,
    {
        self.mirror
    }

    fn irq_pending(&self) -> (r: bool)
        ensures
            !r,
    {
        false
    }

    fn ack_irq(&mut self)
        ensures
            *final(self) == *old(self),
    {
    }

    fn has_chr_ram(&self) -> (r: bool)
        ensures
            r == self.chr_ram,
    {
        self.chr_ram
    }
}

// ---------------------------------------------------------------------------
// CNROM - iNES mapper 3
// ---------------------------------------------------------------------------
/// CNROM: a fixed 32 KiB PRG window and a switchable 8 KiB CHR bank.
pub struct Cnrom {
    pub prg: [u8; 0x8000],
    pub chr: Vec<u8>,
    pub chr_ram: bool,
    pub mirror: u8,
    pub chr_bank: u8,
}

/// Number of 8 KiB CHR banks in `len` bytes (at least one).
pub open spec fn chr8_bank_count(len: int) -> int {
    if len / 0x2000 >= 1 { len / 0x2000 } else { 1 }
}

impl Cnrom {
    /// The state of a freshly built board for ROM images `prg` and `chr`.
    pub open spec fn is_new(&self, prg: Seq<u8>, chr: Seq<u8>, chr_ram: bool, mirror: u8) -> bool {
        &&& forall|i: int| 0 <= i < 0x8000 ==> self.prg[i] == prg32_image(prg, i)
        &&& chr_ram ==> self.chr@.len() == 0x2000 && forall|i: int| 0 <= i < 0x2000 ==> self.chr@[i] == 0
        &&& !chr_ram ==> self.chr@ == chr
        &&& self.chr_ram == chr_ram
        &&& self.mirror == mirror
        &&& self.chr_bank == 0
    }

    pub fn new(prg: &[u8], chr: &[u8], chr_ram: bool, mirror: u8) -> (r: Self)
        ensures
            r.is_new(prg@, chr@, chr_ram, mirror),
            r.wf() <==> (chr_ram || chr@.len() >= 0x2000),
    {
        let p = build_prg32k(prg);
        let c: Vec<u8> = if chr_ram {
            vec![0u8; 0x2000]
        } else {
            vstd::slice::slice_to_vec(chr)
        };
        Cnrom { prg: p, chr: c, chr_ram, mirror, chr_bank: 0 }
    }

    pub open spec fn spec_cpu_read(&self, addr: u16) -> u8 {
        if addr >= 0x8000 { self.prg[(addr & 0x7FFF) as int] } else { 0 }
    }

    /// $0000-$1FFF: the selected 8 KiB bank (modulo the bank count).
    pub open spec fn spec_ppu_read(&self, addr: u16) -> u8 {
        let a = addr & 0x3FFF;
        let bank = (self.chr_bank as int) % chr8_bank_count(self.chr@.len() as int);
        if a < 0x2000 { self.chr@[bank * 0x2000 + a] } else { 0 }
    }

    /// A write anywhere in $8000-$FFFF selects the CHR bank from its two low bits.
    pub open spec fn after_cpu_write(self, addr: u16, val: u8, next: Self) -> bool {
        next == (if addr >= 0x8000 { Cnrom { chr_bank: val & 0x03, ..self } } else { self })
    }

    pub open spec fn after_ppu_write(self, addr: u16, val: u8, next: Self) -> bool {
        &&& next.prg == self.prg
        &&& next.chr_ram == self.chr_ram
        &&& next.mirror == self.mirror
        &&& next.chr_bank == self.chr_bank
        &&& next.chr@ == (if self.chr_ram {
            self.chr@.update((addr & 0x1FFF) as int, val)
        } else {
            self.chr@
        })
    }
}

impl MapperImpl for Cnrom {
    /// CHR holds at least one full bank; CHR-RAM is exactly one bank.
    open spec fn wf(&self) -> bool {
        &&& self.chr@.len() >= 0x2000
        &&& self.chr_ram ==> self.chr@.len() == 0x2000
    }

    /// The CPU side reads only the fixed PRG image: nothing more is needed.
    open spec fn cpu_wf(&self) -> bool {
        true
    }

    open spec fn write_wf(&self) -> bool {
        true
    }

    open spec fn ppu_wf(&self) -> bool {
        self.wf()
    }

    fn cpu_read(&mut self, addr: u16) -> (r: u8)
        ensures
            r == old(self).spec_cpu_read(addr),
            *final(self) == *old(self),
    {
        proof {
            lemma_masks(addr);
        }
        if addr >= 0x8000 {
            self.prg[(addr & 0x7FFF) as usize]
        } else {
            0
        }
    }

    fn cpu_write(&mut self, addr: u16, val: u8)
        ensures
            old(self).after_cpu_write(addr, val, *final(self)),
    {
        if addr >= 0x8000 {
            self.chr_bank = val & 0x03;
        }
    }

    fn ppu_read(&mut self, addr: u16) -> (r: u8)
        ensures
            r == old(self).spec_ppu_read(addr),
            *final(self) == *old(self),
    {
        proof {
            lemma_masks(addr);
        }
        let a = addr & 0x3FFF;
        if a < 0x2000 {
            let bank_size: usize = 0x2000;
            let q = self.chr.len() / bank_size;
            let banks = if q >= 1 { q } else { 1 };
            let bank = (self.chr_bank as usize) % banks;
            proof {
                let len = self.chr@.len() as int;
                assert(bank + 1 <= len / 0x2000);
                lemma_mul_div_le(bank + 1, len, 0x2000);
            }
            self.chr[bank * bank_size + a as usize]
        } else {
            0
        }
    }

    fn ppu_write(&mut self, addr: u16, val: u8)
        ensures
            old(self).after_ppu_write(addr, val, *final(self)),
    {
        proof {
            lemma_masks(addr);
        }
        if self.chr_ram {
            let a = addr & 0x1FFF;
            self.chr.set(a as usize, val);
        }
    }

    fn mirroring(&self) -> (r: u8)
        ensures
            r == self.mirror,
    {
        self.mirror
    }

    fn irq_pending(&self) -> (r: bool)
        ensures
            !r,
    {
        false
    }

    fn ack_irq(&mut self)
        ensures
            *final(self) == *old(self),
    {
    }

    fn has_chr_ram(&self) -> (r: bool)
        ensures
            r == self.chr_ram,
    {
        self.chr_ram
    }
}


// ---------------------------------------------------------------------------
// AxROM - iNES mapper 7
// ---------------------------------------------------------------------------
/// AxROM: a switchable 32 KiB PRG bank and single-screen mirroring chosen by software.
pub struct Axrom {
    pub prg: Vec<u8>,
    pub chr: [u8; 0x2000],
    pub chr_ram: bool,
    pub mirror: u8,
    pub bank: u8,
}

impl Axrom {
    /// The state of a freshly built board for ROM images `prg` and `chr`.
    pub open spec fn is_new(&self, prg: Seq<u8>, chr: Seq<u8>, chr_ram: bool, mirror: u8) -> bool {
        &&& self.prg@ == prg
        &&& forall|i: int| 0 <= i < 0x2000 ==> self.chr[i] == chr_image(chr, chr_ram, i)
        &&& self.chr_ram == chr_ram
        &&& self.mirror == mirror
        &&& self.bank == 0
    }

    pub fn new(prg: &[u8], chr: &[u8], chr_ram: bool, mirror: u8) -> (r: Self)
        ensures
            r.is_new(prg@, chr@, chr_ram, mirror),
            r.wf() <==> prg@.len() > 0,
    {
        let c = build_chr8k(chr, chr_ram);
        Axrom { prg: vstd::slice::slice_to_vec(prg), chr: c, chr_ram, mirror, bank: 0 }
    }

    /// $8000-$FFFF: the selected 32 KiB bank (modulo the ROM size).
    pub open spec fn spec_cpu_read(&self, addr: u16) -> u8 {
        if addr >= 0x8000 {
            self.prg@[(self.bank * 0x8000 + (addr & 0x7FFF)) % (self.prg@.len() as int)]
        } else {
            0
        }
    }

    pub open spec fn spec_ppu_read(&self, addr: u16) -> u8 {
        let a = addr & 0x3FFF;
        if a < 0x2000 { self.chr[a as int] } else { 0 }
    }

    /// A write in $8000-$FFFF selects the bank (bits 0-2) and the mirroring (bit 4: 2, else 0).
    pub open spec fn after_cpu_write(self, addr: u16, val: u8, next: Self) -> bool {
        next == (if addr >= 0x8000 {
            Axrom { bank: val & 0x07, mirror: if val & 0x10 != 0 { 2 } else { 0 }, ..self }
        } else {
            self
        })
    }

    pub open spec fn after_ppu_write(self, addr: u16, val: u8, next: Self) -> bool {
        &&& next.prg == self.prg
        &&& next.chr_ram == self.chr_ram
        &&& next.mirror == self.mirror
        &&& next.bank == self.bank
        &&& next.chr@ == (if self.chr_ram {
            self.chr@.update((addr & 0x1FFF) as int, val)
        } else {
            self.chr@
        })
    }
}

impl MapperImpl for Axrom {
    open spec fn wf(&self) -> bool {
        self.prg@.len() > 0
    }

    open spec fn cpu_wf(&self) -> bool {
        self.wf()
    }

    open spec fn write_wf(&self) -> bool {
        true
    }

    open spec fn ppu_wf(&self) -> bool {
        true
    }

    fn cpu_read(&mut self, addr: u16) -> (r: u8)
        ensures
            r == old(self).spec_cpu_read(addr),
            *final(self) == *old(self),
    {
        proof {
            lemma_masks(addr);
        }
        if addr >= 0x8000 {
            let bank = self.bank as usize;
            let off = (addr & 0x7FFF) as usize;
            self.prg[(bank * 0x8000 + off) % self.prg.len()]
        } else {
            0
        }
    }

    fn cpu_write(&mut self, addr: u16, val: u8)
        ensures
            old(self).after_cpu_write(addr, val, *final(self)),
    {
        if addr >= 0x8000 {
            self.bank = val & 0x07;
            self.mirror = if val & 0x10 != 0 { 2 } else { 0 };
        }
    }

    fn ppu_read(&mut self, addr: u16) -> (r: u8)
        ensures
            r == old(self).spec_ppu_read(addr),
            *final(self) == *old(self),
    {
        proof {
            lemma_masks(addr);
        }
        let a = addr & 0x3FFF;
        if a < 0x2000 {
            self.chr[a as usize]
        } else {
            0
        }
    }

    fn ppu_write(&mut self, addr: u16, val: u8)
        ensures
            old(self).after_ppu_write(addr, val, *final(self)),
    {
        proof {
            lemma_masks(addr);
        }
        if self.chr_ram {
            let a = addr & 0x1FFF;
            self.chr[a as usize] = val;
        }
    }

    fn mirroring(&self) -> (r: u8)
        ensures
            r == self.mirror,
    {
        self.mirror
    }

    fn irq_pending(&self) -> (r: bool)
        ensures
            !r,
    {
        false
    }

    fn ack_irq(&mut self)
        ensures
            *final(self) == *old(self),
    {
    }

    fn has_chr_ram(&self) -> (r: bool)
        ensures
            r == self.chr_ram,
    {
        self.chr_ram
    }
}

// ---------------------------------------------------------------------------
// GxROM - iNES mapper 66
// ---------------------------------------------------------------------------
/// GxROM: a switchable 32 KiB PRG bank and a switchable 8 KiB CHR bank, both set by one register.
pub struct Gxrom {
    pub prg: Vec<u8>,
    pub chr: Vec<u8>,
    pub chr_ram: bool,
    pub mirror: u8,
    pub prg_bank: u8,
    pub chr_bank: u8,
}

impl Gxrom {
    /// The state of a freshly built board for ROM images `prg` and `chr`.
    pub open spec fn is_new(&self, prg: Seq<u8>, chr: Seq<u8>, chr_ram: bool, mirror: u8) -> bool {
        &&& self.prg@ == prg
        &&& chr_ram ==> self.chr@.len() == 0x2000 && forall|i: int| 0 <= i < 0x2000 ==> self.chr@[i] == 0
        &&& !chr_ram ==> self.chr@ == chr
        &&& self.chr_ram == chr_ram
        &&& self.mirror == mirror
        &&& self.prg_bank == 0
        &&& self.chr_bank == 0
    }

    pub fn new(prg: &[u8], chr: &[u8], chr_ram: bool, mirror: u8) -> (r: Self)
        ensures
            r.is_new(prg@, chr@, chr_ram, mirror),
            r.wf() <==> prg@.len() > 0,
    {
        let c: Vec<u8> = if chr_ram {
            vec![0u8; 0x2000]
        } else {
            vstd::slice::slice_to_vec(chr)
        };
        Gxrom {
            prg: vstd::slice::slice_to_vec(prg),
            chr: c,
            chr_ram,
            mirror,
            prg_bank: 0,
            chr_bank: 0,
        }
    }

    /// $8000-$FFFF: the selected 32 KiB bank (modulo the ROM size).
    pub open spec fn spec_cpu_read(&self, addr: u16) -> u8 {
        if addr >= 0x8000 {
            self.prg@[(self.prg_bank * 0x8000 + (addr & 0x7FFF)) % (self.prg@.len() as int)]
        } else {
            0
        }
    }

    /// $0000-$1FFF: the selected 8 KiB bank (modulo the CHR size); empty CHR reads 0.
    pub open spec fn spec_ppu_read(&self, addr: u16) -> u8 {
        let a = addr & 0x3FFF;
        if a < 0x2000 && self.chr@.len() > 0 {
            self.chr@[(self.chr_bank * 0x2000 + a) % (self.chr@.len() as int)]
        } else {
            0
        }
    }

    /// A write in $8000-$FFFF: bits 4-5 select the PRG bank, bits 0-1 the CHR bank.
    pub open spec fn after_cpu_write(self, addr: u16, val: u8, next: Self) -> bool {
        next == (if addr >= 0x8000 {
            Gxrom { prg_bank: (val >> 4u8) & 3, chr_bank: val & 3, ..self }
        } else {
            self
        })
    }

    pub open spec fn after_ppu_write(self, addr: u16, val: u8, next: Self) -> bool {
        &&& next.prg == self.prg
        &&& next.chr_ram == self.chr_ram
        &&& next.mirror == self.mirror
        &&& next.prg_bank == self.prg_bank
        &&& next.chr_bank == self.chr_bank
        &&& next.chr@ == (if self.chr_ram {
            self.chr@.update((addr & 0x1FFF) as int, val)
        } else {
            self.chr@
        })
    }
}

impl MapperImpl for Gxrom {
    open spec fn wf(&self) -> bool {
        &&& self.prg@.len() > 0
        &&& self.chr_ram ==> self.chr@.len() == 0x2000
    }

    open spec fn cpu_wf(&self) -> bool {
        self.wf()
    }

    open spec fn write_wf(&self) -> bool {
        true
    }

    open spec fn ppu_wf(&self) -> bool {
        self.chr_ram ==> self.chr@.len() == 0x2000
    }

    fn cpu_read(&mut self, addr: u16) -> (r: u8)
        ensures
            r == old(self).spec_cpu_read(addr),
            *final(self) == *old(self),
    {
        proof {
            lemma_masks(addr);
        }
        if addr >= 0x8000 {
            let bank = self.prg_bank as usize;
            let off = (addr & 0x7FFF) as usize;
            self.prg[(bank * 0x8000 + off) % self.prg.len()]
        } else {
            0
        }
    }

    fn cpu_write(&mut self, addr: u16, val: u8)
        ensures
            old(self).after_cpu_write(addr, val, *final(self)),
    {
        if addr >= 0x8000 {
            self.prg_bank = (val >> 4) & 3;
            self.chr_bank = val & 3;
        }
    }

    fn ppu_read(&mut self, addr: u16) -> (r: u8)
        ensures
            r == old(self).spec_ppu_read(addr),
            *final(self) == *old(self),
    {
        proof {
            lemma_masks(addr);
        }
        let a = addr & 0x3FFF;
        if a >= 0x2000 {
            return 0;
        }
        if self.chr.len() == 0 {
            return 0;
        }
        let bank = self.chr_bank as usize;
        self.chr[(bank * 0x2000 + a as usize) % self.chr.len()]
    }

    fn ppu_write(&mut self, addr: u16, val: u8)
        ensures
            old(self).after_ppu_write(addr, val, *final(self)),
    {
        proof {
            lemma_masks(addr);
        }
        if self.chr_ram {
            let a = addr & 0x1FFF;
            self.chr.set(a as usize, val);
        }
    }

    fn mirroring(&self) -> (r: u8)
        ensures
            r == self.mirror,
    {
        self.mirror
    }

    fn irq_pending(&self) -> (r: bool)
        ensures
            !r,
    {
        false
    }

    fn ack_irq(&mut self)
        ensures
            *final(self) == *old(self),
    {
    }

    fn has_chr_ram(&self) -> (r: bool)
        ensures
            r == self.chr_ram,
    {
        self.chr_ram
    }
}


/// `x & mask` for non-negative machine-word values.
pub open spec fn masked(x: int, mask: int) -> int {
    ((x as usize) & (mask as usize)) as int
}

// ---------------------------------------------------------------------------
// MMC1 (SxROM) - iNES mapper 1
// ---------------------------------------------------------------------------
/// MMC1: registers loaded serially through a 5-bit shift register, four PRG modes,
/// two CHR modes, switchable mirroring and 8 KiB of PRG-RAM.
pub struct Mmc1 {
    pub prg: Vec<u8>,
    pub chr: Vec<u8>,
    pub chr_ram: bool,
    pub mirror: u8,
    pub shift: u8,
    pub shift_count: u8,
    pub control: u8,
    pub chr0: u8,
    pub chr1: u8,
    pub prg_bank: u8,
    pub prg_ram: [u8; 0x2000],
    pub prg_ram_enable: bool,
    pub has_chr_ram: bool,
}

impl Mmc1 {
    /// The state of a freshly built board for ROM images `prg` and `chr`.
    pub open spec fn is_new(&self, prg: Seq<u8>, chr: Seq<u8>, chr_ram: bool, mirror: u8) -> bool {
        &&& self.prg@ == prg
        &&& chr_ram ==> self.chr@.len() == 0x2000 && forall|i: int| 0 <= i < 0x2000 ==> self.chr@[i] == 0
        &&& !chr_ram ==> self.chr@ == chr
        &&& self.chr_ram == chr_ram
        &&& self.has_chr_ram == chr_ram
        &&& self.mirror == mirror
        &&& self.shift == 0 && self.shift_count == 0
        &&& self.control == 0x0C
        &&& self.chr0 == 0 && self.chr1 == 0 && self.prg_bank == 0
        &&& forall|i: int| 0 <= i < 0x2000 ==> self.prg_ram[i] == 0
        &&& !self.prg_ram_enable
    }

    fn new(prg: &[u8], chr: &[u8], chr_ram: bool, mirror: u8) -> (r: Self)
        ensures
            r.is_new(prg@, chr@, chr_ram, mirror),
            r.wf() <==> (prg@.len() == 0 || prg@.len() >= 0x4000),
    {
        let c: Vec<u8> = if chr_ram {
            vec![0u8; 0x2000]
        } else {
            vstd::slice::slice_to_vec(chr)
        };
        Mmc1 {
            prg: vstd::slice::slice_to_vec(prg),
            chr: c,
            chr_ram,
            mirror,
            shift: 0,
            shift_count: 0,
            control: 0x0C,
            chr0: 0,
            chr1: 0,
            prg_bank: 0,
            prg_ram: [0; 0x2000],
            prg_ram_enable: false,
            has_chr_ram: chr_ram,
        }
    }

    /// Effect of a write of `val` to register space at `addr`: bit 7 resets the shift
    /// register (and forces PRG mode 3); otherwise bit 0 is shifted in, and the fifth
    /// bit commits the 5-bit value to the register chosen by address bits 13-14.
    pub open spec fn after_register_write(self, addr: u16, val: u8) -> Self {
        if val & 0x80 != 0 {
            Mmc1 { shift: 0, shift_count: 0, control: self.control | 0x0C, ..self }
        } else {
            let shift = ((self.shift >> 1u8) | ((val & 1) << 4u8)) as u8;
            let count = self.shift_count + 1;
            if count < 5 {
                Mmc1 { shift, shift_count: count as u8, ..self }
            } else {
                let base = Mmc1 { shift: 0, shift_count: 0, ..self };
                let reg = addr & 0xE000;
                if reg == 0x8000 {
                    let m = shift & 3;
                    Mmc1 { control: shift, mirror: if m == 2 { 0 } else if m == 3 { 1 } else { m }, ..base }
                } else if reg == 0xA000 {
                    Mmc1 { chr0: shift & 0x1F, ..base }
                } else if reg == 0xC000 {
                    Mmc1 { chr1: shift & 0x1F, ..base }
                } else if reg == 0xE000 {
                    Mmc1 { prg_bank: shift & 0x0F, prg_ram_enable: shift & 0x10 == 0, ..base }
                } else {
                    base
                }
            }
        }
    }

    fn write_register(&mut self, addr: u16, val: u8)
        requires
            old(self).shift_count < 5,
        ensures
            *final(self) == old(self).after_register_write(addr, val),
            final(self).shift_count < 5,
    {
        if val & 0x80 != 0 {
            self.shift = 0;
            self.shift_count = 0;
            self.control = self.control | 0x0C;
            return ;
        }
        self.shift = self.shift >> 1;
        self.shift = self.shift | ((val & 1) << 4);
        self.shift_count = self.shift_count + 1;
        if self.shift_count < 5 {
            return ;
        }
        let reg = addr & 0xE000;
        if reg == 0x8000 {
            self.control = self.shift;
            self.mirror = self.control & 3;
            if self.mirror == 2 {
                self.mirror = 0;
            }
            if self.mirror == 3 {
                self.mirror = 1;
            }
        } else if reg == 0xA000 {
            self.chr0 = (self.shift) & 0x1F;
        } else if reg == 0xC000 {
            self.chr1 = (self.shift) & 0x1F;
        } else if reg == 0xE000 {
            self.prg_bank = self.shift & 0x0F;
            self.prg_ram_enable = (self.shift & 0x10) == 0;
        }
        self.shift = 0;
        self.shift_count = 0;
    }

    /// PRG banking mode: bits 2-3 of the control register.
    fn prg_mode(&self) -> (r: u8)
        ensures
            r == (self.control >> 2u8) & 3,
    {
        (self.control >> 2) & 3
    }

    /// CHR banking mode: two 4 KiB banks when bit 4 of the control register is set.
    fn chr_mode(&self) -> (r: bool)
        ensures
            r == (self.control & 0x10 != 0),
    {
        (self.control & 0x10) != 0
    }

    /// CPU read: $6000-$7FFF PRG-RAM when enabled; $8000-$FFFF by PRG mode - modes 0/1
    /// one 32 KiB bank (low bit of the bank number ignored), mode 2 first bank fixed at
    /// $8000 and switchable at $C000, mode 3 switchable at $8000 and last 16 KiB at $C000.
    pub open spec fn spec_cpu_read(&self, addr: u16) -> u8 {
        let len = self.prg@.len() as int;
        let mask = len - 1;
        let off = (addr & 0x7FFF) as int;
        let mode = (self.control >> 2u8) & 3;
        if 0x6000 <= addr < 0x8000 {
            if self.prg_ram_enable { self.prg_ram[(addr & 0x1FFF) as int] } else { 0 }
        } else if addr >= 0x8000 {
            if len == 0 {
                0
            } else if mode <= 1 {
                self.prg@[masked((self.prg_bank & 0x0E) * 0x8000 + off, mask)]
            } else if mode == 2 {
                if addr < 0xC000 {
                    self.prg@[masked(off, mask)]
                } else {
                    self.prg@[masked(self.prg_bank * 0x4000 + off % 0x4000, mask)]
                }
            } else {
                if addr < 0xC000 {
                    self.prg@[masked(self.prg_bank * 0x4000 + off % 0x4000, mask)]
                } else {
                    self.prg@[masked(len - 0x4000 + off % 0x4000, mask)]
                }
            }
        } else {
            0
        }
    }

    /// PPU read: CHR-RAM directly; CHR-ROM as two 4 KiB banks (chr0, chr1) in 4 KiB
    /// mode, or one 8 KiB bank (chr0 with its low bit cleared) otherwise.
    pub open spec fn spec_ppu_read(&self, addr: u16) -> u8 {
        let a = (addr & 0x3FFF) as int;
        let len = self.chr@.len() as int;
        let mask = len - 1;
        if a >= 0x2000 {
            0
        } else if self.has_chr_ram {
            self.chr@[a]
        } else if len == 0 {
            0
        } else if self.control & 0x10 != 0 {
            if a < 0x1000 {
                self.chr@[masked(self.chr0 * 0x1000 + a, mask)]
            } else {
                self.chr@[masked(self.chr1 * 0x1000 + a % 0x1000, mask)]
            }
        } else {
            self.chr@[masked((self.chr0 & 0x1E) * 0x1000 + a, mask)]
        }
    }

    pub open spec fn after_cpu_write(self, addr: u16, val: u8, next: Self) -> bool {
        if 0x6000 <= addr < 0x8000 {
            &&& next == Mmc1 { prg_ram: next.prg_ram, ..self }
            &&& next.prg_ram@ == (if self.prg_ram_enable {
                self.prg_ram@.update((addr & 0x1FFF) as int, val)
            } else {
                self.prg_ram@
            })
        } else if addr >= 0x8000 {
            next == self.after_register_write(addr, val)
        } else {
            next == self
        }
    }

    pub open spec fn after_ppu_write(self, addr: u16, val: u8, next: Self) -> bool {
        &&& next == Mmc1 { chr: next.chr, ..self }
        &&& next.chr@ == (if self.has_chr_ram {
            self.chr@.update((addr & 0x1FFF) as int, val)
        } else {
            self.chr@
        })
    }
}

impl MapperImpl for Mmc1 {
    open spec fn wf(&self) -> bool {
        &&& self.prg@.len() == 0 || self.prg@.len() >= 0x4000
        &&& self.has_chr_ram == self.chr_ram
        &&& self.chr_ram ==> self.chr@.len() == 0x2000
        &&& self.shift_count < 5
    }

    open spec fn cpu_wf(&self) -> bool {
        self.wf()
    }

    open spec fn write_wf(&self) -> bool {
        self.shift_count < 5
    }

    open spec fn ppu_wf(&self) -> bool {
        self.has_chr_ram == self.chr_ram && (self.chr_ram ==> self.chr@.len() == 0x2000)
    }

    fn cpu_read(&mut self, addr: u16) -> (r: u8)
        ensures
            r == old(self).spec_cpu_read(addr),
            *final(self) == *old(self),
    {
        proof {
            lemma_masks(addr);
        }
        if addr >= 0x6000 && addr <= 0x7FFF {
            if self.prg_ram_enable {
                self.prg_ram[(addr & 0x1FFF) as usize]
            } else {
                0
            }
        } else if addr >= 0x8000 {
            let prg_len = self.prg.len();
            if prg_len == 0 {
                return 0;
            }
            let prg_mask = prg_len - 1;
            let off = (addr & 0x7FFF) as usize;
            let bank_mode = self.prg_mode();
            let control = self.control;
            proof {
                crate::bits::lemma_byte_bits(control >> 2u8);
                crate::bits::lemma_index_bits(off);
            }
            if bank_mode == 0 || bank_mode == 1 {
                let bank = (self.prg_bank & 0x0E) as usize;
                proof {
                    lemma_and_le((bank * 0x8000 + off) as usize, prg_mask);
                }
                self.prg[(bank * 0x8000 + off) & prg_mask]
            } else if bank_mode == 2 {
                if addr < 0xC000 {
                    proof {
                        lemma_and_le(off, prg_mask);
                    }
                    self.prg[off & prg_mask]
                } else {
                    let bank = self.prg_bank as usize;
                    proof {
                        lemma_and_le((bank * 0x4000 + (off & 0x3FFF)) as usize, prg_mask);
                    }
                    self.prg[(bank * 0x4000 + (off & 0x3FFF)) & prg_mask]
                }
            } else {
                if addr < 0xC000 {
                    let bank = self.prg_bank as usize;
                    proof {
                        lemma_and_le((bank * 0x4000 + (off & 0x3FFF)) as usize, prg_mask);
                    }
                    self.prg[(bank * 0x4000 + (off & 0x3FFF)) & prg_mask]
                } else {
                    proof {
                        lemma_and_le((prg_len - 0x4000 + (off & 0x3FFF)) as usize, prg_mask);
                    }
                    self.prg[(prg_len - 0x4000 + (off & 0x3FFF)) & prg_mask]
                }
            }
        } else {
            0
        }
    }

    fn cpu_write(&mut self, addr: u16, val: u8)
        ensures
            old(self).after_cpu_write(addr, val, *final(self)),
    {
        proof {
            lemma_masks(addr);
        }
        if addr >= 0x6000 && addr <= 0x7FFF {
            if self.prg_ram_enable {
                self.prg_ram[(addr & 0x1FFF) as usize] = val;
            }
        } else if addr >= 0x8000 {
            self.write_register(addr, val);
        }
    }

    fn ppu_read(&mut self, addr: u16) -> (r: u8)
        ensures
            r == old(self).spec_ppu_read(addr),
            *final(self) == *old(self),
    {
        proof {
            lemma_masks(addr);
        }
        let a = addr & 0x3FFF;
        if a >= 0x2000 {
            return 0;
        }
        let mode_4k = self.chr_mode();
        if self.has_chr_ram {
            return self.chr[a as usize];
        }
        if self.chr.len() == 0 {
            return 0;
        }
        let ch_mask = self.chr.len() - 1;
        if mode_4k {
            if a < 0x1000 {
                let bank = (self.chr0 as usize) * 0x1000;
                proof {
                    lemma_and_le((bank + a as usize) as usize, ch_mask);
                }
                self.chr[(bank + a as usize) & ch_mask]
            } else {
                let bank = (self.chr1 as usize) * 0x1000;
                let low = a as usize & 0xFFF;
                proof {
                    crate::bits::lemma_index_bits(a as usize);
                    lemma_and_le((bank + low) as usize, ch_mask);
                }
                self.chr[(bank + low) & ch_mask]
            }
        } else {
            let c0 = self.chr0 as usize;
            proof {
                crate::bits::lemma_index_bits(c0);
            }
            let bank = (c0 & 0x1E) * 0x1000;
            proof {
                lemma_and_le((bank + a as usize) as usize, ch_mask);
            }
            self.chr[(bank + a as usize) & ch_mask]
        }
    }

    fn ppu_write(&mut self, addr: u16, val: u8)
        ensures
            old(self).after_ppu_write(addr, val, *final(self)),
    {
        proof {
            lemma_masks(addr);
        }
        if self.has_chr_ram {
            let a = addr & 0x1FFF;
            self.chr.set(a as usize, val);
        }
    }

    fn mirroring(&self) -> (r: u8)
        ensures
            r == self.mirror,
    {
        self.mirror
    }

    fn irq_pending(&self) -> (r: bool)
        ensures
            !r,
    {
        false
    }

    fn ack_irq(&mut self)
        ensures
            *final(self) == *old(self),
    {
    }

    fn has_chr_ram(&self) -> (r: bool)
        ensures
            r == self.has_chr_ram,
    {
        self.has_chr_ram
    }
}


// ---------------------------------------------------------------------------
// MMC3 (TxROM) - iNES mapper 4
// ---------------------------------------------------------------------------
/// MMC3: 8 KiB PRG banks (two switchable, two fixed), 2 KiB + 1 KiB CHR banks,
/// switchable mirroring, PRG-RAM and a scanline IRQ counter.
pub struct Mmc3 {
    pub prg: Vec<u8>,
    pub chr: Vec<u8>,
    pub chr_ram: bool,
    pub mirror: u8,
    pub bank_select: u8,
    pub prg_banks: [u8; 4],
    pub chr_banks: [u8; 8],
    pub irq_latch: u8,
    pub irq_counter: u8,
    pub irq_enabled: bool,
    pub irq_reload: bool,
    pub irq_flag: bool,
    pub prg_ram: [u8; 0x2000],
    pub prg_ram_enable: bool,
    pub prg_ram_write: bool,
    pub has_chr_ram: bool,
    pub prev_a12: bool,
}

/// Number of 8 KiB PRG banks as the board counts them (an 8-bit count).
pub open spec fn mmc3_prg_count(len: int) -> u8 {
    ((len / 0x2000) % 256) as u8
}

impl Mmc3 {
    /// The state of a freshly built board for ROM images `prg` and `chr`.
    pub open spec fn is_new(&self, prg: Seq<u8>, chr: Seq<u8>, chr_ram: bool, mirror: u8) -> bool {
        &&& self.prg@ == prg
        &&& chr_ram ==> self.chr@.len() == 0x2000 && forall|i: int| 0 <= i < 0x2000 ==> self.chr@[i] == 0
        &&& !chr_ram ==> self.chr@ == chr
        &&& self.chr_ram == chr_ram
        &&& self.has_chr_ram == chr_ram
        &&& self.mirror == mirror
        &&& self.bank_select == 0
        &&& forall|i: int| 0 <= i < 4 ==> self.prg_banks[i] == 0
        &&& forall|i: int| 0 <= i < 8 ==> self.chr_banks[i] == 0
        &&& self.irq_latch == 0 && self.irq_counter == 0
        &&& !self.irq_enabled && !self.irq_reload && !self.irq_flag
        &&& forall|i: int| 0 <= i < 0x2000 ==> self.prg_ram[i] == 0
        &&& !self.prg_ram_enable && !self.prg_ram_write && !self.prev_a12
    }

    pub fn new(prg: &[u8], chr: &[u8], chr_ram: bool, mirror: u8) -> (r: Self)
        ensures
            r.is_new(prg@, chr@, chr_ram, mirror),
            r.wf() <==> mmc3_prg_count(prg@.len() as int) >= 2,
    {
        let c: Vec<u8> = if chr_ram {
            vec![0u8; 0x2000]
        } else {
            vstd::slice::slice_to_vec(chr)
        };
        Mmc3 {
            prg: vstd::slice::slice_to_vec(prg),
            chr: c,
            chr_ram,
            mirror,
            bank_select: 0,
            prg_banks: [0; 4],
            chr_banks: [0; 8],
            irq_latch: 0,
            irq_counter: 0,
            irq_enabled: false,
            irq_reload: false,
            irq_flag: false,
            prg_ram: [0; 0x2000],
            prg_ram_enable: false,
            prg_ram_write: false,
            has_chr_ram: chr_ram,
            prev_a12: false,
        }
    }

    fn prg_bank_count(&self) -> (r: u8)
        ensures
            r == mmc3_prg_count(self.prg@.len() as int),
    {
        let q = self.prg.len() / 0x2000;
        proof {
            lemma_trunc_u8(q);
        }
        #[verifier::truncate]
        (q as u8)
    }

    /// Number of 512-byte CHR units (8-bit count); 1 for an empty CHR.
    fn chr_bank_count(&self) -> (r: u8)
        ensures
            r == (if self.chr@.len() == 0 {
                1u8
            } else {
                ((self.chr@.len() / 0x200) % 256) as u8
            }),
    {
        if self.chr.len() == 0 {
            return 1;
        }
        let q = self.chr.len() / 0x200;
        proof {
            lemma_trunc_u8(q);
        }
        #[verifier::truncate]
        (q as u8)
    }

    /// Offset of byte `off` of 512-byte CHR unit `bank`, wrapped to the CHR size; 0 for an empty CHR.
    fn chr_addr(&self, bank: u8, off: u16) -> (r: u16)
        ensures
            r == (if self.chr@.len() == 0 {
                0u16
            } else {
                (((bank * 0x200 + off % 0x200) % (self.chr@.len() as int)) % 0x10000) as u16
            }),
    {
        let b = (bank as usize) * 0x200 + (off as usize) % 0x200;
        if self.chr.len() == 0 {
            return 0;
        }
        let v = b % self.chr.len();
        proof {
            crate::bits::lemma_index_bits(v);
        }
        #[verifier::truncate]
        (v as u16)
    }

    /// The 8 KiB PRG bank that serves `addr` ($8000-$FFFF): $8000 and $A000 are
    /// switchable and $C000 is fixed to the second-to-last bank; bit 6 of bank select
    /// swaps $8000 and $C000. $E000 is always the last bank.
    pub open spec fn prg_bank_for(&self, addr: u16) -> int {
        let count = mmc3_prg_count(self.prg@.len() as int) as int;
        let swap = self.bank_select & 0x40 != 0;
        if addr < 0xA000 {
            if swap { count - 2 } else { self.prg_banks[2] as int }
        } else if addr < 0xC000 {
            self.prg_banks[3] as int
        } else if addr < 0xE000 {
            if swap { self.prg_banks[2] as int } else { count - 2 }
        } else {
            count - 1
        }
    }

    pub open spec fn spec_cpu_read(&self, addr: u16) -> u8 {
        if 0x6000 <= addr < 0x8000 {
            if self.prg_ram_enable { self.prg_ram[(addr & 0x1FFF) as int] } else { 0 }
        } else if addr >= 0x8000 {
            self.prg@[(self.prg_bank_for(addr) * 0x2000 + (addr & 0x1FFF)) % (self.prg@.len() as int)]
        } else {
            0
        }
    }

    /// The 1 KiB CHR bank that serves pattern address `a` (< $2000): in the normal
    /// layout $0000-$07FF and $0800-$0FFF are the 2 KiB banks R0 and R1 (even, then
    /// odd half) and $1000-$1FFF the 1 KiB banks R2-R5; bit 7 of bank select swaps
    /// the two halves of the pattern space.
    pub open spec fn chr_bank_for(&self, a: int) -> int {
        let swap = self.bank_select & 0x80 != 0;
        let q = (a / 0x400) % 4;
        let half = q % 2;
        let low_half = if swap { a >= 0x1000 } else { a < 0x1000 };
        if low_half {
            let r = if q < 2 { self.chr_banks[0] } else { self.chr_banks[1] };
            (r & 0xFE) as int + half
        } else {
            self.chr_banks[2 + q] as int
        }
    }

    pub open spec fn spec_ppu_read(&self, addr: u16) -> u8 {
        let a = (addr & 0x3FFF) as int;
        if a >= 0x2000 {
            0
        } else if self.has_chr_ram {
            self.chr@[a]
        } else if self.chr@.len() == 0 {
            0
        } else {
            self.chr@[(self.chr_bank_for(a) * 0x400 + a % 0x400) % (self.chr@.len() as int)]
        }
    }

    /// Effect of a register write at `addr` ($8000-$FFFF, even/odd pairs): bank select
    /// and bank data, mirroring and PRG-RAM protect, IRQ latch and reload, IRQ
    /// disable/acknowledge and enable.
    pub open spec fn after_register_write(self, addr: u16, val: u8, next: Self) -> bool {
        let even = addr & 1 == 0;
        if addr < 0xA000 {
            if even {
                next == Mmc3 { bank_select: val & 0xE7, ..self }
            } else {
                let mode = self.bank_select & 0x07;
                if mode <= 5 {
                    &&& next == Mmc3 { chr_banks: next.chr_banks, ..self }
                    &&& next.chr_banks@ == self.chr_banks@.update(
                        mode as int,
                        if mode <= 1 { val & 0xFE } else { val },
                    )
                } else {
                    let idx: int = if mode == 7 { 3 } else if self.bank_select & 0x40 != 0 { 2 } else { 3 };
                    &&& next == Mmc3 { prg_banks: next.prg_banks, ..self }
                    &&& next.prg_banks@ == self.prg_banks@.update(idx, val & 0x3F)
                }
            }
        } else if addr < 0xC000 {
            if even {
                next == Mmc3 { mirror: if val & 1 != 0 { 1 } else { 0 }, ..self }
            } else {
                next == Mmc3 { prg_ram_enable: val & 0x80 != 0, prg_ram_write: val & 0x40 != 0, ..self }
            }
        } else if addr < 0xE000 {
            if even {
                next == Mmc3 { irq_latch: val, ..self }
            } else {
                next == Mmc3 { irq_reload: true, ..self }
            }
        } else {
            if even {
                next == Mmc3 { irq_flag: false, irq_enabled: false, ..self }
            } else if self.irq_reload {
                next == Mmc3 { irq_enabled: true, irq_counter: self.irq_latch, irq_reload: false, ..self }
            } else {
                next == Mmc3 { irq_enabled: true, ..self }
            }
        }
    }

    pub open spec fn after_cpu_write(self, addr: u16, val: u8, next: Self) -> bool {
        if 0x6000 <= addr < 0x8000 {
            &&& next == Mmc3 { prg_ram: next.prg_ram, ..self }
            &&& next.prg_ram@ == (if self.prg_ram_write {
                self.prg_ram@.update((addr & 0x1FFF) as int, val)
            } else {
                self.prg_ram@
            })
        } else if addr >= 0x8000 {
            self.after_register_write(addr, val, next)
        } else {
            next == self
        }
    }

    pub open spec fn after_ppu_write(self, addr: u16, val: u8, next: Self) -> bool {
        &&& next == Mmc3 { chr: next.chr, ..self }
        &&& next.chr@ == (if self.has_chr_ram {
            self.chr@.update((addr & 0x1FFF) as int, val)
        } else {
            self.chr@
        })
    }

    /// One scanline clock of the IRQ counter: it reloads from the latch when a reload
    /// is pending and otherwise counts down (stopping at 0). When it is 0 afterwards,
    /// the IRQ flag rises if IRQs are enabled and a reload is armed for the next clock.
    pub open spec fn after_clock(self) -> Self {
        let counter = if self.irq_reload {
            self.irq_latch
        } else if self.irq_counter > 0 {
            (self.irq_counter - 1) as u8
        } else {
            self.irq_counter
        };
        if counter == 0 {
            Mmc3 {
                irq_counter: counter,
                irq_flag: self.irq_flag || self.irq_enabled,
                irq_reload: true,
                ..self
            }
        } else {
            Mmc3 { irq_counter: counter, irq_reload: false, ..self }
        }
    }
}

impl MapperImpl for Mmc3 {
    /// At least two PRG banks are counted; CHR-RAM is exactly 8 KiB.
    open spec fn wf(&self) -> bool {
        &&& mmc3_prg_count(self.prg@.len() as int) >= 2
        &&& self.has_chr_ram == self.chr_ram
        &&& self.chr_ram ==> self.chr@.len() == 0x2000
    }

    open spec fn cpu_wf(&self) -> bool {
        self.wf()
    }

    open spec fn write_wf(&self) -> bool {
        true
    }

    open spec fn ppu_wf(&self) -> bool {
        self.has_chr_ram == self.chr_ram && (self.chr_ram ==> self.chr@.len() == 0x2000)
    }

    fn cpu_read(&mut self, addr: u16) -> (r: u8)
        ensures
            r == old(self).spec_cpu_read(addr),
            *final(self) == *old(self),
    {
        proof {
            lemma_masks(addr);
        }
        if addr >= 0x6000 && addr <= 0x7FFF {
            if self.prg_ram_enable {
                self.prg_ram[(addr & 0x1FFF) as usize]
            } else {
                0
            }
        } else if addr >= 0x8000 && addr <= 0x9FFF {
            let bank = if self.bank_select & 0x40 != 0 {
                (self.prg_bank_count() - 2) as usize
            } else {
                self.prg_banks[2] as usize
            };
            let off = (addr & 0x1FFF) as usize;
            self.prg[(bank * 0x2000 + off) % self.prg.len()]
        } else if addr >= 0xA000 && addr <= 0xBFFF {
            let bank = self.prg_banks[3] as usize;
            let off = (addr & 0x1FFF) as usize;
            self.prg[(bank * 0x2000 + off) % self.prg.len()]
        } else if addr >= 0xC000 && addr <= 0xDFFF {
            if self.bank_select & 0x40 == 0 {
                let bank = (self.prg_bank_count() - 2) as usize;
                let off = (addr & 0x1FFF) as usize;
                self.prg[(bank * 0x2000 + off) % self.prg.len()]
            } else {
                let bank = self.prg_banks[2] as usize;
                let off = (addr & 0x1FFF) as usize;
                self.prg[(bank * 0x2000 + off) % self.prg.len()]
            }
        } else if addr >= 0xE000 {
            let bank = (self.prg_bank_count() - 1) as usize;
            let off = (addr & 0x1FFF) as usize;
            self.prg[(bank * 0x2000 + off) % self.prg.len()]
        } else {
            0
        }
    }

    fn cpu_write(&mut self, addr: u16, val: u8)
        ensures
            old(self).after_cpu_write(addr, val, *final(self)),
    {
        proof {
            lemma_masks(addr);
        }
        if addr >= 0x6000 && addr <= 0x7FFF {
            if self.prg_ram_write {
                self.prg_ram[(addr & 0x1FFF) as usize] = val;
            }
        } else if addr >= 0x8000 && addr <= 0x9FFF {
            if addr & 1 == 0 {
                self.bank_select = val & 0xE7;
            } else {
                let mode = self.bank_select & 0x07;
                let bank = val;
                if mode == 0 {
                    self.chr_banks[0] = bank & 0xFE;
                } else if mode == 1 {
                    self.chr_banks[1] = bank & 0xFE;
                } else if mode == 2 {
                    self.chr_banks[2] = bank;
                } else if mode == 3 {
                    self.chr_banks[3] = bank;
                } else if mode == 4 {
                    self.chr_banks[4] = bank;
                } else if mode == 5 {
                    self.chr_banks[5] = bank;
                } else if mode == 6 {
                    let idx: usize = if self.bank_select & 0x40 != 0 { 2 } else { 3 };
                    self.prg_banks[idx] = bank & 0x3F;
                } else {
                    let bs = self.bank_select;
                    proof {
                        crate::bits::lemma_byte_bits(bs);
                    }
                    self.prg_banks[3] = bank & 0x3F;
                }
            }
        } else if addr >= 0xA000 && addr <= 0xBFFF {
            if addr & 1 == 0 {
                let v: u8 = if val & 1 != 0 { 1 } else { 0 };
                self.mirror = v;
            } else {
                self.prg_ram_enable = val & 0x80 != 0;
                self.prg_ram_write = val & 0x40 != 0;
            }
        } else if addr >= 0xC000 && addr <= 0xDFFF {
            if addr & 1 == 0 {
                self.irq_latch = val;
            } else {
                self.irq_reload = true;
            }
        } else if addr >= 0xE000 {
            if addr & 1 == 0 {
                self.irq_flag = false;
                self.irq_enabled = false;
            } else {
                self.irq_enabled = true;
                if self.irq_reload {
                    self.irq_counter = self.irq_latch;
                    self.irq_reload = false;
                }
            }
        }
    }

    fn ppu_read(&mut self, addr: u16) -> (r: u8)
        ensures
            r == old(self).spec_ppu_read(addr),
            *final(self) == *old(self),
    {
        proof {
            lemma_masks(addr);
        }
        let a = addr & 0x3FFF;
        if a >= 0x2000 {
            return 0;
        }
        if self.has_chr_ram {
            return self.chr[a as usize];
        }
        if self.chr.len() == 0 {
            return 0;
        }
        let swap = self.bank_select & 0x80 != 0;
        let ch_len = self.chr.len();
        let q = (a >> 10) & 3;
        proof {
            crate::bits::lemma_word_bits(a);
        }
        let half = (q % 2) as usize;
        let low_half = if swap { a >= 0x1000 } else { a < 0x1000 };
        let bank_base: usize = if low_half {
            let r = if q < 2 { self.chr_banks[0] } else { self.chr_banks[1] };
            let rr = r as usize;
            proof {
                crate::bits::lemma_index_bits(rr);
            }
            ((rr & 0xFE) + half) * 0x400
        } else {
            self.chr_banks[2 + q as usize] as usize * 0x400
        };
        let low = a as usize & 0x3FF;
        proof {
            crate::bits::lemma_index_bits(a as usize);
        }
        let chr_idx = (bank_base + low) % ch_len;
        self.chr[chr_idx]
    }

    fn ppu_write(&mut self, addr: u16, val: u8)
        ensures
            old(self).after_ppu_write(addr, val, *final(self)),
    {
        proof {
            lemma_masks(addr);
        }
        if self.has_chr_ram {
            let a = addr & 0x1FFF;
            self.chr.set(a as usize, val);
        }
    }

    fn mirroring(&self) -> (r: u8)
        ensures
            r == self.mirror,
    {
        self.mirror
    }

    fn irq_pending(&self) -> (r: bool)
        ensures
            r == self.irq_flag,
    {
        self.irq_flag
    }

    fn ack_irq(&mut self)
        ensures
            *final(self) == (Mmc3 { irq_flag: false, ..*old(self) }),
    {
        self.irq_flag = false;
    }

    fn clock_scanline(&mut self)
        ensures
            *final(self) == old(self).after_clock(),
    {
        if self.irq_reload {
            self.irq_counter = self.irq_latch;
            self.irq_reload = false;
        } else if self.irq_counter > 0 {
            self.irq_counter = self.irq_counter - 1;
        }
        if self.irq_counter == 0 {
            if self.irq_enabled {
                self.irq_flag = true;
            }
            self.irq_reload = true;
        }
    }

    fn has_chr_ram(&self) -> (r: bool)
        ensures
            r == self.has_chr_ram,
    {
        self.has_chr_ram
    }
}


// ---------------------------------------------------------------------------
// Top-level Mapper enum that dispatches to the boards
// ---------------------------------------------------------------------------
/// The cartridge board in the slot.
pub enum Mapper {
    Nrom(Box<Nrom>),
    UxRom(Box<UxRom>),
    Cnrom(Box<Cnrom>),
    Mmc1(Box<Mmc1>),
    Mmc3(Box<Mmc3>),
    Axrom(Box<Axrom>),
    Gxrom(Box<Gxrom>),
    Null,
}

/// Whether the board that iNES mapper number `id` selects can serve every read and
/// write with ROM images of these sizes (else some access would index past the ROM).
pub open spec fn board_accepts(id: u8, prg_len: int, chr_len: int, chr_ram: bool) -> bool {
    if id == 1 {
        prg_len == 0 || prg_len >= 0x4000
    } else if id == 2 {
        prg_len >= 0x4000
    } else if id == 3 {
        chr_ram || chr_len >= 0x2000
    } else if id == 4 {
        mmc3_prg_count(prg_len) >= 2
    } else if id == 7 || id == 66 {
        prg_len > 0
    } else {
        true
    }
}

impl Mapper {
    pub open spec fn wf(&self) -> bool {
        match self {
            Mapper::Nrom(m) => m.wf(),
            Mapper::UxRom(m) => m.wf(),
            Mapper::Cnrom(m) => m.wf(),
            Mapper::Mmc1(m) => m.wf(),
            Mapper::Mmc3(m) => m.wf(),
            Mapper::Axrom(m) => m.wf(),
            Mapper::Gxrom(m) => m.wf(),
            Mapper::Null => true,
        }
    }

    /// What the CPU side of the board needs: its invariant, except that CNROM's CHR
    /// (read only by the PPU) may be short.
    pub open spec fn cpu_wf(&self) -> bool {
        match self {
            Mapper::Nrom(m) => m.cpu_wf(),
            Mapper::UxRom(m) => m.cpu_wf(),
            Mapper::Cnrom(m) => m.cpu_wf(),
            Mapper::Mmc1(m) => m.cpu_wf(),
            Mapper::Mmc3(m) => m.cpu_wf(),
            Mapper::Axrom(m) => m.cpu_wf(),
            Mapper::Gxrom(m) => m.cpu_wf(),
            Mapper::Null => true,
        }
    }

    /// What a CPU write needs of the board.
    pub open spec fn write_wf(&self) -> bool {
        match self {
            Mapper::Nrom(m) => m.write_wf(),
            Mapper::UxRom(m) => m.write_wf(),
            Mapper::Cnrom(m) => m.write_wf(),
            Mapper::Mmc1(m) => m.write_wf(),
            Mapper::Mmc3(m) => m.write_wf(),
            Mapper::Axrom(m) => m.write_wf(),
            Mapper::Gxrom(m) => m.write_wf(),
            Mapper::Null => true,
        }
    }

    /// What the PPU side (CHR reads and writes) needs of the board.
    pub open spec fn ppu_wf(&self) -> bool {
        match self {
            Mapper::Nrom(m) => m.ppu_wf(),
            Mapper::UxRom(m) => m.ppu_wf(),
            Mapper::Cnrom(m) => m.ppu_wf(),
            Mapper::Mmc1(m) => m.ppu_wf(),
            Mapper::Mmc3(m) => m.ppu_wf(),
            Mapper::Axrom(m) => m.ppu_wf(),
            Mapper::Gxrom(m) => m.ppu_wf(),
            Mapper::Null => true,
        }
    }

    /// What the CPU reads at `addr` from the board.
    pub open spec fn spec_cpu_read(&self, addr: u16) -> u8 {
        match self {
            Mapper::Nrom(m) => m.spec_cpu_read(addr),
            Mapper::UxRom(m) => m.spec_cpu_read(addr),
            Mapper::Cnrom(m) => m.spec_cpu_read(addr),
            Mapper::Mmc1(m) => m.spec_cpu_read(addr),
            Mapper::Mmc3(m) => m.spec_cpu_read(addr),
            Mapper::Axrom(m) => m.spec_cpu_read(addr),
            Mapper::Gxrom(m) => m.spec_cpu_read(addr),
            Mapper::Null => 0,
        }
    }

    /// What the PPU reads at pattern-table address `addr` from the board.
    pub open spec fn spec_ppu_read(&self, addr: u16) -> u8 {
        match self {
            Mapper::Nrom(m) => m.spec_ppu_read(addr),
            Mapper::UxRom(m) => m.spec_ppu_read(addr),
            Mapper::Cnrom(m) => m.spec_ppu_read(addr),
            Mapper::Mmc1(m) => m.spec_ppu_read(addr),
            Mapper::Mmc3(m) => m.spec_ppu_read(addr),
            Mapper::Axrom(m) => m.spec_ppu_read(addr),
            Mapper::Gxrom(m) => m.spec_ppu_read(addr),
            Mapper::Null => 0,
        }
    }

    pub open spec fn after_cpu_write(self, addr: u16, val: u8, next: Mapper) -> bool {
        match (self, next) {
            (Mapper::Nrom(m), Mapper::Nrom(n)) => *n == *m,
            (Mapper::UxRom(m), Mapper::UxRom(n)) => m.after_cpu_write(addr, val, *n),
            (Mapper::Cnrom(m), Mapper::Cnrom(n)) => m.after_cpu_write(addr, val, *n),
            (Mapper::Mmc1(m), Mapper::Mmc1(n)) => m.after_cpu_write(addr, val, *n),
            (Mapper::Mmc3(m), Mapper::Mmc3(n)) => m.after_cpu_write(addr, val, *n),
            (Mapper::Axrom(m), Mapper::Axrom(n)) => m.after_cpu_write(addr, val, *n),
            (Mapper::Gxrom(m), Mapper::Gxrom(n)) => m.after_cpu_write(addr, val, *n),
            (Mapper::Null, Mapper::Null) => true,
            _ => false,
        }
    }

    pub open spec fn after_ppu_write(self, addr: u16, val: u8, next: Mapper) -> bool {
        match (self, next) {
            (Mapper::Nrom(m), Mapper::Nrom(n)) => m.after_ppu_write(addr, val, *n),
            (Mapper::UxRom(m), Mapper::UxRom(n)) => m.after_ppu_write(addr, val, *n),
            (Mapper::Cnrom(m), Mapper::Cnrom(n)) => m.after_ppu_write(addr, val, *n),
            (Mapper::Mmc1(m), Mapper::Mmc1(n)) => m.after_ppu_write(addr, val, *n),
            (Mapper::Mmc3(m), Mapper::Mmc3(n)) => m.after_ppu_write(addr, val, *n),
            (Mapper::Axrom(m), Mapper::Axrom(n)) => m.after_ppu_write(addr, val, *n),
            (Mapper::Gxrom(m), Mapper::Gxrom(n)) => m.after_ppu_write(addr, val, *n),
            (Mapper::Null, Mapper::Null) => true,
            _ => false,
        }
    }

    /// Nametable arrangement the board selects (0, 1, or 2 for single-screen on AxROM).
    pub open spec fn spec_mirroring(&self) -> u8 {
        match self {
            Mapper::Nrom(m) => m.mirror,
            Mapper::UxRom(m) => m.mirror,
            Mapper::Cnrom(m) => m.mirror,
            Mapper::Mmc1(m) => m.mirror,
            Mapper::Mmc3(m) => m.mirror,
            Mapper::Axrom(m) => m.mirror,
            Mapper::Gxrom(m) => m.mirror,
            Mapper::Null => 0,
        }
    }

    pub open spec fn spec_irq_pending(&self) -> bool {
        match self {
            Mapper::Mmc3(m) => m.irq_flag,
            _ => false,
        }
    }

    pub open spec fn spec_has_chr_ram(&self) -> bool {
        match self {
            Mapper::Nrom(m) => m.chr_ram,
            Mapper::UxRom(m) => m.chr_ram,
            Mapper::Cnrom(m) => m.chr_ram,
            Mapper::Mmc1(m) => m.has_chr_ram,
            Mapper::Mmc3(m) => m.has_chr_ram,
            Mapper::Axrom(m) => m.chr_ram,
            Mapper::Gxrom(m) => m.chr_ram,
            Mapper::Null => true,
        }
    }

    /// The board after one scanline clock (only MMC3 counts scanlines).
    pub open spec fn after_clock(self) -> Mapper {
        match self {
            Mapper::Mmc3(m) => Mapper::Mmc3(Box::new(m.after_clock())),
            _ => self,
        }
    }

    /// The board after `k` scanline clocks.
    pub open spec fn after_clocks(self, k: nat) -> Mapper
        decreases k,
    {
        if k == 0 {
            self
        } else {
            self.after_clocks((k - 1) as nat).after_clock()
        }
    }

    /// `other` is this board after some number of scanline clocks.
    pub open spec fn clocks_to(self, other: Mapper) -> bool {
        exists|k: nat| #[trigger] self.after_clocks(k) == other
    }

    /// The board after its IRQ is acknowledged.
    pub open spec fn after_ack(self) -> Mapper {
        match self {
            Mapper::Mmc3(m) => Mapper::Mmc3(Box::new(Mmc3 { irq_flag: false, ..*m })),
            _ => self,
        }
    }

    /// The board that `from_ines` builds for these header values and ROM images.
    pub open spec fn is_from_ines(&self, id: u8, mirroring: u8, prg: Seq<u8>, chr: Seq<u8>, chr_ram: bool) -> bool {
        &&& self.wf() <==> board_accepts(id, prg.len() as int, chr.len() as int, chr_ram)
        &&& match *self {
            Mapper::Mmc1(m) => id == 1 && m.is_new(prg, chr, chr_ram, mirroring),
            Mapper::UxRom(m) => id == 2 && m.is_new(prg, chr, chr_ram, mirroring),
            Mapper::Cnrom(m) => id == 3 && m.is_new(prg, chr, chr_ram, mirroring),
            Mapper::Mmc3(m) => id == 4 && m.is_new(prg, chr, chr_ram, mirroring),
            Mapper::Axrom(m) => id == 7 && m.is_new(prg, chr, chr_ram, mirroring),
            Mapper::Gxrom(m) => id == 66 && m.is_new(prg, chr, chr_ram, mirroring),
            Mapper::Nrom(m) => id != 1 && id != 2 && id != 3 && id != 4 && id != 7 && id != 66
                && m.is_new(prg, chr, chr_ram, mirroring),
            Mapper::Null => false,
        }
    }

    /// Create the board that the iNES header selects; unknown numbers fall back to NROM.
    pub fn from_ines(id: u8, mirroring: u8, prg_data: &[u8], chr_data: &[u8], chr_ram: bool) -> (r: Self)
        ensures
            r.is_from_ines(id, mirroring, prg_data@, chr_data@, chr_ram),
    {
        if id == 1 {
            Mapper::Mmc1(Box::new(Mmc1::new(prg_data, chr_data, chr_ram, mirroring)))
        } else if id == 2 {
            Mapper::UxRom(Box::new(UxRom::new(prg_data, chr_data, chr_ram, mirroring)))
        } else if id == 3 {
            Mapper::Cnrom(Box::new(Cnrom::new(prg_data, chr_data, chr_ram, mirroring)))
        } else if id == 4 {
            Mapper::Mmc3(Box::new(Mmc3::new(prg_data, chr_data, chr_ram, mirroring)))
        } else if id == 7 {
            Mapper::Axrom(Box::new(Axrom::new(prg_data, chr_data, chr_ram, mirroring)))
        } else if id == 66 {
            Mapper::Gxrom(Box::new(Gxrom::new(prg_data, chr_data, chr_ram, mirroring)))
        } else {
            Mapper::Nrom(Box::new(Nrom::new(prg_data, chr_data, chr_ram, mirroring)))
        }
    }

    #[inline(always)]
    pub fn cpu_read(&mut self, addr: u16) -> (r: u8)
        requires
            old(self).cpu_wf(),
        ensures
            r == old(self).spec_cpu_read(addr),
            *final(self) == *old(self),
    {
        match self {
            Mapper::Nrom(m) => m.cpu_read(addr),
            Mapper::UxRom(m) => m.cpu_read(addr),
            Mapper::Cnrom(m) => m.cpu_read(addr),
            Mapper::Mmc1(m) => m.cpu_read(addr),
            Mapper::Mmc3(m) => m.cpu_read(addr),
            Mapper::Axrom(m) => m.cpu_read(addr),
            Mapper::Gxrom(m) => m.cpu_read(addr),
            Mapper::Null => 0,
        }
    }

    #[inline(always)]
    pub fn cpu_write(&mut self, addr: u16, val: u8)
        requires
            old(self).write_wf(),
        ensures
            final(self).write_wf(),
            old(self).cpu_wf() ==> final(self).cpu_wf(),
            old(self).ppu_wf() ==> final(self).ppu_wf(),
            old(self).wf() ==> final(self).wf(),
            old(self).after_cpu_write(addr, val, *final(self)),
    {
        match self {
            Mapper::Nrom(m) => m.cpu_write(addr, val),
            Mapper::UxRom(m) => m.cpu_write(addr, val),
            Mapper::Cnrom(m) => m.cpu_write(addr, val),
            Mapper::Mmc1(m) => m.cpu_write(addr, val),
            Mapper::Mmc3(m) => m.cpu_write(addr, val),
            Mapper::Axrom(m) => m.cpu_write(addr, val),
            Mapper::Gxrom(m) => m.cpu_write(addr, val),
            Mapper::Null => {},
        }
    }

    #[inline(always)]
    pub fn ppu_read(&mut self, addr: u16) -> (r: u8)
        requires
            old(self).ppu_wf(),
        ensures
            r == old(self).spec_ppu_read(addr),
            *final(self) == *old(self),
    {
        match self {
            Mapper::Nrom(m) => m.ppu_read(addr),
            Mapper::UxRom(m) => m.ppu_read(addr),
            Mapper::Cnrom(m) => m.ppu_read(addr),
            Mapper::Mmc1(m) => m.ppu_read(addr),
            Mapper::Mmc3(m) => m.ppu_read(addr),
            Mapper::Axrom(m) => m.ppu_read(addr),
            Mapper::Gxrom(m) => m.ppu_read(addr),
            Mapper::Null => 0,
        }
    }

    #[inline(always)]
    pub fn ppu_write(&mut self, addr: u16, val: u8)
        requires
            old(self).ppu_wf(),
        ensures
            final(self).ppu_wf(),
            old(self).write_wf() ==> final(self).write_wf(),
            old(self).cpu_wf() ==> final(self).cpu_wf(),
            old(self).wf() ==> final(self).wf(),
            old(self).after_ppu_write(addr, val, *final(self)),
    {
        match self {
            Mapper::Nrom(m) => m.ppu_write(addr, val),
            Mapper::UxRom(m) => m.ppu_write(addr, val),
            Mapper::Cnrom(m) => m.ppu_write(addr, val),
            Mapper::Mmc1(m) => m.ppu_write(addr, val),
            Mapper::Mmc3(m) => m.ppu_write(addr, val),
            Mapper::Axrom(m) => m.ppu_write(addr, val),
            Mapper::Gxrom(m) => m.ppu_write(addr, val),
            Mapper::Null => {},
        }
    }

    pub fn mirroring(&self) -> (r: u8)
        ensures
            r == self.spec_mirroring(),
    {
        match self {
            Mapper::Nrom(m) => m.mirroring(),
            Mapper::UxRom(m) => m.mirroring(),
            Mapper::Cnrom(m) => m.mirroring(),
            Mapper::Mmc1(m) => m.mirroring(),
            Mapper::Mmc3(m) => m.mirroring(),
            Mapper::Axrom(m) => m.mirroring(),
            Mapper::Gxrom(m) => m.mirroring(),
            Mapper::Null => 0,
        }
    }

    pub fn irq_pending(&self) -> (r: bool)
        ensures
            r == self.spec_irq_pending(),
    {
        match self {
            Mapper::Nrom(m) => m.irq_pending(),
            Mapper::UxRom(m) => m.irq_pending(),
            Mapper::Cnrom(m) => m.irq_pending(),
            Mapper::Mmc1(m) => m.irq_pending(),
            Mapper::Mmc3(m) => m.irq_pending(),
            Mapper::Axrom(m) => m.irq_pending(),
            Mapper::Gxrom(m) => m.irq_pending(),
            Mapper::Null => false,
        }
    }

    pub fn ack_irq(&mut self)
        ensures
            old(self).wf() ==> final(self).wf(),
            old(self).ppu_wf() ==> final(self).ppu_wf(),
            *final(self) == old(self).after_ack(),
    {
        match self {
            Mapper::Nrom(m) => m.ack_irq(),
            Mapper::UxRom(m) => m.ack_irq(),
            Mapper::Cnrom(m) => m.ack_irq(),
            Mapper::Mmc1(m) => m.ack_irq(),
            Mapper::Mmc3(m) => m.ack_irq(),
            Mapper::Axrom(m) => m.ack_irq(),
            Mapper::Gxrom(m) => m.ack_irq(),
            Mapper::Null => {},
        }
    }

    pub fn clock_scanline(&mut self)
        ensures
            old(self).wf() ==> final(self).wf(),
            old(self).ppu_wf() ==> final(self).ppu_wf(),
            *final(self) == old(self).after_clock(),
    {
        match self {
            Mapper::Nrom(m) => m.clock_scanline(),
            Mapper::UxRom(m) => m.clock_scanline(),
            Mapper::Cnrom(m) => m.clock_scanline(),
            Mapper::Mmc1(m) => m.clock_scanline(),
            Mapper::Mmc3(m) => m.clock_scanline(),
            Mapper::Axrom(m) => m.clock_scanline(),
            Mapper::Gxrom(m) => m.clock_scanline(),
            Mapper::Null => {},
        }
    }

    pub fn has_chr_ram(&self) -> (r: bool)
        ensures
            r == self.spec_has_chr_ram(),
    {
        match self {
            Mapper::Nrom(m) => m.has_chr_ram(),
            Mapper::UxRom(m) => m.has_chr_ram(),
            Mapper::Cnrom(m) => m.has_chr_ram(),
            Mapper::Mmc1(m) => m.has_chr_ram(),
            Mapper::Mmc3(m) => m.has_chr_ram(),
            Mapper::Axrom(m) => m.has_chr_ram(),
            Mapper::Gxrom(m) => m.has_chr_ram(),
            Mapper::Null => true,
        }
    }

    // Extended nametable/scanline hooks. None of the boards here (NROM, UxROM, CNROM,
    // MMC1, MMC3, AxROM, GxROM) has extended nametables or a scanline-number IRQ, so
    // every board answers with the neutral value.
    /// Scanline notification: no board here reacts to it.
    pub fn notify_scanline(&mut self, scanline: u16)
        ensures
            *final(self) == *old(self),
    {
    }

    /// Nametable mapping register: 0xFF means "use the standard mirroring".
    pub fn nt_mapping(&self) -> (r: u8)
        ensures
            r == 0xFF,
    {
        0xFF
    }

    pub fn read_nt_ext(&mut self, addr: u16, nt_source: u8) -> (r: u8)
        ensures
            r == 0,
            *final(self) == *old(self),
    {
        0
    }

    pub fn write_nt_ext(&mut self, addr: u16, nt_source: u8, val: u8)
        ensures
            *final(self) == *old(self),
    {
    }

    pub fn set_chr_fetch_bg(&mut self)
        ensures
            *final(self) == *old(self),
    {
    }

    pub fn set_chr_fetch_sprite(&mut self)
        ensures
            *final(self) == *old(self),
    {
    }

    pub fn set_extended_chr_bank(&mut self, bank: u8)
        ensures
            *final(self) == *old(self),
    {
    }

    pub fn get_extended_chr_bank(&self) -> (r: u8)
        ensures
            r == 0,
    {
        0
    }

    pub fn get_ex_ram_mode(&self) -> (r: u8)
        ensures
            r == 0,
    {
        0
    }

    pub fn get_fill_tile(&self) -> (r: u8)
        ensures
            r == 0,
    {
        0
    }

    pub fn get_fill_attr(&self) -> (r: u8)
        ensures
            r == 0,
    {
        0
    }

    pub fn read_ex_ram_byte(&mut self, offset: u16) -> (r: u8)
        ensures
            r == 0,
            *final(self) == *old(self),
    {
        0
    }
}


/// Scanline clocks keep a well-formed board well-formed.
pub proof fn lemma_after_clocks_wf(m: Mapper, k: nat)
    requires
        m.wf(),
    ensures
        m.after_clocks(k).wf(),
    decreases k,
{
    if k > 0 {
        lemma_after_clocks_wf(m, (k - 1) as nat);
    }
}

/// Clocks compose: `a` clocks then `b` more are `a + b` clocks.
pub proof fn lemma_after_clocks_add(m: Mapper, a: nat, b: nat)
    ensures
        m.after_clocks(a).after_clocks(b) == m.after_clocks(a + b),
    decreases b,
{
    if b > 0 {
        lemma_after_clocks_add(m, a, (b - 1) as nat);
    }
}

/// Clocking is reflexive and transitive.
pub proof fn lemma_clocks_to_trans(a: Mapper, b: Mapper, c: Mapper)
    requires
        a.clocks_to(b),
        b.clocks_to(c),
    ensures
        a.clocks_to(c),
{
    let i = choose|k: nat| #[trigger] a.after_clocks(k) == b;
    let j = choose|k: nat| #[trigger] b.after_clocks(k) == c;
    lemma_after_clocks_add(a, i, j);
    assert(a.after_clocks(i + j) == c);
}

/// A board clocks to itself (zero clocks) and to its next clock.
pub proof fn lemma_clocks_to_step(a: Mapper)
    ensures
        a.clocks_to(a),
        a.clocks_to(a.after_clock()),
{
    assert(a.after_clocks(0) == a);
    assert(a.after_clocks(1) == a.after_clocks(0).after_clock());
}

/// On an NROM board built from a 16 KiB PRG image, the image appears at $8000 and
/// again at $C000.
pub proof fn lemma_nrom_prg_mirror(m: Mapper, mirroring: u8, prg: Seq<u8>, chr: Seq<u8>, chr_ram: bool, addr: u16)
    requires
        m.is_from_ines(0, mirroring, prg, chr, chr_ram),
        prg.len() == 0x4000,
        0x8000 <= addr < 0xC000,
    ensures
        m.spec_cpu_read(addr) == prg[addr - 0x8000],
        m.spec_cpu_read((addr + 0x4000) as u16) == prg[addr - 0x8000],
{
    if let Mapper::Nrom(b) = m {
        let i = addr - 0x8000;
        assert(b.prg[i] == prg32_image(prg, i));
        assert(b.prg[i + 0x4000] == prg32_image(prg, i + 0x4000));
    }
}

/// Whether iNES board number `id` is built as NROM (number 0 and every number this
/// crate has no board for).
pub open spec fn falls_back_to_nrom(id: u8) -> bool {
    id != 1 && id != 2 && id != 3 && id != 4 && id != 7 && id != 66
}

/// Two boards in the same state: every field equal, the ROM and RAM vectors
/// compared by their contents.
pub open spec fn same_board(m1: Mapper, m2: Mapper) -> bool {
    match (m1, m2) {
        (Mapper::Nrom(a), Mapper::Nrom(b)) => *a == *b,
        (Mapper::UxRom(a), Mapper::UxRom(b)) => a.prg@ == b.prg@ && UxRom { prg: b.prg, ..*a } == *b,
        (Mapper::Cnrom(a), Mapper::Cnrom(b)) => a.chr@ == b.chr@ && Cnrom { chr: b.chr, ..*a } == *b,
        (Mapper::Axrom(a), Mapper::Axrom(b)) => a.prg@ == b.prg@ && Axrom { prg: b.prg, ..*a } == *b,
        (Mapper::Gxrom(a), Mapper::Gxrom(b)) => a.prg@ == b.prg@ && a.chr@ == b.chr@
            && Gxrom { prg: b.prg, chr: b.chr, ..*a } == *b,
        (Mapper::Mmc1(a), Mapper::Mmc1(b)) => a.prg@ == b.prg@ && a.chr@ == b.chr@
            && Mmc1 { prg: b.prg, chr: b.chr, ..*a } == *b,
        (Mapper::Mmc3(a), Mapper::Mmc3(b)) => a.prg@ == b.prg@ && a.chr@ == b.chr@
            && Mmc3 { prg: b.prg, chr: b.chr, ..*a } == *b,
        (Mapper::Null, Mapper::Null) => true,
        _ => false,
    }
}

/// Boards in the same state answer every call alike and stay in the same state
/// through every write, scanline clock and IRQ acknowledge: whatever sequence of
/// calls is made on both, they give the same results.
pub proof fn lemma_same_board_in_step(m1: Mapper, m2: Mapper, addr: u16, val: u8, n1: Mapper, n2: Mapper)
    requires
        same_board(m1, m2),
    ensures
        m1.wf() == m2.wf(),
        m1.cpu_wf() == m2.cpu_wf(),
        m1.spec_cpu_read(addr) == m2.spec_cpu_read(addr),
        m1.spec_ppu_read(addr) == m2.spec_ppu_read(addr),
        m1.spec_mirroring() == m2.spec_mirroring(),
        m1.spec_has_chr_ram() == m2.spec_has_chr_ram(),
        m1.spec_irq_pending() == m2.spec_irq_pending(),
        m1.after_cpu_write(addr, val, n1) && m2.after_cpu_write(addr, val, n2) ==> same_board(n1, n2),
        m1.after_ppu_write(addr, val, n1) && m2.after_ppu_write(addr, val, n2) ==> same_board(n1, n2),
        same_board(m1.after_clock(), m2.after_clock()),
        same_board(m1.after_ack(), m2.after_ack()),
{
    if m1.after_cpu_write(addr, val, n1) && m2.after_cpu_write(addr, val, n2) {
        lemma_same_board_cpu_write(m1, m2, addr, val, n1, n2);
    }
    if m1.after_ppu_write(addr, val, n1) && m2.after_ppu_write(addr, val, n2) {
        lemma_same_board_ppu_write(m1, m2, addr, val, n1, n2);
    }
}

#[verifier::spinoff_prover]
proof fn lemma_same_board_cpu_write(m1: Mapper, m2: Mapper, addr: u16, val: u8, n1: Mapper, n2: Mapper)
    requires
        same_board(m1, m2),
        m1.after_cpu_write(addr, val, n1),
        m2.after_cpu_write(addr, val, n2),
    ensures
        same_board(n1, n2),
{
    match (m1, m2, n1, n2) {
        (Mapper::Mmc1(a), Mapper::Mmc1(b), Mapper::Mmc1(x), Mapper::Mmc1(y)) => {
            if 0x6000 <= addr < 0x8000 {
                assert(x.prg_ram@ =~= y.prg_ram@);
                assert(x.prg_ram == y.prg_ram);
            }
        },
        (Mapper::Mmc3(a), Mapper::Mmc3(b), Mapper::Mmc3(x), Mapper::Mmc3(y)) => {
            if 0x6000 <= addr < 0x8000 {
                assert(x.prg_ram@ =~= y.prg_ram@);
                assert(x.prg_ram == y.prg_ram);
            } else if addr >= 0x8000 {
                assert(x.prg_banks@ =~= y.prg_banks@);
                assert(x.prg_banks == y.prg_banks);
                assert(x.chr_banks@ =~= y.chr_banks@);
                assert(x.chr_banks == y.chr_banks);
            }
        },
        _ => {},
    }
}

#[verifier::spinoff_prover]
proof fn lemma_same_board_ppu_write(m1: Mapper, m2: Mapper, addr: u16, val: u8, n1: Mapper, n2: Mapper)
    requires
        same_board(m1, m2),
        m1.after_ppu_write(addr, val, n1),
        m2.after_ppu_write(addr, val, n2),
    ensures
        same_board(n1, n2),
{
    match (m1, m2, n1, n2) {
        (Mapper::Nrom(a), Mapper::Nrom(b), Mapper::Nrom(x), Mapper::Nrom(y)) => {
            assert(x.chr@ =~= y.chr@);
            assert(x.chr == y.chr);
        },
        (Mapper::UxRom(a), Mapper::UxRom(b), Mapper::UxRom(x), Mapper::UxRom(y)) => {
            assert(x.chr@ =~= y.chr@);
            assert(x.chr == y.chr);
        },
        (Mapper::Axrom(a), Mapper::Axrom(b), Mapper::Axrom(x), Mapper::Axrom(y)) => {
            assert(x.chr@ =~= y.chr@);
            assert(x.chr == y.chr);
        },
        (Mapper::Cnrom(a), Mapper::Cnrom(b), Mapper::Cnrom(x), Mapper::Cnrom(y)) => {
            assert(x.chr@ =~= y.chr@);
        },
        (Mapper::Gxrom(a), Mapper::Gxrom(b), Mapper::Gxrom(x), Mapper::Gxrom(y)) => {
            assert(x.chr@ =~= y.chr@);
        },
        (Mapper::Mmc1(a), Mapper::Mmc1(b), Mapper::Mmc1(x), Mapper::Mmc1(y)) => {
            assert(x.chr@ =~= y.chr@);
        },
        (Mapper::Mmc3(a), Mapper::Mmc3(b), Mapper::Mmc3(x), Mapper::Mmc3(y)) => {
            assert(x.chr@ =~= y.chr@);
        },
        _ => {},
    }
}

/// Boards built by `from_ines` (or by `Rom::create_mapper`, which states the same
/// `is_from_ines`) from the same header values and ROM images are in the same state
/// (`same_board`), so by `lemma_same_board_in_step` they answer every sequence of
/// calls alike; their first reads, mirroring, CHR-RAM and IRQ line are stated here
/// too. An unknown board number behaves as number 0 (NROM).
pub proof fn lemma_from_ines_determined(
    m1: Mapper,
    m2: Mapper,
    id1: u8,
    id2: u8,
    mirroring: u8,
    prg: Seq<u8>,
    chr: Seq<u8>,
    chr_ram: bool,
    a: u16,
)
    requires
        m1.is_from_ines(id1, mirroring, prg, chr, chr_ram),
        m2.is_from_ines(id2, mirroring, prg, chr, chr_ram),
        id1 == id2 || (falls_back_to_nrom(id1) && falls_back_to_nrom(id2)),
    ensures
        m1.wf() == m2.wf(),
        m1.spec_cpu_read(a) == m2.spec_cpu_read(a),
        m1.spec_ppu_read(a) == m2.spec_ppu_read(a),
        m1.spec_mirroring() == m2.spec_mirroring(),
        m1.spec_has_chr_ram() == m2.spec_has_chr_ram(),
        m1.spec_irq_pending() == m2.spec_irq_pending(),
        falls_back_to_nrom(id1) ==> m1 is Nrom,
        same_board(m1, m2),
{
    lemma_masks(a);
    match (m1, m2) {
        (Mapper::Nrom(b1), Mapper::Nrom(b2)) => {
            if a >= 0x8000 {
                let i = a - 0x8000;
                assert(b1.prg[i] == prg32_image(prg, i));
                assert(b2.prg[i] == prg32_image(prg, i));
            }
            let x = (a % 0x4000) as int;
            if x < 0x2000 {
                assert(b1.chr[x] == chr_image(chr, chr_ram, x));
                assert(b2.chr[x] == chr_image(chr, chr_ram, x));
            }
            assert forall|i: int| 0 <= i < 0x8000 implies b1.prg@[i] == b2.prg@[i] by {
                assert(b1.prg[i] == prg32_image(prg, i));
                assert(b2.prg[i] == prg32_image(prg, i));
            }
            assert(b1.prg@ =~= b2.prg@);
            assert(b1.prg == b2.prg);
            lemma_chr_images_agree(b1.chr, b2.chr, chr, chr_ram);
        },
        (Mapper::UxRom(b1), Mapper::UxRom(b2)) => {
            assert(b1.prg@ == b2.prg@);
            lemma_chr_images_agree(b1.chr, b2.chr, chr, chr_ram);
            let x = (a & 0x3FFF) as int;
            if x < 0x2000 {
                assert(b1.chr[x] == chr_image(chr, chr_ram, x));
                assert(b2.chr[x] == chr_image(chr, chr_ram, x));
            }
        },
        (Mapper::Cnrom(b1), Mapper::Cnrom(b2)) => {
            if a >= 0x8000 {
                let i = (a & 0x7FFF) as int;
                assert(b1.prg[i] == prg32_image(prg, i));
                assert(b2.prg[i] == prg32_image(prg, i));
            }
            assert(b1.chr@ =~= b2.chr@);
            assert forall|i: int| 0 <= i < 0x8000 implies b1.prg@[i] == b2.prg@[i] by {
                assert(b1.prg[i] == prg32_image(prg, i));
                assert(b2.prg[i] == prg32_image(prg, i));
            }
            assert(b1.prg@ =~= b2.prg@);
            assert(b1.prg == b2.prg);
        },
        (Mapper::Axrom(b1), Mapper::Axrom(b2)) => {
            lemma_chr_images_agree(b1.chr, b2.chr, chr, chr_ram);
            let x = (a & 0x3FFF) as int;
            if x < 0x2000 {
                assert(b1.chr[x] == chr_image(chr, chr_ram, x));
                assert(b2.chr[x] == chr_image(chr, chr_ram, x));
            }
        },
        (Mapper::Gxrom(b1), Mapper::Gxrom(b2)) => {
            assert(b1.chr@ =~= b2.chr@);
        },
        (Mapper::Mmc1(b1), Mapper::Mmc1(b2)) => {
            assert(b1.chr@ =~= b2.chr@);
            assert(b1.prg_ram@ =~= b2.prg_ram@);
            assert(b1.prg_ram == b2.prg_ram);
        },
        (Mapper::Mmc3(b1), Mapper::Mmc3(b2)) => {
            assert(b1.chr@ =~= b2.chr@);
            assert(b1.prg_ram@ =~= b2.prg_ram@);
            assert(b1.prg_banks@ =~= b2.prg_banks@);
            assert(b1.chr_banks@ =~= b2.chr_banks@);
            assert(b1.prg_ram == b2.prg_ram);
            assert(b1.prg_banks == b2.prg_banks);
            assert(b1.chr_banks == b2.chr_banks);
        },
        _ => {},
    }
}

/// Two 8 KiB CHR windows built from the same image are the same.
proof fn lemma_chr_images_agree(c1: [u8; 0x2000], c2: [u8; 0x2000], chr: Seq<u8>, chr_ram: bool)
    requires
        forall|i: int| 0 <= i < 0x2000 ==> c1[i] == chr_image(chr, chr_ram, i),
        forall|i: int| 0 <= i < 0x2000 ==> c2[i] == chr_image(chr, chr_ram, i),
    ensures
        c1 == c2,
{
    assert forall|i: int| 0 <= i < 0x2000 implies c1@[i] == c2@[i] by {
        assert(c1[i] == chr_image(chr, chr_ram, i));
        assert(c2[i] == chr_image(chr, chr_ram, i));
    }
    assert(c1@ =~= c2@);
}

/// A board built by `from_ines` with CHR-RAM or at least 8 KiB of CHR-ROM meets the
/// CHR-side invariant, which every later call keeps (see the `Mapper` methods), so
/// `lemma_chr_write_then_read` applies to it after any calls.
pub proof fn lemma_from_ines_ppu_wf(m: Mapper, id: u8, mirroring: u8, prg: Seq<u8>, chr: Seq<u8>, chr_ram: bool)
    requires
        m.is_from_ines(id, mirroring, prg, chr, chr_ram),
        chr_ram || chr.len() >= 0x2000,
    ensures
        m.ppu_wf(),
{
}

/// A CHR write is read back where the board has CHR-RAM; CHR-ROM ignores writes.
pub proof fn lemma_chr_write_then_read(m: Mapper, n: Mapper, a: u16, v: u8, b: u16)
    requires
        m.ppu_wf(),
        !(m is Null),
        a < 0x2000,
        m.after_ppu_write(a, v, n),
    ensures
        m.spec_has_chr_ram() ==> n.spec_ppu_read(a) == v,
        !m.spec_has_chr_ram() ==> n.spec_ppu_read(b) == m.spec_ppu_read(b),
{
    lemma_masks(a);
    lemma_masks(b);
    assert(a & 0x3FFF == a && a & 0x1FFF == a);
    match (m, n) {
        (Mapper::Cnrom(x), Mapper::Cnrom(y)) => {
            if x.chr_ram {
                assert(y.chr@.len() == 0x2000);
                assert(chr8_bank_count(0x2000) == 1);
                assert((y.chr_bank as int) % 1 == 0);
            }
        },
        (Mapper::Gxrom(x), Mapper::Gxrom(y)) => {
            if x.chr_ram {
                let cb = y.chr_bank as int;
                let ai = a as int;
                assert((cb * 0x2000 + ai) % 0x2000 == ai) by (nonlinear_arith)
                    requires
                        0 <= ai < 0x2000,
                        0 <= cb,
                ;
            }
        },
        _ => {},
    }
}

/// NROM, UxROM, CNROM and GxROM have mirroring fixed by the cartridge: no CPU or
/// PPU write changes it.
pub proof fn lemma_fixed_mirroring(m: Mapper, n: Mapper, addr: u16, val: u8)
    requires
        m is Nrom || m is UxRom || m is Cnrom || m is Gxrom,
        m.after_cpu_write(addr, val, n) || m.after_ppu_write(addr, val, n),
    ensures
        n.spec_mirroring() == m.spec_mirroring(),
{
}

} // verus!
