use vstd::prelude::*;
use crate::bus::{bus_run, extends, ram_index, since, Bus, BusAccess};
use crate::cpu::{
    with_flag, CpuRp2a03, FLAG_BREAK, FLAG_CARRY, FLAG_DECIMAL, FLAG_INTERRUPT, FLAG_NEGATIVE,
    FLAG_OVERFLOW, FLAG_ZERO,
};
use crate::interrupt::word;

verus! {

broadcast use crate::bus::group_bus_run;

// ---------------------------------------------------------------------------
// Bus access traces
// ---------------------------------------------------------------------------

pub open spec fn is_read_at(a: BusAccess, addr: u16) -> bool {
    !a.write && a.addr == addr
}

pub open spec fn is_write_of(a: BusAccess, addr: u16, val: u8) -> bool {
    a.write && a.addr == addr && a.val == val
}

proof fn lemma_since_refl(s: Seq<BusAccess>)
    ensures
        extends(s, s),
        since(s, s) =~= Seq::<BusAccess>::empty(),
{
    assert(s.subrange(0, s.len() as int) =~= s);
}

proof fn lemma_since_push(before: Seq<BusAccess>, mid: Seq<BusAccess>, a: BusAccess)
    requires
        extends(before, mid),
    ensures
        extends(before, mid.push(a)),
        since(before, mid.push(a)) =~= since(before, mid).push(a),
{
    assert(mid.push(a).subrange(0, before.len() as int) =~= mid.subrange(0, before.len() as int));
}

// ---------------------------------------------------------------------------
// Addressing modes
// ---------------------------------------------------------------------------
/// The 6502 operand addressing modes.
#[derive(Clone, Copy, PartialEq, Eq, Structural)]
pub enum Mode {
    Imm,
    Zp,
    Zpx,
    Zpy,
    Abs,
    Absx,
    Absy,
    Indx,
    Indy,
}

/// Operand bytes after the opcode.
pub open spec fn operand_size(mode: Mode) -> u16 {
    match mode {
        Mode::Abs | Mode::Absx | Mode::Absy => 2,
        _ => 1,
    }
}

/// The CPU with its program counter moved past `n` operand bytes.
pub open spec fn advanced(c: CpuRp2a03, n: u16) -> CpuRp2a03 {
    CpuRp2a03 { pc: c.pc.wrapping_add(n), ..c }
}

/// `base` plus an index register, with 1 when the sum lands in another page.
pub open spec fn indexed(base: u16, idx: u8) -> (u16, u8) {
    let a = base.wrapping_add(idx as u16);
    (a, ((((base ^ a) >> 8u16) as u8) & 1))
}

/// The address of the extra read when indexing crosses a page: the right low byte
/// in the base's page.
pub open spec fn dummy_addr(base: u16, a: u16) -> u16 {
    (base & 0xFF00) | (a & 0x00FF)
}

/// The operand fetch of `mode` for an instruction whose operand starts at `c.pc`,
/// judged on the accesses `t` that followed: (whether `t` begins with exactly the
/// fetch's reads, the effective address, the page-cross bit, the number of fetch
/// accesses). Indexed modes read the unfixed address first when they cross a page;
/// zero-page pointers wrap within page 0.
pub open spec fn operand_fetch(mode: Mode, c: CpuRp2a03, t: Seq<BusAccess>) -> (bool, u16, u8, int) {
    let pc = c.pc;
    let pc1 = pc.wrapping_add(1);
    match mode {
        Mode::Imm => (true, pc, 0, 0),
        Mode::Zp => (is_read_at(t[0], pc), t[0].val as u16, 0, 1),
        Mode::Zpx => (is_read_at(t[0], pc), t[0].val.wrapping_add(c.x) as u16, 0, 1),
        Mode::Zpy => (is_read_at(t[0], pc), t[0].val.wrapping_add(c.y) as u16, 0, 1),
        Mode::Abs => (is_read_at(t[0], pc) && is_read_at(t[1], pc1), word(t[0].val, t[1].val), 0, 2),
        Mode::Absx => {
            let base = word(t[0].val, t[1].val);
            let ix = indexed(base, c.x);
            (
                is_read_at(t[0], pc) && is_read_at(t[1], pc1) && (ix.1 != 0 ==> is_read_at(
                    t[2],
                    dummy_addr(base, ix.0),
                )),
                ix.0,
                ix.1,
                2 + ix.1,
            )
        },
        Mode::Absy => {
            let base = word(t[0].val, t[1].val);
            let ix = indexed(base, c.y);
            (
                is_read_at(t[0], pc) && is_read_at(t[1], pc1) && (ix.1 != 0 ==> is_read_at(
                    t[2],
                    dummy_addr(base, ix.0),
                )),
                ix.0,
                ix.1,
                2 + ix.1,
            )
        },
        Mode::Indx => {
            let ptr = t[0].val.wrapping_add(c.x);
            (
                is_read_at(t[0], pc) && is_read_at(t[1], ptr as u16) && is_read_at(
                    t[2],
                    ptr.wrapping_add(1) as u16,
                ),
                word(t[1].val, t[2].val),
                0,
                3,
            )
        },
        Mode::Indy => {
            let ptr = t[0].val;
            let base = word(t[1].val, t[2].val);
            let ix = indexed(base, c.y);
            (
                is_read_at(t[0], pc) && is_read_at(t[1], ptr as u16) && is_read_at(
                    t[2],
                    ptr.wrapping_add(1) as u16,
                ) && (ix.1 != 0 ==> is_read_at(t[3], dummy_addr(base, ix.0))),
                ix.0,
                ix.1,
                3 + ix.1,
            )
        },
    }
}

/// More accesses after a complete fetch do not change what the fetch was.
proof fn lemma_fetch_extend(mode: Mode, c: CpuRp2a03, t: Seq<BusAccess>, a: BusAccess)
    requires
        operand_fetch(mode, c, t).3 <= t.len(),
    ensures
        operand_fetch(mode, c, t.push(a)) == operand_fetch(mode, c, t),
{
    let u = t.push(a);
    assert(forall|i: int| 0 <= i < t.len() ==> u[i] == t[i]);
}

/// The page-cross bit is a bit.
proof fn lemma_fetch_page_bit(mode: Mode, c: CpuRp2a03, t: Seq<BusAccess>)
    ensures
        operand_fetch(mode, c, t).2 <= 1,
{
    match mode {
        Mode::Absx => lemma_indexed_exec(word(t[0].val, t[1].val), c.x),
        Mode::Absy => lemma_indexed_exec(word(t[0].val, t[1].val), c.y),
        Mode::Indy => lemma_indexed_exec(word(t[1].val, t[2].val), c.y),
        _ => {},
    }
}

/// The bus after reads only: well-formed, RAM unchanged, accesses appended, each a
/// read cycle (`bus_run`).
pub open spec fn bus_step(before: &Bus, after: &Bus) -> bool {
    after.wf() && after.ram == before.ram && extends(before.accesses@, after.accesses@) && bus_run(*before, *after)
}

/// The bus after an SH* store from `b0`: the cycles up to the store's address, then,
/// with the DMA-fired flag read and cleared, its last two cycles.
pub open spec fn sh_run(b0: Bus, b1: Bus) -> bool {
    exists|bm: Bus| #[trigger] bus_run(b0, bm) && bus_run(Bus { dmc_just_fired: false, ..bm }, b1)
}

/// The bus cycles of instruction `opcode` from `b0` to `b1`: one read or write cycle
/// per recorded access (`bus_run`), the SH* stores as `sh_run`.
pub open spec fn instruction_run(opcode: u8, b0: Bus, b1: Bus) -> bool {
    if opcode == 0x93 || opcode == 0x9B || opcode == 0x9C || opcode == 0x9E || opcode == 0x9F {
        sh_run(b0, b1)
    } else {
        bus_run(b0, b1)
    }
}

/// RAM after a CPU write of `v` at `addr`: the mirrored cell below $2000 takes the
/// value; writes elsewhere leave RAM alone.
pub open spec fn ram_written(ram: Seq<u8>, addr: u16, v: u8) -> Seq<u8> {
    if addr < 0x2000 {
        ram.update(ram_index(addr), v)
    } else {
        ram
    }
}

/// RAM after an instruction whose last access is its store: that write applied to
/// the RAM before the instruction (an earlier write of a read-modify-write goes to
/// the same cell and is overwritten).
pub open spec fn ram_takes_last_write(b0: Bus, b1: Bus) -> bool {
    let t = since(b0.accesses@, b1.accesses@);
    b1.ram@ == ram_written(b0.ram@, t.last().addr, t.last().val)
}

proof fn lemma_word_exec(lo: u8, hi: u8)
    ensures
        (lo as u16) | ((hi as u16) << 8u16) == word(lo, hi),
{
}

proof fn lemma_indexed_exec(base: u16, idx: u8)
    ensures
        indexed(base, idx).0 == base.wrapping_add(idx as u16),
        indexed(base, idx).1 == (((base ^ base.wrapping_add(idx as u16)) >> 8u16) as u8) & 1,
        dummy_addr(base, base.wrapping_add(idx as u16)) == (base & 0xFF00) | (base.wrapping_add(idx as u16) as u8
            as u16),
        indexed(base, idx).1 <= 1,
{
    let a = base.wrapping_add(idx as u16);
    crate::bits::lemma_word_bits(a);
    crate::bits::lemma_byte_bits(((base ^ a) >> 8u16) as u8);
}

/// Absolute: two operand bytes, low first.
#[inline(always)]
pub fn abs(cpu: &CpuRp2a03, bus: &mut Bus) -> (r: u16)
    requires
        old(bus).wf(),
    ensures
        bus_step(&*old(bus), &*final(bus)),
        ({
            let t = since(old(bus).accesses@, final(bus).accesses@);
            let f = operand_fetch(Mode::Abs, *cpu, t);
            f.0 && t.len() == f.3 && r == f.1
        }),
{
    let ghost t0 = bus.accesses@;
    proof {
        lemma_since_refl(t0);
    }
    let lo = bus.read(cpu.pc());
    proof {
        lemma_since_push(t0, t0, bus.accesses@.last());
    }
    let ghost t1 = bus.accesses@;
    let hi = bus.read(cpu.pc().wrapping_add(1));
    proof {
        lemma_since_push(t0, t1, bus.accesses@.last());
        lemma_word_exec(lo, hi);
    }
    (lo as u16) | ((hi as u16) << 8)
}

/// Absolute,X: the absolute address plus X, with the extra read on a page cross.
#[inline(always)]
pub fn absx(cpu: &CpuRp2a03, bus: &mut Bus) -> (r: (u16, u8))
    requires
        old(bus).wf(),
    ensures
        bus_step(&*old(bus), &*final(bus)),
        ({
            let t = since(old(bus).accesses@, final(bus).accesses@);
            let f = operand_fetch(Mode::Absx, *cpu, t);
            f.0 && t.len() == f.3 && r == (f.1, f.2)
        }),
{
    indexed_abs(cpu, bus, cpu.x(), Ghost(Mode::Absx))
}

/// Absolute,Y: the absolute address plus Y, with the extra read on a page cross.
#[inline(always)]
pub fn absy(cpu: &CpuRp2a03, bus: &mut Bus) -> (r: (u16, u8))
    requires
        old(bus).wf(),
    ensures
        bus_step(&*old(bus), &*final(bus)),
        ({
            let t = since(old(bus).accesses@, final(bus).accesses@);
            let f = operand_fetch(Mode::Absy, *cpu, t);
            f.0 && t.len() == f.3 && r == (f.1, f.2)
        }),
{
    indexed_abs(cpu, bus, cpu.y(), Ghost(Mode::Absy))
}

fn indexed_abs(cpu: &CpuRp2a03, bus: &mut Bus, idx: u8, mode: Ghost<Mode>) -> (r: (u16, u8))
    requires
        old(bus).wf(),
        mode@ == Mode::Absx ==> idx == cpu.x,
        mode@ == Mode::Absy ==> idx == cpu.y,
        mode@ == Mode::Absx || mode@ == Mode::Absy,
    ensures
        bus_step(&*old(bus), &*final(bus)),
        ({
            let t = since(old(bus).accesses@, final(bus).accesses@);
            let f = operand_fetch(mode@, *cpu, t);
            f.0 && t.len() == f.3 && r == (f.1, f.2)
        }),
{
    let ghost t0 = bus.accesses@;
    let base = abs(cpu, bus);
    let ghost t1 = bus.accesses@;
    let addr = base.wrapping_add(idx as u16);
    let page = (((base ^ addr) >> 8) as u8) & 1;
    proof {
        lemma_indexed_exec(base, idx);
    }
    if page != 0 {
        let dummy_addr = (base & 0xFF00) | (addr as u8 as u16);
        let _ = bus.read(dummy_addr);
        proof {
            lemma_since_push(t0, t1, bus.accesses@.last());
        }
    }
    (addr, page)
}

/// Zero page: one operand byte.
#[inline(always)]
pub fn zp(cpu: &CpuRp2a03, bus: &mut Bus) -> (r: u16)
    requires
        old(bus).wf(),
    ensures
        bus_step(&*old(bus), &*final(bus)),
        ({
            let t = since(old(bus).accesses@, final(bus).accesses@);
            let f = operand_fetch(Mode::Zp, *cpu, t);
            f.0 && t.len() == f.3 && r == f.1
        }),
{
    let ghost t0 = bus.accesses@;
    proof {
        lemma_since_refl(t0);
    }
    let v = bus.read(cpu.pc());
    proof {
        lemma_since_push(t0, t0, bus.accesses@.last());
    }
    v as u16
}

/// Zero page,X: the operand byte plus X, wrapping within page 0.
#[inline(always)]
pub fn zpx(cpu: &CpuRp2a03, bus: &mut Bus) -> (r: u16)
    requires
        old(bus).wf(),
    ensures
        bus_step(&*old(bus), &*final(bus)),
        ({
            let t = since(old(bus).accesses@, final(bus).accesses@);
            let f = operand_fetch(Mode::Zpx, *cpu, t);
            f.0 && t.len() == f.3 && r == f.1
        }),
{
    let ghost t0 = bus.accesses@;
    proof {
        lemma_since_refl(t0);
    }
    let v = bus.read(cpu.pc());
    proof {
        lemma_since_push(t0, t0, bus.accesses@.last());
    }
    v.wrapping_add(cpu.x()) as u16
}

/// Zero page,Y: the operand byte plus Y, wrapping within page 0.
#[inline(always)]
pub fn zpy(cpu: &CpuRp2a03, bus: &mut Bus) -> (r: u16)
    requires
        old(bus).wf(),
    ensures
        bus_step(&*old(bus), &*final(bus)),
        ({
            let t = since(old(bus).accesses@, final(bus).accesses@);
            let f = operand_fetch(Mode::Zpy, *cpu, t);
            f.0 && t.len() == f.3 && r == f.1
        }),
{
    let ghost t0 = bus.accesses@;
    proof {
        lemma_since_refl(t0);
    }
    let v = bus.read(cpu.pc());
    proof {
        lemma_since_push(t0, t0, bus.accesses@.last());
    }
    v.wrapping_add(cpu.y()) as u16
}

/// (Indirect,X): the word at zero-page address (operand + X).
#[inline(always)]
pub fn indx(cpu: &CpuRp2a03, bus: &mut Bus) -> (r: u16)
    requires
        old(bus).wf(),
    ensures
        bus_step(&*old(bus), &*final(bus)),
        ({
            let t = since(old(bus).accesses@, final(bus).accesses@);
            let f = operand_fetch(Mode::Indx, *cpu, t);
            f.0 && t.len() == f.3 && r == f.1
        }),
{
    let ghost t0 = bus.accesses@;
    proof {
        lemma_since_refl(t0);
    }
    let p = bus.read(cpu.pc()).wrapping_add(cpu.x());
    proof {
        lemma_since_push(t0, t0, bus.accesses@.last());
    }
    let ghost t1 = bus.accesses@;
    let ptr = p as u16;
    let lo = bus.read(ptr);
    proof {
        lemma_since_push(t0, t1, bus.accesses@.last());
    }
    let ghost t2 = bus.accesses@;
    let hi_ptr = (ptr as u8).wrapping_add(1) as u16;
    let hi = bus.read(hi_ptr);
    proof {
        lemma_since_push(t0, t2, bus.accesses@.last());
        lemma_word_exec(lo, hi);
    }
    (lo as u16) | ((hi as u16) << 8)
}

/// (Indirect),Y: the word at the zero-page operand, plus Y, with the extra read on
/// a page cross.
#[inline(always)]
pub fn indy(cpu: &CpuRp2a03, bus: &mut Bus) -> (r: (u16, u8))
    requires
        old(bus).wf(),
    ensures
        bus_step(&*old(bus), &*final(bus)),
        ({
            let t = since(old(bus).accesses@, final(bus).accesses@);
            let f = operand_fetch(Mode::Indy, *cpu, t);
            f.0 && t.len() == f.3 && r == (f.1, f.2)
        }),
{
    let ghost t0 = bus.accesses@;
    proof {
        lemma_since_refl(t0);
    }
    let p = bus.read(cpu.pc());
    proof {
        lemma_since_push(t0, t0, bus.accesses@.last());
    }
    let ghost t1 = bus.accesses@;
    let ptr = p as u16;
    let hi_ptr = (ptr as u8).wrapping_add(1) as u16;
    let lo = bus.read(ptr);
    proof {
        lemma_since_push(t0, t1, bus.accesses@.last());
    }
    let ghost t2 = bus.accesses@;
    let hi = bus.read(hi_ptr);
    proof {
        lemma_since_push(t0, t2, bus.accesses@.last());
        lemma_word_exec(lo, hi);
    }
    let ghost t3 = bus.accesses@;
    let base = (lo as u16) | ((hi as u16) << 8);
    let addr = base.wrapping_add(cpu.y() as u16);
    let page = (((base ^ addr) >> 8) as u8) & 1;
    proof {
        lemma_indexed_exec(base, cpu.y);
    }
    if page != 0 {
        let dummy_addr = (base & 0xFF00) | (addr as u8 as u16);
        let _ = bus.read(dummy_addr);
        proof {
            lemma_since_push(t0, t3, bus.accesses@.last());
        }
    }
    (addr, page)
}


// ---------------------------------------------------------------------------
// Operand access
// ---------------------------------------------------------------------------
/// Fetches the operand address of `mode` and moves the program counter past the
/// operand bytes. Returns the effective address and the page-cross bit.
fn operand_address(cpu: &mut CpuRp2a03, bus: &mut Bus, mode: Mode) -> (r: (u16, u8))
    requires
        old(bus).wf(),
    ensures
        bus_step(&*old(bus), &*final(bus)),
        ({
            let t = since(old(bus).accesses@, final(bus).accesses@);
            let f = operand_fetch(mode, *old(cpu), t);
            f.0 && t.len() == f.3 && r == (f.1, f.2)
        }),
        *final(cpu) == advanced(*old(cpu), operand_size(mode)),
{
    let ghost t0 = bus.accesses@;
    proof {
        lemma_since_refl(t0);
    }
    let r: (u16, u8) = match mode {
        Mode::Imm => (cpu.pc(), 0),
        Mode::Zp => (zp(cpu, bus), 0),
        Mode::Zpx => (zpx(cpu, bus), 0),
        Mode::Zpy => (zpy(cpu, bus), 0),
        Mode::Abs => (abs(cpu, bus), 0),
        Mode::Absx => absx(cpu, bus),
        Mode::Absy => absy(cpu, bus),
        Mode::Indx => (indx(cpu, bus), 0),
        Mode::Indy => indy(cpu, bus),
    };
    let n: u16 = match mode {
        Mode::Abs | Mode::Absx | Mode::Absy => 2,
        _ => 1,
    };
    cpu.set_pc(cpu.pc().wrapping_add(n));
    r
}

/// Fetches the operand of `mode`, moves the program counter past it, and reads the
/// value at the effective address. Returns the value and the page-cross bit.
fn read_operand(cpu: &mut CpuRp2a03, bus: &mut Bus, mode: Mode) -> (r: (u8, u8))
    requires
        old(bus).wf(),
    ensures
        bus_step(&*old(bus), &*final(bus)),
        ({
            let t = since(old(bus).accesses@, final(bus).accesses@);
            let f = operand_fetch(mode, *old(cpu), t);
            &&& f.0 && t.len() == f.3 + 1 && is_read_at(t[f.3], f.1)
            &&& r == (t[f.3].val, f.2)
        }),
        *final(cpu) == advanced(*old(cpu), operand_size(mode)),
{
    let ghost c0 = *cpu;
    let ghost t0 = bus.accesses@;
    let (addr, page) = operand_address(cpu, bus, mode);
    let ghost t1 = bus.accesses@;
    let v = bus.read(addr);
    proof {
        lemma_since_push(t0, t1, bus.accesses@.last());
        lemma_fetch_extend(mode, c0, since(t0, t1), bus.accesses@.last());
    }
    (v, page)
}

// ---------------------------------------------------------------------------
// What instructions do to the registers
// ---------------------------------------------------------------------------
/// Negative from bit 7 of `v`, then zero from `v == 0`.
pub open spec fn nz(sr: u8, v: u8) -> u8 {
    with_flag(with_flag(sr, FLAG_NEGATIVE, v & 0x80 != 0), FLAG_ZERO, v == 0)
}

pub open spec fn carry_in(c: CpuRp2a03) -> u8 {
    if c.sr & FLAG_CARRY != 0 { 1 } else { 0 }
}

/// ADC: A + operand + carry; carry out above 255; overflow when the operands agree
/// in sign and the result does not.
pub open spec fn adc_effect(c: CpuRp2a03, v: u8) -> CpuRp2a03 {
    let sum = c.a + v + carry_in(c);
    let lo = (sum % 256) as u8;
    let sr = with_flag(
        with_flag(nz(c.sr, lo), FLAG_CARRY, sum > 0xFF),
        FLAG_OVERFLOW,
        (c.a ^ v) & 0x80 == 0 && (c.a ^ lo) & 0x80 != 0,
    );
    CpuRp2a03 { a: lo, sr, ..c }
}

/// SBC: A - operand - (1 - carry); carry out when no borrow; overflow when the
/// operands differ in sign and the result's sign differs from A's.
pub open spec fn sbc_effect(c: CpuRp2a03, v: u8) -> CpuRp2a03 {
    let diff = c.a - v - (1 - carry_in(c));
    let lo = ((diff + 256) % 256) as u8;
    let sr = with_flag(
        with_flag(nz(c.sr, lo), FLAG_CARRY, diff >= 0),
        FLAG_OVERFLOW,
        (c.a ^ lo) & 0x80 != 0 && (c.a ^ v) & 0x80 != 0,
    );
    CpuRp2a03 { a: lo, sr, ..c }
}

/// CMP/CPX/CPY: carry when `reg >= v`, then N and Z from `reg - v`.
pub open spec fn cmp_effect(c: CpuRp2a03, reg: u8, v: u8) -> CpuRp2a03 {
    CpuRp2a03 { sr: nz(with_flag(c.sr, FLAG_CARRY, reg >= v), reg.wrapping_sub(v)), ..c }
}

/// Instructions that read one operand value and change only registers.
#[derive(Clone, Copy, PartialEq, Eq, Structural)]
pub enum ReadOp {
    Lda,
    Ldx,
    Ldy,
    Adc,
    Sbc,
    And,
    Ora,
    Eor,
    Cmp,
    Cpx,
    Cpy,
    Bit,
    Lax,
    Lae,
    Nop,
    Anc,
    Asr,
    Arr,
    Ane,
    Lxa,
    Axs,
}

/// The registers after read instruction `op` sees value `v`.
pub open spec fn read_effect(op: ReadOp, c: CpuRp2a03, v: u8) -> CpuRp2a03 {
    match op {
        ReadOp::Lda => CpuRp2a03 { a: v, sr: nz(c.sr, v), ..c },
        ReadOp::Ldx => CpuRp2a03 { x: v, sr: nz(c.sr, v), ..c },
        ReadOp::Ldy => CpuRp2a03 { y: v, sr: nz(c.sr, v), ..c },
        ReadOp::Adc => adc_effect(c, v),
        ReadOp::Sbc => sbc_effect(c, v),
        ReadOp::And => CpuRp2a03 { a: c.a & v, sr: nz(c.sr, c.a & v), ..c },
        ReadOp::Ora => CpuRp2a03 { a: c.a | v, sr: nz(c.sr, c.a | v), ..c },
        ReadOp::Eor => CpuRp2a03 { a: c.a ^ v, sr: nz(c.sr, c.a ^ v), ..c },
        ReadOp::Cmp => cmp_effect(c, c.a, v),
        ReadOp::Cpx => cmp_effect(c, c.x, v),
        ReadOp::Cpy => cmp_effect(c, c.y, v),
        ReadOp::Bit => CpuRp2a03 {
            sr: with_flag(
                with_flag(with_flag(c.sr, FLAG_NEGATIVE, v & 0x80 != 0), FLAG_OVERFLOW, v & 0x40 != 0),
                FLAG_ZERO,
                c.a & v == 0,
            ),
            ..c
        },
        ReadOp::Lax => CpuRp2a03 { a: v, x: v, sr: nz(c.sr, v), ..c },
        ReadOp::Lae => {
            let w = c.st & v;
            CpuRp2a03 { a: w, x: w, st: w, sr: nz(c.sr, w), ..c }
        },
        ReadOp::Nop => c,
        ReadOp::Anc => {
            let w = c.a & v;
            CpuRp2a03 { a: w, sr: with_flag(nz(c.sr, w), FLAG_CARRY, w & 0x80 != 0), ..c }
        },
        ReadOp::Asr => {
            let w = c.a & v;
            CpuRp2a03 { a: w >> 1u8, sr: nz(with_flag(c.sr, FLAG_CARRY, w & 0x01 != 0), w >> 1u8), ..c }
        },
        ReadOp::Arr => {
            let w = c.a & v;
            let res = (w >> 1u8) | (carry_in(c) << 7u8);
            CpuRp2a03 {
                a: res,
                sr: with_flag(
                    with_flag(nz(c.sr, res), FLAG_CARRY, w & 0x80 != 0),
                    FLAG_OVERFLOW,
                    ((w >> 5u8) ^ (w >> 6u8)) & 1 != 0,
                ),
                ..c
            }
        },
        ReadOp::Ane => {
            let w = (c.a | 0xEE) & c.x & v;
            CpuRp2a03 { a: w, sr: nz(c.sr, w), ..c }
        },
        ReadOp::Lxa => {
            let w = (c.a | 0xEE) & v;
            CpuRp2a03 { a: w, x: w, sr: nz(c.sr, w), ..c }
        },
        ReadOp::Axs => {
            let w = c.a & c.x;
            let res = w.wrapping_sub(v);
            CpuRp2a03 { x: res, sr: with_flag(nz(c.sr, res), FLAG_CARRY, w >= v), ..c }
        },
    }
}

/// ADC without decimal mode (the RP2A03 has none).
pub fn adc_inner(cpu: &mut CpuRp2a03, operand: u8)
    ensures
        *final(cpu) == adc_effect(*old(cpu), operand),
{
    let a = cpu.a();
    let carry: u16 = if cpu.get_flag(FLAG_CARRY) { 1 } else { 0 };
    let result = a as u16 + operand as u16 + carry;
    let lo = result as u8;
    proof {
        crate::bits::lemma_word_bits(result);
    }
    cpu.set_sign(lo);
    cpu.set_zero(lo);
    cpu.set_flag(FLAG_CARRY, result > 0xFF);
    cpu.set_flag(FLAG_OVERFLOW, ((a ^ operand) & 0x80) == 0 && ((a ^ lo) & 0x80) != 0);
    cpu.set_a(lo);
}

/// SBC without decimal mode.
pub fn sbc_inner(cpu: &mut CpuRp2a03, operand: u8)
    ensures
        *final(cpu) == sbc_effect(*old(cpu), operand),
{
    let a = cpu.a();
    let carry: u16 = if cpu.get_flag(FLAG_CARRY) { 1 } else { 0 };
    let result = (a as u16).wrapping_sub(operand as u16).wrapping_sub(1 - carry);
    let lo = result as u8;
    let ghost diff: int = a - operand - (1 - carry);
    assert(result < 0x100 <==> diff >= 0);
    assert(lo == ((diff + 256) % 256) as u8) by {
        crate::bits::lemma_word_bits(result);
        if diff >= 0 {
            assert(result == diff);
        } else {
            assert(result == diff + 0x10000);
        }
    }
    cpu.set_sign(lo);
    cpu.set_zero(lo);
    cpu.set_flag(FLAG_CARRY, result < 0x100);
    cpu.set_flag(FLAG_OVERFLOW, ((a ^ lo) & 0x80) != 0 && ((a ^ operand) & 0x80) != 0);
    cpu.set_a(lo);
}

/// CMP/CPX/CPY: compare `reg` with `mem`.
pub fn cmp_inner(cpu: &mut CpuRp2a03, reg: u8, mem: u8)
    ensures
        *final(cpu) == cmp_effect(*old(cpu), reg, mem),
{
    let diff = reg.wrapping_sub(mem);
    cpu.set_flag(FLAG_CARRY, reg >= mem);
    cpu.set_sign(diff);
    cpu.set_zero(diff);
}

fn set_nz(cpu: &mut CpuRp2a03, v: u8)
    ensures
        *final(cpu) == (CpuRp2a03 { sr: nz(old(cpu).sr, v), ..*old(cpu) }),
{
    cpu.set_sign(v);
    cpu.set_zero(v);
}

/// Applies read instruction `op` to value `v`.
fn apply_read(cpu: &mut CpuRp2a03, op: ReadOp, v: u8)
    ensures
        *final(cpu) == read_effect(op, *old(cpu), v),
{
    match op {
        ReadOp::Lda => {
            cpu.set_a(v);
            set_nz(cpu, v);
        },
        ReadOp::Ldx => {
            cpu.set_x(v);
            set_nz(cpu, v);
        },
        ReadOp::Ldy => {
            cpu.set_y(v);
            set_nz(cpu, v);
        },
        ReadOp::Adc => adc_inner(cpu, v),
        ReadOp::Sbc => sbc_inner(cpu, v),
        ReadOp::And => {
            let w = cpu.a() & v;
            cpu.set_a(w);
            set_nz(cpu, w);
        },
        ReadOp::Ora => {
            let w = cpu.a() | v;
            cpu.set_a(w);
            set_nz(cpu, w);
        },
        ReadOp::Eor => {
            let w = cpu.a() ^ v;
            cpu.set_a(w);
            set_nz(cpu, w);
        },
        ReadOp::Cmp => {
            let a = cpu.a();
            cmp_inner(cpu, a, v);
        },
        ReadOp::Cpx => {
            let x = cpu.x();
            cmp_inner(cpu, x, v);
        },
        ReadOp::Cpy => {
            let y = cpu.y();
            cmp_inner(cpu, y, v);
        },
        ReadOp::Bit => {
            cpu.set_sign(v);
            cpu.set_flag(FLAG_OVERFLOW, v & 0x40 != 0);
            let z = cpu.a() & v == 0;
            cpu.set_flag(FLAG_ZERO, z);
        },
        ReadOp::Lax => {
            cpu.set_a(v);
            cpu.set_x(v);
            set_nz(cpu, v);
        },
        ReadOp::Lae => {
            let w = cpu.st() & v;
            cpu.set_a(w);
            cpu.set_x(w);
            cpu.set_st(w);
            set_nz(cpu, w);
        },
        ReadOp::Nop => {},
        ReadOp::Anc => {
            let w = cpu.a() & v;
            cpu.set_a(w);
            set_nz(cpu, w);
            cpu.set_flag(FLAG_CARRY, w & 0x80 != 0);
        },
        ReadOp::Asr => {
            let w = cpu.a() & v;
            cpu.set_flag(FLAG_CARRY, w & 0x01 != 0);
            let res = w >> 1;
            cpu.set_a(res);
            set_nz(cpu, res);
        },
        ReadOp::Arr => {
            let w = cpu.a() & v;
            let old_carry: u8 = if cpu.get_flag(FLAG_CARRY) { 1 } else { 0 };
            let res = (w >> 1) | (old_carry << 7);
            cpu.set_a(res);
            set_nz(cpu, res);
            cpu.set_flag(FLAG_CARRY, w & 0x80 != 0);
            cpu.set_flag(FLAG_OVERFLOW, (((w >> 5) ^ (w >> 6)) & 1) != 0);
        },
        ReadOp::Ane => {
            let w = (cpu.a() | 0xEE) & cpu.x() & v;
            cpu.set_a(w);
            set_nz(cpu, w);
        },
        ReadOp::Lxa => {
            let w = (cpu.a() | 0xEE) & v;
            cpu.set_a(w);
            cpu.set_x(w);
            set_nz(cpu, w);
        },
        ReadOp::Axs => {
            let w = cpu.a() & cpu.x();
            let res = w.wrapping_sub(v);
            cpu.set_x(res);
            set_nz(cpu, res);
            cpu.set_flag(FLAG_CARRY, w >= v);
        },
    }
}

/// A read instruction in `mode`: the operand fetch, one read at the effective
/// address, and the registers after `op` sees the value read.
pub open spec fn executes_read(op: ReadOp, mode: Mode, c0: CpuRp2a03, c1: CpuRp2a03, t0: Seq<BusAccess>, t1: Seq<BusAccess>) -> bool {
    let t = since(t0, t1);
    let f = operand_fetch(mode, c0, t);
    &&& extends(t0, t1)
    &&& f.0 && t.len() == f.3 + 1 && is_read_at(t[f.3], f.1)
    &&& c1 == read_effect(op, advanced(c0, operand_size(mode)), t[f.3].val)
}

/// The page-cross bit of the operand fetch that `t1` records after `t0`.
pub open spec fn fetch_page(mode: Mode, c0: CpuRp2a03, t0: Seq<BusAccess>, t1: Seq<BusAccess>) -> u8 {
    operand_fetch(mode, c0, since(t0, t1)).2
}

/// Runs read instruction `op` in `mode`; returns the page-cross bit.
fn read_op(cpu: &mut CpuRp2a03, bus: &mut Bus, op: ReadOp, mode: Mode) -> (page: u8)
    requires
        old(bus).wf(),
    ensures
        final(bus).wf(),
        bus_run(*old(bus), *final(bus)),
        final(bus).ram == old(bus).ram,
        executes_read(op, mode, *old(cpu), *final(cpu), old(bus).accesses@, final(bus).accesses@),
        page == fetch_page(mode, *old(cpu), old(bus).accesses@, final(bus).accesses@),
        page <= 1,
{
    let ghost c0 = *cpu;
    let (v, page) = read_operand(cpu, bus, mode);
    proof {
        let t = since(old(bus).accesses@, bus.accesses@);
        match mode {
            Mode::Absx => lemma_indexed_exec(word(t[0].val, t[1].val), c0.x),
            Mode::Absy => lemma_indexed_exec(word(t[0].val, t[1].val), c0.y),
            Mode::Indy => lemma_indexed_exec(word(t[1].val, t[2].val), c0.y),
            _ => {},
        }
    }
    apply_read(cpu, op, v);
    page
}


// ---------------------------------------------------------------------------
// Read-modify-write and store instructions
// ---------------------------------------------------------------------------
/// Instructions that read a memory operand, write back a changed value, and set
/// registers from it. The first six are official (they first write the value back
/// unchanged); the rest are the undocumented combinations.
#[derive(Clone, Copy, PartialEq, Eq, Structural)]
pub enum RmwOp {
    Asl,
    Lsr,
    Rol,
    Ror,
    Inc,
    Dec,
    Slo,
    Rla,
    Sre,
    Rra,
    Dcp,
    Isc,
}

pub open spec fn rmw_official(op: RmwOp) -> bool {
    match op {
        RmwOp::Asl | RmwOp::Lsr | RmwOp::Rol | RmwOp::Ror | RmwOp::Inc | RmwOp::Dec => true,
        _ => false,
    }
}

/// The value `op` writes back for operand `v`, given the carry flag before it.
pub open spec fn rmw_value(op: RmwOp, v: u8, cin: u8) -> u8 {
    match op {
        RmwOp::Asl | RmwOp::Slo => v << 1u8,
        RmwOp::Lsr | RmwOp::Sre => v >> 1u8,
        RmwOp::Rol | RmwOp::Rla => (v << 1u8) | cin,
        RmwOp::Ror | RmwOp::Rra => (v >> 1u8) | (cin << 7u8),
        RmwOp::Inc | RmwOp::Isc => v.wrapping_add(1),
        RmwOp::Dec | RmwOp::Dcp => v.wrapping_sub(1),
    }
}

/// The registers after `op` on operand `v`: the shifted-out bit in carry and N/Z
/// from the written value; the combinations then apply ORA, AND, EOR, ADC, CMP or
/// SBC with the written value.
pub open spec fn rmw_effect(op: RmwOp, c: CpuRp2a03, v: u8) -> CpuRp2a03 {
    let w = rmw_value(op, v, carry_in(c));
    match op {
        RmwOp::Asl | RmwOp::Rol => CpuRp2a03 { sr: nz(with_flag(c.sr, FLAG_CARRY, v & 0x80 != 0), w), ..c },
        RmwOp::Lsr | RmwOp::Ror => CpuRp2a03 { sr: nz(with_flag(c.sr, FLAG_CARRY, v & 0x01 != 0), w), ..c },
        RmwOp::Inc | RmwOp::Dec => CpuRp2a03 { sr: nz(c.sr, w), ..c },
        RmwOp::Slo => CpuRp2a03 {
            a: w | c.a,
            sr: nz(with_flag(c.sr, FLAG_CARRY, v & 0x80 != 0), w | c.a),
            ..c
        },
        RmwOp::Rla => CpuRp2a03 {
            a: w & c.a,
            sr: nz(with_flag(c.sr, FLAG_CARRY, v & 0x80 != 0), w & c.a),
            ..c
        },
        RmwOp::Sre => CpuRp2a03 {
            a: w ^ c.a,
            sr: nz(with_flag(c.sr, FLAG_CARRY, v & 0x01 != 0), w ^ c.a),
            ..c
        },
        RmwOp::Rra => adc_effect(CpuRp2a03 { sr: with_flag(c.sr, FLAG_CARRY, v & 0x01 != 0), ..c }, w),
        RmwOp::Dcp => cmp_effect(c, c.a, w),
        RmwOp::Isc => sbc_effect(c, w),
    }
}

/// Computes the value `op` writes and applies its register effect.
fn apply_rmw(cpu: &mut CpuRp2a03, op: RmwOp, v: u8) -> (w: u8)
    ensures
        w == rmw_value(op, v, carry_in(*old(cpu))),
        *final(cpu) == rmw_effect(op, *old(cpu), v),
{
    let cin: u8 = if cpu.get_flag(FLAG_CARRY) { 1 } else { 0 };
    match op {
        RmwOp::Asl | RmwOp::Rol => {
            cpu.set_flag(FLAG_CARRY, v & 0x80 != 0);
            let w = if op == RmwOp::Asl { v << 1 } else { (v << 1) | cin };
            set_nz(cpu, w);
            w
        },
        RmwOp::Lsr | RmwOp::Ror => {
            cpu.set_flag(FLAG_CARRY, v & 0x01 != 0);
            let w = if op == RmwOp::Lsr { v >> 1 } else { (v >> 1) | (cin << 7) };
            set_nz(cpu, w);
            w
        },
        RmwOp::Inc => {
            let w = v.wrapping_add(1);
            set_nz(cpu, w);
            w
        },
        RmwOp::Dec => {
            let w = v.wrapping_sub(1);
            set_nz(cpu, w);
            w
        },
        RmwOp::Slo => {
            cpu.set_flag(FLAG_CARRY, v & 0x80 != 0);
            let w = v << 1;
            let res = w | cpu.a();
            cpu.set_a(res);
            set_nz(cpu, res);
            w
        },
        RmwOp::Rla => {
            cpu.set_flag(FLAG_CARRY, v & 0x80 != 0);
            let w = (v << 1) | cin;
            let res = w & cpu.a();
            cpu.set_a(res);
            set_nz(cpu, res);
            w
        },
        RmwOp::Sre => {
            cpu.set_flag(FLAG_CARRY, v & 0x01 != 0);
            let w = v >> 1;
            let res = w ^ cpu.a();
            cpu.set_a(res);
            set_nz(cpu, res);
            w
        },
        RmwOp::Rra => {
            cpu.set_flag(FLAG_CARRY, v & 0x01 != 0);
            let w = (v >> 1) | (cin << 7);
            adc_inner(cpu, w);
            w
        },
        RmwOp::Dcp => {
            let w = v.wrapping_sub(1);
            let a = cpu.a();
            cmp_inner(cpu, a, w);
            w
        },
        RmwOp::Isc => {
            let w = v.wrapping_add(1);
            sbc_inner(cpu, w);
            w
        },
    }
}

/// A read-modify-write instruction in `mode`: the operand fetch, a read of the
/// operand, for official instructions a write of it unchanged, then a write of the
/// new value; the registers as `rmw_effect`.
pub open spec fn executes_rmw(op: RmwOp, mode: Mode, c0: CpuRp2a03, c1: CpuRp2a03, t0: Seq<BusAccess>, t1: Seq<BusAccess>) -> bool {
    let t = since(t0, t1);
    let f = operand_fetch(mode, c0, t);
    let n = f.3;
    let v = t[n].val;
    let last = if rmw_official(op) { n + 2 } else { n + 1 };
    &&& extends(t0, t1)
    &&& f.0 && t.len() == last + 1 && is_read_at(t[n], f.1)
    &&& rmw_official(op) ==> is_write_of(t[n + 1], f.1, v)
    &&& is_write_of(t[last], f.1, rmw_value(op, v, carry_in(c0)))
    &&& c1 == rmw_effect(op, advanced(c0, operand_size(mode)), v)
}

/// Runs read-modify-write instruction `op` in `mode`; returns the page-cross bit.
#[verifier::spinoff_prover]
#[verifier::rlimit(30)]
fn rmw_op(cpu: &mut CpuRp2a03, bus: &mut Bus, op: RmwOp, mode: Mode) -> (page: u8)
    requires
        old(bus).wf(),
    ensures
        final(bus).wf(),
        bus_run(*old(bus), *final(bus)),
        executes_rmw(op, mode, *old(cpu), *final(cpu), old(bus).accesses@, final(bus).accesses@),
        ram_takes_last_write(*old(bus), *final(bus)),
        page == fetch_page(mode, *old(cpu), old(bus).accesses@, final(bus).accesses@),
        page <= 1,
{
    let ghost c0 = *cpu;
    let ghost t0 = bus.accesses@;
    let ghost ram0 = bus.ram@;
    let (addr, page) = operand_address(cpu, bus, mode);
    let ghost t1 = bus.accesses@;
    let v = bus.read(addr);
    proof {
        lemma_since_push(t0, t1, bus.accesses@.last());
        lemma_fetch_extend(mode, c0, since(t0, t1), bus.accesses@.last());
    }
    let ghost t2 = bus.accesses@;
    let official = match op {
        RmwOp::Asl | RmwOp::Lsr | RmwOp::Rol | RmwOp::Ror | RmwOp::Inc | RmwOp::Dec => true,
        _ => false,
    };
    if official {
        bus.write(addr, v);
        proof {
            lemma_since_push(t0, t2, bus.accesses@.last());
            lemma_fetch_extend(mode, c0, since(t0, t2), bus.accesses@.last());
        }
    }
    let ghost t3 = bus.accesses@;
    let w = apply_rmw(cpu, op, v);
    bus.write(addr, w);
    proof {
        lemma_since_push(t0, t3, bus.accesses@.last());
        lemma_fetch_extend(mode, c0, since(t0, t3), bus.accesses@.last());
        lemma_fetch_page_bit(mode, c0, since(t0, t1));
        if addr < 0x2000 {
            assert(addr & 0x07FF < 0x800) by (bit_vector);
            assert(bus.ram@ =~= ram0.update(ram_index(addr), w));
        }
    }
    page
}

/// Store instructions: the register value each one writes.
#[derive(Clone, Copy, PartialEq, Eq, Structural)]
pub enum StoreOp {
    Sta,
    Stx,
    Sty,
    Sax,
}

pub open spec fn store_value(op: StoreOp, c: CpuRp2a03) -> u8 {
    match op {
        StoreOp::Sta => c.a,
        StoreOp::Stx => c.x,
        StoreOp::Sty => c.y,
        StoreOp::Sax => c.a & c.x,
    }
}

/// A store in `mode`: the operand fetch, a read at the effective address first when
/// `dummy_read`, then the write of the register value; only the program counter
/// changes.
pub open spec fn executes_store(op: StoreOp, mode: Mode, dummy_read: bool, c0: CpuRp2a03, c1: CpuRp2a03, t0: Seq<BusAccess>, t1: Seq<BusAccess>) -> bool {
    let t = since(t0, t1);
    let f = operand_fetch(mode, c0, t);
    let n = f.3;
    let last = if dummy_read { n + 1 } else { n };
    &&& extends(t0, t1)
    &&& f.0 && t.len() == last + 1
    &&& dummy_read ==> is_read_at(t[n], f.1)
    &&& is_write_of(t[last], f.1, store_value(op, c0))
    &&& c1 == advanced(c0, operand_size(mode))
}

#[verifier::spinoff_prover]
#[verifier::rlimit(40)]
fn store_op(cpu: &mut CpuRp2a03, bus: &mut Bus, op: StoreOp, mode: Mode, dummy_read: bool)
    requires
        old(bus).wf(),
    ensures
        final(bus).wf(),
        bus_run(*old(bus), *final(bus)),
        executes_store(op, mode, dummy_read, *old(cpu), *final(cpu), old(bus).accesses@, final(bus).accesses@),
        ram_takes_last_write(*old(bus), *final(bus)),
{
    let ghost c0 = *cpu;
    let ghost t0 = bus.accesses@;
    let (addr, _page) = operand_address(cpu, bus, mode);
    let ghost t1 = bus.accesses@;
    if dummy_read {
        let _ = bus.read(addr);
        proof {
            lemma_since_push(t0, t1, bus.accesses@.last());
            lemma_fetch_extend(mode, c0, since(t0, t1), bus.accesses@.last());
        }
    }
    let ghost t2 = bus.accesses@;
    let val = match op {
        StoreOp::Sta => cpu.a(),
        StoreOp::Stx => cpu.x(),
        StoreOp::Sty => cpu.y(),
        StoreOp::Sax => cpu.a() & cpu.x(),
    };
    bus.write(addr, val);
    proof {
        lemma_since_push(t0, t2, bus.accesses@.last());
        lemma_fetch_extend(mode, c0, since(t0, t2), bus.accesses@.last());
    }
}


// ---------------------------------------------------------------------------
// Stack
// ---------------------------------------------------------------------------
/// The stack lives in page 1: stack pointer `sp` addresses $0100 + sp.
pub open spec fn stack_addr(sp: u8) -> u16 {
    (0x0100 + sp) as u16
}

proof fn lemma_stack_addr(sp: u8)
    ensures
        0x0100 | (sp as u16) == stack_addr(sp),
        stack_addr(sp) < 0x2000,
        ram_index(stack_addr(sp)) == 0x100 + sp,
{
    crate::bits::lemma_byte_bits(sp);
}

/// Pushes `val`: a write at the stack pointer, which then moves down (wrapping).
pub fn push(cpu: &mut CpuRp2a03, bus: &mut Bus, val: u8)
    requires
        old(bus).wf(),
    ensures
        final(bus).wf(),
        bus_run(*old(bus), *final(bus)),
        final(bus).accesses@ == old(bus).accesses@.push(
            BusAccess { addr: stack_addr(old(cpu).st), val, write: true },
        ),
        final(bus).ram@ == old(bus).ram@.update(0x100 + old(cpu).st, val),
        *final(cpu) == (CpuRp2a03 { st: old(cpu).st.wrapping_sub(1), ..*old(cpu) }),
        crate::bus::cpu_write_step(*old(bus), stack_addr(old(cpu).st), val, *final(bus)),
{
    proof {
        lemma_stack_addr(cpu.st);
    }
    bus.write(0x0100 | cpu.st() as u16, val);
    cpu.set_st(cpu.st().wrapping_sub(1));
}

/// Pulls a byte: the stack pointer moves up (wrapping), then a read there, which
/// returns the RAM byte.
pub fn pull(cpu: &mut CpuRp2a03, bus: &mut Bus) -> (r: u8)
    requires
        old(bus).wf(),
    ensures
        final(bus).wf(),
        bus_run(*old(bus), *final(bus)),
        final(bus).accesses@ == old(bus).accesses@.push(
            BusAccess { addr: stack_addr(old(cpu).st.wrapping_add(1)), val: r, write: false },
        ),
        final(bus).ram == old(bus).ram,
        r == old(bus).ram[0x100 + old(cpu).st.wrapping_add(1)],
        *final(cpu) == (CpuRp2a03 { st: old(cpu).st.wrapping_add(1), ..*old(cpu) }),
{
    cpu.set_st(cpu.st().wrapping_add(1));
    proof {
        lemma_stack_addr(cpu.st);
    }
    bus.read(0x0100 | cpu.st() as u16)
}

/// A byte pushed and then pulled comes back, whatever the stack pointer.
pub proof fn lemma_push_then_pull(ram: Seq<u8>, sp: u8, val: u8)
    requires
        ram.len() == 2048,
    ensures
        ram.update(0x100 + sp, val)[0x100 + sp.wrapping_sub(1).wrapping_add(1)] == val,
{
    assert(sp.wrapping_sub(1).wrapping_add(1) == sp);
}

/// JSR pushes the return address less one, high byte first; RTS pulls it back and
/// adds one, so it resumes after the JSR's operand.
pub proof fn lemma_jsr_then_rts(ram: Seq<u8>, sp: u8, ret: u16)
    requires
        ram.len() == 2048,
    ensures
        ({
            let after = ram.update(0x100 + sp, (ret >> 8u16) as u8).update(0x100 + sp.wrapping_sub(1), ret as u8);
            let s2 = sp.wrapping_sub(1).wrapping_sub(1);
            word(after[0x100 + s2.wrapping_add(1)], after[0x100 + s2.wrapping_add(1).wrapping_add(1)]).wrapping_add(1)
                == ret.wrapping_add(1)
        }),
{
    let s2 = sp.wrapping_sub(1).wrapping_sub(1);
    assert(s2.wrapping_add(1) == sp.wrapping_sub(1));
    assert(s2.wrapping_add(1).wrapping_add(1) == sp);
    assert(sp.wrapping_sub(1) != sp);
    crate::bits::lemma_word_bits(ret);
}

// ---------------------------------------------------------------------------
// Branches and jumps
// ---------------------------------------------------------------------------
/// The signed displacement `d` as a 16-bit two's-complement offset.
pub open spec fn displacement(d: u8) -> u16 {
    if d >= 128 { (d + 0xFF00) as u16 } else { d as u16 }
}

/// A conditional branch: the displacement byte is read at pc; when taken, pc moves
/// by it (3 cycles, 4 across a page), else 2 cycles.
pub open spec fn executes_branch(cond: bool, c0: CpuRp2a03, c1: CpuRp2a03, t0: Seq<BusAccess>, t1: Seq<BusAccess>, cycles: u8) -> bool {
    let t = since(t0, t1);
    let next = c0.pc.wrapping_add(1);
    let target = next.wrapping_add(displacement(t[0].val));
    &&& extends(t0, t1)
    &&& t.len() == 1 && is_read_at(t[0], c0.pc)
    &&& c1 == CpuRp2a03 { pc: if cond { target } else { next }, ..c0 }
    &&& cycles == (if cond { 3 + ((((next ^ target) >> 8u16) as u8) & 1) } else { 2 })
}

fn branch(cpu: &mut CpuRp2a03, bus: &mut Bus, cond: bool) -> (r: u8)
    requires
        old(bus).wf(),
    ensures
        final(bus).wf(),
        bus_run(*old(bus), *final(bus)),
        executes_branch(cond, *old(cpu), *final(cpu), old(bus).accesses@, final(bus).accesses@, r),
        final(bus).ram == old(bus).ram,
        2 <= r <= 4,
{
    let ghost t0 = bus.accesses@;
    proof {
        lemma_since_refl(t0);
    }
    let d = bus.read(cpu.pc());
    proof {
        lemma_since_push(t0, t0, bus.accesses@.last());
    }
    let disp: u16 = if d >= 128 { d as u16 + 0xFF00 } else { d as u16 };
    cpu.set_pc(cpu.pc().wrapping_add(1));
    if cond {
        let old_pc = cpu.pc();
        let new_pc = old_pc.wrapping_add(disp);
        cpu.set_pc(new_pc);
        proof {
            crate::bits::lemma_byte_bits(((old_pc ^ new_pc) >> 8u16) as u8);
        }
        2 + 1 + (((old_pc ^ new_pc) >> 8) as u8 & 1)
    } else {
        2
    }
}

pub fn bpl(cpu: &mut CpuRp2a03, bus: &mut Bus) -> (r: u8)
    requires
        old(bus).wf(),
    ensures
        final(bus).wf(),
        bus_run(*old(bus), *final(bus)),
        executes_branch(old(cpu).sr & FLAG_NEGATIVE == 0, *old(cpu), *final(cpu), old(bus).accesses@, final(bus).accesses@, r),
        final(bus).ram == old(bus).ram,
        2 <= r <= 4,
{
    let c = !cpu.get_flag(FLAG_NEGATIVE);
    branch(cpu, bus, c)
}

pub fn bmi(cpu: &mut CpuRp2a03, bus: &mut Bus) -> (r: u8)
    requires
        old(bus).wf(),
    ensures
        final(bus).wf(),
        bus_run(*old(bus), *final(bus)),
        executes_branch(old(cpu).sr & FLAG_NEGATIVE != 0, *old(cpu), *final(cpu), old(bus).accesses@, final(bus).accesses@, r),
        final(bus).ram == old(bus).ram,
        2 <= r <= 4,
{
    let c = cpu.get_flag(FLAG_NEGATIVE);
    branch(cpu, bus, c)
}

pub fn bvc(cpu: &mut CpuRp2a03, bus: &mut Bus) -> (r: u8)
    requires
        old(bus).wf(),
    ensures
        final(bus).wf(),
        bus_run(*old(bus), *final(bus)),
        executes_branch(old(cpu).sr & FLAG_OVERFLOW == 0, *old(cpu), *final(cpu), old(bus).accesses@, final(bus).accesses@, r),
        final(bus).ram == old(bus).ram,
        2 <= r <= 4,
{
    let c = !cpu.get_flag(FLAG_OVERFLOW);
    branch(cpu, bus, c)
}

pub fn bvs(cpu: &mut CpuRp2a03, bus: &mut Bus) -> (r: u8)
    requires
        old(bus).wf(),
    ensures
        final(bus).wf(),
        bus_run(*old(bus), *final(bus)),
        executes_branch(old(cpu).sr & FLAG_OVERFLOW != 0, *old(cpu), *final(cpu), old(bus).accesses@, final(bus).accesses@, r),
        final(bus).ram == old(bus).ram,
        2 <= r <= 4,
{
    let c = cpu.get_flag(FLAG_OVERFLOW);
    branch(cpu, bus, c)
}

pub fn bcc(cpu: &mut CpuRp2a03, bus: &mut Bus) -> (r: u8)
    requires
        old(bus).wf(),
    ensures
        final(bus).wf(),
        bus_run(*old(bus), *final(bus)),
        executes_branch(old(cpu).sr & FLAG_CARRY == 0, *old(cpu), *final(cpu), old(bus).accesses@, final(bus).accesses@, r),
        final(bus).ram == old(bus).ram,
        2 <= r <= 4,
{
    let c = !cpu.get_flag(FLAG_CARRY);
    branch(cpu, bus, c)
}

pub fn bcs(cpu: &mut CpuRp2a03, bus: &mut Bus) -> (r: u8)
    requires
        old(bus).wf(),
    ensures
        final(bus).wf(),
        bus_run(*old(bus), *final(bus)),
        executes_branch(old(cpu).sr & FLAG_CARRY != 0, *old(cpu), *final(cpu), old(bus).accesses@, final(bus).accesses@, r),
        final(bus).ram == old(bus).ram,
        2 <= r <= 4,
{
    let c = cpu.get_flag(FLAG_CARRY);
    branch(cpu, bus, c)
}

pub fn bne(cpu: &mut CpuRp2a03, bus: &mut Bus) -> (r: u8)
    requires
        old(bus).wf(),
    ensures
        final(bus).wf(),
        bus_run(*old(bus), *final(bus)),
        executes_branch(old(cpu).sr & FLAG_ZERO == 0, *old(cpu), *final(cpu), old(bus).accesses@, final(bus).accesses@, r),
        final(bus).ram == old(bus).ram,
        2 <= r <= 4,
{
    let c = !cpu.get_flag(FLAG_ZERO);
    branch(cpu, bus, c)
}

pub fn beq(cpu: &mut CpuRp2a03, bus: &mut Bus) -> (r: u8)
    requires
        old(bus).wf(),
    ensures
        final(bus).wf(),
        bus_run(*old(bus), *final(bus)),
        executes_branch(old(cpu).sr & FLAG_ZERO != 0, *old(cpu), *final(cpu), old(bus).accesses@, final(bus).accesses@, r),
        final(bus).ram == old(bus).ram,
        2 <= r <= 4,
{
    let c = cpu.get_flag(FLAG_ZERO);
    branch(cpu, bus, c)
}

/// JMP absolute: pc := the operand word.
pub fn jmp_abs(cpu: &mut CpuRp2a03, bus: &mut Bus) -> (r: u8)
    requires
        old(bus).wf(),
    ensures
        final(bus).wf(),
        bus_run(*old(bus), *final(bus)),
        final(bus).ram == old(bus).ram,
        ({
            let t = since(old(bus).accesses@, final(bus).accesses@);
            &&& extends(old(bus).accesses@, final(bus).accesses@)
            &&& t.len() == 2 && is_read_at(t[0], old(cpu).pc) && is_read_at(t[1], old(cpu).pc.wrapping_add(1))
            &&& *final(cpu) == (CpuRp2a03 { pc: word(t[0].val, t[1].val), ..*old(cpu) })
        }),
        r == 3,
{
    let target = abs(cpu, bus);
    cpu.set_pc(target);
    3
}

/// JMP indirect: pc := the word at the operand address, whose high byte comes
/// from the start of the same page when the pointer ends in $FF.
pub fn jmp_ind(cpu: &mut CpuRp2a03, bus: &mut Bus) -> (r: u8)
    requires
        old(bus).wf(),
    ensures
        final(bus).wf(),
        bus_run(*old(bus), *final(bus)),
        final(bus).ram == old(bus).ram,
        ({
            let t = since(old(bus).accesses@, final(bus).accesses@);
            let ptr = word(t[0].val, t[1].val);
            let hi_ptr = if ptr & 0xFF == 0xFF { ptr & 0xFF00 } else { ptr.wrapping_add(1) };
            &&& extends(old(bus).accesses@, final(bus).accesses@)
            &&& t.len() == 4 && is_read_at(t[0], old(cpu).pc) && is_read_at(t[1], old(cpu).pc.wrapping_add(1))
            &&& is_read_at(t[2], ptr) && is_read_at(t[3], hi_ptr)
            &&& *final(cpu) == (CpuRp2a03 { pc: word(t[2].val, t[3].val), ..*old(cpu) })
        }),
        r == 5,
{
    let ghost t0 = bus.accesses@;
    let ptr = abs(cpu, bus);
    let ghost t1 = bus.accesses@;
    let lo = bus.read(ptr);
    proof {
        lemma_since_push(t0, t1, bus.accesses@.last());
    }
    let ghost t2 = bus.accesses@;
    let hi_ptr = if ptr & 0xFF == 0xFF { ptr & 0xFF00 } else { ptr.wrapping_add(1) };
    let hi = bus.read(hi_ptr);
    proof {
        lemma_since_push(t0, t2, bus.accesses@.last());
        lemma_word_exec(lo, hi);
    }
    cpu.set_pc((lo as u16) | ((hi as u16) << 8));
    5
}

/// JSR: pushes the address of its last operand byte (high byte first), then jumps
/// to the operand word.
pub fn jsr(cpu: &mut CpuRp2a03, bus: &mut Bus) -> (r: u8)
    requires
        old(bus).wf(),
    ensures
        final(bus).wf(),
        bus_run(*old(bus), *final(bus)),
        ({
            let t = since(old(bus).accesses@, final(bus).accesses@);
            let ret = old(cpu).pc.wrapping_add(1);
            let sp = old(cpu).st;
            &&& extends(old(bus).accesses@, final(bus).accesses@)
            &&& t.len() == 4 && is_read_at(t[0], old(cpu).pc) && is_read_at(t[1], old(cpu).pc.wrapping_add(1))
            &&& is_write_of(t[2], stack_addr(sp), (ret >> 8u16) as u8)
            &&& is_write_of(t[3], stack_addr(sp.wrapping_sub(1)), ret as u8)
            &&& final(bus).ram@ == old(bus).ram@.update(0x100 + sp, (ret >> 8u16) as u8).update(
                0x100 + sp.wrapping_sub(1),
                ret as u8,
            )
            &&& *final(cpu) == (CpuRp2a03 {
                pc: word(t[0].val, t[1].val),
                st: sp.wrapping_sub(1).wrapping_sub(1),
                ..*old(cpu)
            })
        }),
        r == 6,
{
    let ghost t0 = bus.accesses@;
    let ghost c0 = *cpu;
    let target = abs(cpu, bus);
    let ghost t1 = bus.accesses@;
    let ghost ram0 = bus.ram@;
    cpu.set_pc(cpu.pc().wrapping_add(2));
    let return_addr = cpu.pc().wrapping_sub(1);
    assert(return_addr == c0.pc.wrapping_add(1));
    push(cpu, bus, (return_addr >> 8) as u8);
    proof {
        lemma_since_push(t0, t1, bus.accesses@.last());
    }
    let ghost t2 = bus.accesses@;
    push(cpu, bus, return_addr as u8);
    proof {
        lemma_since_push(t0, t2, bus.accesses@.last());
    }
    cpu.set_pc(target);
    6
}

/// RTS: pulls the return address (low byte first) and resumes one past it.
pub fn rts(cpu: &mut CpuRp2a03, bus: &mut Bus) -> (r: u8)
    requires
        old(bus).wf(),
    ensures
        final(bus).wf(),
        bus_run(*old(bus), *final(bus)),
        final(bus).ram == old(bus).ram,
        ({
            let t = since(old(bus).accesses@, final(bus).accesses@);
            let sp = old(cpu).st;
            let lo = old(bus).ram[0x100 + sp.wrapping_add(1)];
            let hi = old(bus).ram[0x100 + sp.wrapping_add(1).wrapping_add(1)];
            &&& extends(old(bus).accesses@, final(bus).accesses@)
            &&& t.len() == 2 && is_read_at(t[0], stack_addr(sp.wrapping_add(1)))
            &&& is_read_at(t[1], stack_addr(sp.wrapping_add(1).wrapping_add(1)))
            &&& *final(cpu) == (CpuRp2a03 {
                pc: word(lo, hi).wrapping_add(1),
                st: sp.wrapping_add(1).wrapping_add(1),
                ..*old(cpu)
            })
        }),
        r == 6,
{
    let ghost t0 = bus.accesses@;
    proof {
        lemma_since_refl(t0);
    }
    let lo = pull(cpu, bus);
    proof {
        lemma_since_push(t0, t0, bus.accesses@.last());
    }
    let ghost t1 = bus.accesses@;
    let hi = pull(cpu, bus);
    proof {
        lemma_since_push(t0, t1, bus.accesses@.last());
        lemma_word_exec(lo, hi);
    }
    cpu.set_pc(((lo as u16) | ((hi as u16) << 8)).wrapping_add(1));
    6
}


// ---------------------------------------------------------------------------
// Interrupt return, stack transfers
// ---------------------------------------------------------------------------
/// BRK: skips its padding byte, pushes pc (high first) and the status with B set,
/// sets I, and jumps through the IRQ vector at $FFFE.
pub fn brk(cpu: &mut CpuRp2a03, bus: &mut Bus) -> (r: u8)
    requires
        old(bus).wf(),
    ensures
        final(bus).wf(),
        bus_run(*old(bus), *final(bus)),
        extends(old(bus).accesses@, final(bus).accesses@),
        ({
            let t = since(old(bus).accesses@, final(bus).accesses@);
            let pc1 = old(cpu).pc.wrapping_add(1);
            let sp = old(cpu).st;
            let sr_b = with_flag(old(cpu).sr, FLAG_BREAK, true);
            &&& extends(old(bus).accesses@, final(bus).accesses@)
            &&& t.len() == 5
            &&& is_write_of(t[0], stack_addr(sp), (pc1 >> 8u16) as u8)
            &&& is_write_of(t[1], stack_addr(sp.wrapping_sub(1)), pc1 as u8)
            &&& is_write_of(t[2], stack_addr(sp.wrapping_sub(1).wrapping_sub(1)), sr_b)
            &&& is_read_at(t[3], 0xFFFE) && is_read_at(t[4], 0xFFFF)
            &&& final(bus).ram@ == old(bus).ram@.update(0x100 + sp, (pc1 >> 8u16) as u8).update(
                0x100 + sp.wrapping_sub(1),
                pc1 as u8,
            ).update(0x100 + sp.wrapping_sub(1).wrapping_sub(1), sr_b)
            &&& *final(cpu) == (CpuRp2a03 {
                pc: word(t[3].val, t[4].val),
                st: sp.wrapping_sub(1).wrapping_sub(1).wrapping_sub(1),
                sr: with_flag(sr_b, FLAG_INTERRUPT, true),
                ..*old(cpu)
            })
        }),
        r == 7,
{
    let ghost t0 = bus.accesses@;
    proof {
        lemma_since_refl(t0);
    }
    cpu.set_pc(cpu.pc().wrapping_add(1));
    push(cpu, bus, (cpu.pc() >> 8) as u8);
    proof {
        lemma_since_push(t0, t0, bus.accesses@.last());
    }
    let ghost t1 = bus.accesses@;
    push(cpu, bus, cpu.pc() as u8);
    proof {
        lemma_since_push(t0, t1, bus.accesses@.last());
    }
    let ghost t2 = bus.accesses@;
    cpu.set_flag(FLAG_BREAK, true);
    push(cpu, bus, cpu.sr());
    proof {
        lemma_since_push(t0, t2, bus.accesses@.last());
    }
    let ghost t3 = bus.accesses@;
    cpu.set_flag(FLAG_INTERRUPT, true);
    let lo = bus.read(0xFFFE);
    proof {
        lemma_since_push(t0, t3, bus.accesses@.last());
    }
    let ghost t4 = bus.accesses@;
    let hi = bus.read(0xFFFF);
    proof {
        lemma_since_push(t0, t4, bus.accesses@.last());
        lemma_word_exec(lo, hi);
    }
    cpu.set_pc((lo as u16) | ((hi as u16) << 8));
    7
}

/// RTI: pulls the status, then pc (low byte first).
pub fn rti(cpu: &mut CpuRp2a03, bus: &mut Bus) -> (r: u8)
    requires
        old(bus).wf(),
    ensures
        final(bus).wf(),
        bus_run(*old(bus), *final(bus)),
        final(bus).ram == old(bus).ram,
        ({
            let t = since(old(bus).accesses@, final(bus).accesses@);
            let s1 = old(cpu).st.wrapping_add(1);
            let s2 = s1.wrapping_add(1);
            let s3 = s2.wrapping_add(1);
            &&& extends(old(bus).accesses@, final(bus).accesses@)
            &&& t.len() == 3 && is_read_at(t[0], stack_addr(s1)) && is_read_at(t[1], stack_addr(s2))
            &&& is_read_at(t[2], stack_addr(s3))
            &&& *final(cpu) == (CpuRp2a03 {
                sr: old(bus).ram[0x100 + s1],
                pc: word(old(bus).ram[0x100 + s2], old(bus).ram[0x100 + s3]),
                st: s3,
                ..*old(cpu)
            })
        }),
        r == 6,
{
    let ghost t0 = bus.accesses@;
    proof {
        lemma_since_refl(t0);
    }
    let sr = pull(cpu, bus);
    proof {
        lemma_since_push(t0, t0, bus.accesses@.last());
    }
    cpu.set_sr(sr);
    let ghost t1 = bus.accesses@;
    let lo = pull(cpu, bus);
    proof {
        lemma_since_push(t0, t1, bus.accesses@.last());
    }
    let ghost t2 = bus.accesses@;
    let hi = pull(cpu, bus);
    proof {
        lemma_since_push(t0, t2, bus.accesses@.last());
        lemma_word_exec(lo, hi);
    }
    cpu.set_pc((lo as u16) | ((hi as u16) << 8));
    6
}

/// PHA: pushes A.
pub fn pha(cpu: &mut CpuRp2a03, bus: &mut Bus) -> (r: u8)
    requires
        old(bus).wf(),
    ensures
        final(bus).wf(),
        bus_run(*old(bus), *final(bus)),
        extends(old(bus).accesses@, final(bus).accesses@),
        final(bus).accesses@ == old(bus).accesses@.push(
            BusAccess { addr: stack_addr(old(cpu).st), val: old(cpu).a, write: true },
        ),
        final(bus).ram@ == old(bus).ram@.update(0x100 + old(cpu).st, old(cpu).a),
        *final(cpu) == (CpuRp2a03 { st: old(cpu).st.wrapping_sub(1), ..*old(cpu) }),
        r == 3,
{
    proof {
        lemma_since_refl(bus.accesses@);
    }
    let ghost t0 = bus.accesses@;
    let a = cpu.a();
    push(cpu, bus, a);
    proof {
        lemma_since_push(t0, t0, bus.accesses@.last());
    }
    3
}

/// PLA: pulls A, setting N and Z.
pub fn pla(cpu: &mut CpuRp2a03, bus: &mut Bus) -> (r: u8)
    requires
        old(bus).wf(),
    ensures
        final(bus).wf(),
        bus_run(*old(bus), *final(bus)),
        extends(old(bus).accesses@, final(bus).accesses@),
        final(bus).ram == old(bus).ram,
        ({
            let s1 = old(cpu).st.wrapping_add(1);
            let v = old(bus).ram[0x100 + s1];
            &&& final(bus).accesses@ == old(bus).accesses@.push(BusAccess { addr: stack_addr(s1), val: v, write: false })
            &&& *final(cpu) == (CpuRp2a03 { a: v, st: s1, sr: nz(old(cpu).sr, v), ..*old(cpu) })
        }),
        r == 4,
{
    proof {
        lemma_since_refl(bus.accesses@);
    }
    let ghost t0 = bus.accesses@;
    let val = pull(cpu, bus);
    cpu.set_a(val);
    set_nz(cpu, val);
    proof {
        lemma_since_push(t0, t0, bus.accesses@.last());
    }
    4
}

/// PHP: pushes the status with B set.
pub fn php(cpu: &mut CpuRp2a03, bus: &mut Bus) -> (r: u8)
    requires
        old(bus).wf(),
    ensures
        final(bus).wf(),
        bus_run(*old(bus), *final(bus)),
        extends(old(bus).accesses@, final(bus).accesses@),
        final(bus).accesses@ == old(bus).accesses@.push(
            BusAccess { addr: stack_addr(old(cpu).st), val: old(cpu).sr | FLAG_BREAK, write: true },
        ),
        final(bus).ram@ == old(bus).ram@.update(0x100 + old(cpu).st, old(cpu).sr | FLAG_BREAK),
        *final(cpu) == (CpuRp2a03 { st: old(cpu).st.wrapping_sub(1), ..*old(cpu) }),
        r == 3,
{
    proof {
        lemma_since_refl(bus.accesses@);
    }
    let ghost t0 = bus.accesses@;
    let v = cpu.sr() | FLAG_BREAK;
    push(cpu, bus, v);
    proof {
        lemma_since_push(t0, t0, bus.accesses@.last());
    }
    3
}

/// PLP: pulls the status, with B cleared.
pub fn plp(cpu: &mut CpuRp2a03, bus: &mut Bus) -> (r: u8)
    requires
        old(bus).wf(),
    ensures
        final(bus).wf(),
        bus_run(*old(bus), *final(bus)),
        extends(old(bus).accesses@, final(bus).accesses@),
        final(bus).ram == old(bus).ram,
        ({
            let s1 = old(cpu).st.wrapping_add(1);
            let v = old(bus).ram[0x100 + s1];
            &&& final(bus).accesses@ == old(bus).accesses@.push(BusAccess { addr: stack_addr(s1), val: v, write: false })
            &&& *final(cpu) == (CpuRp2a03 { st: s1, sr: v & !FLAG_BREAK, ..*old(cpu) })
        }),
        r == 4,
{
    proof {
        lemma_since_refl(bus.accesses@);
    }
    let ghost t0 = bus.accesses@;
    let v = pull(cpu, bus) & !FLAG_BREAK;
    cpu.set_sr(v);
    proof {
        lemma_since_push(t0, t0, bus.accesses@.last());
    }
    4
}

// ---------------------------------------------------------------------------
// The SH* stores (high byte of the address + 1 ANDed into the value)
// ---------------------------------------------------------------------------
/// Where an SH* store lands: base + index, except that on a page cross the high
/// byte becomes (base high byte + 1) AND `mask`.
pub open spec fn sh_target(base: u16, idx: u8, mask: u8) -> u16 {
    let ix = indexed(base, idx);
    if ix.1 != 0 {
        (ix.0 & 0x00FF) | (((((base >> 8u16) as u8).wrapping_add(1) & mask) as u16) << 8u16)
    } else {
        ix.0
    }
}

/// The stored value: `v` AND (base high byte + 1), unless a DMC DMA just fired.
pub open spec fn sh_value(v: u8, base: u16, dma_fired: bool) -> u8 {
    if dma_fired { v } else { v & ((base >> 8u16) as u8).wrapping_add(1) }
}

/// The last two cycles of an SH* store: a read at base + index, then the write.
fn sh_store(bus: &mut Bus, base: u16, idx: u8, mask: u8, v: u8)
    requires
        old(bus).wf(),
    ensures
        final(bus).wf(),
        ram_takes_last_write(*old(bus), *final(bus)),
        bus_run(Bus { dmc_just_fired: false, ..*old(bus) }, *final(bus)),
        !final(bus).dmc_just_fired,
        ({
            let t = since(old(bus).accesses@, final(bus).accesses@);
            &&& extends(old(bus).accesses@, final(bus).accesses@)
            &&& t.len() == 2 && is_read_at(t[0], indexed(base, idx).0)
            &&& is_write_of(t[1], sh_target(base, idx, mask), sh_value(v, base, old(bus).dmc_just_fired))
        }),
{
    let ghost t0 = bus.accesses@;
    proof {
        lemma_since_refl(t0);
        lemma_indexed_exec(base, idx);
    }
    let addr = base.wrapping_add(idx as u16);
    let page = (((base ^ addr) >> 8) as u8) & 1;
    let h = ((base >> 8) as u8).wrapping_add(1);
    let ignore_h = bus.dmc_just_fired;
    bus.dmc_just_fired = false;
    let final_h: u8 = if ignore_h { 0xFF } else { h };
    let val = v & final_h;
    proof {
        crate::bits::lemma_byte_bits(v);
    }
    let _ = bus.read(addr);
    proof {
        lemma_since_push(t0, t0, bus.accesses@.last());
    }
    let ghost t1 = bus.accesses@;
    let final_addr = if page != 0 { (addr as u8 as u16) | ((h & mask) as u16) << 8 } else { addr };
    proof {
        crate::bits::lemma_word_bits(addr);
    }
    bus.write(final_addr, val);
    proof {
        lemma_since_push(t0, t1, bus.accesses@.last());
    }
}

/// SHA (indirect),Y: stores A AND X AND (H + 1); the pointer's high byte is read at
/// pointer + 1 without zero-page wrap.
pub fn sha_indy(cpu: &mut CpuRp2a03, bus: &mut Bus) -> (r: u8)
    requires
        old(bus).wf(),
    ensures
        final(bus).wf(),
        sh_run(*old(bus), *final(bus)),
        ram_takes_last_write(*old(bus), *final(bus)),
        !final(bus).dmc_just_fired,
        ({
            let t = since(old(bus).accesses@, final(bus).accesses@);
            let c = *old(cpu);
            let ptr = t[0].val as u16;
            let base = word(t[1].val, t[2].val);
            &&& extends(old(bus).accesses@, final(bus).accesses@)
            &&& t.len() == 5 && is_read_at(t[0], c.pc) && is_read_at(t[1], ptr) && is_read_at(t[2], ptr.wrapping_add(1))
            &&& is_read_at(t[3], indexed(base, c.y).0)
            &&& is_write_of(t[4], sh_target(base, c.y, c.x), sh_value(c.a & c.x, base, old(bus).dmc_just_fired))
            &&& *final(cpu) == advanced(c, 1)
        }),
        r == 6,
{
    let ghost t0 = bus.accesses@;
    proof {
        lemma_since_refl(t0);
    }
    let ptr = bus.read(cpu.pc()) as u16;
    proof {
        lemma_since_push(t0, t0, bus.accesses@.last());
    }
    let ghost t1 = bus.accesses@;
    let lo = bus.read(ptr);
    proof {
        lemma_since_push(t0, t1, bus.accesses@.last());
    }
    let ghost t2 = bus.accesses@;
    let hi = bus.read(ptr.wrapping_add(1));
    proof {
        lemma_since_push(t0, t2, bus.accesses@.last());
        lemma_word_exec(lo, hi);
    }
    let ghost t3 = bus.accesses@;
    let base = (lo as u16) | ((hi as u16) << 8);
    cpu.set_pc(cpu.pc().wrapping_add(1));
    let v = cpu.a() & cpu.x();
    sh_store(bus, base, cpu.y(), cpu.x(), v);
    proof {
        lemma_sh_trace(t0, t3, bus.accesses@);
    }
    6
}

/// The absolute operand word of an SH* store.
fn sh_base(cpu: &mut CpuRp2a03, bus: &mut Bus) -> (r: u16)
    requires
        old(bus).wf(),
    ensures
        bus_step(&*old(bus), &*final(bus)),
        final(bus).dmc_just_fired == old(bus).dmc_just_fired,
        ({
            let t = since(old(bus).accesses@, final(bus).accesses@);
            &&& t.len() == 2 && is_read_at(t[0], old(cpu).pc) && is_read_at(t[1], old(cpu).pc.wrapping_add(1))
            &&& r == word(t[0].val, t[1].val)
        }),
        *final(cpu) == advanced(*old(cpu), 2),
{
    let ghost t0 = bus.accesses@;
    proof {
        lemma_since_refl(t0);
    }
    let lo = bus.read(cpu.pc());
    proof {
        lemma_since_push(t0, t0, bus.accesses@.last());
    }
    let ghost t1 = bus.accesses@;
    let hi = bus.read(cpu.pc().wrapping_add(1));
    proof {
        lemma_since_push(t0, t1, bus.accesses@.last());
        lemma_word_exec(lo, hi);
    }
    cpu.set_pc(cpu.pc().wrapping_add(2));
    (lo as u16) | ((hi as u16) << 8)
}

/// An absolute-indexed SH* store of `v`: the operand word, a read at base + `idx`,
/// then the write.
pub open spec fn executes_sh_abs(idx: u8, mask: u8, v: u8, dma_fired: bool, c0: CpuRp2a03, t0: Seq<BusAccess>, t1: Seq<BusAccess>) -> bool {
    let t = since(t0, t1);
    let base = word(t[0].val, t[1].val);
    &&& extends(t0, t1)
    &&& t.len() == 4 && is_read_at(t[0], c0.pc) && is_read_at(t[1], c0.pc.wrapping_add(1))
    &&& is_read_at(t[2], indexed(base, idx).0)
    &&& is_write_of(t[3], sh_target(base, idx, mask), sh_value(v, base, dma_fired))
}

proof fn lemma_sh_trace(t0: Seq<BusAccess>, t1: Seq<BusAccess>, t2: Seq<BusAccess>)
    requires
        extends(t0, t1),
        extends(t1, t2),
    ensures
        extends(t0, t2),
        since(t0, t2) =~= since(t0, t1) + since(t1, t2),
{
    assert(t2.subrange(0, t0.len() as int) =~= t2.subrange(0, t1.len() as int).subrange(0, t0.len() as int));
    assert(since(t0, t2) =~= since(t0, t1) + since(t1, t2));
}

/// SHA absolute,Y: stores A AND X AND (H + 1).
pub fn sha_absy(cpu: &mut CpuRp2a03, bus: &mut Bus) -> (r: u8)
    requires
        old(bus).wf(),
    ensures
        final(bus).wf(),
        sh_run(*old(bus), *final(bus)),
        !final(bus).dmc_just_fired,
        executes_sh_abs(old(cpu).y, old(cpu).x, old(cpu).a & old(cpu).x, old(bus).dmc_just_fired, *old(cpu), old(bus).accesses@, final(bus).accesses@),
        ram_takes_last_write(*old(bus), *final(bus)),
        *final(cpu) == advanced(*old(cpu), 2),
        r == 5,
{
    let ghost t0 = bus.accesses@;
    let base = sh_base(cpu, bus);
    let ghost t1 = bus.accesses@;
    let v = cpu.a() & cpu.x();
    sh_store(bus, base, cpu.y(), cpu.x(), v);
    proof {
        lemma_sh_trace(t0, t1, bus.accesses@);
    }
    5
}

/// SHS absolute,Y: S := A AND X, then stores S AND (H + 1).
pub fn shs_absy(cpu: &mut CpuRp2a03, bus: &mut Bus) -> (r: u8)
    requires
        old(bus).wf(),
    ensures
        final(bus).wf(),
        sh_run(*old(bus), *final(bus)),
        !final(bus).dmc_just_fired,
        executes_sh_abs(old(cpu).y, old(cpu).x, old(cpu).a & old(cpu).x, old(bus).dmc_just_fired, *old(cpu), old(bus).accesses@, final(bus).accesses@),
        ram_takes_last_write(*old(bus), *final(bus)),
        *final(cpu) == (CpuRp2a03 { st: old(cpu).a & old(cpu).x, ..advanced(*old(cpu), 2) }),
        r == 5,
{
    let ghost t0 = bus.accesses@;
    let base = sh_base(cpu, bus);
    let ghost t1 = bus.accesses@;
    let sp_val = cpu.a() & cpu.x();
    cpu.set_st(sp_val);
    sh_store(bus, base, cpu.y(), cpu.x(), sp_val);
    proof {
        lemma_sh_trace(t0, t1, bus.accesses@);
    }
    5
}

/// SHY absolute,X: stores Y AND (H + 1).
pub fn shy_absx(cpu: &mut CpuRp2a03, bus: &mut Bus) -> (r: u8)
    requires
        old(bus).wf(),
    ensures
        final(bus).wf(),
        sh_run(*old(bus), *final(bus)),
        !final(bus).dmc_just_fired,
        executes_sh_abs(old(cpu).x, old(cpu).y, old(cpu).y, old(bus).dmc_just_fired, *old(cpu), old(bus).accesses@, final(bus).accesses@),
        ram_takes_last_write(*old(bus), *final(bus)),
        *final(cpu) == advanced(*old(cpu), 2),
        r == 5,
{
    let ghost t0 = bus.accesses@;
    let base = sh_base(cpu, bus);
    let ghost t1 = bus.accesses@;
    sh_store(bus, base, cpu.x(), cpu.y(), cpu.y());
    proof {
        lemma_sh_trace(t0, t1, bus.accesses@);
    }
    5
}

/// SHX absolute,Y: stores X AND (H + 1).
pub fn shx_absy(cpu: &mut CpuRp2a03, bus: &mut Bus) -> (r: u8)
    requires
        old(bus).wf(),
    ensures
        final(bus).wf(),
        sh_run(*old(bus), *final(bus)),
        !final(bus).dmc_just_fired,
        executes_sh_abs(old(cpu).y, old(cpu).x, old(cpu).x, old(bus).dmc_just_fired, *old(cpu), old(bus).accesses@, final(bus).accesses@),
        ram_takes_last_write(*old(bus), *final(bus)),
        *final(cpu) == advanced(*old(cpu), 2),
        r == 5,
{
    let ghost t0 = bus.accesses@;
    let base = sh_base(cpu, bus);
    let ghost t1 = bus.accesses@;
    sh_store(bus, base, cpu.y(), cpu.x(), cpu.x());
    proof {
        lemma_sh_trace(t0, t1, bus.accesses@);
    }
    5
}


// ---------------------------------------------------------------------------
// Register-only instructions
// ---------------------------------------------------------------------------
/// ASL A: A := A << 1; C from bit 7.
pub fn asl_a(cpu: &mut CpuRp2a03, bus: &mut Bus) -> (r: u8)
    ensures
        *final(bus) == *old(bus),
        *final(cpu) == (CpuRp2a03 { a: rmw_value(RmwOp::Asl, old(cpu).a, carry_in(*old(cpu))), ..rmw_effect(RmwOp::Asl, *old(cpu), old(cpu).a) }),
        r == 2,
{
    let a = cpu.a();
    let w = apply_rmw(cpu, RmwOp::Asl, a);
    cpu.set_a(w);
    2
}

/// LSR A: A := A >> 1; C from bit 0.
pub fn lsr_a(cpu: &mut CpuRp2a03, bus: &mut Bus) -> (r: u8)
    ensures
        *final(bus) == *old(bus),
        *final(cpu) == (CpuRp2a03 { a: rmw_value(RmwOp::Lsr, old(cpu).a, carry_in(*old(cpu))), ..rmw_effect(RmwOp::Lsr, *old(cpu), old(cpu).a) }),
        r == 2,
{
    let a = cpu.a();
    let w = apply_rmw(cpu, RmwOp::Lsr, a);
    cpu.set_a(w);
    2
}

/// ROL A: A := (A << 1) | C.
pub fn rol_a(cpu: &mut CpuRp2a03, bus: &mut Bus) -> (r: u8)
    ensures
        *final(bus) == *old(bus),
        *final(cpu) == (CpuRp2a03 { a: rmw_value(RmwOp::Rol, old(cpu).a, carry_in(*old(cpu))), ..rmw_effect(RmwOp::Rol, *old(cpu), old(cpu).a) }),
        r == 2,
{
    let a = cpu.a();
    let w = apply_rmw(cpu, RmwOp::Rol, a);
    cpu.set_a(w);
    2
}

/// ROR A: A := (A >> 1) | C << 7.
pub fn ror_a(cpu: &mut CpuRp2a03, bus: &mut Bus) -> (r: u8)
    ensures
        *final(bus) == *old(bus),
        *final(cpu) == (CpuRp2a03 { a: rmw_value(RmwOp::Ror, old(cpu).a, carry_in(*old(cpu))), ..rmw_effect(RmwOp::Ror, *old(cpu), old(cpu).a) }),
        r == 2,
{
    let a = cpu.a();
    let w = apply_rmw(cpu, RmwOp::Ror, a);
    cpu.set_a(w);
    2
}

/// DEX: X := X - 1 (wrapping); sets N, Z.
pub fn dex(cpu: &mut CpuRp2a03, bus: &mut Bus) -> (r: u8)
    ensures
        *final(bus) == *old(bus),
        *final(cpu) == (CpuRp2a03 { x: old(cpu).x.wrapping_sub(1), sr: nz(old(cpu).sr, old(cpu).x.wrapping_sub(1)), ..*old(cpu) }),
        r == 2,
{
    let result = cpu.x().wrapping_sub(1);
    cpu.set_x(result);
    set_nz(cpu, result);
    2
}

/// DEY: Y := Y - 1 (wrapping); sets N, Z.
pub fn dey(cpu: &mut CpuRp2a03, bus: &mut Bus) -> (r: u8)
    ensures
        *final(bus) == *old(bus),
        *final(cpu) == (CpuRp2a03 { y: old(cpu).y.wrapping_sub(1), sr: nz(old(cpu).sr, old(cpu).y.wrapping_sub(1)), ..*old(cpu) }),
        r == 2,
{
    let result = cpu.y().wrapping_sub(1);
    cpu.set_y(result);
    set_nz(cpu, result);
    2
}

/// INX: X := X + 1 (wrapping); sets N, Z.
pub fn inx(cpu: &mut CpuRp2a03, bus: &mut Bus) -> (r: u8)
    ensures
        *final(bus) == *old(bus),
        *final(cpu) == (CpuRp2a03 { x: old(cpu).x.wrapping_add(1), sr: nz(old(cpu).sr, old(cpu).x.wrapping_add(1)), ..*old(cpu) }),
        r == 2,
{
    let result = cpu.x().wrapping_add(1);
    cpu.set_x(result);
    set_nz(cpu, result);
    2
}

/// INY: Y := Y + 1 (wrapping); sets N, Z.
pub fn iny(cpu: &mut CpuRp2a03, bus: &mut Bus) -> (r: u8)
    ensures
        *final(bus) == *old(bus),
        *final(cpu) == (CpuRp2a03 { y: old(cpu).y.wrapping_add(1), sr: nz(old(cpu).sr, old(cpu).y.wrapping_add(1)), ..*old(cpu) }),
        r == 2,
{
    let result = cpu.y().wrapping_add(1);
    cpu.set_y(result);
    set_nz(cpu, result);
    2
}

/// TAX: X := A; sets N, Z.
pub fn tax(cpu: &mut CpuRp2a03, bus: &mut Bus) -> (r: u8)
    ensures
        *final(bus) == *old(bus),
        *final(cpu) == (CpuRp2a03 { x: old(cpu).a, sr: nz(old(cpu).sr, old(cpu).a), ..*old(cpu) }),
        r == 2,
{
    let val = cpu.a();
    cpu.set_x(val);
    set_nz(cpu, val);
    2
}

/// TXA: A := X; sets N, Z.
pub fn txa(cpu: &mut CpuRp2a03, bus: &mut Bus) -> (r: u8)
    ensures
        *final(bus) == *old(bus),
        *final(cpu) == (CpuRp2a03 { a: old(cpu).x, sr: nz(old(cpu).sr, old(cpu).x), ..*old(cpu) }),
        r == 2,
{
    let val = cpu.x();
    cpu.set_a(val);
    set_nz(cpu, val);
    2
}

/// TAY: Y := A; sets N, Z.
pub fn tay(cpu: &mut CpuRp2a03, bus: &mut Bus) -> (r: u8)
    ensures
        *final(bus) == *old(bus),
        *final(cpu) == (CpuRp2a03 { y: old(cpu).a, sr: nz(old(cpu).sr, old(cpu).a), ..*old(cpu) }),
        r == 2,
{
    let val = cpu.a();
    cpu.set_y(val);
    set_nz(cpu, val);
    2
}

/// TYA: A := Y; sets N, Z.
pub fn tya(cpu: &mut CpuRp2a03, bus: &mut Bus) -> (r: u8)
    ensures
        *final(bus) == *old(bus),
        *final(cpu) == (CpuRp2a03 { a: old(cpu).y, sr: nz(old(cpu).sr, old(cpu).y), ..*old(cpu) }),
        r == 2,
{
    let val = cpu.y();
    cpu.set_a(val);
    set_nz(cpu, val);
    2
}

/// TSX: X := S; sets N, Z.
pub fn tsx(cpu: &mut CpuRp2a03, bus: &mut Bus) -> (r: u8)
    ensures
        *final(bus) == *old(bus),
        *final(cpu) == (CpuRp2a03 { x: old(cpu).st, sr: nz(old(cpu).sr, old(cpu).st), ..*old(cpu) }),
        r == 2,
{
    let val = cpu.st();
    cpu.set_x(val);
    set_nz(cpu, val);
    2
}

/// TXS: S := X (no flags).
pub fn txs(cpu: &mut CpuRp2a03, bus: &mut Bus) -> (r: u8)
    ensures
        *final(bus) == *old(bus),
        *final(cpu) == (CpuRp2a03 { st: old(cpu).x, ..*old(cpu) }),
        r == 2,
{
    let x = cpu.x();
    cpu.set_st(x);
    2
}

/// CLC: clears the carry flag.
pub fn clc(cpu: &mut CpuRp2a03, bus: &mut Bus) -> (r: u8)
    ensures
        *final(bus) == *old(bus),
        *final(cpu) == (CpuRp2a03 { sr: with_flag(old(cpu).sr, FLAG_CARRY, false), ..*old(cpu) }),
        r == 2,
{
    cpu.set_flag(FLAG_CARRY, false);
    2
}

/// SEC: sets the carry flag.
pub fn sec(cpu: &mut CpuRp2a03, bus: &mut Bus) -> (r: u8)
    ensures
        *final(bus) == *old(bus),
        *final(cpu) == (CpuRp2a03 { sr: with_flag(old(cpu).sr, FLAG_CARRY, true), ..*old(cpu) }),
        r == 2,
{
    cpu.set_flag(FLAG_CARRY, true);
    2
}

/// CLD: clears the decimal flag.
pub fn cld(cpu: &mut CpuRp2a03, bus: &mut Bus) -> (r: u8)
    ensures
        *final(bus) == *old(bus),
        *final(cpu) == (CpuRp2a03 { sr: with_flag(old(cpu).sr, FLAG_DECIMAL, false), ..*old(cpu) }),
        r == 2,
{
    cpu.set_flag(FLAG_DECIMAL, false);
    2
}

/// SED: sets the decimal flag.
pub fn sed(cpu: &mut CpuRp2a03, bus: &mut Bus) -> (r: u8)
    ensures
        *final(bus) == *old(bus),
        *final(cpu) == (CpuRp2a03 { sr: with_flag(old(cpu).sr, FLAG_DECIMAL, true), ..*old(cpu) }),
        r == 2,
{
    cpu.set_flag(FLAG_DECIMAL, true);
    2
}

/// CLI: clears the interrupt flag.
pub fn cli(cpu: &mut CpuRp2a03, bus: &mut Bus) -> (r: u8)
    ensures
        *final(bus) == *old(bus),
        *final(cpu) == (CpuRp2a03 { sr: with_flag(old(cpu).sr, FLAG_INTERRUPT, false), ..*old(cpu) }),
        r == 2,
{
    cpu.set_flag(FLAG_INTERRUPT, false);
    2
}

/// SEI: sets the interrupt flag.
pub fn sei(cpu: &mut CpuRp2a03, bus: &mut Bus) -> (r: u8)
    ensures
        *final(bus) == *old(bus),
        *final(cpu) == (CpuRp2a03 { sr: with_flag(old(cpu).sr, FLAG_INTERRUPT, true), ..*old(cpu) }),
        r == 2,
{
    cpu.set_flag(FLAG_INTERRUPT, true);
    2
}

/// CLV: clears the overflow flag.
pub fn clv(cpu: &mut CpuRp2a03, bus: &mut Bus) -> (r: u8)
    ensures
        *final(bus) == *old(bus),
        *final(cpu) == (CpuRp2a03 { sr: with_flag(old(cpu).sr, FLAG_OVERFLOW, false), ..*old(cpu) }),
        r == 2,
{
    cpu.set_flag(FLAG_OVERFLOW, false);
    2
}

/// NOP: does nothing for two cycles.
pub fn nop(cpu: &mut CpuRp2a03, bus: &mut Bus) -> (r: u8)
    ensures
        *final(bus) == *old(bus),
        *final(cpu) == *old(cpu),
        r == 2,
{

    2
}

/// An unassigned opcode: does nothing for two cycles.
pub fn illegal(cpu: &mut CpuRp2a03, bus: &mut Bus) -> (r: u8)
    ensures
        *final(bus) == *old(bus),
        *final(cpu) == *old(cpu),
        r == 2,
{

    2
}

// ---------------------------------------------------------------------------
// Memory instructions by addressing mode
// ---------------------------------------------------------------------------
/// LDA immediate: A := M; sets N, Z.
pub fn lda_imm(cpu: &mut CpuRp2a03, bus: &mut Bus) -> (r: u8)
    requires
        old(bus).wf(),
    ensures
        final(bus).wf(),
        bus_run(*old(bus), *final(bus)),
        final(bus).ram == old(bus).ram,
        executes_read(ReadOp::Lda, Mode::Imm, *old(cpu), *final(cpu), old(bus).accesses@, final(bus).accesses@),
        r == 2,
{
    let _page = read_op(cpu, bus, ReadOp::Lda, Mode::Imm);
    2
}

/// LDA zero page: A := M; sets N, Z.
pub fn lda_zp(cpu: &mut CpuRp2a03, bus: &mut Bus) -> (r: u8)
    requires
        old(bus).wf(),
    ensures
        final(bus).wf(),
        bus_run(*old(bus), *final(bus)),
        final(bus).ram == old(bus).ram,
        executes_read(ReadOp::Lda, Mode::Zp, *old(cpu), *final(cpu), old(bus).accesses@, final(bus).accesses@),
        r == 3,
{
    let _page = read_op(cpu, bus, ReadOp::Lda, Mode::Zp);
    3
}

/// LDA zero page,X: A := M; sets N, Z.
pub fn lda_zpx(cpu: &mut CpuRp2a03, bus: &mut Bus) -> (r: u8)
    requires
        old(bus).wf(),
    ensures
        final(bus).wf(),
        bus_run(*old(bus), *final(bus)),
        final(bus).ram == old(bus).ram,
        executes_read(ReadOp::Lda, Mode::Zpx, *old(cpu), *final(cpu), old(bus).accesses@, final(bus).accesses@),
        r == 4,
{
    let _page = read_op(cpu, bus, ReadOp::Lda, Mode::Zpx);
    4
}

/// LDA absolute: A := M; sets N, Z.
pub fn lda_abs(cpu: &mut CpuRp2a03, bus: &mut Bus) -> (r: u8)
    requires
        old(bus).wf(),
    ensures
        final(bus).wf(),
        bus_run(*old(bus), *final(bus)),
        final(bus).ram == old(bus).ram,
        executes_read(ReadOp::Lda, Mode::Abs, *old(cpu), *final(cpu), old(bus).accesses@, final(bus).accesses@),
        r == 4,
{
    let _page = read_op(cpu, bus, ReadOp::Lda, Mode::Abs);
    4
}

/// LDA absolute,X: A := M; sets N, Z.
pub fn lda_absx(cpu: &mut CpuRp2a03, bus: &mut Bus) -> (r: u8)
    requires
        old(bus).wf(),
    ensures
        final(bus).wf(),
        bus_run(*old(bus), *final(bus)),
        final(bus).ram == old(bus).ram,
        executes_read(ReadOp::Lda, Mode::Absx, *old(cpu), *final(cpu), old(bus).accesses@, final(bus).accesses@),
        r == 4 + fetch_page(Mode::Absx, *old(cpu), old(bus).accesses@, final(bus).accesses@),
        r <= 5,
{
    let page = read_op(cpu, bus, ReadOp::Lda, Mode::Absx);
    4 + page
}

/// LDA absolute,Y: A := M; sets N, Z.
pub fn lda_absy(cpu: &mut CpuRp2a03, bus: &mut Bus) -> (r: u8)
    requires
        old(bus).wf(),
    ensures
        final(bus).wf(),
        bus_run(*old(bus), *final(bus)),
        final(bus).ram == old(bus).ram,
        executes_read(ReadOp::Lda, Mode::Absy, *old(cpu), *final(cpu), old(bus).accesses@, final(bus).accesses@),
        r == 4 + fetch_page(Mode::Absy, *old(cpu), old(bus).accesses@, final(bus).accesses@),
        r <= 5,
{
    let page = read_op(cpu, bus, ReadOp::Lda, Mode::Absy);
    4 + page
}

/// LDA (indirect,X): A := M; sets N, Z.
pub fn lda_indx(cpu: &mut CpuRp2a03, bus: &mut Bus) -> (r: u8)
    requires
        old(bus).wf(),
    ensures
        final(bus).wf(),
        bus_run(*old(bus), *final(bus)),
        final(bus).ram == old(bus).ram,
        executes_read(ReadOp::Lda, Mode::Indx, *old(cpu), *final(cpu), old(bus).accesses@, final(bus).accesses@),
        r == 6,
{
    let _page = read_op(cpu, bus, ReadOp::Lda, Mode::Indx);
    6
}

/// LDA (indirect),Y: A := M; sets N, Z.
pub fn lda_indy(cpu: &mut CpuRp2a03, bus: &mut Bus) -> (r: u8)
    requires
        old(bus).wf(),
    ensures
        final(bus).wf(),
        bus_run(*old(bus), *final(bus)),
        final(bus).ram == old(bus).ram,
        executes_read(ReadOp::Lda, Mode::Indy, *old(cpu), *final(cpu), old(bus).accesses@, final(bus).accesses@),
        r == 5 + fetch_page(Mode::Indy, *old(cpu), old(bus).accesses@, final(bus).accesses@),
        r <= 6,
{
    let page = read_op(cpu, bus, ReadOp::Lda, Mode::Indy);
    5 + page
}

/// STA zero page: M := A.
pub fn sta_zp(cpu: &mut CpuRp2a03, bus: &mut Bus) -> (r: u8)
    requires
        old(bus).wf(),
    ensures
        final(bus).wf(),
        bus_run(*old(bus), *final(bus)),
        executes_store(StoreOp::Sta, Mode::Zp, false, *old(cpu), *final(cpu), old(bus).accesses@, final(bus).accesses@),
        ram_takes_last_write(*old(bus), *final(bus)),
        r == 3,
{
    store_op(cpu, bus, StoreOp::Sta, Mode::Zp, false);
    3
}

/// STA zero page,X: M := A.
pub fn sta_zpx(cpu: &mut CpuRp2a03, bus: &mut Bus) -> (r: u8)
    requires
        old(bus).wf(),
    ensures
        final(bus).wf(),
        bus_run(*old(bus), *final(bus)),
        executes_store(StoreOp::Sta, Mode::Zpx, false, *old(cpu), *final(cpu), old(bus).accesses@, final(bus).accesses@),
        ram_takes_last_write(*old(bus), *final(bus)),
        r == 4,
{
    store_op(cpu, bus, StoreOp::Sta, Mode::Zpx, false);
    4
}

/// STA absolute: M := A.
pub fn sta_abs(cpu: &mut CpuRp2a03, bus: &mut Bus) -> (r: u8)
    requires
        old(bus).wf(),
    ensures
        final(bus).wf(),
        bus_run(*old(bus), *final(bus)),
        executes_store(StoreOp::Sta, Mode::Abs, false, *old(cpu), *final(cpu), old(bus).accesses@, final(bus).accesses@),
        ram_takes_last_write(*old(bus), *final(bus)),
        r == 4,
{
    store_op(cpu, bus, StoreOp::Sta, Mode::Abs, false);
    4
}

/// STA absolute,X: M := A (after a read of M).
pub fn sta_absx(cpu: &mut CpuRp2a03, bus: &mut Bus) -> (r: u8)
    requires
        old(bus).wf(),
    ensures
        final(bus).wf(),
        bus_run(*old(bus), *final(bus)),
        executes_store(StoreOp::Sta, Mode::Absx, true, *old(cpu), *final(cpu), old(bus).accesses@, final(bus).accesses@),
        ram_takes_last_write(*old(bus), *final(bus)),
        r == 5,
{
    store_op(cpu, bus, StoreOp::Sta, Mode::Absx, true);
    5
}

/// STA absolute,Y: M := A (after a read of M).
pub fn sta_absy(cpu: &mut CpuRp2a03, bus: &mut Bus) -> (r: u8)
    requires
        old(bus).wf(),
    ensures
        final(bus).wf(),
        bus_run(*old(bus), *final(bus)),
        executes_store(StoreOp::Sta, Mode::Absy, true, *old(cpu), *final(cpu), old(bus).accesses@, final(bus).accesses@),
        ram_takes_last_write(*old(bus), *final(bus)),
        r == 5,
{
    store_op(cpu, bus, StoreOp::Sta, Mode::Absy, true);
    5
}

/// STA (indirect,X): M := A.
pub fn sta_indx(cpu: &mut CpuRp2a03, bus: &mut Bus) -> (r: u8)
    requires
        old(bus).wf(),
    ensures
        final(bus).wf(),
        bus_run(*old(bus), *final(bus)),
        executes_store(StoreOp::Sta, Mode::Indx, false, *old(cpu), *final(cpu), old(bus).accesses@, final(bus).accesses@),
        ram_takes_last_write(*old(bus), *final(bus)),
        r == 6,
{
    store_op(cpu, bus, StoreOp::Sta, Mode::Indx, false);
    6
}

/// STA (indirect),Y: M := A (after a read of M).
pub fn sta_indy(cpu: &mut CpuRp2a03, bus: &mut Bus) -> (r: u8)
    requires
        old(bus).wf(),
    ensures
        final(bus).wf(),
        bus_run(*old(bus), *final(bus)),
        executes_store(StoreOp::Sta, Mode::Indy, true, *old(cpu), *final(cpu), old(bus).accesses@, final(bus).accesses@),
        ram_takes_last_write(*old(bus), *final(bus)),
        r == 6,
{
    store_op(cpu, bus, StoreOp::Sta, Mode::Indy, true);
    6
}

/// LDX immediate: X := M; sets N, Z.
pub fn ldx_imm(cpu: &mut CpuRp2a03, bus: &mut Bus) -> (r: u8)
    requires
        old(bus).wf(),
    ensures
        final(bus).wf(),
        bus_run(*old(bus), *final(bus)),
        final(bus).ram == old(bus).ram,
        executes_read(ReadOp::Ldx, Mode::Imm, *old(cpu), *final(cpu), old(bus).accesses@, final(bus).accesses@),
        r == 2,
{
    let _page = read_op(cpu, bus, ReadOp::Ldx, Mode::Imm);
    2
}

/// LDX zero page: X := M; sets N, Z.
pub fn ldx_zp(cpu: &mut CpuRp2a03, bus: &mut Bus) -> (r: u8)
    requires
        old(bus).wf(),
    ensures
        final(bus).wf(),
        bus_run(*old(bus), *final(bus)),
        final(bus).ram == old(bus).ram,
        executes_read(ReadOp::Ldx, Mode::Zp, *old(cpu), *final(cpu), old(bus).accesses@, final(bus).accesses@),
        r == 3,
{
    let _page = read_op(cpu, bus, ReadOp::Ldx, Mode::Zp);
    3
}

/// LDX zero page,Y: X := M; sets N, Z.
pub fn ldx_zpy(cpu: &mut CpuRp2a03, bus: &mut Bus) -> (r: u8)
    requires
        old(bus).wf(),
    ensures
        final(bus).wf(),
        bus_run(*old(bus), *final(bus)),
        final(bus).ram == old(bus).ram,
        executes_read(ReadOp::Ldx, Mode::Zpy, *old(cpu), *final(cpu), old(bus).accesses@, final(bus).accesses@),
        r == 4,
{
    let _page = read_op(cpu, bus, ReadOp::Ldx, Mode::Zpy);
    4
}

/// LDX absolute: X := M; sets N, Z.
pub fn ldx_abs(cpu: &mut CpuRp2a03, bus: &mut Bus) -> (r: u8)
    requires
        old(bus).wf(),
    ensures
        final(bus).wf(),
        bus_run(*old(bus), *final(bus)),
        final(bus).ram == old(bus).ram,
        executes_read(ReadOp::Ldx, Mode::Abs, *old(cpu), *final(cpu), old(bus).accesses@, final(bus).accesses@),
        r == 4,
{
    let _page = read_op(cpu, bus, ReadOp::Ldx, Mode::Abs);
    4
}

/// LDX absolute,Y: X := M; sets N, Z.
pub fn ldx_absy(cpu: &mut CpuRp2a03, bus: &mut Bus) -> (r: u8)
    requires
        old(bus).wf(),
    ensures
        final(bus).wf(),
        bus_run(*old(bus), *final(bus)),
        final(bus).ram == old(bus).ram,
        executes_read(ReadOp::Ldx, Mode::Absy, *old(cpu), *final(cpu), old(bus).accesses@, final(bus).accesses@),
        r == 4 + fetch_page(Mode::Absy, *old(cpu), old(bus).accesses@, final(bus).accesses@),
        r <= 5,
{
    let page = read_op(cpu, bus, ReadOp::Ldx, Mode::Absy);
    4 + page
}

/// LDY immediate: Y := M; sets N, Z.
pub fn ldy_imm(cpu: &mut CpuRp2a03, bus: &mut Bus) -> (r: u8)
    requires
        old(bus).wf(),
    ensures
        final(bus).wf(),
        bus_run(*old(bus), *final(bus)),
        final(bus).ram == old(bus).ram,
        executes_read(ReadOp::Ldy, Mode::Imm, *old(cpu), *final(cpu), old(bus).accesses@, final(bus).accesses@),
        r == 2,
{
    let _page = read_op(cpu, bus, ReadOp::Ldy, Mode::Imm);
    2
}

/// LDY zero page: Y := M; sets N, Z.
pub fn ldy_zp(cpu: &mut CpuRp2a03, bus: &mut Bus) -> (r: u8)
    requires
        old(bus).wf(),
    ensures
        final(bus).wf(),
        bus_run(*old(bus), *final(bus)),
        final(bus).ram == old(bus).ram,
        executes_read(ReadOp::Ldy, Mode::Zp, *old(cpu), *final(cpu), old(bus).accesses@, final(bus).accesses@),
        r == 3,
{
    let _page = read_op(cpu, bus, ReadOp::Ldy, Mode::Zp);
    3
}

/// LDY zero page,X: Y := M; sets N, Z.
pub fn ldy_zpx(cpu: &mut CpuRp2a03, bus: &mut Bus) -> (r: u8)
    requires
        old(bus).wf(),
    ensures
        final(bus).wf(),
        bus_run(*old(bus), *final(bus)),
        final(bus).ram == old(bus).ram,
        executes_read(ReadOp::Ldy, Mode::Zpx, *old(cpu), *final(cpu), old(bus).accesses@, final(bus).accesses@),
        r == 4,
{
    let _page = read_op(cpu, bus, ReadOp::Ldy, Mode::Zpx);
    4
}

/// LDY absolute: Y := M; sets N, Z.
pub fn ldy_abs(cpu: &mut CpuRp2a03, bus: &mut Bus) -> (r: u8)
    requires
        old(bus).wf(),
    ensures
        final(bus).wf(),
        bus_run(*old(bus), *final(bus)),
        final(bus).ram == old(bus).ram,
        executes_read(ReadOp::Ldy, Mode::Abs, *old(cpu), *final(cpu), old(bus).accesses@, final(bus).accesses@),
        r == 4,
{
    let _page = read_op(cpu, bus, ReadOp::Ldy, Mode::Abs);
    4
}

/// LDY absolute,X: Y := M; sets N, Z.
pub fn ldy_absx(cpu: &mut CpuRp2a03, bus: &mut Bus) -> (r: u8)
    requires
        old(bus).wf(),
    ensures
        final(bus).wf(),
        bus_run(*old(bus), *final(bus)),
        final(bus).ram == old(bus).ram,
        executes_read(ReadOp::Ldy, Mode::Absx, *old(cpu), *final(cpu), old(bus).accesses@, final(bus).accesses@),
        r == 4 + fetch_page(Mode::Absx, *old(cpu), old(bus).accesses@, final(bus).accesses@),
        r <= 5,
{
    let page = read_op(cpu, bus, ReadOp::Ldy, Mode::Absx);
    4 + page
}

/// STX zero page: M := X.
pub fn stx_zp(cpu: &mut CpuRp2a03, bus: &mut Bus) -> (r: u8)
    requires
        old(bus).wf(),
    ensures
        final(bus).wf(),
        bus_run(*old(bus), *final(bus)),
        executes_store(StoreOp::Stx, Mode::Zp, false, *old(cpu), *final(cpu), old(bus).accesses@, final(bus).accesses@),
        ram_takes_last_write(*old(bus), *final(bus)),
        r == 3,
{
    store_op(cpu, bus, StoreOp::Stx, Mode::Zp, false);
    3
}

/// STX zero page,Y: M := X.
pub fn stx_zpy(cpu: &mut CpuRp2a03, bus: &mut Bus) -> (r: u8)
    requires
        old(bus).wf(),
    ensures
        final(bus).wf(),
        bus_run(*old(bus), *final(bus)),
        executes_store(StoreOp::Stx, Mode::Zpy, false, *old(cpu), *final(cpu), old(bus).accesses@, final(bus).accesses@),
        ram_takes_last_write(*old(bus), *final(bus)),
        r == 4,
{
    store_op(cpu, bus, StoreOp::Stx, Mode::Zpy, false);
    4
}

/// STX absolute: M := X.
pub fn stx_abs(cpu: &mut CpuRp2a03, bus: &mut Bus) -> (r: u8)
    requires
        old(bus).wf(),
    ensures
        final(bus).wf(),
        bus_run(*old(bus), *final(bus)),
        executes_store(StoreOp::Stx, Mode::Abs, false, *old(cpu), *final(cpu), old(bus).accesses@, final(bus).accesses@),
        ram_takes_last_write(*old(bus), *final(bus)),
        r == 4,
{
    store_op(cpu, bus, StoreOp::Stx, Mode::Abs, false);
    4
}

/// STY zero page: M := Y.
pub fn sty_zp(cpu: &mut CpuRp2a03, bus: &mut Bus) -> (r: u8)
    requires
        old(bus).wf(),
    ensures
        final(bus).wf(),
        bus_run(*old(bus), *final(bus)),
        executes_store(StoreOp::Sty, Mode::Zp, false, *old(cpu), *final(cpu), old(bus).accesses@, final(bus).accesses@),
        ram_takes_last_write(*old(bus), *final(bus)),
        r == 3,
{
    store_op(cpu, bus, StoreOp::Sty, Mode::Zp, false);
    3
}

/// STY zero page,X: M := Y.
pub fn sty_zpx(cpu: &mut CpuRp2a03, bus: &mut Bus) -> (r: u8)
    requires
        old(bus).wf(),
    ensures
        final(bus).wf(),
        bus_run(*old(bus), *final(bus)),
        executes_store(StoreOp::Sty, Mode::Zpx, false, *old(cpu), *final(cpu), old(bus).accesses@, final(bus).accesses@),
        ram_takes_last_write(*old(bus), *final(bus)),
        r == 4,
{
    store_op(cpu, bus, StoreOp::Sty, Mode::Zpx, false);
    4
}

/// STY absolute: M := Y.
pub fn sty_abs(cpu: &mut CpuRp2a03, bus: &mut Bus) -> (r: u8)
    requires
        old(bus).wf(),
    ensures
        final(bus).wf(),
        bus_run(*old(bus), *final(bus)),
        executes_store(StoreOp::Sty, Mode::Abs, false, *old(cpu), *final(cpu), old(bus).accesses@, final(bus).accesses@),
        ram_takes_last_write(*old(bus), *final(bus)),
        r == 4,
{
    store_op(cpu, bus, StoreOp::Sty, Mode::Abs, false);
    4
}

/// ADC immediate: A := A + M + C.
pub fn adc_imm(cpu: &mut CpuRp2a03, bus: &mut Bus) -> (r: u8)
    requires
        old(bus).wf(),
    ensures
        final(bus).wf(),
        bus_run(*old(bus), *final(bus)),
        final(bus).ram == old(bus).ram,
        executes_read(ReadOp::Adc, Mode::Imm, *old(cpu), *final(cpu), old(bus).accesses@, final(bus).accesses@),
        r == 2,
{
    let _page = read_op(cpu, bus, ReadOp::Adc, Mode::Imm);
    2
}

/// ADC zero page: A := A + M + C.
pub fn adc_zp(cpu: &mut CpuRp2a03, bus: &mut Bus) -> (r: u8)
    requires
        old(bus).wf(),
    ensures
        final(bus).wf(),
        bus_run(*old(bus), *final(bus)),
        final(bus).ram == old(bus).ram,
        executes_read(ReadOp::Adc, Mode::Zp, *old(cpu), *final(cpu), old(bus).accesses@, final(bus).accesses@),
        r == 3,
{
    let _page = read_op(cpu, bus, ReadOp::Adc, Mode::Zp);
    3
}

/// ADC zero page,X: A := A + M + C.
pub fn adc_zpx(cpu: &mut CpuRp2a03, bus: &mut Bus) -> (r: u8)
    requires
        old(bus).wf(),
    ensures
        final(bus).wf(),
        bus_run(*old(bus), *final(bus)),
        final(bus).ram == old(bus).ram,
        executes_read(ReadOp::Adc, Mode::Zpx, *old(cpu), *final(cpu), old(bus).accesses@, final(bus).accesses@),
        r == 4,
{
    let _page = read_op(cpu, bus, ReadOp::Adc, Mode::Zpx);
    4
}

/// ADC absolute: A := A + M + C.
pub fn adc_abs(cpu: &mut CpuRp2a03, bus: &mut Bus) -> (r: u8)
    requires
        old(bus).wf(),
    ensures
        final(bus).wf(),
        bus_run(*old(bus), *final(bus)),
        final(bus).ram == old(bus).ram,
        executes_read(ReadOp::Adc, Mode::Abs, *old(cpu), *final(cpu), old(bus).accesses@, final(bus).accesses@),
        r == 4,
{
    let _page = read_op(cpu, bus, ReadOp::Adc, Mode::Abs);
    4
}

/// ADC absolute,X: A := A + M + C.
pub fn adc_absx(cpu: &mut CpuRp2a03, bus: &mut Bus) -> (r: u8)
    requires
        old(bus).wf(),
    ensures
        final(bus).wf(),
        bus_run(*old(bus), *final(bus)),
        final(bus).ram == old(bus).ram,
        executes_read(ReadOp::Adc, Mode::Absx, *old(cpu), *final(cpu), old(bus).accesses@, final(bus).accesses@),
        r == 4 + fetch_page(Mode::Absx, *old(cpu), old(bus).accesses@, final(bus).accesses@),
        r <= 5,
{
    let page = read_op(cpu, bus, ReadOp::Adc, Mode::Absx);
    4 + page
}

/// ADC absolute,Y: A := A + M + C.
pub fn adc_absy(cpu: &mut CpuRp2a03, bus: &mut Bus) -> (r: u8)
    requires
        old(bus).wf(),
    ensures
        final(bus).wf(),
        bus_run(*old(bus), *final(bus)),
        final(bus).ram == old(bus).ram,
        executes_read(ReadOp::Adc, Mode::Absy, *old(cpu), *final(cpu), old(bus).accesses@, final(bus).accesses@),
        r == 4 + fetch_page(Mode::Absy, *old(cpu), old(bus).accesses@, final(bus).accesses@),
        r <= 5,
{
    let page = read_op(cpu, bus, ReadOp::Adc, Mode::Absy);
    4 + page
}

/// ADC (indirect,X): A := A + M + C.
pub fn adc_indx(cpu: &mut CpuRp2a03, bus: &mut Bus) -> (r: u8)
    requires
        old(bus).wf(),
    ensures
        final(bus).wf(),
        bus_run(*old(bus), *final(bus)),
        final(bus).ram == old(bus).ram,
        executes_read(ReadOp::Adc, Mode::Indx, *old(cpu), *final(cpu), old(bus).accesses@, final(bus).accesses@),
        r == 6,
{
    let _page = read_op(cpu, bus, ReadOp::Adc, Mode::Indx);
    6
}

/// ADC (indirect),Y: A := A + M + C.
pub fn adc_indy(cpu: &mut CpuRp2a03, bus: &mut Bus) -> (r: u8)
    requires
        old(bus).wf(),
    ensures
        final(bus).wf(),
        bus_run(*old(bus), *final(bus)),
        final(bus).ram == old(bus).ram,
        executes_read(ReadOp::Adc, Mode::Indy, *old(cpu), *final(cpu), old(bus).accesses@, final(bus).accesses@),
        r == 5 + fetch_page(Mode::Indy, *old(cpu), old(bus).accesses@, final(bus).accesses@),
        r <= 6,
{
    let page = read_op(cpu, bus, ReadOp::Adc, Mode::Indy);
    5 + page
}

/// SBC immediate: A := A - M - (1 - C).
pub fn sbc_imm(cpu: &mut CpuRp2a03, bus: &mut Bus) -> (r: u8)
    requires
        old(bus).wf(),
    ensures
        final(bus).wf(),
        bus_run(*old(bus), *final(bus)),
        final(bus).ram == old(bus).ram,
        executes_read(ReadOp::Sbc, Mode::Imm, *old(cpu), *final(cpu), old(bus).accesses@, final(bus).accesses@),
        r == 2,
{
    let _page = read_op(cpu, bus, ReadOp::Sbc, Mode::Imm);
    2
}

/// SBC zero page: A := A - M - (1 - C).
pub fn sbc_zp(cpu: &mut CpuRp2a03, bus: &mut Bus) -> (r: u8)
    requires
        old(bus).wf(),
    ensures
        final(bus).wf(),
        bus_run(*old(bus), *final(bus)),
        final(bus).ram == old(bus).ram,
        executes_read(ReadOp::Sbc, Mode::Zp, *old(cpu), *final(cpu), old(bus).accesses@, final(bus).accesses@),
        r == 3,
{
    let _page = read_op(cpu, bus, ReadOp::Sbc, Mode::Zp);
    3
}

/// SBC zero page,X: A := A - M - (1 - C).
pub fn sbc_zpx(cpu: &mut CpuRp2a03, bus: &mut Bus) -> (r: u8)
    requires
        old(bus).wf(),
    ensures
        final(bus).wf(),
        bus_run(*old(bus), *final(bus)),
        final(bus).ram == old(bus).ram,
        executes_read(ReadOp::Sbc, Mode::Zpx, *old(cpu), *final(cpu), old(bus).accesses@, final(bus).accesses@),
        r == 4,
{
    let _page = read_op(cpu, bus, ReadOp::Sbc, Mode::Zpx);
    4
}

/// SBC absolute: A := A - M - (1 - C).
pub fn sbc_abs(cpu: &mut CpuRp2a03, bus: &mut Bus) -> (r: u8)
    requires
        old(bus).wf(),
    ensures
        final(bus).wf(),
        bus_run(*old(bus), *final(bus)),
        final(bus).ram == old(bus).ram,
        executes_read(ReadOp::Sbc, Mode::Abs, *old(cpu), *final(cpu), old(bus).accesses@, final(bus).accesses@),
        r == 4,
{
    let _page = read_op(cpu, bus, ReadOp::Sbc, Mode::Abs);
    4
}

/// SBC absolute,X: A := A - M - (1 - C).
pub fn sbc_absx(cpu: &mut CpuRp2a03, bus: &mut Bus) -> (r: u8)
    requires
        old(bus).wf(),
    ensures
        final(bus).wf(),
        bus_run(*old(bus), *final(bus)),
        final(bus).ram == old(bus).ram,
        executes_read(ReadOp::Sbc, Mode::Absx, *old(cpu), *final(cpu), old(bus).accesses@, final(bus).accesses@),
        r == 4 + fetch_page(Mode::Absx, *old(cpu), old(bus).accesses@, final(bus).accesses@),
        r <= 5,
{
    let page = read_op(cpu, bus, ReadOp::Sbc, Mode::Absx);
    4 + page
}

/// SBC absolute,Y: A := A - M - (1 - C).
pub fn sbc_absy(cpu: &mut CpuRp2a03, bus: &mut Bus) -> (r: u8)
    requires
        old(bus).wf(),
    ensures
        final(bus).wf(),
        bus_run(*old(bus), *final(bus)),
        final(bus).ram == old(bus).ram,
        executes_read(ReadOp::Sbc, Mode::Absy, *old(cpu), *final(cpu), old(bus).accesses@, final(bus).accesses@),
        r == 4 + fetch_page(Mode::Absy, *old(cpu), old(bus).accesses@, final(bus).accesses@),
        r <= 5,
{
    let page = read_op(cpu, bus, ReadOp::Sbc, Mode::Absy);
    4 + page
}

/// SBC (indirect,X): A := A - M - (1 - C).
pub fn sbc_indx(cpu: &mut CpuRp2a03, bus: &mut Bus) -> (r: u8)
    requires
        old(bus).wf(),
    ensures
        final(bus).wf(),
        bus_run(*old(bus), *final(bus)),
        final(bus).ram == old(bus).ram,
        executes_read(ReadOp::Sbc, Mode::Indx, *old(cpu), *final(cpu), old(bus).accesses@, final(bus).accesses@),
        r == 6,
{
    let _page = read_op(cpu, bus, ReadOp::Sbc, Mode::Indx);
    6
}

/// SBC (indirect),Y: A := A - M - (1 - C).
pub fn sbc_indy(cpu: &mut CpuRp2a03, bus: &mut Bus) -> (r: u8)
    requires
        old(bus).wf(),
    ensures
        final(bus).wf(),
        bus_run(*old(bus), *final(bus)),
        final(bus).ram == old(bus).ram,
        executes_read(ReadOp::Sbc, Mode::Indy, *old(cpu), *final(cpu), old(bus).accesses@, final(bus).accesses@),
        r == 5 + fetch_page(Mode::Indy, *old(cpu), old(bus).accesses@, final(bus).accesses@),
        r <= 6,
{
    let page = read_op(cpu, bus, ReadOp::Sbc, Mode::Indy);
    5 + page
}

/// AND immediate: A := A AND M; sets N, Z.
pub fn and_imm(cpu: &mut CpuRp2a03, bus: &mut Bus) -> (r: u8)
    requires
        old(bus).wf(),
    ensures
        final(bus).wf(),
        bus_run(*old(bus), *final(bus)),
        final(bus).ram == old(bus).ram,
        executes_read(ReadOp::And, Mode::Imm, *old(cpu), *final(cpu), old(bus).accesses@, final(bus).accesses@),
        r == 2,
{
    let _page = read_op(cpu, bus, ReadOp::And, Mode::Imm);
    2
}

/// AND zero page: A := A AND M; sets N, Z.
pub fn and_zp(cpu: &mut CpuRp2a03, bus: &mut Bus) -> (r: u8)
    requires
        old(bus).wf(),
    ensures
        final(bus).wf(),
        bus_run(*old(bus), *final(bus)),
        final(bus).ram == old(bus).ram,
        executes_read(ReadOp::And, Mode::Zp, *old(cpu), *final(cpu), old(bus).accesses@, final(bus).accesses@),
        r == 3,
{
    let _page = read_op(cpu, bus, ReadOp::And, Mode::Zp);
    3
}

/// AND zero page,X: A := A AND M; sets N, Z.
pub fn and_zpx(cpu: &mut CpuRp2a03, bus: &mut Bus) -> (r: u8)
    requires
        old(bus).wf(),
    ensures
        final(bus).wf(),
        bus_run(*old(bus), *final(bus)),
        final(bus).ram == old(bus).ram,
        executes_read(ReadOp::And, Mode::Zpx, *old(cpu), *final(cpu), old(bus).accesses@, final(bus).accesses@),
        r == 4,
{
    let _page = read_op(cpu, bus, ReadOp::And, Mode::Zpx);
    4
}

/// AND absolute: A := A AND M; sets N, Z.
pub fn and_abs(cpu: &mut CpuRp2a03, bus: &mut Bus) -> (r: u8)
    requires
        old(bus).wf(),
    ensures
        final(bus).wf(),
        bus_run(*old(bus), *final(bus)),
        final(bus).ram == old(bus).ram,
        executes_read(ReadOp::And, Mode::Abs, *old(cpu), *final(cpu), old(bus).accesses@, final(bus).accesses@),
        r == 4,
{
    let _page = read_op(cpu, bus, ReadOp::And, Mode::Abs);
    4
}

/// AND absolute,X: A := A AND M; sets N, Z.
pub fn and_absx(cpu: &mut CpuRp2a03, bus: &mut Bus) -> (r: u8)
    requires
        old(bus).wf(),
    ensures
        final(bus).wf(),
        bus_run(*old(bus), *final(bus)),
        final(bus).ram == old(bus).ram,
        executes_read(ReadOp::And, Mode::Absx, *old(cpu), *final(cpu), old(bus).accesses@, final(bus).accesses@),
        r == 4 + fetch_page(Mode::Absx, *old(cpu), old(bus).accesses@, final(bus).accesses@),
        r <= 5,
{
    let page = read_op(cpu, bus, ReadOp::And, Mode::Absx);
    4 + page
}

/// AND absolute,Y: A := A AND M; sets N, Z.
pub fn and_absy(cpu: &mut CpuRp2a03, bus: &mut Bus) -> (r: u8)
    requires
        old(bus).wf(),
    ensures
        final(bus).wf(),
        bus_run(*old(bus), *final(bus)),
        final(bus).ram == old(bus).ram,
        executes_read(ReadOp::And, Mode::Absy, *old(cpu), *final(cpu), old(bus).accesses@, final(bus).accesses@),
        r == 4 + fetch_page(Mode::Absy, *old(cpu), old(bus).accesses@, final(bus).accesses@),
        r <= 5,
{
    let page = read_op(cpu, bus, ReadOp::And, Mode::Absy);
    4 + page
}

/// AND (indirect,X): A := A AND M; sets N, Z.
pub fn and_indx(cpu: &mut CpuRp2a03, bus: &mut Bus) -> (r: u8)
    requires
        old(bus).wf(),
    ensures
        final(bus).wf(),
        bus_run(*old(bus), *final(bus)),
        final(bus).ram == old(bus).ram,
        executes_read(ReadOp::And, Mode::Indx, *old(cpu), *final(cpu), old(bus).accesses@, final(bus).accesses@),
        r == 6,
{
    let _page = read_op(cpu, bus, ReadOp::And, Mode::Indx);
    6
}

/// AND (indirect),Y: A := A AND M; sets N, Z.
pub fn and_indy(cpu: &mut CpuRp2a03, bus: &mut Bus) -> (r: u8)
    requires
        old(bus).wf(),
    ensures
        final(bus).wf(),
        bus_run(*old(bus), *final(bus)),
        final(bus).ram == old(bus).ram,
        executes_read(ReadOp::And, Mode::Indy, *old(cpu), *final(cpu), old(bus).accesses@, final(bus).accesses@),
        r == 5 + fetch_page(Mode::Indy, *old(cpu), old(bus).accesses@, final(bus).accesses@),
        r <= 6,
{
    let page = read_op(cpu, bus, ReadOp::And, Mode::Indy);
    5 + page
}

/// ORA immediate: A := A OR M; sets N, Z.
pub fn ora_imm(cpu: &mut CpuRp2a03, bus: &mut Bus) -> (r: u8)
    requires
        old(bus).wf(),
    ensures
        final(bus).wf(),
        bus_run(*old(bus), *final(bus)),
        final(bus).ram == old(bus).ram,
        executes_read(ReadOp::Ora, Mode::Imm, *old(cpu), *final(cpu), old(bus).accesses@, final(bus).accesses@),
        r == 2,
{
    let _page = read_op(cpu, bus, ReadOp::Ora, Mode::Imm);
    2
}

/// ORA zero page: A := A OR M; sets N, Z.
pub fn ora_zp(cpu: &mut CpuRp2a03, bus: &mut Bus) -> (r: u8)
    requires
        old(bus).wf(),
    ensures
        final(bus).wf(),
        bus_run(*old(bus), *final(bus)),
        final(bus).ram == old(bus).ram,
        executes_read(ReadOp::Ora, Mode::Zp, *old(cpu), *final(cpu), old(bus).accesses@, final(bus).accesses@),
        r == 3,
{
    let _page = read_op(cpu, bus, ReadOp::Ora, Mode::Zp);
    3
}

/// ORA zero page,X: A := A OR M; sets N, Z.
pub fn ora_zpx(cpu: &mut CpuRp2a03, bus: &mut Bus) -> (r: u8)
    requires
        old(bus).wf(),
    ensures
        final(bus).wf(),
        bus_run(*old(bus), *final(bus)),
        final(bus).ram == old(bus).ram,
        executes_read(ReadOp::Ora, Mode::Zpx, *old(cpu), *final(cpu), old(bus).accesses@, final(bus).accesses@),
        r == 4,
{
    let _page = read_op(cpu, bus, ReadOp::Ora, Mode::Zpx);
    4
}

/// ORA absolute: A := A OR M; sets N, Z.
pub fn ora_abs(cpu: &mut CpuRp2a03, bus: &mut Bus) -> (r: u8)
    requires
        old(bus).wf(),
    ensures
        final(bus).wf(),
        bus_run(*old(bus), *final(bus)),
        final(bus).ram == old(bus).ram,
        executes_read(ReadOp::Ora, Mode::Abs, *old(cpu), *final(cpu), old(bus).accesses@, final(bus).accesses@),
        r == 4,
{
    let _page = read_op(cpu, bus, ReadOp::Ora, Mode::Abs);
    4
}

/// ORA absolute,X: A := A OR M; sets N, Z.
pub fn ora_absx(cpu: &mut CpuRp2a03, bus: &mut Bus) -> (r: u8)
    requires
        old(bus).wf(),
    ensures
        final(bus).wf(),
        bus_run(*old(bus), *final(bus)),
        final(bus).ram == old(bus).ram,
        executes_read(ReadOp::Ora, Mode::Absx, *old(cpu), *final(cpu), old(bus).accesses@, final(bus).accesses@),
        r == 4 + fetch_page(Mode::Absx, *old(cpu), old(bus).accesses@, final(bus).accesses@),
        r <= 5,
{
    let page = read_op(cpu, bus, ReadOp::Ora, Mode::Absx);
    4 + page
}

/// ORA absolute,Y: A := A OR M; sets N, Z.
pub fn ora_absy(cpu: &mut CpuRp2a03, bus: &mut Bus) -> (r: u8)
    requires
        old(bus).wf(),
    ensures
        final(bus).wf(),
        bus_run(*old(bus), *final(bus)),
        final(bus).ram == old(bus).ram,
        executes_read(ReadOp::Ora, Mode::Absy, *old(cpu), *final(cpu), old(bus).accesses@, final(bus).accesses@),
        r == 4 + fetch_page(Mode::Absy, *old(cpu), old(bus).accesses@, final(bus).accesses@),
        r <= 5,
{
    let page = read_op(cpu, bus, ReadOp::Ora, Mode::Absy);
    4 + page
}

/// ORA (indirect,X): A := A OR M; sets N, Z.
pub fn ora_indx(cpu: &mut CpuRp2a03, bus: &mut Bus) -> (r: u8)
    requires
        old(bus).wf(),
    ensures
        final(bus).wf(),
        bus_run(*old(bus), *final(bus)),
        final(bus).ram == old(bus).ram,
        executes_read(ReadOp::Ora, Mode::Indx, *old(cpu), *final(cpu), old(bus).accesses@, final(bus).accesses@),
        r == 6,
{
    let _page = read_op(cpu, bus, ReadOp::Ora, Mode::Indx);
    6
}

/// ORA (indirect),Y: A := A OR M; sets N, Z.
pub fn ora_indy(cpu: &mut CpuRp2a03, bus: &mut Bus) -> (r: u8)
    requires
        old(bus).wf(),
    ensures
        final(bus).wf(),
        bus_run(*old(bus), *final(bus)),
        final(bus).ram == old(bus).ram,
        executes_read(ReadOp::Ora, Mode::Indy, *old(cpu), *final(cpu), old(bus).accesses@, final(bus).accesses@),
        r == 5 + fetch_page(Mode::Indy, *old(cpu), old(bus).accesses@, final(bus).accesses@),
        r <= 6,
{
    let page = read_op(cpu, bus, ReadOp::Ora, Mode::Indy);
    5 + page
}

/// EOR immediate: A := A XOR M; sets N, Z.
pub fn eor_imm(cpu: &mut CpuRp2a03, bus: &mut Bus) -> (r: u8)
    requires
        old(bus).wf(),
    ensures
        final(bus).wf(),
        bus_run(*old(bus), *final(bus)),
        final(bus).ram == old(bus).ram,
        executes_read(ReadOp::Eor, Mode::Imm, *old(cpu), *final(cpu), old(bus).accesses@, final(bus).accesses@),
        r == 2,
{
    let _page = read_op(cpu, bus, ReadOp::Eor, Mode::Imm);
    2
}

/// EOR zero page: A := A XOR M; sets N, Z.
pub fn eor_zp(cpu: &mut CpuRp2a03, bus: &mut Bus) -> (r: u8)
    requires
        old(bus).wf(),
    ensures
        final(bus).wf(),
        bus_run(*old(bus), *final(bus)),
        final(bus).ram == old(bus).ram,
        executes_read(ReadOp::Eor, Mode::Zp, *old(cpu), *final(cpu), old(bus).accesses@, final(bus).accesses@),
        r == 3,
{
    let _page = read_op(cpu, bus, ReadOp::Eor, Mode::Zp);
    3
}

/// EOR zero page,X: A := A XOR M; sets N, Z.
pub fn eor_zpx(cpu: &mut CpuRp2a03, bus: &mut Bus) -> (r: u8)
    requires
        old(bus).wf(),
    ensures
        final(bus).wf(),
        bus_run(*old(bus), *final(bus)),
        final(bus).ram == old(bus).ram,
        executes_read(ReadOp::Eor, Mode::Zpx, *old(cpu), *final(cpu), old(bus).accesses@, final(bus).accesses@),
        r == 4,
{
    let _page = read_op(cpu, bus, ReadOp::Eor, Mode::Zpx);
    4
}

/// EOR absolute: A := A XOR M; sets N, Z.
pub fn eor_abs(cpu: &mut CpuRp2a03, bus: &mut Bus) -> (r: u8)
    requires
        old(bus).wf(),
    ensures
        final(bus).wf(),
        bus_run(*old(bus), *final(bus)),
        final(bus).ram == old(bus).ram,
        executes_read(ReadOp::Eor, Mode::Abs, *old(cpu), *final(cpu), old(bus).accesses@, final(bus).accesses@),
        r == 4,
{
    let _page = read_op(cpu, bus, ReadOp::Eor, Mode::Abs);
    4
}

/// EOR absolute,X: A := A XOR M; sets N, Z.
pub fn eor_absx(cpu: &mut CpuRp2a03, bus: &mut Bus) -> (r: u8)
    requires
        old(bus).wf(),
    ensures
        final(bus).wf(),
        bus_run(*old(bus), *final(bus)),
        final(bus).ram == old(bus).ram,
        executes_read(ReadOp::Eor, Mode::Absx, *old(cpu), *final(cpu), old(bus).accesses@, final(bus).accesses@),
        r == 4 + fetch_page(Mode::Absx, *old(cpu), old(bus).accesses@, final(bus).accesses@),
        r <= 5,
{
    let page = read_op(cpu, bus, ReadOp::Eor, Mode::Absx);
    4 + page
}

/// EOR absolute,Y: A := A XOR M; sets N, Z.
pub fn eor_absy(cpu: &mut CpuRp2a03, bus: &mut Bus) -> (r: u8)
    requires
        old(bus).wf(),
    ensures
        final(bus).wf(),
        bus_run(*old(bus), *final(bus)),
        final(bus).ram == old(bus).ram,
        executes_read(ReadOp::Eor, Mode::Absy, *old(cpu), *final(cpu), old(bus).accesses@, final(bus).accesses@),
        r == 4 + fetch_page(Mode::Absy, *old(cpu), old(bus).accesses@, final(bus).accesses@),
        r <= 5,
{
    let page = read_op(cpu, bus, ReadOp::Eor, Mode::Absy);
    4 + page
}

/// EOR (indirect,X): A := A XOR M; sets N, Z.
pub fn eor_indx(cpu: &mut CpuRp2a03, bus: &mut Bus) -> (r: u8)
    requires
        old(bus).wf(),
    ensures
        final(bus).wf(),
        bus_run(*old(bus), *final(bus)),
        final(bus).ram == old(bus).ram,
        executes_read(ReadOp::Eor, Mode::Indx, *old(cpu), *final(cpu), old(bus).accesses@, final(bus).accesses@),
        r == 6,
{
    let _page = read_op(cpu, bus, ReadOp::Eor, Mode::Indx);
    6
}

/// EOR (indirect),Y: A := A XOR M; sets N, Z.
pub fn eor_indy(cpu: &mut CpuRp2a03, bus: &mut Bus) -> (r: u8)
    requires
        old(bus).wf(),
    ensures
        final(bus).wf(),
        bus_run(*old(bus), *final(bus)),
        final(bus).ram == old(bus).ram,
        executes_read(ReadOp::Eor, Mode::Indy, *old(cpu), *final(cpu), old(bus).accesses@, final(bus).accesses@),
        r == 5 + fetch_page(Mode::Indy, *old(cpu), old(bus).accesses@, final(bus).accesses@),
        r <= 6,
{
    let page = read_op(cpu, bus, ReadOp::Eor, Mode::Indy);
    5 + page
}

/// CMP immediate: compares A with M.
pub fn cmp_imm(cpu: &mut CpuRp2a03, bus: &mut Bus) -> (r: u8)
    requires
        old(bus).wf(),
    ensures
        final(bus).wf(),
        bus_run(*old(bus), *final(bus)),
        final(bus).ram == old(bus).ram,
        executes_read(ReadOp::Cmp, Mode::Imm, *old(cpu), *final(cpu), old(bus).accesses@, final(bus).accesses@),
        r == 2,
{
    let _page = read_op(cpu, bus, ReadOp::Cmp, Mode::Imm);
    2
}

/// CMP zero page: compares A with M.
pub fn cmp_zp(cpu: &mut CpuRp2a03, bus: &mut Bus) -> (r: u8)
    requires
        old(bus).wf(),
    ensures
        final(bus).wf(),
        bus_run(*old(bus), *final(bus)),
        final(bus).ram == old(bus).ram,
        executes_read(ReadOp::Cmp, Mode::Zp, *old(cpu), *final(cpu), old(bus).accesses@, final(bus).accesses@),
        r == 3,
{
    let _page = read_op(cpu, bus, ReadOp::Cmp, Mode::Zp);
    3
}

/// CMP zero page,X: compares A with M.
pub fn cmp_zpx(cpu: &mut CpuRp2a03, bus: &mut Bus) -> (r: u8)
    requires
        old(bus).wf(),
    ensures
        final(bus).wf(),
        bus_run(*old(bus), *final(bus)),
        final(bus).ram == old(bus).ram,
        executes_read(ReadOp::Cmp, Mode::Zpx, *old(cpu), *final(cpu), old(bus).accesses@, final(bus).accesses@),
        r == 4,
{
    let _page = read_op(cpu, bus, ReadOp::Cmp, Mode::Zpx);
    4
}

/// CMP absolute: compares A with M.
pub fn cmp_abs(cpu: &mut CpuRp2a03, bus: &mut Bus) -> (r: u8)
    requires
        old(bus).wf(),
    ensures
        final(bus).wf(),
        bus_run(*old(bus), *final(bus)),
        final(bus).ram == old(bus).ram,
        executes_read(ReadOp::Cmp, Mode::Abs, *old(cpu), *final(cpu), old(bus).accesses@, final(bus).accesses@),
        r == 4,
{
    let _page = read_op(cpu, bus, ReadOp::Cmp, Mode::Abs);
    4
}

/// CMP absolute,X: compares A with M.
pub fn cmp_absx(cpu: &mut CpuRp2a03, bus: &mut Bus) -> (r: u8)
    requires
        old(bus).wf(),
    ensures
        final(bus).wf(),
        bus_run(*old(bus), *final(bus)),
        final(bus).ram == old(bus).ram,
        executes_read(ReadOp::Cmp, Mode::Absx, *old(cpu), *final(cpu), old(bus).accesses@, final(bus).accesses@),
        r == 4 + fetch_page(Mode::Absx, *old(cpu), old(bus).accesses@, final(bus).accesses@),
        r <= 5,
{
    let page = read_op(cpu, bus, ReadOp::Cmp, Mode::Absx);
    4 + page
}

/// CMP absolute,Y: compares A with M.
pub fn cmp_absy(cpu: &mut CpuRp2a03, bus: &mut Bus) -> (r: u8)
    requires
        old(bus).wf(),
    ensures
        final(bus).wf(),
        bus_run(*old(bus), *final(bus)),
        final(bus).ram == old(bus).ram,
        executes_read(ReadOp::Cmp, Mode::Absy, *old(cpu), *final(cpu), old(bus).accesses@, final(bus).accesses@),
        r == 4 + fetch_page(Mode::Absy, *old(cpu), old(bus).accesses@, final(bus).accesses@),
        r <= 5,
{
    let page = read_op(cpu, bus, ReadOp::Cmp, Mode::Absy);
    4 + page
}

/// CMP (indirect,X): compares A with M.
pub fn cmp_indx(cpu: &mut CpuRp2a03, bus: &mut Bus) -> (r: u8)
    requires
        old(bus).wf(),
    ensures
        final(bus).wf(),
        bus_run(*old(bus), *final(bus)),
        final(bus).ram == old(bus).ram,
        executes_read(ReadOp::Cmp, Mode::Indx, *old(cpu), *final(cpu), old(bus).accesses@, final(bus).accesses@),
        r == 6,
{
    let _page = read_op(cpu, bus, ReadOp::Cmp, Mode::Indx);
    6
}

/// CMP (indirect),Y: compares A with M.
pub fn cmp_indy(cpu: &mut CpuRp2a03, bus: &mut Bus) -> (r: u8)
    requires
        old(bus).wf(),
    ensures
        final(bus).wf(),
        bus_run(*old(bus), *final(bus)),
        final(bus).ram == old(bus).ram,
        executes_read(ReadOp::Cmp, Mode::Indy, *old(cpu), *final(cpu), old(bus).accesses@, final(bus).accesses@),
        r == 5 + fetch_page(Mode::Indy, *old(cpu), old(bus).accesses@, final(bus).accesses@),
        r <= 6,
{
    let page = read_op(cpu, bus, ReadOp::Cmp, Mode::Indy);
    5 + page
}

/// CPX immediate: compares X with M.
pub fn cpx_imm(cpu: &mut CpuRp2a03, bus: &mut Bus) -> (r: u8)
    requires
        old(bus).wf(),
    ensures
        final(bus).wf(),
        bus_run(*old(bus), *final(bus)),
        final(bus).ram == old(bus).ram,
        executes_read(ReadOp::Cpx, Mode::Imm, *old(cpu), *final(cpu), old(bus).accesses@, final(bus).accesses@),
        r == 2,
{
    let _page = read_op(cpu, bus, ReadOp::Cpx, Mode::Imm);
    2
}

/// CPX zero page: compares X with M.
pub fn cpx_zp(cpu: &mut CpuRp2a03, bus: &mut Bus) -> (r: u8)
    requires
        old(bus).wf(),
    ensures
        final(bus).wf(),
        bus_run(*old(bus), *final(bus)),
        final(bus).ram == old(bus).ram,
        executes_read(ReadOp::Cpx, Mode::Zp, *old(cpu), *final(cpu), old(bus).accesses@, final(bus).accesses@),
        r == 3,
{
    let _page = read_op(cpu, bus, ReadOp::Cpx, Mode::Zp);
    3
}

/// CPX absolute: compares X with M.
pub fn cpx_abs(cpu: &mut CpuRp2a03, bus: &mut Bus) -> (r: u8)
    requires
        old(bus).wf(),
    ensures
        final(bus).wf(),
        bus_run(*old(bus), *final(bus)),
        final(bus).ram == old(bus).ram,
        executes_read(ReadOp::Cpx, Mode::Abs, *old(cpu), *final(cpu), old(bus).accesses@, final(bus).accesses@),
        r == 4,
{
    let _page = read_op(cpu, bus, ReadOp::Cpx, Mode::Abs);
    4
}

/// CPY immediate: compares Y with M.
pub fn cpy_imm(cpu: &mut CpuRp2a03, bus: &mut Bus) -> (r: u8)
    requires
        old(bus).wf(),
    ensures
        final(bus).wf(),
        bus_run(*old(bus), *final(bus)),
        final(bus).ram == old(bus).ram,
        executes_read(ReadOp::Cpy, Mode::Imm, *old(cpu), *final(cpu), old(bus).accesses@, final(bus).accesses@),
        r == 2,
{
    let _page = read_op(cpu, bus, ReadOp::Cpy, Mode::Imm);
    2
}

/// CPY zero page: compares Y with M.
pub fn cpy_zp(cpu: &mut CpuRp2a03, bus: &mut Bus) -> (r: u8)
    requires
        old(bus).wf(),
    ensures
        final(bus).wf(),
        bus_run(*old(bus), *final(bus)),
        final(bus).ram == old(bus).ram,
        executes_read(ReadOp::Cpy, Mode::Zp, *old(cpu), *final(cpu), old(bus).accesses@, final(bus).accesses@),
        r == 3,
{
    let _page = read_op(cpu, bus, ReadOp::Cpy, Mode::Zp);
    3
}

/// CPY absolute: compares Y with M.
pub fn cpy_abs(cpu: &mut CpuRp2a03, bus: &mut Bus) -> (r: u8)
    requires
        old(bus).wf(),
    ensures
        final(bus).wf(),
        bus_run(*old(bus), *final(bus)),
        final(bus).ram == old(bus).ram,
        executes_read(ReadOp::Cpy, Mode::Abs, *old(cpu), *final(cpu), old(bus).accesses@, final(bus).accesses@),
        r == 4,
{
    let _page = read_op(cpu, bus, ReadOp::Cpy, Mode::Abs);
    4
}

/// ASL zero page: M := M << 1; C from bit 7.
pub fn asl_zp(cpu: &mut CpuRp2a03, bus: &mut Bus) -> (r: u8)
    requires
        old(bus).wf(),
    ensures
        final(bus).wf(),
        bus_run(*old(bus), *final(bus)),
        executes_rmw(RmwOp::Asl, Mode::Zp, *old(cpu), *final(cpu), old(bus).accesses@, final(bus).accesses@),
        ram_takes_last_write(*old(bus), *final(bus)),
        r == 5,
{
    let _page = rmw_op(cpu, bus, RmwOp::Asl, Mode::Zp);
    5
}

/// ASL zero page,X: M := M << 1; C from bit 7.
pub fn asl_zpx(cpu: &mut CpuRp2a03, bus: &mut Bus) -> (r: u8)
    requires
        old(bus).wf(),
    ensures
        final(bus).wf(),
        bus_run(*old(bus), *final(bus)),
        executes_rmw(RmwOp::Asl, Mode::Zpx, *old(cpu), *final(cpu), old(bus).accesses@, final(bus).accesses@),
        ram_takes_last_write(*old(bus), *final(bus)),
        r == 6,
{
    let _page = rmw_op(cpu, bus, RmwOp::Asl, Mode::Zpx);
    6
}

/// ASL absolute: M := M << 1; C from bit 7.
pub fn asl_abs(cpu: &mut CpuRp2a03, bus: &mut Bus) -> (r: u8)
    requires
        old(bus).wf(),
    ensures
        final(bus).wf(),
        bus_run(*old(bus), *final(bus)),
        executes_rmw(RmwOp::Asl, Mode::Abs, *old(cpu), *final(cpu), old(bus).accesses@, final(bus).accesses@),
        ram_takes_last_write(*old(bus), *final(bus)),
        r == 6,
{
    let _page = rmw_op(cpu, bus, RmwOp::Asl, Mode::Abs);
    6
}

/// ASL absolute,X: M := M << 1; C from bit 7.
pub fn asl_absx(cpu: &mut CpuRp2a03, bus: &mut Bus) -> (r: u8)
    requires
        old(bus).wf(),
    ensures
        final(bus).wf(),
        bus_run(*old(bus), *final(bus)),
        executes_rmw(RmwOp::Asl, Mode::Absx, *old(cpu), *final(cpu), old(bus).accesses@, final(bus).accesses@),
        ram_takes_last_write(*old(bus), *final(bus)),
        r == 7,
{
    let _page = rmw_op(cpu, bus, RmwOp::Asl, Mode::Absx);
    7
}

/// LSR zero page: M := M >> 1; C from bit 0.
pub fn lsr_zp(cpu: &mut CpuRp2a03, bus: &mut Bus) -> (r: u8)
    requires
        old(bus).wf(),
    ensures
        final(bus).wf(),
        bus_run(*old(bus), *final(bus)),
        executes_rmw(RmwOp::Lsr, Mode::Zp, *old(cpu), *final(cpu), old(bus).accesses@, final(bus).accesses@),
        ram_takes_last_write(*old(bus), *final(bus)),
        r == 5,
{
    let _page = rmw_op(cpu, bus, RmwOp::Lsr, Mode::Zp);
    5
}

/// LSR zero page,X: M := M >> 1; C from bit 0.
pub fn lsr_zpx(cpu: &mut CpuRp2a03, bus: &mut Bus) -> (r: u8)
    requires
        old(bus).wf(),
    ensures
        final(bus).wf(),
        bus_run(*old(bus), *final(bus)),
        executes_rmw(RmwOp::Lsr, Mode::Zpx, *old(cpu), *final(cpu), old(bus).accesses@, final(bus).accesses@),
        ram_takes_last_write(*old(bus), *final(bus)),
        r == 6,
{
    let _page = rmw_op(cpu, bus, RmwOp::Lsr, Mode::Zpx);
    6
}

/// LSR absolute: M := M >> 1; C from bit 0.
pub fn lsr_abs(cpu: &mut CpuRp2a03, bus: &mut Bus) -> (r: u8)
    requires
        old(bus).wf(),
    ensures
        final(bus).wf(),
        bus_run(*old(bus), *final(bus)),
        executes_rmw(RmwOp::Lsr, Mode::Abs, *old(cpu), *final(cpu), old(bus).accesses@, final(bus).accesses@),
        ram_takes_last_write(*old(bus), *final(bus)),
        r == 6,
{
    let _page = rmw_op(cpu, bus, RmwOp::Lsr, Mode::Abs);
    6
}

/// LSR absolute,X: M := M >> 1; C from bit 0.
pub fn lsr_absx(cpu: &mut CpuRp2a03, bus: &mut Bus) -> (r: u8)
    requires
        old(bus).wf(),
    ensures
        final(bus).wf(),
        bus_run(*old(bus), *final(bus)),
        executes_rmw(RmwOp::Lsr, Mode::Absx, *old(cpu), *final(cpu), old(bus).accesses@, final(bus).accesses@),
        ram_takes_last_write(*old(bus), *final(bus)),
        r == 7,
{
    let _page = rmw_op(cpu, bus, RmwOp::Lsr, Mode::Absx);
    7
}

/// ROL zero page: M := (M << 1) | C.
pub fn rol_zp(cpu: &mut CpuRp2a03, bus: &mut Bus) -> (r: u8)
    requires
        old(bus).wf(),
    ensures
        final(bus).wf(),
        bus_run(*old(bus), *final(bus)),
        executes_rmw(RmwOp::Rol, Mode::Zp, *old(cpu), *final(cpu), old(bus).accesses@, final(bus).accesses@),
        ram_takes_last_write(*old(bus), *final(bus)),
        r == 5,
{
    let _page = rmw_op(cpu, bus, RmwOp::Rol, Mode::Zp);
    5
}

/// ROL zero page,X: M := (M << 1) | C.
pub fn rol_zpx(cpu: &mut CpuRp2a03, bus: &mut Bus) -> (r: u8)
    requires
        old(bus).wf(),
    ensures
        final(bus).wf(),
        bus_run(*old(bus), *final(bus)),
        executes_rmw(RmwOp::Rol, Mode::Zpx, *old(cpu), *final(cpu), old(bus).accesses@, final(bus).accesses@),
        ram_takes_last_write(*old(bus), *final(bus)),
        r == 6,
{
    let _page = rmw_op(cpu, bus, RmwOp::Rol, Mode::Zpx);
    6
}

/// ROL absolute: M := (M << 1) | C.
pub fn rol_abs(cpu: &mut CpuRp2a03, bus: &mut Bus) -> (r: u8)
    requires
        old(bus).wf(),
    ensures
        final(bus).wf(),
        bus_run(*old(bus), *final(bus)),
        executes_rmw(RmwOp::Rol, Mode::Abs, *old(cpu), *final(cpu), old(bus).accesses@, final(bus).accesses@),
        ram_takes_last_write(*old(bus), *final(bus)),
        r == 6,
{
    let _page = rmw_op(cpu, bus, RmwOp::Rol, Mode::Abs);
    6
}

/// ROL absolute,X: M := (M << 1) | C.
pub fn rol_absx(cpu: &mut CpuRp2a03, bus: &mut Bus) -> (r: u8)
    requires
        old(bus).wf(),
    ensures
        final(bus).wf(),
        bus_run(*old(bus), *final(bus)),
        executes_rmw(RmwOp::Rol, Mode::Absx, *old(cpu), *final(cpu), old(bus).accesses@, final(bus).accesses@),
        ram_takes_last_write(*old(bus), *final(bus)),
        r == 7,
{
    let _page = rmw_op(cpu, bus, RmwOp::Rol, Mode::Absx);
    7
}

/// ROR zero page: M := (M >> 1) | C << 7.
pub fn ror_zp(cpu: &mut CpuRp2a03, bus: &mut Bus) -> (r: u8)
    requires
        old(bus).wf(),
    ensures
        final(bus).wf(),
        bus_run(*old(bus), *final(bus)),
        executes_rmw(RmwOp::Ror, Mode::Zp, *old(cpu), *final(cpu), old(bus).accesses@, final(bus).accesses@),
        ram_takes_last_write(*old(bus), *final(bus)),
        r == 5,
{
    let _page = rmw_op(cpu, bus, RmwOp::Ror, Mode::Zp);
    5
}

/// ROR zero page,X: M := (M >> 1) | C << 7.
pub fn ror_zpx(cpu: &mut CpuRp2a03, bus: &mut Bus) -> (r: u8)
    requires
        old(bus).wf(),
    ensures
        final(bus).wf(),
        bus_run(*old(bus), *final(bus)),
        executes_rmw(RmwOp::Ror, Mode::Zpx, *old(cpu), *final(cpu), old(bus).accesses@, final(bus).accesses@),
        ram_takes_last_write(*old(bus), *final(bus)),
        r == 6,
{
    let _page = rmw_op(cpu, bus, RmwOp::Ror, Mode::Zpx);
    6
}

/// ROR absolute: M := (M >> 1) | C << 7.
pub fn ror_abs(cpu: &mut CpuRp2a03, bus: &mut Bus) -> (r: u8)
    requires
        old(bus).wf(),
    ensures
        final(bus).wf(),
        bus_run(*old(bus), *final(bus)),
        executes_rmw(RmwOp::Ror, Mode::Abs, *old(cpu), *final(cpu), old(bus).accesses@, final(bus).accesses@),
        ram_takes_last_write(*old(bus), *final(bus)),
        r == 6,
{
    let _page = rmw_op(cpu, bus, RmwOp::Ror, Mode::Abs);
    6
}

/// ROR absolute,X: M := (M >> 1) | C << 7.
pub fn ror_absx(cpu: &mut CpuRp2a03, bus: &mut Bus) -> (r: u8)
    requires
        old(bus).wf(),
    ensures
        final(bus).wf(),
        bus_run(*old(bus), *final(bus)),
        executes_rmw(RmwOp::Ror, Mode::Absx, *old(cpu), *final(cpu), old(bus).accesses@, final(bus).accesses@),
        ram_takes_last_write(*old(bus), *final(bus)),
        r == 7,
{
    let _page = rmw_op(cpu, bus, RmwOp::Ror, Mode::Absx);
    7
}

/// INC zero page: M := M + 1.
pub fn inc_zp(cpu: &mut CpuRp2a03, bus: &mut Bus) -> (r: u8)
    requires
        old(bus).wf(),
    ensures
        final(bus).wf(),
        bus_run(*old(bus), *final(bus)),
        executes_rmw(RmwOp::Inc, Mode::Zp, *old(cpu), *final(cpu), old(bus).accesses@, final(bus).accesses@),
        ram_takes_last_write(*old(bus), *final(bus)),
        r == 5,
{
    let _page = rmw_op(cpu, bus, RmwOp::Inc, Mode::Zp);
    5
}

/// INC zero page,X: M := M + 1.
pub fn inc_zpx(cpu: &mut CpuRp2a03, bus: &mut Bus) -> (r: u8)
    requires
        old(bus).wf(),
    ensures
        final(bus).wf(),
        bus_run(*old(bus), *final(bus)),
        executes_rmw(RmwOp::Inc, Mode::Zpx, *old(cpu), *final(cpu), old(bus).accesses@, final(bus).accesses@),
        ram_takes_last_write(*old(bus), *final(bus)),
        r == 6,
{
    let _page = rmw_op(cpu, bus, RmwOp::Inc, Mode::Zpx);
    6
}

/// INC absolute: M := M + 1.
pub fn inc_abs(cpu: &mut CpuRp2a03, bus: &mut Bus) -> (r: u8)
    requires
        old(bus).wf(),
    ensures
        final(bus).wf(),
        bus_run(*old(bus), *final(bus)),
        executes_rmw(RmwOp::Inc, Mode::Abs, *old(cpu), *final(cpu), old(bus).accesses@, final(bus).accesses@),
        ram_takes_last_write(*old(bus), *final(bus)),
        r == 6,
{
    let _page = rmw_op(cpu, bus, RmwOp::Inc, Mode::Abs);
    6
}

/// INC absolute,X: M := M + 1.
pub fn inc_absx(cpu: &mut CpuRp2a03, bus: &mut Bus) -> (r: u8)
    requires
        old(bus).wf(),
    ensures
        final(bus).wf(),
        bus_run(*old(bus), *final(bus)),
        executes_rmw(RmwOp::Inc, Mode::Absx, *old(cpu), *final(cpu), old(bus).accesses@, final(bus).accesses@),
        ram_takes_last_write(*old(bus), *final(bus)),
        r == 7,
{
    let _page = rmw_op(cpu, bus, RmwOp::Inc, Mode::Absx);
    7
}

/// DEC zero page: M := M - 1.
pub fn dec_zp(cpu: &mut CpuRp2a03, bus: &mut Bus) -> (r: u8)
    requires
        old(bus).wf(),
    ensures
        final(bus).wf(),
        bus_run(*old(bus), *final(bus)),
        executes_rmw(RmwOp::Dec, Mode::Zp, *old(cpu), *final(cpu), old(bus).accesses@, final(bus).accesses@),
        ram_takes_last_write(*old(bus), *final(bus)),
        r == 5,
{
    let _page = rmw_op(cpu, bus, RmwOp::Dec, Mode::Zp);
    5
}

/// DEC zero page,X: M := M - 1.
pub fn dec_zpx(cpu: &mut CpuRp2a03, bus: &mut Bus) -> (r: u8)
    requires
        old(bus).wf(),
    ensures
        final(bus).wf(),
        bus_run(*old(bus), *final(bus)),
        executes_rmw(RmwOp::Dec, Mode::Zpx, *old(cpu), *final(cpu), old(bus).accesses@, final(bus).accesses@),
        ram_takes_last_write(*old(bus), *final(bus)),
        r == 6,
{
    let _page = rmw_op(cpu, bus, RmwOp::Dec, Mode::Zpx);
    6
}

/// DEC absolute: M := M - 1.
pub fn dec_abs(cpu: &mut CpuRp2a03, bus: &mut Bus) -> (r: u8)
    requires
        old(bus).wf(),
    ensures
        final(bus).wf(),
        bus_run(*old(bus), *final(bus)),
        executes_rmw(RmwOp::Dec, Mode::Abs, *old(cpu), *final(cpu), old(bus).accesses@, final(bus).accesses@),
        ram_takes_last_write(*old(bus), *final(bus)),
        r == 6,
{
    let _page = rmw_op(cpu, bus, RmwOp::Dec, Mode::Abs);
    6
}

/// DEC absolute,X: M := M - 1.
pub fn dec_absx(cpu: &mut CpuRp2a03, bus: &mut Bus) -> (r: u8)
    requires
        old(bus).wf(),
    ensures
        final(bus).wf(),
        bus_run(*old(bus), *final(bus)),
        executes_rmw(RmwOp::Dec, Mode::Absx, *old(cpu), *final(cpu), old(bus).accesses@, final(bus).accesses@),
        ram_takes_last_write(*old(bus), *final(bus)),
        r == 7,
{
    let _page = rmw_op(cpu, bus, RmwOp::Dec, Mode::Absx);
    7
}

/// BIT zero page: N, V from M; Z from A AND M.
pub fn bit_zp(cpu: &mut CpuRp2a03, bus: &mut Bus) -> (r: u8)
    requires
        old(bus).wf(),
    ensures
        final(bus).wf(),
        bus_run(*old(bus), *final(bus)),
        final(bus).ram == old(bus).ram,
        executes_read(ReadOp::Bit, Mode::Zp, *old(cpu), *final(cpu), old(bus).accesses@, final(bus).accesses@),
        r == 3,
{
    let _page = read_op(cpu, bus, ReadOp::Bit, Mode::Zp);
    3
}

/// BIT absolute: N, V from M; Z from A AND M.
pub fn bit_abs(cpu: &mut CpuRp2a03, bus: &mut Bus) -> (r: u8)
    requires
        old(bus).wf(),
    ensures
        final(bus).wf(),
        bus_run(*old(bus), *final(bus)),
        final(bus).ram == old(bus).ram,
        executes_read(ReadOp::Bit, Mode::Abs, *old(cpu), *final(cpu), old(bus).accesses@, final(bus).accesses@),
        r == 4,
{
    let _page = read_op(cpu, bus, ReadOp::Bit, Mode::Abs);
    4
}

/// SLO (indirect,X): M := M << 1, then A := A OR M.
pub fn slo_indx(cpu: &mut CpuRp2a03, bus: &mut Bus) -> (r: u8)
    requires
        old(bus).wf(),
    ensures
        final(bus).wf(),
        bus_run(*old(bus), *final(bus)),
        executes_rmw(RmwOp::Slo, Mode::Indx, *old(cpu), *final(cpu), old(bus).accesses@, final(bus).accesses@),
        ram_takes_last_write(*old(bus), *final(bus)),
        r == 8,
{
    let _page = rmw_op(cpu, bus, RmwOp::Slo, Mode::Indx);
    8
}

/// SLO zero page: M := M << 1, then A := A OR M.
pub fn slo_zp(cpu: &mut CpuRp2a03, bus: &mut Bus) -> (r: u8)
    requires
        old(bus).wf(),
    ensures
        final(bus).wf(),
        bus_run(*old(bus), *final(bus)),
        executes_rmw(RmwOp::Slo, Mode::Zp, *old(cpu), *final(cpu), old(bus).accesses@, final(bus).accesses@),
        ram_takes_last_write(*old(bus), *final(bus)),
        r == 5,
{
    let _page = rmw_op(cpu, bus, RmwOp::Slo, Mode::Zp);
    5
}

/// SLO absolute: M := M << 1, then A := A OR M.
pub fn slo_abs(cpu: &mut CpuRp2a03, bus: &mut Bus) -> (r: u8)
    requires
        old(bus).wf(),
    ensures
        final(bus).wf(),
        bus_run(*old(bus), *final(bus)),
        executes_rmw(RmwOp::Slo, Mode::Abs, *old(cpu), *final(cpu), old(bus).accesses@, final(bus).accesses@),
        ram_takes_last_write(*old(bus), *final(bus)),
        r == 6,
{
    let _page = rmw_op(cpu, bus, RmwOp::Slo, Mode::Abs);
    6
}

/// SLO (indirect),Y: M := M << 1, then A := A OR M.
pub fn slo_indy(cpu: &mut CpuRp2a03, bus: &mut Bus) -> (r: u8)
    requires
        old(bus).wf(),
    ensures
        final(bus).wf(),
        bus_run(*old(bus), *final(bus)),
        executes_rmw(RmwOp::Slo, Mode::Indy, *old(cpu), *final(cpu), old(bus).accesses@, final(bus).accesses@),
        ram_takes_last_write(*old(bus), *final(bus)),
        r == 8 + fetch_page(Mode::Indy, *old(cpu), old(bus).accesses@, final(bus).accesses@),
        r <= 9,
{
    let page = rmw_op(cpu, bus, RmwOp::Slo, Mode::Indy);
    8 + page
}

/// SLO zero page,X: M := M << 1, then A := A OR M.
pub fn slo_zpx(cpu: &mut CpuRp2a03, bus: &mut Bus) -> (r: u8)
    requires
        old(bus).wf(),
    ensures
        final(bus).wf(),
        bus_run(*old(bus), *final(bus)),
        executes_rmw(RmwOp::Slo, Mode::Zpx, *old(cpu), *final(cpu), old(bus).accesses@, final(bus).accesses@),
        ram_takes_last_write(*old(bus), *final(bus)),
        r == 6,
{
    let _page = rmw_op(cpu, bus, RmwOp::Slo, Mode::Zpx);
    6
}

/// SLO absolute,Y: M := M << 1, then A := A OR M.
pub fn slo_absy(cpu: &mut CpuRp2a03, bus: &mut Bus) -> (r: u8)
    requires
        old(bus).wf(),
    ensures
        final(bus).wf(),
        bus_run(*old(bus), *final(bus)),
        executes_rmw(RmwOp::Slo, Mode::Absy, *old(cpu), *final(cpu), old(bus).accesses@, final(bus).accesses@),
        ram_takes_last_write(*old(bus), *final(bus)),
        r == 7,
{
    let _page = rmw_op(cpu, bus, RmwOp::Slo, Mode::Absy);
    7
}

/// SLO absolute,X: M := M << 1, then A := A OR M.
pub fn slo_absx(cpu: &mut CpuRp2a03, bus: &mut Bus) -> (r: u8)
    requires
        old(bus).wf(),
    ensures
        final(bus).wf(),
        bus_run(*old(bus), *final(bus)),
        executes_rmw(RmwOp::Slo, Mode::Absx, *old(cpu), *final(cpu), old(bus).accesses@, final(bus).accesses@),
        ram_takes_last_write(*old(bus), *final(bus)),
        r == 7,
{
    let _page = rmw_op(cpu, bus, RmwOp::Slo, Mode::Absx);
    7
}

/// RLA (indirect,X): M := (M << 1) | C, then A := A AND M.
pub fn rla_indx(cpu: &mut CpuRp2a03, bus: &mut Bus) -> (r: u8)
    requires
        old(bus).wf(),
    ensures
        final(bus).wf(),
        bus_run(*old(bus), *final(bus)),
        executes_rmw(RmwOp::Rla, Mode::Indx, *old(cpu), *final(cpu), old(bus).accesses@, final(bus).accesses@),
        ram_takes_last_write(*old(bus), *final(bus)),
        r == 8,
{
    let _page = rmw_op(cpu, bus, RmwOp::Rla, Mode::Indx);
    8
}

/// RLA zero page: M := (M << 1) | C, then A := A AND M.
pub fn rla_zp(cpu: &mut CpuRp2a03, bus: &mut Bus) -> (r: u8)
    requires
        old(bus).wf(),
    ensures
        final(bus).wf(),
        bus_run(*old(bus), *final(bus)),
        executes_rmw(RmwOp::Rla, Mode::Zp, *old(cpu), *final(cpu), old(bus).accesses@, final(bus).accesses@),
        ram_takes_last_write(*old(bus), *final(bus)),
        r == 5,
{
    let _page = rmw_op(cpu, bus, RmwOp::Rla, Mode::Zp);
    5
}

/// RLA absolute: M := (M << 1) | C, then A := A AND M.
pub fn rla_abs(cpu: &mut CpuRp2a03, bus: &mut Bus) -> (r: u8)
    requires
        old(bus).wf(),
    ensures
        final(bus).wf(),
        bus_run(*old(bus), *final(bus)),
        executes_rmw(RmwOp::Rla, Mode::Abs, *old(cpu), *final(cpu), old(bus).accesses@, final(bus).accesses@),
        ram_takes_last_write(*old(bus), *final(bus)),
        r == 6,
{
    let _page = rmw_op(cpu, bus, RmwOp::Rla, Mode::Abs);
    6
}

/// RLA (indirect),Y: M := (M << 1) | C, then A := A AND M.
pub fn rla_indy(cpu: &mut CpuRp2a03, bus: &mut Bus) -> (r: u8)
    requires
        old(bus).wf(),
    ensures
        final(bus).wf(),
        bus_run(*old(bus), *final(bus)),
        executes_rmw(RmwOp::Rla, Mode::Indy, *old(cpu), *final(cpu), old(bus).accesses@, final(bus).accesses@),
        ram_takes_last_write(*old(bus), *final(bus)),
        r == 8 + fetch_page(Mode::Indy, *old(cpu), old(bus).accesses@, final(bus).accesses@),
        r <= 9,
{
    let page = rmw_op(cpu, bus, RmwOp::Rla, Mode::Indy);
    8 + page
}

/// RLA zero page,X: M := (M << 1) | C, then A := A AND M.
pub fn rla_zpx(cpu: &mut CpuRp2a03, bus: &mut Bus) -> (r: u8)
    requires
        old(bus).wf(),
    ensures
        final(bus).wf(),
        bus_run(*old(bus), *final(bus)),
        executes_rmw(RmwOp::Rla, Mode::Zpx, *old(cpu), *final(cpu), old(bus).accesses@, final(bus).accesses@),
        ram_takes_last_write(*old(bus), *final(bus)),
        r == 6,
{
    let _page = rmw_op(cpu, bus, RmwOp::Rla, Mode::Zpx);
    6
}

/// RLA absolute,Y: M := (M << 1) | C, then A := A AND M.
pub fn rla_absy(cpu: &mut CpuRp2a03, bus: &mut Bus) -> (r: u8)
    requires
        old(bus).wf(),
    ensures
        final(bus).wf(),
        bus_run(*old(bus), *final(bus)),
        executes_rmw(RmwOp::Rla, Mode::Absy, *old(cpu), *final(cpu), old(bus).accesses@, final(bus).accesses@),
        ram_takes_last_write(*old(bus), *final(bus)),
        r == 7,
{
    let _page = rmw_op(cpu, bus, RmwOp::Rla, Mode::Absy);
    7
}

/// RLA absolute,X: M := (M << 1) | C, then A := A AND M.
pub fn rla_absx(cpu: &mut CpuRp2a03, bus: &mut Bus) -> (r: u8)
    requires
        old(bus).wf(),
    ensures
        final(bus).wf(),
        bus_run(*old(bus), *final(bus)),
        executes_rmw(RmwOp::Rla, Mode::Absx, *old(cpu), *final(cpu), old(bus).accesses@, final(bus).accesses@),
        ram_takes_last_write(*old(bus), *final(bus)),
        r == 7,
{
    let _page = rmw_op(cpu, bus, RmwOp::Rla, Mode::Absx);
    7
}

/// SRE (indirect,X): M := M >> 1, then A := A XOR M.
pub fn sre_indx(cpu: &mut CpuRp2a03, bus: &mut Bus) -> (r: u8)
    requires
        old(bus).wf(),
    ensures
        final(bus).wf(),
        bus_run(*old(bus), *final(bus)),
        executes_rmw(RmwOp::Sre, Mode::Indx, *old(cpu), *final(cpu), old(bus).accesses@, final(bus).accesses@),
        ram_takes_last_write(*old(bus), *final(bus)),
        r == 8,
{
    let _page = rmw_op(cpu, bus, RmwOp::Sre, Mode::Indx);
    8
}

/// SRE zero page: M := M >> 1, then A := A XOR M.
pub fn sre_zp(cpu: &mut CpuRp2a03, bus: &mut Bus) -> (r: u8)
    requires
        old(bus).wf(),
    ensures
        final(bus).wf(),
        bus_run(*old(bus), *final(bus)),
        executes_rmw(RmwOp::Sre, Mode::Zp, *old(cpu), *final(cpu), old(bus).accesses@, final(bus).accesses@),
        ram_takes_last_write(*old(bus), *final(bus)),
        r == 5,
{
    let _page = rmw_op(cpu, bus, RmwOp::Sre, Mode::Zp);
    5
}

/// SRE absolute: M := M >> 1, then A := A XOR M.
pub fn sre_abs(cpu: &mut CpuRp2a03, bus: &mut Bus) -> (r: u8)
    requires
        old(bus).wf(),
    ensures
        final(bus).wf(),
        bus_run(*old(bus), *final(bus)),
        executes_rmw(RmwOp::Sre, Mode::Abs, *old(cpu), *final(cpu), old(bus).accesses@, final(bus).accesses@),
        ram_takes_last_write(*old(bus), *final(bus)),
        r == 6,
{
    let _page = rmw_op(cpu, bus, RmwOp::Sre, Mode::Abs);
    6
}

/// SRE (indirect),Y: M := M >> 1, then A := A XOR M.
pub fn sre_indy(cpu: &mut CpuRp2a03, bus: &mut Bus) -> (r: u8)
    requires
        old(bus).wf(),
    ensures
        final(bus).wf(),
        bus_run(*old(bus), *final(bus)),
        executes_rmw(RmwOp::Sre, Mode::Indy, *old(cpu), *final(cpu), old(bus).accesses@, final(bus).accesses@),
        ram_takes_last_write(*old(bus), *final(bus)),
        r == 8 + fetch_page(Mode::Indy, *old(cpu), old(bus).accesses@, final(bus).accesses@),
        r <= 9,
{
    let page = rmw_op(cpu, bus, RmwOp::Sre, Mode::Indy);
    8 + page
}

/// SRE zero page,X: M := M >> 1, then A := A XOR M.
pub fn sre_zpx(cpu: &mut CpuRp2a03, bus: &mut Bus) -> (r: u8)
    requires
        old(bus).wf(),
    ensures
        final(bus).wf(),
        bus_run(*old(bus), *final(bus)),
        executes_rmw(RmwOp::Sre, Mode::Zpx, *old(cpu), *final(cpu), old(bus).accesses@, final(bus).accesses@),
        ram_takes_last_write(*old(bus), *final(bus)),
        r == 6,
{
    let _page = rmw_op(cpu, bus, RmwOp::Sre, Mode::Zpx);
    6
}

/// SRE absolute,Y: M := M >> 1, then A := A XOR M.
pub fn sre_absy(cpu: &mut CpuRp2a03, bus: &mut Bus) -> (r: u8)
    requires
        old(bus).wf(),
    ensures
        final(bus).wf(),
        bus_run(*old(bus), *final(bus)),
        executes_rmw(RmwOp::Sre, Mode::Absy, *old(cpu), *final(cpu), old(bus).accesses@, final(bus).accesses@),
        ram_takes_last_write(*old(bus), *final(bus)),
        r == 7,
{
    let _page = rmw_op(cpu, bus, RmwOp::Sre, Mode::Absy);
    7
}

/// SRE absolute,X: M := M >> 1, then A := A XOR M.
pub fn sre_absx(cpu: &mut CpuRp2a03, bus: &mut Bus) -> (r: u8)
    requires
        old(bus).wf(),
    ensures
        final(bus).wf(),
        bus_run(*old(bus), *final(bus)),
        executes_rmw(RmwOp::Sre, Mode::Absx, *old(cpu), *final(cpu), old(bus).accesses@, final(bus).accesses@),
        ram_takes_last_write(*old(bus), *final(bus)),
        r == 7,
{
    let _page = rmw_op(cpu, bus, RmwOp::Sre, Mode::Absx);
    7
}

/// RRA (indirect,X): M := (M >> 1) | C << 7, then ADC M.
pub fn rra_indx(cpu: &mut CpuRp2a03, bus: &mut Bus) -> (r: u8)
    requires
        old(bus).wf(),
    ensures
        final(bus).wf(),
        bus_run(*old(bus), *final(bus)),
        executes_rmw(RmwOp::Rra, Mode::Indx, *old(cpu), *final(cpu), old(bus).accesses@, final(bus).accesses@),
        ram_takes_last_write(*old(bus), *final(bus)),
        r == 8,
{
    let _page = rmw_op(cpu, bus, RmwOp::Rra, Mode::Indx);
    8
}

/// RRA zero page: M := (M >> 1) | C << 7, then ADC M.
pub fn rra_zp(cpu: &mut CpuRp2a03, bus: &mut Bus) -> (r: u8)
    requires
        old(bus).wf(),
    ensures
        final(bus).wf(),
        bus_run(*old(bus), *final(bus)),
        executes_rmw(RmwOp::Rra, Mode::Zp, *old(cpu), *final(cpu), old(bus).accesses@, final(bus).accesses@),
        ram_takes_last_write(*old(bus), *final(bus)),
        r == 5,
{
    let _page = rmw_op(cpu, bus, RmwOp::Rra, Mode::Zp);
    5
}

/// RRA absolute: M := (M >> 1) | C << 7, then ADC M.
pub fn rra_abs(cpu: &mut CpuRp2a03, bus: &mut Bus) -> (r: u8)
    requires
        old(bus).wf(),
    ensures
        final(bus).wf(),
        bus_run(*old(bus), *final(bus)),
        executes_rmw(RmwOp::Rra, Mode::Abs, *old(cpu), *final(cpu), old(bus).accesses@, final(bus).accesses@),
        ram_takes_last_write(*old(bus), *final(bus)),
        r == 6,
{
    let _page = rmw_op(cpu, bus, RmwOp::Rra, Mode::Abs);
    6
}

/// RRA (indirect),Y: M := (M >> 1) | C << 7, then ADC M.
pub fn rra_indy(cpu: &mut CpuRp2a03, bus: &mut Bus) -> (r: u8)
    requires
        old(bus).wf(),
    ensures
        final(bus).wf(),
        bus_run(*old(bus), *final(bus)),
        executes_rmw(RmwOp::Rra, Mode::Indy, *old(cpu), *final(cpu), old(bus).accesses@, final(bus).accesses@),
        ram_takes_last_write(*old(bus), *final(bus)),
        r == 8 + fetch_page(Mode::Indy, *old(cpu), old(bus).accesses@, final(bus).accesses@),
        r <= 9,
{
    let page = rmw_op(cpu, bus, RmwOp::Rra, Mode::Indy);
    8 + page
}

/// RRA zero page,X: M := (M >> 1) | C << 7, then ADC M.
pub fn rra_zpx(cpu: &mut CpuRp2a03, bus: &mut Bus) -> (r: u8)
    requires
        old(bus).wf(),
    ensures
        final(bus).wf(),
        bus_run(*old(bus), *final(bus)),
        executes_rmw(RmwOp::Rra, Mode::Zpx, *old(cpu), *final(cpu), old(bus).accesses@, final(bus).accesses@),
        ram_takes_last_write(*old(bus), *final(bus)),
        r == 6,
{
    let _page = rmw_op(cpu, bus, RmwOp::Rra, Mode::Zpx);
    6
}

/// RRA absolute,Y: M := (M >> 1) | C << 7, then ADC M.
pub fn rra_absy(cpu: &mut CpuRp2a03, bus: &mut Bus) -> (r: u8)
    requires
        old(bus).wf(),
    ensures
        final(bus).wf(),
        bus_run(*old(bus), *final(bus)),
        executes_rmw(RmwOp::Rra, Mode::Absy, *old(cpu), *final(cpu), old(bus).accesses@, final(bus).accesses@),
        ram_takes_last_write(*old(bus), *final(bus)),
        r == 7,
{
    let _page = rmw_op(cpu, bus, RmwOp::Rra, Mode::Absy);
    7
}

/// RRA absolute,X: M := (M >> 1) | C << 7, then ADC M.
pub fn rra_absx(cpu: &mut CpuRp2a03, bus: &mut Bus) -> (r: u8)
    requires
        old(bus).wf(),
    ensures
        final(bus).wf(),
        bus_run(*old(bus), *final(bus)),
        executes_rmw(RmwOp::Rra, Mode::Absx, *old(cpu), *final(cpu), old(bus).accesses@, final(bus).accesses@),
        ram_takes_last_write(*old(bus), *final(bus)),
        r == 7,
{
    let _page = rmw_op(cpu, bus, RmwOp::Rra, Mode::Absx);
    7
}

/// SAX (indirect,X): M := A AND X.
pub fn sax_indx(cpu: &mut CpuRp2a03, bus: &mut Bus) -> (r: u8)
    requires
        old(bus).wf(),
    ensures
        final(bus).wf(),
        bus_run(*old(bus), *final(bus)),
        executes_store(StoreOp::Sax, Mode::Indx, false, *old(cpu), *final(cpu), old(bus).accesses@, final(bus).accesses@),
        ram_takes_last_write(*old(bus), *final(bus)),
        r == 6,
{
    store_op(cpu, bus, StoreOp::Sax, Mode::Indx, false);
    6
}

/// SAX zero page: M := A AND X.
pub fn sax_zp(cpu: &mut CpuRp2a03, bus: &mut Bus) -> (r: u8)
    requires
        old(bus).wf(),
    ensures
        final(bus).wf(),
        bus_run(*old(bus), *final(bus)),
        executes_store(StoreOp::Sax, Mode::Zp, false, *old(cpu), *final(cpu), old(bus).accesses@, final(bus).accesses@),
        ram_takes_last_write(*old(bus), *final(bus)),
        r == 3,
{
    store_op(cpu, bus, StoreOp::Sax, Mode::Zp, false);
    3
}

/// SAX absolute: M := A AND X.
pub fn sax_abs(cpu: &mut CpuRp2a03, bus: &mut Bus) -> (r: u8)
    requires
        old(bus).wf(),
    ensures
        final(bus).wf(),
        bus_run(*old(bus), *final(bus)),
        executes_store(StoreOp::Sax, Mode::Abs, false, *old(cpu), *final(cpu), old(bus).accesses@, final(bus).accesses@),
        ram_takes_last_write(*old(bus), *final(bus)),
        r == 4,
{
    store_op(cpu, bus, StoreOp::Sax, Mode::Abs, false);
    4
}

/// SAX zero page,Y: M := A AND X.
pub fn sax_zpy(cpu: &mut CpuRp2a03, bus: &mut Bus) -> (r: u8)
    requires
        old(bus).wf(),
    ensures
        final(bus).wf(),
        bus_run(*old(bus), *final(bus)),
        executes_store(StoreOp::Sax, Mode::Zpy, false, *old(cpu), *final(cpu), old(bus).accesses@, final(bus).accesses@),
        ram_takes_last_write(*old(bus), *final(bus)),
        r == 4,
{
    store_op(cpu, bus, StoreOp::Sax, Mode::Zpy, false);
    4
}

/// LAX (indirect,X): A := X := M; sets N, Z.
pub fn lax_indx(cpu: &mut CpuRp2a03, bus: &mut Bus) -> (r: u8)
    requires
        old(bus).wf(),
    ensures
        final(bus).wf(),
        bus_run(*old(bus), *final(bus)),
        final(bus).ram == old(bus).ram,
        executes_read(ReadOp::Lax, Mode::Indx, *old(cpu), *final(cpu), old(bus).accesses@, final(bus).accesses@),
        r == 6,
{
    let _page = read_op(cpu, bus, ReadOp::Lax, Mode::Indx);
    6
}

/// LAX zero page: A := X := M; sets N, Z.
pub fn lax_zp(cpu: &mut CpuRp2a03, bus: &mut Bus) -> (r: u8)
    requires
        old(bus).wf(),
    ensures
        final(bus).wf(),
        bus_run(*old(bus), *final(bus)),
        final(bus).ram == old(bus).ram,
        executes_read(ReadOp::Lax, Mode::Zp, *old(cpu), *final(cpu), old(bus).accesses@, final(bus).accesses@),
        r == 3,
{
    let _page = read_op(cpu, bus, ReadOp::Lax, Mode::Zp);
    3
}

/// LAX absolute: A := X := M; sets N, Z.
pub fn lax_abs(cpu: &mut CpuRp2a03, bus: &mut Bus) -> (r: u8)
    requires
        old(bus).wf(),
    ensures
        final(bus).wf(),
        bus_run(*old(bus), *final(bus)),
        final(bus).ram == old(bus).ram,
        executes_read(ReadOp::Lax, Mode::Abs, *old(cpu), *final(cpu), old(bus).accesses@, final(bus).accesses@),
        r == 4,
{
    let _page = read_op(cpu, bus, ReadOp::Lax, Mode::Abs);
    4
}

/// LAX (indirect),Y: A := X := M; sets N, Z.
pub fn lax_indy(cpu: &mut CpuRp2a03, bus: &mut Bus) -> (r: u8)
    requires
        old(bus).wf(),
    ensures
        final(bus).wf(),
        bus_run(*old(bus), *final(bus)),
        final(bus).ram == old(bus).ram,
        executes_read(ReadOp::Lax, Mode::Indy, *old(cpu), *final(cpu), old(bus).accesses@, final(bus).accesses@),
        r == 5 + fetch_page(Mode::Indy, *old(cpu), old(bus).accesses@, final(bus).accesses@),
        r <= 6,
{
    let page = read_op(cpu, bus, ReadOp::Lax, Mode::Indy);
    5 + page
}

/// LAX zero page,Y: A := X := M; sets N, Z.
pub fn lax_zpy(cpu: &mut CpuRp2a03, bus: &mut Bus) -> (r: u8)
    requires
        old(bus).wf(),
    ensures
        final(bus).wf(),
        bus_run(*old(bus), *final(bus)),
        final(bus).ram == old(bus).ram,
        executes_read(ReadOp::Lax, Mode::Zpy, *old(cpu), *final(cpu), old(bus).accesses@, final(bus).accesses@),
        r == 4,
{
    let _page = read_op(cpu, bus, ReadOp::Lax, Mode::Zpy);
    4
}

/// LAX absolute,Y: A := X := M; sets N, Z.
pub fn lax_absy(cpu: &mut CpuRp2a03, bus: &mut Bus) -> (r: u8)
    requires
        old(bus).wf(),
    ensures
        final(bus).wf(),
        bus_run(*old(bus), *final(bus)),
        final(bus).ram == old(bus).ram,
        executes_read(ReadOp::Lax, Mode::Absy, *old(cpu), *final(cpu), old(bus).accesses@, final(bus).accesses@),
        r == 4 + fetch_page(Mode::Absy, *old(cpu), old(bus).accesses@, final(bus).accesses@),
        r <= 5,
{
    let page = read_op(cpu, bus, ReadOp::Lax, Mode::Absy);
    4 + page
}

/// DCP (indirect,X): M := M - 1, then CMP M.
pub fn dcp_indx(cpu: &mut CpuRp2a03, bus: &mut Bus) -> (r: u8)
    requires
        old(bus).wf(),
    ensures
        final(bus).wf(),
        bus_run(*old(bus), *final(bus)),
        executes_rmw(RmwOp::Dcp, Mode::Indx, *old(cpu), *final(cpu), old(bus).accesses@, final(bus).accesses@),
        ram_takes_last_write(*old(bus), *final(bus)),
        r == 8,
{
    let _page = rmw_op(cpu, bus, RmwOp::Dcp, Mode::Indx);
    8
}

/// DCP zero page: M := M - 1, then CMP M.
pub fn dcp_zp(cpu: &mut CpuRp2a03, bus: &mut Bus) -> (r: u8)
    requires
        old(bus).wf(),
    ensures
        final(bus).wf(),
        bus_run(*old(bus), *final(bus)),
        executes_rmw(RmwOp::Dcp, Mode::Zp, *old(cpu), *final(cpu), old(bus).accesses@, final(bus).accesses@),
        ram_takes_last_write(*old(bus), *final(bus)),
        r == 5,
{
    let _page = rmw_op(cpu, bus, RmwOp::Dcp, Mode::Zp);
    5
}

/// DCP absolute: M := M - 1, then CMP M.
pub fn dcp_abs(cpu: &mut CpuRp2a03, bus: &mut Bus) -> (r: u8)
    requires
        old(bus).wf(),
    ensures
        final(bus).wf(),
        bus_run(*old(bus), *final(bus)),
        executes_rmw(RmwOp::Dcp, Mode::Abs, *old(cpu), *final(cpu), old(bus).accesses@, final(bus).accesses@),
        ram_takes_last_write(*old(bus), *final(bus)),
        r == 6,
{
    let _page = rmw_op(cpu, bus, RmwOp::Dcp, Mode::Abs);
    6
}

/// DCP (indirect),Y: M := M - 1, then CMP M.
pub fn dcp_indy(cpu: &mut CpuRp2a03, bus: &mut Bus) -> (r: u8)
    requires
        old(bus).wf(),
    ensures
        final(bus).wf(),
        bus_run(*old(bus), *final(bus)),
        executes_rmw(RmwOp::Dcp, Mode::Indy, *old(cpu), *final(cpu), old(bus).accesses@, final(bus).accesses@),
        ram_takes_last_write(*old(bus), *final(bus)),
        r == 8 + fetch_page(Mode::Indy, *old(cpu), old(bus).accesses@, final(bus).accesses@),
        r <= 9,
{
    let page = rmw_op(cpu, bus, RmwOp::Dcp, Mode::Indy);
    8 + page
}

/// DCP zero page,X: M := M - 1, then CMP M.
pub fn dcp_zpx(cpu: &mut CpuRp2a03, bus: &mut Bus) -> (r: u8)
    requires
        old(bus).wf(),
    ensures
        final(bus).wf(),
        bus_run(*old(bus), *final(bus)),
        executes_rmw(RmwOp::Dcp, Mode::Zpx, *old(cpu), *final(cpu), old(bus).accesses@, final(bus).accesses@),
        ram_takes_last_write(*old(bus), *final(bus)),
        r == 6,
{
    let _page = rmw_op(cpu, bus, RmwOp::Dcp, Mode::Zpx);
    6
}

/// DCP absolute,Y: M := M - 1, then CMP M.
pub fn dcp_absy(cpu: &mut CpuRp2a03, bus: &mut Bus) -> (r: u8)
    requires
        old(bus).wf(),
    ensures
        final(bus).wf(),
        bus_run(*old(bus), *final(bus)),
        executes_rmw(RmwOp::Dcp, Mode::Absy, *old(cpu), *final(cpu), old(bus).accesses@, final(bus).accesses@),
        ram_takes_last_write(*old(bus), *final(bus)),
        r == 7,
{
    let _page = rmw_op(cpu, bus, RmwOp::Dcp, Mode::Absy);
    7
}

/// DCP absolute,X: M := M - 1, then CMP M.
pub fn dcp_absx(cpu: &mut CpuRp2a03, bus: &mut Bus) -> (r: u8)
    requires
        old(bus).wf(),
    ensures
        final(bus).wf(),
        bus_run(*old(bus), *final(bus)),
        executes_rmw(RmwOp::Dcp, Mode::Absx, *old(cpu), *final(cpu), old(bus).accesses@, final(bus).accesses@),
        ram_takes_last_write(*old(bus), *final(bus)),
        r == 7,
{
    let _page = rmw_op(cpu, bus, RmwOp::Dcp, Mode::Absx);
    7
}

/// ISC (indirect,X): M := M + 1, then SBC M.
pub fn isc_indx(cpu: &mut CpuRp2a03, bus: &mut Bus) -> (r: u8)
    requires
        old(bus).wf(),
    ensures
        final(bus).wf(),
        bus_run(*old(bus), *final(bus)),
        executes_rmw(RmwOp::Isc, Mode::Indx, *old(cpu), *final(cpu), old(bus).accesses@, final(bus).accesses@),
        ram_takes_last_write(*old(bus), *final(bus)),
        r == 8,
{
    let _page = rmw_op(cpu, bus, RmwOp::Isc, Mode::Indx);
    8
}

/// ISC zero page: M := M + 1, then SBC M.
pub fn isc_zp(cpu: &mut CpuRp2a03, bus: &mut Bus) -> (r: u8)
    requires
        old(bus).wf(),
    ensures
        final(bus).wf(),
        bus_run(*old(bus), *final(bus)),
        executes_rmw(RmwOp::Isc, Mode::Zp, *old(cpu), *final(cpu), old(bus).accesses@, final(bus).accesses@),
        ram_takes_last_write(*old(bus), *final(bus)),
        r == 5,
{
    let _page = rmw_op(cpu, bus, RmwOp::Isc, Mode::Zp);
    5
}

/// ISC absolute: M := M + 1, then SBC M.
pub fn isc_abs(cpu: &mut CpuRp2a03, bus: &mut Bus) -> (r: u8)
    requires
        old(bus).wf(),
    ensures
        final(bus).wf(),
        bus_run(*old(bus), *final(bus)),
        executes_rmw(RmwOp::Isc, Mode::Abs, *old(cpu), *final(cpu), old(bus).accesses@, final(bus).accesses@),
        ram_takes_last_write(*old(bus), *final(bus)),
        r == 6,
{
    let _page = rmw_op(cpu, bus, RmwOp::Isc, Mode::Abs);
    6
}

/// ISC (indirect),Y: M := M + 1, then SBC M.
pub fn isc_indy(cpu: &mut CpuRp2a03, bus: &mut Bus) -> (r: u8)
    requires
        old(bus).wf(),
    ensures
        final(bus).wf(),
        bus_run(*old(bus), *final(bus)),
        executes_rmw(RmwOp::Isc, Mode::Indy, *old(cpu), *final(cpu), old(bus).accesses@, final(bus).accesses@),
        ram_takes_last_write(*old(bus), *final(bus)),
        r == 8 + fetch_page(Mode::Indy, *old(cpu), old(bus).accesses@, final(bus).accesses@),
        r <= 9,
{
    let page = rmw_op(cpu, bus, RmwOp::Isc, Mode::Indy);
    8 + page
}

/// ISC zero page,X: M := M + 1, then SBC M.
pub fn isc_zpx(cpu: &mut CpuRp2a03, bus: &mut Bus) -> (r: u8)
    requires
        old(bus).wf(),
    ensures
        final(bus).wf(),
        bus_run(*old(bus), *final(bus)),
        executes_rmw(RmwOp::Isc, Mode::Zpx, *old(cpu), *final(cpu), old(bus).accesses@, final(bus).accesses@),
        ram_takes_last_write(*old(bus), *final(bus)),
        r == 6,
{
    let _page = rmw_op(cpu, bus, RmwOp::Isc, Mode::Zpx);
    6
}

/// ISC absolute,Y: M := M + 1, then SBC M.
pub fn isc_absy(cpu: &mut CpuRp2a03, bus: &mut Bus) -> (r: u8)
    requires
        old(bus).wf(),
    ensures
        final(bus).wf(),
        bus_run(*old(bus), *final(bus)),
        executes_rmw(RmwOp::Isc, Mode::Absy, *old(cpu), *final(cpu), old(bus).accesses@, final(bus).accesses@),
        ram_takes_last_write(*old(bus), *final(bus)),
        r == 7,
{
    let _page = rmw_op(cpu, bus, RmwOp::Isc, Mode::Absy);
    7
}

/// ISC absolute,X: M := M + 1, then SBC M.
pub fn isc_absx(cpu: &mut CpuRp2a03, bus: &mut Bus) -> (r: u8)
    requires
        old(bus).wf(),
    ensures
        final(bus).wf(),
        bus_run(*old(bus), *final(bus)),
        executes_rmw(RmwOp::Isc, Mode::Absx, *old(cpu), *final(cpu), old(bus).accesses@, final(bus).accesses@),
        ram_takes_last_write(*old(bus), *final(bus)),
        r == 7,
{
    let _page = rmw_op(cpu, bus, RmwOp::Isc, Mode::Absx);
    7
}

/// ANC immediate: A := A AND M; C := N.
pub fn anc_imm(cpu: &mut CpuRp2a03, bus: &mut Bus) -> (r: u8)
    requires
        old(bus).wf(),
    ensures
        final(bus).wf(),
        bus_run(*old(bus), *final(bus)),
        final(bus).ram == old(bus).ram,
        executes_read(ReadOp::Anc, Mode::Imm, *old(cpu), *final(cpu), old(bus).accesses@, final(bus).accesses@),
        r == 2,
{
    let _page = read_op(cpu, bus, ReadOp::Anc, Mode::Imm);
    2
}

/// ASR immediate: A := (A AND M) >> 1.
pub fn asr_imm(cpu: &mut CpuRp2a03, bus: &mut Bus) -> (r: u8)
    requires
        old(bus).wf(),
    ensures
        final(bus).wf(),
        bus_run(*old(bus), *final(bus)),
        final(bus).ram == old(bus).ram,
        executes_read(ReadOp::Asr, Mode::Imm, *old(cpu), *final(cpu), old(bus).accesses@, final(bus).accesses@),
        r == 2,
{
    let _page = read_op(cpu, bus, ReadOp::Asr, Mode::Imm);
    2
}

/// ARR immediate: A := (A AND M) rotated right, with C and V from bits 7 and 6 xor 5.
pub fn arr_imm(cpu: &mut CpuRp2a03, bus: &mut Bus) -> (r: u8)
    requires
        old(bus).wf(),
    ensures
        final(bus).wf(),
        bus_run(*old(bus), *final(bus)),
        final(bus).ram == old(bus).ram,
        executes_read(ReadOp::Arr, Mode::Imm, *old(cpu), *final(cpu), old(bus).accesses@, final(bus).accesses@),
        r == 2,
{
    let _page = read_op(cpu, bus, ReadOp::Arr, Mode::Imm);
    2
}

/// ANE immediate: A := (A OR $EE) AND X AND M.
pub fn ane_imm(cpu: &mut CpuRp2a03, bus: &mut Bus) -> (r: u8)
    requires
        old(bus).wf(),
    ensures
        final(bus).wf(),
        bus_run(*old(bus), *final(bus)),
        final(bus).ram == old(bus).ram,
        executes_read(ReadOp::Ane, Mode::Imm, *old(cpu), *final(cpu), old(bus).accesses@, final(bus).accesses@),
        r == 2,
{
    let _page = read_op(cpu, bus, ReadOp::Ane, Mode::Imm);
    2
}

/// LXA immediate: A := X := (A OR $EE) AND M.
pub fn lxa_imm(cpu: &mut CpuRp2a03, bus: &mut Bus) -> (r: u8)
    requires
        old(bus).wf(),
    ensures
        final(bus).wf(),
        bus_run(*old(bus), *final(bus)),
        final(bus).ram == old(bus).ram,
        executes_read(ReadOp::Lxa, Mode::Imm, *old(cpu), *final(cpu), old(bus).accesses@, final(bus).accesses@),
        r == 2,
{
    let _page = read_op(cpu, bus, ReadOp::Lxa, Mode::Imm);
    2
}

/// AXS immediate: X := (A AND X) - M; C when no borrow.
pub fn axs_imm(cpu: &mut CpuRp2a03, bus: &mut Bus) -> (r: u8)
    requires
        old(bus).wf(),
    ensures
        final(bus).wf(),
        bus_run(*old(bus), *final(bus)),
        final(bus).ram == old(bus).ram,
        executes_read(ReadOp::Axs, Mode::Imm, *old(cpu), *final(cpu), old(bus).accesses@, final(bus).accesses@),
        r == 2,
{
    let _page = read_op(cpu, bus, ReadOp::Axs, Mode::Imm);
    2
}

/// LAE absolute,Y: A := X := S := S AND M; sets N, Z.
pub fn lae_absy(cpu: &mut CpuRp2a03, bus: &mut Bus) -> (r: u8)
    requires
        old(bus).wf(),
    ensures
        final(bus).wf(),
        bus_run(*old(bus), *final(bus)),
        final(bus).ram == old(bus).ram,
        executes_read(ReadOp::Lae, Mode::Absy, *old(cpu), *final(cpu), old(bus).accesses@, final(bus).accesses@),
        r == 4 + fetch_page(Mode::Absy, *old(cpu), old(bus).accesses@, final(bus).accesses@),
        r <= 5,
{
    let page = read_op(cpu, bus, ReadOp::Lae, Mode::Absy);
    4 + page
}

/// NOP immediate: reads the operand and ignores it.
pub fn nop_imm(cpu: &mut CpuRp2a03, bus: &mut Bus) -> (r: u8)
    requires
        old(bus).wf(),
    ensures
        final(bus).wf(),
        bus_run(*old(bus), *final(bus)),
        final(bus).ram == old(bus).ram,
        executes_read(ReadOp::Nop, Mode::Imm, *old(cpu), *final(cpu), old(bus).accesses@, final(bus).accesses@),
        r == 2,
{
    let _page = read_op(cpu, bus, ReadOp::Nop, Mode::Imm);
    2
}

/// NOP zero page: reads the operand and ignores it.
pub fn nop_zp(cpu: &mut CpuRp2a03, bus: &mut Bus) -> (r: u8)
    requires
        old(bus).wf(),
    ensures
        final(bus).wf(),
        bus_run(*old(bus), *final(bus)),
        final(bus).ram == old(bus).ram,
        executes_read(ReadOp::Nop, Mode::Zp, *old(cpu), *final(cpu), old(bus).accesses@, final(bus).accesses@),
        r == 3,
{
    let _page = read_op(cpu, bus, ReadOp::Nop, Mode::Zp);
    3
}

/// NOP zero page,X: reads the operand and ignores it.
pub fn nop_zpx(cpu: &mut CpuRp2a03, bus: &mut Bus) -> (r: u8)
    requires
        old(bus).wf(),
    ensures
        final(bus).wf(),
        bus_run(*old(bus), *final(bus)),
        final(bus).ram == old(bus).ram,
        executes_read(ReadOp::Nop, Mode::Zpx, *old(cpu), *final(cpu), old(bus).accesses@, final(bus).accesses@),
        r == 4,
{
    let _page = read_op(cpu, bus, ReadOp::Nop, Mode::Zpx);
    4
}

/// NOP absolute: reads the operand and ignores it.
pub fn nop_abs(cpu: &mut CpuRp2a03, bus: &mut Bus) -> (r: u8)
    requires
        old(bus).wf(),
    ensures
        final(bus).wf(),
        bus_run(*old(bus), *final(bus)),
        final(bus).ram == old(bus).ram,
        executes_read(ReadOp::Nop, Mode::Abs, *old(cpu), *final(cpu), old(bus).accesses@, final(bus).accesses@),
        r == 4,
{
    let _page = read_op(cpu, bus, ReadOp::Nop, Mode::Abs);
    4
}

/// NOP absolute,X: reads the operand and ignores it.
pub fn nop_absx(cpu: &mut CpuRp2a03, bus: &mut Bus) -> (r: u8)
    requires
        old(bus).wf(),
    ensures
        final(bus).wf(),
        bus_run(*old(bus), *final(bus)),
        final(bus).ram == old(bus).ram,
        executes_read(ReadOp::Nop, Mode::Absx, *old(cpu), *final(cpu), old(bus).accesses@, final(bus).accesses@),
        r == 4 + fetch_page(Mode::Absx, *old(cpu), old(bus).accesses@, final(bus).accesses@),
        r <= 5,
{
    let page = read_op(cpu, bus, ReadOp::Nop, Mode::Absx);
    4 + page
}


// ---------------------------------------------------------------------------
// Opcode dispatch
// ---------------------------------------------------------------------------
/// The cycles of each opcode before page-cross and taken-branch extras.
pub open spec fn base_cycles_spec(opcode: u8) -> u8 {
    seq![
        7, 6, 2, 8, 3, 3, 5, 5, 3, 2, 2, 2, 4, 4, 6, 6,
        2u8, 5, 2, 8, 4, 4, 6, 6, 2, 4, 2, 7, 4, 4, 7, 7,
        6, 6, 2, 8, 3, 3, 5, 5, 4, 2, 2, 2, 4, 4, 6, 6,
        2, 5, 2, 8, 4, 4, 6, 6, 2, 4, 2, 7, 4, 4, 7, 7,
        6, 6, 2, 8, 3, 3, 5, 5, 3, 2, 2, 2, 3, 4, 6, 6,
        2, 5, 2, 8, 4, 4, 6, 6, 2, 4, 2, 7, 4, 4, 7, 7,
        6, 6, 2, 8, 3, 3, 5, 5, 4, 2, 2, 2, 5, 4, 6, 6,
        2, 5, 2, 8, 4, 4, 6, 6, 2, 4, 2, 7, 4, 4, 7, 7,
        2, 6, 2, 6, 3, 3, 3, 3, 2, 2, 2, 2, 4, 4, 4, 4,
        2, 6, 2, 6, 4, 4, 4, 4, 2, 5, 2, 5, 5, 5, 5, 5,
        2, 6, 2, 6, 3, 3, 3, 3, 2, 2, 2, 2, 4, 4, 4, 4,
        2, 5, 2, 5, 4, 4, 4, 4, 2, 4, 2, 4, 4, 4, 4, 4,
        2, 6, 2, 8, 3, 3, 5, 5, 2, 2, 2, 2, 4, 4, 6, 6,
        2, 5, 2, 8, 4, 4, 6, 6, 2, 4, 2, 7, 4, 4, 7, 7,
        2, 6, 2, 8, 3, 3, 5, 5, 2, 2, 2, 2, 4, 4, 6, 6,
        2, 5, 2, 8, 4, 4, 6, 6, 2, 4, 2, 7, 4, 4, 7, 7,
    ][opcode as int]
}

/// The cycles of `opcode` before page-cross and taken-branch extras.
pub fn base_cycles(opcode: u8) -> (r: u8)
    ensures
        r == base_cycles_spec(opcode),
        2 <= r <= 8,
{
    let t: [u8; 256] = [
        7, 6, 2, 8, 3, 3, 5, 5, 3, 2, 2, 2, 4, 4, 6, 6,
        2, 5, 2, 8, 4, 4, 6, 6, 2, 4, 2, 7, 4, 4, 7, 7,
        6, 6, 2, 8, 3, 3, 5, 5, 4, 2, 2, 2, 4, 4, 6, 6,
        2, 5, 2, 8, 4, 4, 6, 6, 2, 4, 2, 7, 4, 4, 7, 7,
        6, 6, 2, 8, 3, 3, 5, 5, 3, 2, 2, 2, 3, 4, 6, 6,
        2, 5, 2, 8, 4, 4, 6, 6, 2, 4, 2, 7, 4, 4, 7, 7,
        6, 6, 2, 8, 3, 3, 5, 5, 4, 2, 2, 2, 5, 4, 6, 6,
        2, 5, 2, 8, 4, 4, 6, 6, 2, 4, 2, 7, 4, 4, 7, 7,
        2, 6, 2, 6, 3, 3, 3, 3, 2, 2, 2, 2, 4, 4, 4, 4,
        2, 6, 2, 6, 4, 4, 4, 4, 2, 5, 2, 5, 5, 5, 5, 5,
        2, 6, 2, 6, 3, 3, 3, 3, 2, 2, 2, 2, 4, 4, 4, 4,
        2, 5, 2, 5, 4, 4, 4, 4, 2, 4, 2, 4, 4, 4, 4, 4,
        2, 6, 2, 8, 3, 3, 5, 5, 2, 2, 2, 2, 4, 4, 6, 6,
        2, 5, 2, 8, 4, 4, 6, 6, 2, 4, 2, 7, 4, 4, 7, 7,
        2, 6, 2, 8, 3, 3, 5, 5, 2, 2, 2, 2, 4, 4, 6, 6,
        2, 5, 2, 8, 4, 4, 6, 6, 2, 4, 2, 7, 4, 4, 7, 7,
    ];
    assert(t@ =~= seq![
        7, 6, 2, 8, 3, 3, 5, 5, 3, 2, 2, 2, 4, 4, 6, 6,
        2u8, 5, 2, 8, 4, 4, 6, 6, 2, 4, 2, 7, 4, 4, 7, 7,
        6, 6, 2, 8, 3, 3, 5, 5, 4, 2, 2, 2, 4, 4, 6, 6,
        2, 5, 2, 8, 4, 4, 6, 6, 2, 4, 2, 7, 4, 4, 7, 7,
        6, 6, 2, 8, 3, 3, 5, 5, 3, 2, 2, 2, 3, 4, 6, 6,
        2, 5, 2, 8, 4, 4, 6, 6, 2, 4, 2, 7, 4, 4, 7, 7,
        6, 6, 2, 8, 3, 3, 5, 5, 4, 2, 2, 2, 5, 4, 6, 6,
        2, 5, 2, 8, 4, 4, 6, 6, 2, 4, 2, 7, 4, 4, 7, 7,
        2, 6, 2, 6, 3, 3, 3, 3, 2, 2, 2, 2, 4, 4, 4, 4,
        2, 6, 2, 6, 4, 4, 4, 4, 2, 5, 2, 5, 5, 5, 5, 5,
        2, 6, 2, 6, 3, 3, 3, 3, 2, 2, 2, 2, 4, 4, 4, 4,
        2, 5, 2, 5, 4, 4, 4, 4, 2, 4, 2, 4, 4, 4, 4, 4,
        2, 6, 2, 8, 3, 3, 5, 5, 2, 2, 2, 2, 4, 4, 6, 6,
        2, 5, 2, 8, 4, 4, 6, 6, 2, 4, 2, 7, 4, 4, 7, 7,
        2, 6, 2, 8, 3, 3, 5, 5, 2, 2, 2, 2, 4, 4, 6, 6,
        2, 5, 2, 8, 4, 4, 6, 6, 2, 4, 2, 7, 4, 4, 7, 7,
    ]);
    t[opcode as usize]
}

/// What running instruction `opcode` does: from CPU `c0` and bus `b0` to `c1` and
/// `b1`, taking `r` cycles. Each case is the contract of the routine that implements
/// the opcode.
pub open spec fn executes_opcode(opcode: u8, c0: CpuRp2a03, c1: CpuRp2a03, b0: Bus, b1: Bus, r: u8) -> bool {
    match opcode {
        0x00 => {
            &&& extends(b0.accesses@, b1.accesses@)
            &&& ({
                let t = since(b0.accesses@, b1.accesses@);
                let pc1 = c0.pc.wrapping_add(1);
                let sp = c0.st;
                let sr_b = with_flag(c0.sr, FLAG_BREAK, true);
                &&& extends(b0.accesses@, b1.accesses@)
                &&& t.len() == 5
                &&& is_write_of(t[0], stack_addr(sp), (pc1 >> 8u16) as u8)
                &&& is_write_of(t[1], stack_addr(sp.wrapping_sub(1)), pc1 as u8)
                &&& is_write_of(t[2], stack_addr(sp.wrapping_sub(1).wrapping_sub(1)), sr_b)
                &&& is_read_at(t[3], 0xFFFE) && is_read_at(t[4], 0xFFFF)
                &&& b1.ram@ == b0.ram@.update(0x100 + sp, (pc1 >> 8u16) as u8).update(
                    0x100 + sp.wrapping_sub(1),
                    pc1 as u8,
                ).update(0x100 + sp.wrapping_sub(1).wrapping_sub(1), sr_b)
                &&& c1 == (CpuRp2a03 {
                    pc: word(t[3].val, t[4].val),
                    st: sp.wrapping_sub(1).wrapping_sub(1).wrapping_sub(1),
                    sr: with_flag(sr_b, FLAG_INTERRUPT, true),
                    ..c0
                })
            })
            &&& r == 7
        },
        0x01 => {
            &&& b1.ram == b0.ram
            &&& executes_read(ReadOp::Ora, Mode::Indx, c0, c1, b0.accesses@, b1.accesses@)
            &&& r == 6
        },
        0x02 | 0x12 | 0x22 | 0x32 | 0x42 | 0x52 | 0x62 | 0x72 | 0x80 | 0x82 | 0x89 | 0x92 | 0xB2 | 0xC2 | 0xD2 | 0xE2 | 0xF2 => {
            &&& b1.ram == b0.ram
            &&& executes_read(ReadOp::Nop, Mode::Imm, c0, c1, b0.accesses@, b1.accesses@)
            &&& r == 2
        },
        0x03 => {
            &&& executes_rmw(RmwOp::Slo, Mode::Indx, c0, c1, b0.accesses@, b1.accesses@)
            &&& ram_takes_last_write(b0, b1)
            &&& r == 8
        },
        0x04 | 0x44 | 0x64 => {
            &&& b1.ram == b0.ram
            &&& executes_read(ReadOp::Nop, Mode::Zp, c0, c1, b0.accesses@, b1.accesses@)
            &&& r == 3
        },
        0x05 => {
            &&& b1.ram == b0.ram
            &&& executes_read(ReadOp::Ora, Mode::Zp, c0, c1, b0.accesses@, b1.accesses@)
            &&& r == 3
        },
        0x06 => {
            &&& executes_rmw(RmwOp::Asl, Mode::Zp, c0, c1, b0.accesses@, b1.accesses@)
            &&& ram_takes_last_write(b0, b1)
            &&& r == 5
        },
        0x07 => {
            &&& executes_rmw(RmwOp::Slo, Mode::Zp, c0, c1, b0.accesses@, b1.accesses@)
            &&& ram_takes_last_write(b0, b1)
            &&& r == 5
        },
        0x08 => {
            &&& extends(b0.accesses@, b1.accesses@)
            &&& b1.accesses@ == b0.accesses@.push(
                BusAccess { addr: stack_addr(c0.st), val: c0.sr | FLAG_BREAK, write: true },
            )
            &&& b1.ram@ == b0.ram@.update(0x100 + c0.st, c0.sr | FLAG_BREAK)
            &&& c1 == (CpuRp2a03 { st: c0.st.wrapping_sub(1), ..c0 })
            &&& r == 3
        },
        0x09 => {
            &&& b1.ram == b0.ram
            &&& executes_read(ReadOp::Ora, Mode::Imm, c0, c1, b0.accesses@, b1.accesses@)
            &&& r == 2
        },
        0x0A => {
            &&& b1 == b0
            &&& c1 == (CpuRp2a03 { a: rmw_value(RmwOp::Asl, c0.a, carry_in(c0)), ..rmw_effect(RmwOp::Asl, c0, c0.a) })
            &&& r == 2
        },
        0x0B | 0x2B => {
            &&& b1.ram == b0.ram
            &&& executes_read(ReadOp::Anc, Mode::Imm, c0, c1, b0.accesses@, b1.accesses@)
            &&& r == 2
        },
        0x0C => {
            &&& b1.ram == b0.ram
            &&& executes_read(ReadOp::Nop, Mode::Abs, c0, c1, b0.accesses@, b1.accesses@)
            &&& r == 4
        },
        0x0D => {
            &&& b1.ram == b0.ram
            &&& executes_read(ReadOp::Ora, Mode::Abs, c0, c1, b0.accesses@, b1.accesses@)
            &&& r == 4
        },
        0x0E => {
            &&& executes_rmw(RmwOp::Asl, Mode::Abs, c0, c1, b0.accesses@, b1.accesses@)
            &&& ram_takes_last_write(b0, b1)
            &&& r == 6
        },
        0x0F => {
            &&& executes_rmw(RmwOp::Slo, Mode::Abs, c0, c1, b0.accesses@, b1.accesses@)
            &&& ram_takes_last_write(b0, b1)
            &&& r == 6
        },
        0x10 => {
            &&& executes_branch(c0.sr & FLAG_NEGATIVE == 0, c0, c1, b0.accesses@, b1.accesses@, r)
            &&& b1.ram == b0.ram
            &&& 2 <= r <= 4
        },
        0x11 => {
            &&& b1.ram == b0.ram
            &&& executes_read(ReadOp::Ora, Mode::Indy, c0, c1, b0.accesses@, b1.accesses@)
            &&& r == 5 + fetch_page(Mode::Indy, c0, b0.accesses@, b1.accesses@)
            &&& r <= 6
        },
        0x13 => {
            &&& executes_rmw(RmwOp::Slo, Mode::Indy, c0, c1, b0.accesses@, b1.accesses@)
            &&& ram_takes_last_write(b0, b1)
            &&& r == 8 + fetch_page(Mode::Indy, c0, b0.accesses@, b1.accesses@)
            &&& r <= 9
        },
        0x14 | 0x34 | 0x54 | 0x74 | 0xD4 | 0xF4 => {
            &&& b1.ram == b0.ram
            &&& executes_read(ReadOp::Nop, Mode::Zpx, c0, c1, b0.accesses@, b1.accesses@)
            &&& r == 4
        },
        0x15 => {
            &&& b1.ram == b0.ram
            &&& executes_read(ReadOp::Ora, Mode::Zpx, c0, c1, b0.accesses@, b1.accesses@)
            &&& r == 4
        },
        0x16 => {
            &&& executes_rmw(RmwOp::Asl, Mode::Zpx, c0, c1, b0.accesses@, b1.accesses@)
            &&& ram_takes_last_write(b0, b1)
            &&& r == 6
        },
        0x17 => {
            &&& executes_rmw(RmwOp::Slo, Mode::Zpx, c0, c1, b0.accesses@, b1.accesses@)
            &&& ram_takes_last_write(b0, b1)
            &&& r == 6
        },
        0x18 => {
            &&& b1 == b0
            &&& c1 == (CpuRp2a03 { sr: with_flag(c0.sr, FLAG_CARRY, false), ..c0 })
            &&& r == 2
        },
        0x19 => {
            &&& b1.ram == b0.ram
            &&& executes_read(ReadOp::Ora, Mode::Absy, c0, c1, b0.accesses@, b1.accesses@)
            &&& r == 4 + fetch_page(Mode::Absy, c0, b0.accesses@, b1.accesses@)
            &&& r <= 5
        },
        0x1A | 0x3A | 0x5A | 0x7A | 0xDA | 0xEA | 0xFA => {
            &&& b1 == b0
            &&& c1 == c0
            &&& r == 2
        },
        0x1B => {
            &&& executes_rmw(RmwOp::Slo, Mode::Absy, c0, c1, b0.accesses@, b1.accesses@)
            &&& ram_takes_last_write(b0, b1)
            &&& r == 7
        },
        0x1C | 0x3C | 0x5C | 0x7C | 0xDC | 0xFC => {
            &&& b1.ram == b0.ram
            &&& executes_read(ReadOp::Nop, Mode::Absx, c0, c1, b0.accesses@, b1.accesses@)
            &&& r == 4 + fetch_page(Mode::Absx, c0, b0.accesses@, b1.accesses@)
            &&& r <= 5
        },
        0x1D => {
            &&& b1.ram == b0.ram
            &&& executes_read(ReadOp::Ora, Mode::Absx, c0, c1, b0.accesses@, b1.accesses@)
            &&& r == 4 + fetch_page(Mode::Absx, c0, b0.accesses@, b1.accesses@)
            &&& r <= 5
        },
        0x1E => {
            &&& executes_rmw(RmwOp::Asl, Mode::Absx, c0, c1, b0.accesses@, b1.accesses@)
            &&& ram_takes_last_write(b0, b1)
            &&& r == 7
        },
        0x1F => {
            &&& executes_rmw(RmwOp::Slo, Mode::Absx, c0, c1, b0.accesses@, b1.accesses@)
            &&& ram_takes_last_write(b0, b1)
            &&& r == 7
        },
        0x20 => {
            &&& ({
                let t = since(b0.accesses@, b1.accesses@);
                let ret = c0.pc.wrapping_add(1);
                let sp = c0.st;
                &&& extends(b0.accesses@, b1.accesses@)
                &&& t.len() == 4 && is_read_at(t[0], c0.pc) && is_read_at(t[1], c0.pc.wrapping_add(1))
                &&& is_write_of(t[2], stack_addr(sp), (ret >> 8u16) as u8)
                &&& is_write_of(t[3], stack_addr(sp.wrapping_sub(1)), ret as u8)
                &&& b1.ram@ == b0.ram@.update(0x100 + sp, (ret >> 8u16) as u8).update(
                    0x100 + sp.wrapping_sub(1),
                    ret as u8,
                )
                &&& c1 == (CpuRp2a03 {
                    pc: word(t[0].val, t[1].val),
                    st: sp.wrapping_sub(1).wrapping_sub(1),
                    ..c0
                })
            })
            &&& r == 6
        },
        0x21 => {
            &&& b1.ram == b0.ram
            &&& executes_read(ReadOp::And, Mode::Indx, c0, c1, b0.accesses@, b1.accesses@)
            &&& r == 6
        },
        0x23 => {
            &&& executes_rmw(RmwOp::Rla, Mode::Indx, c0, c1, b0.accesses@, b1.accesses@)
            &&& ram_takes_last_write(b0, b1)
            &&& r == 8
        },
        0x24 => {
            &&& b1.ram == b0.ram
            &&& executes_read(ReadOp::Bit, Mode::Zp, c0, c1, b0.accesses@, b1.accesses@)
            &&& r == 3
        },
        0x25 => {
            &&& b1.ram == b0.ram
            &&& executes_read(ReadOp::And, Mode::Zp, c0, c1, b0.accesses@, b1.accesses@)
            &&& r == 3
        },
        0x26 => {
            &&& executes_rmw(RmwOp::Rol, Mode::Zp, c0, c1, b0.accesses@, b1.accesses@)
            &&& ram_takes_last_write(b0, b1)
            &&& r == 5
        },
        0x27 => {
            &&& executes_rmw(RmwOp::Rla, Mode::Zp, c0, c1, b0.accesses@, b1.accesses@)
            &&& ram_takes_last_write(b0, b1)
            &&& r == 5
        },
        0x28 => {
            &&& extends(b0.accesses@, b1.accesses@)
            &&& b1.ram == b0.ram
            &&& ({
                let s1 = c0.st.wrapping_add(1);
                let v = b0.ram[0x100 + s1];
                &&& b1.accesses@ == b0.accesses@.push(BusAccess { addr: stack_addr(s1), val: v, write: false })
                &&& c1 == (CpuRp2a03 { st: s1, sr: v & !FLAG_BREAK, ..c0 })
            })
            &&& r == 4
        },
        0x29 => {
            &&& b1.ram == b0.ram
            &&& executes_read(ReadOp::And, Mode::Imm, c0, c1, b0.accesses@, b1.accesses@)
            &&& r == 2
        },
        0x2A => {
            &&& b1 == b0
            &&& c1 == (CpuRp2a03 { a: rmw_value(RmwOp::Rol, c0.a, carry_in(c0)), ..rmw_effect(RmwOp::Rol, c0, c0.a) })
            &&& r == 2
        },
        0x2C => {
            &&& b1.ram == b0.ram
            &&& executes_read(ReadOp::Bit, Mode::Abs, c0, c1, b0.accesses@, b1.accesses@)
            &&& r == 4
        },
        0x2D => {
            &&& b1.ram == b0.ram
            &&& executes_read(ReadOp::And, Mode::Abs, c0, c1, b0.accesses@, b1.accesses@)
            &&& r == 4
        },
        0x2E => {
            &&& executes_rmw(RmwOp::Rol, Mode::Abs, c0, c1, b0.accesses@, b1.accesses@)
            &&& ram_takes_last_write(b0, b1)
            &&& r == 6
        },
        0x2F => {
            &&& executes_rmw(RmwOp::Rla, Mode::Abs, c0, c1, b0.accesses@, b1.accesses@)
            &&& ram_takes_last_write(b0, b1)
            &&& r == 6
        },
        0x30 => {
            &&& executes_branch(c0.sr & FLAG_NEGATIVE != 0, c0, c1, b0.accesses@, b1.accesses@, r)
            &&& b1.ram == b0.ram
            &&& 2 <= r <= 4
        },
        0x31 => {
            &&& b1.ram == b0.ram
            &&& executes_read(ReadOp::And, Mode::Indy, c0, c1, b0.accesses@, b1.accesses@)
            &&& r == 5 + fetch_page(Mode::Indy, c0, b0.accesses@, b1.accesses@)
            &&& r <= 6
        },
        0x33 => {
            &&& executes_rmw(RmwOp::Rla, Mode::Indy, c0, c1, b0.accesses@, b1.accesses@)
            &&& ram_takes_last_write(b0, b1)
            &&& r == 8 + fetch_page(Mode::Indy, c0, b0.accesses@, b1.accesses@)
            &&& r <= 9
        },
        0x35 => {
            &&& b1.ram == b0.ram
            &&& executes_read(ReadOp::And, Mode::Zpx, c0, c1, b0.accesses@, b1.accesses@)
            &&& r == 4
        },
        0x36 => {
            &&& executes_rmw(RmwOp::Rol, Mode::Zpx, c0, c1, b0.accesses@, b1.accesses@)
            &&& ram_takes_last_write(b0, b1)
            &&& r == 6
        },
        0x37 => {
            &&& executes_rmw(RmwOp::Rla, Mode::Zpx, c0, c1, b0.accesses@, b1.accesses@)
            &&& ram_takes_last_write(b0, b1)
            &&& r == 6
        },
        0x38 => {
            &&& b1 == b0
            &&& c1 == (CpuRp2a03 { sr: with_flag(c0.sr, FLAG_CARRY, true), ..c0 })
            &&& r == 2
        },
        0x39 => {
            &&& b1.ram == b0.ram
            &&& executes_read(ReadOp::And, Mode::Absy, c0, c1, b0.accesses@, b1.accesses@)
            &&& r == 4 + fetch_page(Mode::Absy, c0, b0.accesses@, b1.accesses@)
            &&& r <= 5
        },
        0x3B => {
            &&& executes_rmw(RmwOp::Rla, Mode::Absy, c0, c1, b0.accesses@, b1.accesses@)
            &&& ram_takes_last_write(b0, b1)
            &&& r == 7
        },
        0x3D => {
            &&& b1.ram == b0.ram
            &&& executes_read(ReadOp::And, Mode::Absx, c0, c1, b0.accesses@, b1.accesses@)
            &&& r == 4 + fetch_page(Mode::Absx, c0, b0.accesses@, b1.accesses@)
            &&& r <= 5
        },
        0x3E => {
            &&& executes_rmw(RmwOp::Rol, Mode::Absx, c0, c1, b0.accesses@, b1.accesses@)
            &&& ram_takes_last_write(b0, b1)
            &&& r == 7
        },
        0x3F => {
            &&& executes_rmw(RmwOp::Rla, Mode::Absx, c0, c1, b0.accesses@, b1.accesses@)
            &&& ram_takes_last_write(b0, b1)
            &&& r == 7
        },
        0x40 => {
            &&& b1.ram == b0.ram
            &&& ({
                let t = since(b0.accesses@, b1.accesses@);
                let s1 = c0.st.wrapping_add(1);
                let s2 = s1.wrapping_add(1);
                let s3 = s2.wrapping_add(1);
                &&& extends(b0.accesses@, b1.accesses@)
                &&& t.len() == 3 && is_read_at(t[0], stack_addr(s1)) && is_read_at(t[1], stack_addr(s2))
                &&& is_read_at(t[2], stack_addr(s3))
                &&& c1 == (CpuRp2a03 {
                    sr: b0.ram[0x100 + s1],
                    pc: word(b0.ram[0x100 + s2], b0.ram[0x100 + s3]),
                    st: s3,
                    ..c0
                })
            })
            &&& r == 6
        },
        0x41 => {
            &&& b1.ram == b0.ram
            &&& executes_read(ReadOp::Eor, Mode::Indx, c0, c1, b0.accesses@, b1.accesses@)
            &&& r == 6
        },
        0x43 => {
            &&& executes_rmw(RmwOp::Sre, Mode::Indx, c0, c1, b0.accesses@, b1.accesses@)
            &&& ram_takes_last_write(b0, b1)
            &&& r == 8
        },
        0x45 => {
            &&& b1.ram == b0.ram
            &&& executes_read(ReadOp::Eor, Mode::Zp, c0, c1, b0.accesses@, b1.accesses@)
            &&& r == 3
        },
        0x46 => {
            &&& executes_rmw(RmwOp::Lsr, Mode::Zp, c0, c1, b0.accesses@, b1.accesses@)
            &&& ram_takes_last_write(b0, b1)
            &&& r == 5
        },
        0x47 => {
            &&& executes_rmw(RmwOp::Sre, Mode::Zp, c0, c1, b0.accesses@, b1.accesses@)
            &&& ram_takes_last_write(b0, b1)
            &&& r == 5
        },
        0x48 => {
            &&& extends(b0.accesses@, b1.accesses@)
            &&& b1.accesses@ == b0.accesses@.push(
                BusAccess { addr: stack_addr(c0.st), val: c0.a, write: true },
            )
            &&& b1.ram@ == b0.ram@.update(0x100 + c0.st, c0.a)
            &&& c1 == (CpuRp2a03 { st: c0.st.wrapping_sub(1), ..c0 })
            &&& r == 3
        },
        0x49 => {
            &&& b1.ram == b0.ram
            &&& executes_read(ReadOp::Eor, Mode::Imm, c0, c1, b0.accesses@, b1.accesses@)
            &&& r == 2
        },
        0x4A => {
            &&& b1 == b0
            &&& c1 == (CpuRp2a03 { a: rmw_value(RmwOp::Lsr, c0.a, carry_in(c0)), ..rmw_effect(RmwOp::Lsr, c0, c0.a) })
            &&& r == 2
        },
        0x4B => {
            &&& b1.ram == b0.ram
            &&& executes_read(ReadOp::Asr, Mode::Imm, c0, c1, b0.accesses@, b1.accesses@)
            &&& r == 2
        },
        0x4C => {
            &&& b1.ram == b0.ram
            &&& ({
                let t = since(b0.accesses@, b1.accesses@);
                &&& extends(b0.accesses@, b1.accesses@)
                &&& t.len() == 2 && is_read_at(t[0], c0.pc) && is_read_at(t[1], c0.pc.wrapping_add(1))
                &&& c1 == (CpuRp2a03 { pc: word(t[0].val, t[1].val), ..c0 })
            })
            &&& r == 3
        },
        0x4D => {
            &&& b1.ram == b0.ram
            &&& executes_read(ReadOp::Eor, Mode::Abs, c0, c1, b0.accesses@, b1.accesses@)
            &&& r == 4
        },
        0x4E => {
            &&& executes_rmw(RmwOp::Lsr, Mode::Abs, c0, c1, b0.accesses@, b1.accesses@)
            &&& ram_takes_last_write(b0, b1)
            &&& r == 6
        },
        0x4F => {
            &&& executes_rmw(RmwOp::Sre, Mode::Abs, c0, c1, b0.accesses@, b1.accesses@)
            &&& ram_takes_last_write(b0, b1)
            &&& r == 6
        },
        0x50 => {
            &&& executes_branch(c0.sr & FLAG_OVERFLOW == 0, c0, c1, b0.accesses@, b1.accesses@, r)
            &&& b1.ram == b0.ram
            &&& 2 <= r <= 4
        },
        0x51 => {
            &&& b1.ram == b0.ram
            &&& executes_read(ReadOp::Eor, Mode::Indy, c0, c1, b0.accesses@, b1.accesses@)
            &&& r == 5 + fetch_page(Mode::Indy, c0, b0.accesses@, b1.accesses@)
            &&& r <= 6
        },
        0x53 => {
            &&& executes_rmw(RmwOp::Sre, Mode::Indy, c0, c1, b0.accesses@, b1.accesses@)
            &&& ram_takes_last_write(b0, b1)
            &&& r == 8 + fetch_page(Mode::Indy, c0, b0.accesses@, b1.accesses@)
            &&& r <= 9
        },
        0x55 => {
            &&& b1.ram == b0.ram
            &&& executes_read(ReadOp::Eor, Mode::Zpx, c0, c1, b0.accesses@, b1.accesses@)
            &&& r == 4
        },
        0x56 => {
            &&& executes_rmw(RmwOp::Lsr, Mode::Zpx, c0, c1, b0.accesses@, b1.accesses@)
            &&& ram_takes_last_write(b0, b1)
            &&& r == 6
        },
        0x57 => {
            &&& executes_rmw(RmwOp::Sre, Mode::Zpx, c0, c1, b0.accesses@, b1.accesses@)
            &&& ram_takes_last_write(b0, b1)
            &&& r == 6
        },
        0x58 => {
            &&& b1 == b0
            &&& c1 == (CpuRp2a03 { sr: with_flag(c0.sr, FLAG_INTERRUPT, false), ..c0 })
            &&& r == 2
        },
        0x59 => {
            &&& b1.ram == b0.ram
            &&& executes_read(ReadOp::Eor, Mode::Absy, c0, c1, b0.accesses@, b1.accesses@)
            &&& r == 4 + fetch_page(Mode::Absy, c0, b0.accesses@, b1.accesses@)
            &&& r <= 5
        },
        0x5B => {
            &&& executes_rmw(RmwOp::Sre, Mode::Absy, c0, c1, b0.accesses@, b1.accesses@)
            &&& ram_takes_last_write(b0, b1)
            &&& r == 7
        },
        0x5D => {
            &&& b1.ram == b0.ram
            &&& executes_read(ReadOp::Eor, Mode::Absx, c0, c1, b0.accesses@, b1.accesses@)
            &&& r == 4 + fetch_page(Mode::Absx, c0, b0.accesses@, b1.accesses@)
            &&& r <= 5
        },
        0x5E => {
            &&& executes_rmw(RmwOp::Lsr, Mode::Absx, c0, c1, b0.accesses@, b1.accesses@)
            &&& ram_takes_last_write(b0, b1)
            &&& r == 7
        },
        0x5F => {
            &&& executes_rmw(RmwOp::Sre, Mode::Absx, c0, c1, b0.accesses@, b1.accesses@)
            &&& ram_takes_last_write(b0, b1)
            &&& r == 7
        },
        0x60 => {
            &&& b1.ram == b0.ram
            &&& ({
                let t = since(b0.accesses@, b1.accesses@);
                let sp = c0.st;
                let lo = b0.ram[0x100 + sp.wrapping_add(1)];
                let hi = b0.ram[0x100 + sp.wrapping_add(1).wrapping_add(1)];
                &&& extends(b0.accesses@, b1.accesses@)
                &&& t.len() == 2 && is_read_at(t[0], stack_addr(sp.wrapping_add(1)))
                &&& is_read_at(t[1], stack_addr(sp.wrapping_add(1).wrapping_add(1)))
                &&& c1 == (CpuRp2a03 {
                    pc: word(lo, hi).wrapping_add(1),
                    st: sp.wrapping_add(1).wrapping_add(1),
                    ..c0
                })
            })
            &&& r == 6
        },
        0x61 => {
            &&& b1.ram == b0.ram
            &&& executes_read(ReadOp::Adc, Mode::Indx, c0, c1, b0.accesses@, b1.accesses@)
            &&& r == 6
        },
        0x63 => {
            &&& executes_rmw(RmwOp::Rra, Mode::Indx, c0, c1, b0.accesses@, b1.accesses@)
            &&& ram_takes_last_write(b0, b1)
            &&& r == 8
        },
        0x65 => {
            &&& b1.ram == b0.ram
            &&& executes_read(ReadOp::Adc, Mode::Zp, c0, c1, b0.accesses@, b1.accesses@)
            &&& r == 3
        },
        0x66 => {
            &&& executes_rmw(RmwOp::Ror, Mode::Zp, c0, c1, b0.accesses@, b1.accesses@)
            &&& ram_takes_last_write(b0, b1)
            &&& r == 5
        },
        0x67 => {
            &&& executes_rmw(RmwOp::Rra, Mode::Zp, c0, c1, b0.accesses@, b1.accesses@)
            &&& ram_takes_last_write(b0, b1)
            &&& r == 5
        },
        0x68 => {
            &&& extends(b0.accesses@, b1.accesses@)
            &&& b1.ram == b0.ram
            &&& ({
                let s1 = c0.st.wrapping_add(1);
                let v = b0.ram[0x100 + s1];
                &&& b1.accesses@ == b0.accesses@.push(BusAccess { addr: stack_addr(s1), val: v, write: false })
                &&& c1 == (CpuRp2a03 { a: v, st: s1, sr: nz(c0.sr, v), ..c0 })
            })
            &&& r == 4
        },
        0x69 => {
            &&& b1.ram == b0.ram
            &&& executes_read(ReadOp::Adc, Mode::Imm, c0, c1, b0.accesses@, b1.accesses@)
            &&& r == 2
        },
        0x6A => {
            &&& b1 == b0
            &&& c1 == (CpuRp2a03 { a: rmw_value(RmwOp::Ror, c0.a, carry_in(c0)), ..rmw_effect(RmwOp::Ror, c0, c0.a) })
            &&& r == 2
        },
        0x6B => {
            &&& b1.ram == b0.ram
            &&& executes_read(ReadOp::Arr, Mode::Imm, c0, c1, b0.accesses@, b1.accesses@)
            &&& r == 2
        },
        0x6C => {
            &&& b1.ram == b0.ram
            &&& ({
                let t = since(b0.accesses@, b1.accesses@);
                let ptr = word(t[0].val, t[1].val);
                let hi_ptr = if ptr & 0xFF == 0xFF { ptr & 0xFF00 } else { ptr.wrapping_add(1) };
                &&& extends(b0.accesses@, b1.accesses@)
                &&& t.len() == 4 && is_read_at(t[0], c0.pc) && is_read_at(t[1], c0.pc.wrapping_add(1))
                &&& is_read_at(t[2], ptr) && is_read_at(t[3], hi_ptr)
                &&& c1 == (CpuRp2a03 { pc: word(t[2].val, t[3].val), ..c0 })
            })
            &&& r == 5
        },
        0x6D => {
            &&& b1.ram == b0.ram
            &&& executes_read(ReadOp::Adc, Mode::Abs, c0, c1, b0.accesses@, b1.accesses@)
            &&& r == 4
        },
        0x6E => {
            &&& executes_rmw(RmwOp::Ror, Mode::Abs, c0, c1, b0.accesses@, b1.accesses@)
            &&& ram_takes_last_write(b0, b1)
            &&& r == 6
        },
        0x6F => {
            &&& executes_rmw(RmwOp::Rra, Mode::Abs, c0, c1, b0.accesses@, b1.accesses@)
            &&& ram_takes_last_write(b0, b1)
            &&& r == 6
        },
        0x70 => {
            &&& executes_branch(c0.sr & FLAG_OVERFLOW != 0, c0, c1, b0.accesses@, b1.accesses@, r)
            &&& b1.ram == b0.ram
            &&& 2 <= r <= 4
        },
        0x71 => {
            &&& b1.ram == b0.ram
            &&& executes_read(ReadOp::Adc, Mode::Indy, c0, c1, b0.accesses@, b1.accesses@)
            &&& r == 5 + fetch_page(Mode::Indy, c0, b0.accesses@, b1.accesses@)
            &&& r <= 6
        },
        0x73 => {
            &&& executes_rmw(RmwOp::Rra, Mode::Indy, c0, c1, b0.accesses@, b1.accesses@)
            &&& ram_takes_last_write(b0, b1)
            &&& r == 8 + fetch_page(Mode::Indy, c0, b0.accesses@, b1.accesses@)
            &&& r <= 9
        },
        0x75 => {
            &&& b1.ram == b0.ram
            &&& executes_read(ReadOp::Adc, Mode::Zpx, c0, c1, b0.accesses@, b1.accesses@)
            &&& r == 4
        },
        0x76 => {
            &&& executes_rmw(RmwOp::Ror, Mode::Zpx, c0, c1, b0.accesses@, b1.accesses@)
            &&& ram_takes_last_write(b0, b1)
            &&& r == 6
        },
        0x77 => {
            &&& executes_rmw(RmwOp::Rra, Mode::Zpx, c0, c1, b0.accesses@, b1.accesses@)
            &&& ram_takes_last_write(b0, b1)
            &&& r == 6
        },
        0x78 => {
            &&& b1 == b0
            &&& c1 == (CpuRp2a03 { sr: with_flag(c0.sr, FLAG_INTERRUPT, true), ..c0 })
            &&& r == 2
        },
        0x79 => {
            &&& b1.ram == b0.ram
            &&& executes_read(ReadOp::Adc, Mode::Absy, c0, c1, b0.accesses@, b1.accesses@)
            &&& r == 4 + fetch_page(Mode::Absy, c0, b0.accesses@, b1.accesses@)
            &&& r <= 5
        },
        0x7B => {
            &&& executes_rmw(RmwOp::Rra, Mode::Absy, c0, c1, b0.accesses@, b1.accesses@)
            &&& ram_takes_last_write(b0, b1)
            &&& r == 7
        },
        0x7D => {
            &&& b1.ram == b0.ram
            &&& executes_read(ReadOp::Adc, Mode::Absx, c0, c1, b0.accesses@, b1.accesses@)
            &&& r == 4 + fetch_page(Mode::Absx, c0, b0.accesses@, b1.accesses@)
            &&& r <= 5
        },
        0x7E => {
            &&& executes_rmw(RmwOp::Ror, Mode::Absx, c0, c1, b0.accesses@, b1.accesses@)
            &&& ram_takes_last_write(b0, b1)
            &&& r == 7
        },
        0x7F => {
            &&& executes_rmw(RmwOp::Rra, Mode::Absx, c0, c1, b0.accesses@, b1.accesses@)
            &&& ram_takes_last_write(b0, b1)
            &&& r == 7
        },
        0x81 => {
            &&& executes_store(StoreOp::Sta, Mode::Indx, false, c0, c1, b0.accesses@, b1.accesses@)
            &&& ram_takes_last_write(b0, b1)
            &&& r == 6
        },
        0x83 => {
            &&& executes_store(StoreOp::Sax, Mode::Indx, false, c0, c1, b0.accesses@, b1.accesses@)
            &&& ram_takes_last_write(b0, b1)
            &&& r == 6
        },
        0x84 => {
            &&& executes_store(StoreOp::Sty, Mode::Zp, false, c0, c1, b0.accesses@, b1.accesses@)
            &&& ram_takes_last_write(b0, b1)
            &&& r == 3
        },
        0x85 => {
            &&& executes_store(StoreOp::Sta, Mode::Zp, false, c0, c1, b0.accesses@, b1.accesses@)
            &&& ram_takes_last_write(b0, b1)
            &&& r == 3
        },
        0x86 => {
            &&& executes_store(StoreOp::Stx, Mode::Zp, false, c0, c1, b0.accesses@, b1.accesses@)
            &&& ram_takes_last_write(b0, b1)
            &&& r == 3
        },
        0x87 => {
            &&& executes_store(StoreOp::Sax, Mode::Zp, false, c0, c1, b0.accesses@, b1.accesses@)
            &&& ram_takes_last_write(b0, b1)
            &&& r == 3
        },
        0x88 => {
            &&& b1 == b0
            &&& c1 == (CpuRp2a03 { y: c0.y.wrapping_sub(1), sr: nz(c0.sr, c0.y.wrapping_sub(1)), ..c0 })
            &&& r == 2
        },
        0x8A => {
            &&& b1 == b0
            &&& c1 == (CpuRp2a03 { a: c0.x, sr: nz(c0.sr, c0.x), ..c0 })
            &&& r == 2
        },
        0x8B => {
            &&& b1.ram == b0.ram
            &&& executes_read(ReadOp::Ane, Mode::Imm, c0, c1, b0.accesses@, b1.accesses@)
            &&& r == 2
        },
        0x8C => {
            &&& executes_store(StoreOp::Sty, Mode::Abs, false, c0, c1, b0.accesses@, b1.accesses@)
            &&& ram_takes_last_write(b0, b1)
            &&& r == 4
        },
        0x8D => {
            &&& executes_store(StoreOp::Sta, Mode::Abs, false, c0, c1, b0.accesses@, b1.accesses@)
            &&& ram_takes_last_write(b0, b1)
            &&& r == 4
        },
        0x8E => {
            &&& executes_store(StoreOp::Stx, Mode::Abs, false, c0, c1, b0.accesses@, b1.accesses@)
            &&& ram_takes_last_write(b0, b1)
            &&& r == 4
        },
        0x8F => {
            &&& executes_store(StoreOp::Sax, Mode::Abs, false, c0, c1, b0.accesses@, b1.accesses@)
            &&& ram_takes_last_write(b0, b1)
            &&& r == 4
        },
        0x90 => {
            &&& executes_branch(c0.sr & FLAG_CARRY == 0, c0, c1, b0.accesses@, b1.accesses@, r)
            &&& b1.ram == b0.ram
            &&& 2 <= r <= 4
        },
        0x91 => {
            &&& executes_store(StoreOp::Sta, Mode::Indy, true, c0, c1, b0.accesses@, b1.accesses@)
            &&& ram_takes_last_write(b0, b1)
            &&& r == 6
        },
        0x93 => {
            &&& !b1.dmc_just_fired
            &&& ram_takes_last_write(b0, b1)
            &&& ({
                let t = since(b0.accesses@, b1.accesses@);
                let c = c0;
                let ptr = t[0].val as u16;
                let base = word(t[1].val, t[2].val);
                &&& extends(b0.accesses@, b1.accesses@)
                &&& t.len() == 5 && is_read_at(t[0], c.pc) && is_read_at(t[1], ptr) && is_read_at(t[2], ptr.wrapping_add(1))
                &&& is_read_at(t[3], indexed(base, c.y).0)
                &&& is_write_of(t[4], sh_target(base, c.y, c.x), sh_value(c.a & c.x, base, b0.dmc_just_fired))
                &&& c1 == advanced(c, 1)
            })
            &&& r == 6
        },
        0x94 => {
            &&& executes_store(StoreOp::Sty, Mode::Zpx, false, c0, c1, b0.accesses@, b1.accesses@)
            &&& ram_takes_last_write(b0, b1)
            &&& r == 4
        },
        0x95 => {
            &&& executes_store(StoreOp::Sta, Mode::Zpx, false, c0, c1, b0.accesses@, b1.accesses@)
            &&& ram_takes_last_write(b0, b1)
            &&& r == 4
        },
        0x96 => {
            &&& executes_store(StoreOp::Stx, Mode::Zpy, false, c0, c1, b0.accesses@, b1.accesses@)
            &&& ram_takes_last_write(b0, b1)
            &&& r == 4
        },
        0x97 => {
            &&& executes_store(StoreOp::Sax, Mode::Zpy, false, c0, c1, b0.accesses@, b1.accesses@)
            &&& ram_takes_last_write(b0, b1)
            &&& r == 4
        },
        0x98 => {
            &&& b1 == b0
            &&& c1 == (CpuRp2a03 { a: c0.y, sr: nz(c0.sr, c0.y), ..c0 })
            &&& r == 2
        },
        0x99 => {
            &&& executes_store(StoreOp::Sta, Mode::Absy, true, c0, c1, b0.accesses@, b1.accesses@)
            &&& ram_takes_last_write(b0, b1)
            &&& r == 5
        },
        0x9A => {
            &&& b1 == b0
            &&& c1 == (CpuRp2a03 { st: c0.x, ..c0 })
            &&& r == 2
        },
        0x9B => {
            &&& !b1.dmc_just_fired
            &&& executes_sh_abs(c0.y, c0.x, c0.a & c0.x, b0.dmc_just_fired, c0, b0.accesses@, b1.accesses@)
            &&& ram_takes_last_write(b0, b1)
            &&& c1 == (CpuRp2a03 { st: c0.a & c0.x, ..advanced(c0, 2) })
            &&& r == 5
        },
        0x9C => {
            &&& !b1.dmc_just_fired
            &&& executes_sh_abs(c0.x, c0.y, c0.y, b0.dmc_just_fired, c0, b0.accesses@, b1.accesses@)
            &&& ram_takes_last_write(b0, b1)
            &&& c1 == advanced(c0, 2)
            &&& r == 5
        },
        0x9D => {
            &&& executes_store(StoreOp::Sta, Mode::Absx, true, c0, c1, b0.accesses@, b1.accesses@)
            &&& ram_takes_last_write(b0, b1)
            &&& r == 5
        },
        0x9E => {
            &&& !b1.dmc_just_fired
            &&& executes_sh_abs(c0.y, c0.x, c0.x, b0.dmc_just_fired, c0, b0.accesses@, b1.accesses@)
            &&& ram_takes_last_write(b0, b1)
            &&& c1 == advanced(c0, 2)
            &&& r == 5
        },
        0x9F => {
            &&& !b1.dmc_just_fired
            &&& executes_sh_abs(c0.y, c0.x, c0.a & c0.x, b0.dmc_just_fired, c0, b0.accesses@, b1.accesses@)
            &&& ram_takes_last_write(b0, b1)
            &&& c1 == advanced(c0, 2)
            &&& r == 5
        },
        0xA0 => {
            &&& b1.ram == b0.ram
            &&& executes_read(ReadOp::Ldy, Mode::Imm, c0, c1, b0.accesses@, b1.accesses@)
            &&& r == 2
        },
        0xA1 => {
            &&& b1.ram == b0.ram
            &&& executes_read(ReadOp::Lda, Mode::Indx, c0, c1, b0.accesses@, b1.accesses@)
            &&& r == 6
        },
        0xA2 => {
            &&& b1.ram == b0.ram
            &&& executes_read(ReadOp::Ldx, Mode::Imm, c0, c1, b0.accesses@, b1.accesses@)
            &&& r == 2
        },
        0xA3 => {
            &&& b1.ram == b0.ram
            &&& executes_read(ReadOp::Lax, Mode::Indx, c0, c1, b0.accesses@, b1.accesses@)
            &&& r == 6
        },
        0xA4 => {
            &&& b1.ram == b0.ram
            &&& executes_read(ReadOp::Ldy, Mode::Zp, c0, c1, b0.accesses@, b1.accesses@)
            &&& r == 3
        },
        0xA5 => {
            &&& b1.ram == b0.ram
            &&& executes_read(ReadOp::Lda, Mode::Zp, c0, c1, b0.accesses@, b1.accesses@)
            &&& r == 3
        },
        0xA6 => {
            &&& b1.ram == b0.ram
            &&& executes_read(ReadOp::Ldx, Mode::Zp, c0, c1, b0.accesses@, b1.accesses@)
            &&& r == 3
        },
        0xA7 => {
            &&& b1.ram == b0.ram
            &&& executes_read(ReadOp::Lax, Mode::Zp, c0, c1, b0.accesses@, b1.accesses@)
            &&& r == 3
        },
        0xA8 => {
            &&& b1 == b0
            &&& c1 == (CpuRp2a03 { y: c0.a, sr: nz(c0.sr, c0.a), ..c0 })
            &&& r == 2
        },
        0xA9 => {
            &&& b1.ram == b0.ram
            &&& executes_read(ReadOp::Lda, Mode::Imm, c0, c1, b0.accesses@, b1.accesses@)
            &&& r == 2
        },
        0xAA => {
            &&& b1 == b0
            &&& c1 == (CpuRp2a03 { x: c0.a, sr: nz(c0.sr, c0.a), ..c0 })
            &&& r == 2
        },
        0xAB => {
            &&& b1.ram == b0.ram
            &&& executes_read(ReadOp::Lxa, Mode::Imm, c0, c1, b0.accesses@, b1.accesses@)
            &&& r == 2
        },
        0xAC => {
            &&& b1.ram == b0.ram
            &&& executes_read(ReadOp::Ldy, Mode::Abs, c0, c1, b0.accesses@, b1.accesses@)
            &&& r == 4
        },
        0xAD => {
            &&& b1.ram == b0.ram
            &&& executes_read(ReadOp::Lda, Mode::Abs, c0, c1, b0.accesses@, b1.accesses@)
            &&& r == 4
        },
        0xAE => {
            &&& b1.ram == b0.ram
            &&& executes_read(ReadOp::Ldx, Mode::Abs, c0, c1, b0.accesses@, b1.accesses@)
            &&& r == 4
        },
        0xAF => {
            &&& b1.ram == b0.ram
            &&& executes_read(ReadOp::Lax, Mode::Abs, c0, c1, b0.accesses@, b1.accesses@)
            &&& r == 4
        },
        0xB0 => {
            &&& executes_branch(c0.sr & FLAG_CARRY != 0, c0, c1, b0.accesses@, b1.accesses@, r)
            &&& b1.ram == b0.ram
            &&& 2 <= r <= 4
        },
        0xB1 => {
            &&& b1.ram == b0.ram
            &&& executes_read(ReadOp::Lda, Mode::Indy, c0, c1, b0.accesses@, b1.accesses@)
            &&& r == 5 + fetch_page(Mode::Indy, c0, b0.accesses@, b1.accesses@)
            &&& r <= 6
        },
        0xB3 => {
            &&& b1.ram == b0.ram
            &&& executes_read(ReadOp::Lax, Mode::Indy, c0, c1, b0.accesses@, b1.accesses@)
            &&& r == 5 + fetch_page(Mode::Indy, c0, b0.accesses@, b1.accesses@)
            &&& r <= 6
        },
        0xB4 => {
            &&& b1.ram == b0.ram
            &&& executes_read(ReadOp::Ldy, Mode::Zpx, c0, c1, b0.accesses@, b1.accesses@)
            &&& r == 4
        },
        0xB5 => {
            &&& b1.ram == b0.ram
            &&& executes_read(ReadOp::Lda, Mode::Zpx, c0, c1, b0.accesses@, b1.accesses@)
            &&& r == 4
        },
        0xB6 => {
            &&& b1.ram == b0.ram
            &&& executes_read(ReadOp::Ldx, Mode::Zpy, c0, c1, b0.accesses@, b1.accesses@)
            &&& r == 4
        },
        0xB7 => {
            &&& b1.ram == b0.ram
            &&& executes_read(ReadOp::Lax, Mode::Zpy, c0, c1, b0.accesses@, b1.accesses@)
            &&& r == 4
        },
        0xB8 => {
            &&& b1 == b0
            &&& c1 == (CpuRp2a03 { sr: with_flag(c0.sr, FLAG_OVERFLOW, false), ..c0 })
            &&& r == 2
        },
        0xB9 => {
            &&& b1.ram == b0.ram
            &&& executes_read(ReadOp::Lda, Mode::Absy, c0, c1, b0.accesses@, b1.accesses@)
            &&& r == 4 + fetch_page(Mode::Absy, c0, b0.accesses@, b1.accesses@)
            &&& r <= 5
        },
        0xBA => {
            &&& b1 == b0
            &&& c1 == (CpuRp2a03 { x: c0.st, sr: nz(c0.sr, c0.st), ..c0 })
            &&& r == 2
        },
        0xBB => {
            &&& b1.ram == b0.ram
            &&& executes_read(ReadOp::Lae, Mode::Absy, c0, c1, b0.accesses@, b1.accesses@)
            &&& r == 4 + fetch_page(Mode::Absy, c0, b0.accesses@, b1.accesses@)
            &&& r <= 5
        },
        0xBC => {
            &&& b1.ram == b0.ram
            &&& executes_read(ReadOp::Ldy, Mode::Absx, c0, c1, b0.accesses@, b1.accesses@)
            &&& r == 4 + fetch_page(Mode::Absx, c0, b0.accesses@, b1.accesses@)
            &&& r <= 5
        },
        0xBD => {
            &&& b1.ram == b0.ram
            &&& executes_read(ReadOp::Lda, Mode::Absx, c0, c1, b0.accesses@, b1.accesses@)
            &&& r == 4 + fetch_page(Mode::Absx, c0, b0.accesses@, b1.accesses@)
            &&& r <= 5
        },
        0xBE => {
            &&& b1.ram == b0.ram
            &&& executes_read(ReadOp::Ldx, Mode::Absy, c0, c1, b0.accesses@, b1.accesses@)
            &&& r == 4 + fetch_page(Mode::Absy, c0, b0.accesses@, b1.accesses@)
            &&& r <= 5
        },
        0xBF => {
            &&& b1.ram == b0.ram
            &&& executes_read(ReadOp::Lax, Mode::Absy, c0, c1, b0.accesses@, b1.accesses@)
            &&& r == 4 + fetch_page(Mode::Absy, c0, b0.accesses@, b1.accesses@)
            &&& r <= 5
        },
        0xC0 => {
            &&& b1.ram == b0.ram
            &&& executes_read(ReadOp::Cpy, Mode::Imm, c0, c1, b0.accesses@, b1.accesses@)
            &&& r == 2
        },
        0xC1 => {
            &&& b1.ram == b0.ram
            &&& executes_read(ReadOp::Cmp, Mode::Indx, c0, c1, b0.accesses@, b1.accesses@)
            &&& r == 6
        },
        0xC3 => {
            &&& executes_rmw(RmwOp::Dcp, Mode::Indx, c0, c1, b0.accesses@, b1.accesses@)
            &&& ram_takes_last_write(b0, b1)
            &&& r == 8
        },
        0xC4 => {
            &&& b1.ram == b0.ram
            &&& executes_read(ReadOp::Cpy, Mode::Zp, c0, c1, b0.accesses@, b1.accesses@)
            &&& r == 3
        },
        0xC5 => {
            &&& b1.ram == b0.ram
            &&& executes_read(ReadOp::Cmp, Mode::Zp, c0, c1, b0.accesses@, b1.accesses@)
            &&& r == 3
        },
        0xC6 => {
            &&& executes_rmw(RmwOp::Dec, Mode::Zp, c0, c1, b0.accesses@, b1.accesses@)
            &&& ram_takes_last_write(b0, b1)
            &&& r == 5
        },
        0xC7 => {
            &&& executes_rmw(RmwOp::Dcp, Mode::Zp, c0, c1, b0.accesses@, b1.accesses@)
            &&& ram_takes_last_write(b0, b1)
            &&& r == 5
        },
        0xC8 => {
            &&& b1 == b0
            &&& c1 == (CpuRp2a03 { y: c0.y.wrapping_add(1), sr: nz(c0.sr, c0.y.wrapping_add(1)), ..c0 })
            &&& r == 2
        },
        0xC9 => {
            &&& b1.ram == b0.ram
            &&& executes_read(ReadOp::Cmp, Mode::Imm, c0, c1, b0.accesses@, b1.accesses@)
            &&& r == 2
        },
        0xCA => {
            &&& b1 == b0
            &&& c1 == (CpuRp2a03 { x: c0.x.wrapping_sub(1), sr: nz(c0.sr, c0.x.wrapping_sub(1)), ..c0 })
            &&& r == 2
        },
        0xCB => {
            &&& b1.ram == b0.ram
            &&& executes_read(ReadOp::Axs, Mode::Imm, c0, c1, b0.accesses@, b1.accesses@)
            &&& r == 2
        },
        0xCC => {
            &&& b1.ram == b0.ram
            &&& executes_read(ReadOp::Cpy, Mode::Abs, c0, c1, b0.accesses@, b1.accesses@)
            &&& r == 4
        },
        0xCD => {
            &&& b1.ram == b0.ram
            &&& executes_read(ReadOp::Cmp, Mode::Abs, c0, c1, b0.accesses@, b1.accesses@)
            &&& r == 4
        },
        0xCE => {
            &&& executes_rmw(RmwOp::Dec, Mode::Abs, c0, c1, b0.accesses@, b1.accesses@)
            &&& ram_takes_last_write(b0, b1)
            &&& r == 6
        },
        0xCF => {
            &&& executes_rmw(RmwOp::Dcp, Mode::Abs, c0, c1, b0.accesses@, b1.accesses@)
            &&& ram_takes_last_write(b0, b1)
            &&& r == 6
        },
        0xD0 => {
            &&& executes_branch(c0.sr & FLAG_ZERO == 0, c0, c1, b0.accesses@, b1.accesses@, r)
            &&& b1.ram == b0.ram
            &&& 2 <= r <= 4
        },
        0xD1 => {
            &&& b1.ram == b0.ram
            &&& executes_read(ReadOp::Cmp, Mode::Indy, c0, c1, b0.accesses@, b1.accesses@)
            &&& r == 5 + fetch_page(Mode::Indy, c0, b0.accesses@, b1.accesses@)
            &&& r <= 6
        },
        0xD3 => {
            &&& executes_rmw(RmwOp::Dcp, Mode::Indy, c0, c1, b0.accesses@, b1.accesses@)
            &&& ram_takes_last_write(b0, b1)
            &&& r == 8 + fetch_page(Mode::Indy, c0, b0.accesses@, b1.accesses@)
            &&& r <= 9
        },
        0xD5 => {
            &&& b1.ram == b0.ram
            &&& executes_read(ReadOp::Cmp, Mode::Zpx, c0, c1, b0.accesses@, b1.accesses@)
            &&& r == 4
        },
        0xD6 => {
            &&& executes_rmw(RmwOp::Dec, Mode::Zpx, c0, c1, b0.accesses@, b1.accesses@)
            &&& ram_takes_last_write(b0, b1)
            &&& r == 6
        },
        0xD7 => {
            &&& executes_rmw(RmwOp::Dcp, Mode::Zpx, c0, c1, b0.accesses@, b1.accesses@)
            &&& ram_takes_last_write(b0, b1)
            &&& r == 6
        },
        0xD8 => {
            &&& b1 == b0
            &&& c1 == (CpuRp2a03 { sr: with_flag(c0.sr, FLAG_DECIMAL, false), ..c0 })
            &&& r == 2
        },
        0xD9 => {
            &&& b1.ram == b0.ram
            &&& executes_read(ReadOp::Cmp, Mode::Absy, c0, c1, b0.accesses@, b1.accesses@)
            &&& r == 4 + fetch_page(Mode::Absy, c0, b0.accesses@, b1.accesses@)
            &&& r <= 5
        },
        0xDB => {
            &&& executes_rmw(RmwOp::Dcp, Mode::Absy, c0, c1, b0.accesses@, b1.accesses@)
            &&& ram_takes_last_write(b0, b1)
            &&& r == 7
        },
        0xDD => {
            &&& b1.ram == b0.ram
            &&& executes_read(ReadOp::Cmp, Mode::Absx, c0, c1, b0.accesses@, b1.accesses@)
            &&& r == 4 + fetch_page(Mode::Absx, c0, b0.accesses@, b1.accesses@)
            &&& r <= 5
        },
        0xDE => {
            &&& executes_rmw(RmwOp::Dec, Mode::Absx, c0, c1, b0.accesses@, b1.accesses@)
            &&& ram_takes_last_write(b0, b1)
            &&& r == 7
        },
        0xDF => {
            &&& executes_rmw(RmwOp::Dcp, Mode::Absx, c0, c1, b0.accesses@, b1.accesses@)
            &&& ram_takes_last_write(b0, b1)
            &&& r == 7
        },
        0xE0 => {
            &&& b1.ram == b0.ram
            &&& executes_read(ReadOp::Cpx, Mode::Imm, c0, c1, b0.accesses@, b1.accesses@)
            &&& r == 2
        },
        0xE1 => {
            &&& b1.ram == b0.ram
            &&& executes_read(ReadOp::Sbc, Mode::Indx, c0, c1, b0.accesses@, b1.accesses@)
            &&& r == 6
        },
        0xE3 => {
            &&& executes_rmw(RmwOp::Isc, Mode::Indx, c0, c1, b0.accesses@, b1.accesses@)
            &&& ram_takes_last_write(b0, b1)
            &&& r == 8
        },
        0xE4 => {
            &&& b1.ram == b0.ram
            &&& executes_read(ReadOp::Cpx, Mode::Zp, c0, c1, b0.accesses@, b1.accesses@)
            &&& r == 3
        },
        0xE5 => {
            &&& b1.ram == b0.ram
            &&& executes_read(ReadOp::Sbc, Mode::Zp, c0, c1, b0.accesses@, b1.accesses@)
            &&& r == 3
        },
        0xE6 => {
            &&& executes_rmw(RmwOp::Inc, Mode::Zp, c0, c1, b0.accesses@, b1.accesses@)
            &&& ram_takes_last_write(b0, b1)
            &&& r == 5
        },
        0xE7 => {
            &&& executes_rmw(RmwOp::Isc, Mode::Zp, c0, c1, b0.accesses@, b1.accesses@)
            &&& ram_takes_last_write(b0, b1)
            &&& r == 5
        },
        0xE8 => {
            &&& b1 == b0
            &&& c1 == (CpuRp2a03 { x: c0.x.wrapping_add(1), sr: nz(c0.sr, c0.x.wrapping_add(1)), ..c0 })
            &&& r == 2
        },
        0xE9 | 0xEB => {
            &&& b1.ram == b0.ram
            &&& executes_read(ReadOp::Sbc, Mode::Imm, c0, c1, b0.accesses@, b1.accesses@)
            &&& r == 2
        },
        0xEC => {
            &&& b1.ram == b0.ram
            &&& executes_read(ReadOp::Cpx, Mode::Abs, c0, c1, b0.accesses@, b1.accesses@)
            &&& r == 4
        },
        0xED => {
            &&& b1.ram == b0.ram
            &&& executes_read(ReadOp::Sbc, Mode::Abs, c0, c1, b0.accesses@, b1.accesses@)
            &&& r == 4
        },
        0xEE => {
            &&& executes_rmw(RmwOp::Inc, Mode::Abs, c0, c1, b0.accesses@, b1.accesses@)
            &&& ram_takes_last_write(b0, b1)
            &&& r == 6
        },
        0xEF => {
            &&& executes_rmw(RmwOp::Isc, Mode::Abs, c0, c1, b0.accesses@, b1.accesses@)
            &&& ram_takes_last_write(b0, b1)
            &&& r == 6
        },
        0xF0 => {
            &&& executes_branch(c0.sr & FLAG_ZERO != 0, c0, c1, b0.accesses@, b1.accesses@, r)
            &&& b1.ram == b0.ram
            &&& 2 <= r <= 4
        },
        0xF1 => {
            &&& b1.ram == b0.ram
            &&& executes_read(ReadOp::Sbc, Mode::Indy, c0, c1, b0.accesses@, b1.accesses@)
            &&& r == 5 + fetch_page(Mode::Indy, c0, b0.accesses@, b1.accesses@)
            &&& r <= 6
        },
        0xF3 => {
            &&& executes_rmw(RmwOp::Isc, Mode::Indy, c0, c1, b0.accesses@, b1.accesses@)
            &&& ram_takes_last_write(b0, b1)
            &&& r == 8 + fetch_page(Mode::Indy, c0, b0.accesses@, b1.accesses@)
            &&& r <= 9
        },
        0xF5 => {
            &&& b1.ram == b0.ram
            &&& executes_read(ReadOp::Sbc, Mode::Zpx, c0, c1, b0.accesses@, b1.accesses@)
            &&& r == 4
        },
        0xF6 => {
            &&& executes_rmw(RmwOp::Inc, Mode::Zpx, c0, c1, b0.accesses@, b1.accesses@)
            &&& ram_takes_last_write(b0, b1)
            &&& r == 6
        },
        0xF7 => {
            &&& executes_rmw(RmwOp::Isc, Mode::Zpx, c0, c1, b0.accesses@, b1.accesses@)
            &&& ram_takes_last_write(b0, b1)
            &&& r == 6
        },
        0xF8 => {
            &&& b1 == b0
            &&& c1 == (CpuRp2a03 { sr: with_flag(c0.sr, FLAG_DECIMAL, true), ..c0 })
            &&& r == 2
        },
        0xF9 => {
            &&& b1.ram == b0.ram
            &&& executes_read(ReadOp::Sbc, Mode::Absy, c0, c1, b0.accesses@, b1.accesses@)
            &&& r == 4 + fetch_page(Mode::Absy, c0, b0.accesses@, b1.accesses@)
            &&& r <= 5
        },
        0xFB => {
            &&& executes_rmw(RmwOp::Isc, Mode::Absy, c0, c1, b0.accesses@, b1.accesses@)
            &&& ram_takes_last_write(b0, b1)
            &&& r == 7
        },
        0xFD => {
            &&& b1.ram == b0.ram
            &&& executes_read(ReadOp::Sbc, Mode::Absx, c0, c1, b0.accesses@, b1.accesses@)
            &&& r == 4 + fetch_page(Mode::Absx, c0, b0.accesses@, b1.accesses@)
            &&& r <= 5
        },
        0xFE => {
            &&& executes_rmw(RmwOp::Inc, Mode::Absx, c0, c1, b0.accesses@, b1.accesses@)
            &&& ram_takes_last_write(b0, b1)
            &&& r == 7
        },
        0xFF => {
            &&& executes_rmw(RmwOp::Isc, Mode::Absx, c0, c1, b0.accesses@, b1.accesses@)
            &&& ram_takes_last_write(b0, b1)
            &&& r == 7
        },
    }
}

/// A read gives back what a write stored, at the level of whole instructions: after
/// STA zero page, an LDA zero page of the same address loads the stored byte.
pub proof fn lemma_sta_then_lda_zp(
    c0: CpuRp2a03,
    c1: CpuRp2a03,
    b0: Bus,
    b1: Bus,
    r1: u8,
    d0: CpuRp2a03,
    d1: CpuRp2a03,
    b2: Bus,
    r2: u8,
)
    requires
        executes_opcode(0x85, c0, c1, b0, b1, r1),
        instruction_run(0x85, b0, b1),
        executes_opcode(0xA5, d0, d1, b1, b2, r2),
        instruction_run(0xA5, b1, b2),
        since(b0.accesses@, b1.accesses@)[0].val == since(b1.accesses@, b2.accesses@)[0].val,
    ensures
        d1.a == c0.a,
{
    let t1 = since(b0.accesses@, b1.accesses@);
    let t2 = since(b1.accesses@, b2.accesses@);
    let z = t1[0].val;
    let addr = z as u16;
    assert(addr < 0x2000 && ram_index(addr) == z) by {
        assert((z as u16) & 0x07FF == z as u16) by (bit_vector);
    }
    assert(b1.ram@ == b0.ram@.update(ram_index(addr), c0.a));
    let bs = choose|bs: Seq<Bus>| #[trigger] crate::bus::runs_through(bs, t2, b1, b2);
    assert(crate::bus::access_step(bs[0], t2[0], bs[1]));
    assert(crate::bus::access_step(bs[1], t2[1], bs[2]));
    crate::bus::lemma_read_step_ram(bs[0], t2[0].addr, t2[0].val, bs[1]);
    crate::bus::lemma_read_step_ram(bs[1], t2[1].addr, t2[1].val, bs[2]);
    assert(t2[1].addr == addr);
    assert(b1.ram@[ram_index(addr)] == c0.a);
}

/// Runs the instruction `opcode` (whose operand starts at pc); returns its cycles.
#[verifier::spinoff_prover]
#[verifier::rlimit(100)]
pub fn execute(opcode: u8, cpu: &mut CpuRp2a03, bus: &mut Bus) -> (r: u8)
    requires
        old(bus).wf(),
    ensures
        final(bus).wf(),
        executes_opcode(opcode, *old(cpu), *final(cpu), *old(bus), *final(bus), r),
        instruction_run(opcode, *old(bus), *final(bus)),
        extends(old(bus).accesses@, final(bus).accesses@),
        r >= base_cycles_spec(opcode),
        r <= base_cycles_spec(opcode) + 2,
{
    proof {
        lemma_since_refl(bus.accesses@);
        lemma_fetch_page_bit(Mode::Absx, *cpu, since(old(bus).accesses@, old(bus).accesses@));
    }
    match opcode {
        0x00 => brk(cpu, bus),
        0x01 => ora_indx(cpu, bus),
        0x02 => nop_imm(cpu, bus),
        0x03 => slo_indx(cpu, bus),
        0x04 => nop_zp(cpu, bus),
        0x05 => ora_zp(cpu, bus),
        0x06 => asl_zp(cpu, bus),
        0x07 => slo_zp(cpu, bus),
        0x08 => php(cpu, bus),
        0x09 => ora_imm(cpu, bus),
        0x0A => asl_a(cpu, bus),
        0x0B => anc_imm(cpu, bus),
        0x0C => nop_abs(cpu, bus),
        0x0D => ora_abs(cpu, bus),
        0x0E => asl_abs(cpu, bus),
        0x0F => slo_abs(cpu, bus),
        0x10 => bpl(cpu, bus),
        0x11 => ora_indy(cpu, bus),
        0x12 => nop_imm(cpu, bus),
        0x13 => slo_indy(cpu, bus),
        0x14 => nop_zpx(cpu, bus),
        0x15 => ora_zpx(cpu, bus),
        0x16 => asl_zpx(cpu, bus),
        0x17 => slo_zpx(cpu, bus),
        0x18 => clc(cpu, bus),
        0x19 => ora_absy(cpu, bus),
        0x1A => nop(cpu, bus),
        0x1B => slo_absy(cpu, bus),
        0x1C => nop_absx(cpu, bus),
        0x1D => ora_absx(cpu, bus),
        0x1E => asl_absx(cpu, bus),
        0x1F => slo_absx(cpu, bus),
        0x20 => jsr(cpu, bus),
        0x21 => and_indx(cpu, bus),
        0x22 => nop_imm(cpu, bus),
        0x23 => rla_indx(cpu, bus),
        0x24 => bit_zp(cpu, bus),
        0x25 => and_zp(cpu, bus),
        0x26 => rol_zp(cpu, bus),
        0x27 => rla_zp(cpu, bus),
        0x28 => plp(cpu, bus),
        0x29 => and_imm(cpu, bus),
        0x2A => rol_a(cpu, bus),
        0x2B => anc_imm(cpu, bus),
        0x2C => bit_abs(cpu, bus),
        0x2D => and_abs(cpu, bus),
        0x2E => rol_abs(cpu, bus),
        0x2F => rla_abs(cpu, bus),
        0x30 => bmi(cpu, bus),
        0x31 => and_indy(cpu, bus),
        0x32 => nop_imm(cpu, bus),
        0x33 => rla_indy(cpu, bus),
        0x34 => nop_zpx(cpu, bus),
        0x35 => and_zpx(cpu, bus),
        0x36 => rol_zpx(cpu, bus),
        0x37 => rla_zpx(cpu, bus),
        0x38 => sec(cpu, bus),
        0x39 => and_absy(cpu, bus),
        0x3A => nop(cpu, bus),
        0x3B => rla_absy(cpu, bus),
        0x3C => nop_absx(cpu, bus),
        0x3D => and_absx(cpu, bus),
        0x3E => rol_absx(cpu, bus),
        0x3F => rla_absx(cpu, bus),
        0x40 => rti(cpu, bus),
        0x41 => eor_indx(cpu, bus),
        0x42 => nop_imm(cpu, bus),
        0x43 => sre_indx(cpu, bus),
        0x44 => nop_zp(cpu, bus),
        0x45 => eor_zp(cpu, bus),
        0x46 => lsr_zp(cpu, bus),
        0x47 => sre_zp(cpu, bus),
        0x48 => pha(cpu, bus),
        0x49 => eor_imm(cpu, bus),
        0x4A => lsr_a(cpu, bus),
        0x4B => asr_imm(cpu, bus),
        0x4C => jmp_abs(cpu, bus),
        0x4D => eor_abs(cpu, bus),
        0x4E => lsr_abs(cpu, bus),
        0x4F => sre_abs(cpu, bus),
        0x50 => bvc(cpu, bus),
        0x51 => eor_indy(cpu, bus),
        0x52 => nop_imm(cpu, bus),
        0x53 => sre_indy(cpu, bus),
        0x54 => nop_zpx(cpu, bus),
        0x55 => eor_zpx(cpu, bus),
        0x56 => lsr_zpx(cpu, bus),
        0x57 => sre_zpx(cpu, bus),
        0x58 => cli(cpu, bus),
        0x59 => eor_absy(cpu, bus),
        0x5A => nop(cpu, bus),
        0x5B => sre_absy(cpu, bus),
        0x5C => nop_absx(cpu, bus),
        0x5D => eor_absx(cpu, bus),
        0x5E => lsr_absx(cpu, bus),
        0x5F => sre_absx(cpu, bus),
        0x60 => rts(cpu, bus),
        0x61 => adc_indx(cpu, bus),
        0x62 => nop_imm(cpu, bus),
        0x63 => rra_indx(cpu, bus),
        0x64 => nop_zp(cpu, bus),
        0x65 => adc_zp(cpu, bus),
        0x66 => ror_zp(cpu, bus),
        0x67 => rra_zp(cpu, bus),
        0x68 => pla(cpu, bus),
        0x69 => adc_imm(cpu, bus),
        0x6A => ror_a(cpu, bus),
        0x6B => arr_imm(cpu, bus),
        0x6C => jmp_ind(cpu, bus),
        0x6D => adc_abs(cpu, bus),
        0x6E => ror_abs(cpu, bus),
        0x6F => rra_abs(cpu, bus),
        0x70 => bvs(cpu, bus),
        0x71 => adc_indy(cpu, bus),
        0x72 => nop_imm(cpu, bus),
        0x73 => rra_indy(cpu, bus),
        0x74 => nop_zpx(cpu, bus),
        0x75 => adc_zpx(cpu, bus),
        0x76 => ror_zpx(cpu, bus),
        0x77 => rra_zpx(cpu, bus),
        0x78 => sei(cpu, bus),
        0x79 => adc_absy(cpu, bus),
        0x7A => nop(cpu, bus),
        0x7B => rra_absy(cpu, bus),
        0x7C => nop_absx(cpu, bus),
        0x7D => adc_absx(cpu, bus),
        0x7E => ror_absx(cpu, bus),
        0x7F => rra_absx(cpu, bus),
        0x80 => nop_imm(cpu, bus),
        0x81 => sta_indx(cpu, bus),
        0x82 => nop_imm(cpu, bus),
        0x83 => sax_indx(cpu, bus),
        0x84 => sty_zp(cpu, bus),
        0x85 => sta_zp(cpu, bus),
        0x86 => stx_zp(cpu, bus),
        0x87 => sax_zp(cpu, bus),
        0x88 => dey(cpu, bus),
        0x89 => nop_imm(cpu, bus),
        0x8A => txa(cpu, bus),
        0x8B => ane_imm(cpu, bus),
        0x8C => sty_abs(cpu, bus),
        0x8D => sta_abs(cpu, bus),
        0x8E => stx_abs(cpu, bus),
        0x8F => sax_abs(cpu, bus),
        0x90 => bcc(cpu, bus),
        0x91 => sta_indy(cpu, bus),
        0x92 => nop_imm(cpu, bus),
        0x93 => sha_indy(cpu, bus),
        0x94 => sty_zpx(cpu, bus),
        0x95 => sta_zpx(cpu, bus),
        0x96 => stx_zpy(cpu, bus),
        0x97 => sax_zpy(cpu, bus),
        0x98 => tya(cpu, bus),
        0x99 => sta_absy(cpu, bus),
        0x9A => txs(cpu, bus),
        0x9B => shs_absy(cpu, bus),
        0x9C => shy_absx(cpu, bus),
        0x9D => sta_absx(cpu, bus),
        0x9E => shx_absy(cpu, bus),
        0x9F => sha_absy(cpu, bus),
        0xA0 => ldy_imm(cpu, bus),
        0xA1 => lda_indx(cpu, bus),
        0xA2 => ldx_imm(cpu, bus),
        0xA3 => lax_indx(cpu, bus),
        0xA4 => ldy_zp(cpu, bus),
        0xA5 => lda_zp(cpu, bus),
        0xA6 => ldx_zp(cpu, bus),
        0xA7 => lax_zp(cpu, bus),
        0xA8 => tay(cpu, bus),
        0xA9 => lda_imm(cpu, bus),
        0xAA => tax(cpu, bus),
        0xAB => lxa_imm(cpu, bus),
        0xAC => ldy_abs(cpu, bus),
        0xAD => lda_abs(cpu, bus),
        0xAE => ldx_abs(cpu, bus),
        0xAF => lax_abs(cpu, bus),
        0xB0 => bcs(cpu, bus),
        0xB1 => lda_indy(cpu, bus),
        0xB2 => nop_imm(cpu, bus),
        0xB3 => lax_indy(cpu, bus),
        0xB4 => ldy_zpx(cpu, bus),
        0xB5 => lda_zpx(cpu, bus),
        0xB6 => ldx_zpy(cpu, bus),
        0xB7 => lax_zpy(cpu, bus),
        0xB8 => clv(cpu, bus),
        0xB9 => lda_absy(cpu, bus),
        0xBA => tsx(cpu, bus),
        0xBB => lae_absy(cpu, bus),
        0xBC => ldy_absx(cpu, bus),
        0xBD => lda_absx(cpu, bus),
        0xBE => ldx_absy(cpu, bus),
        0xBF => lax_absy(cpu, bus),
        0xC0 => cpy_imm(cpu, bus),
        0xC1 => cmp_indx(cpu, bus),
        0xC2 => nop_imm(cpu, bus),
        0xC3 => dcp_indx(cpu, bus),
        0xC4 => cpy_zp(cpu, bus),
        0xC5 => cmp_zp(cpu, bus),
        0xC6 => dec_zp(cpu, bus),
        0xC7 => dcp_zp(cpu, bus),
        0xC8 => iny(cpu, bus),
        0xC9 => cmp_imm(cpu, bus),
        0xCA => dex(cpu, bus),
        0xCB => axs_imm(cpu, bus),
        0xCC => cpy_abs(cpu, bus),
        0xCD => cmp_abs(cpu, bus),
        0xCE => dec_abs(cpu, bus),
        0xCF => dcp_abs(cpu, bus),
        0xD0 => bne(cpu, bus),
        0xD1 => cmp_indy(cpu, bus),
        0xD2 => nop_imm(cpu, bus),
        0xD3 => dcp_indy(cpu, bus),
        0xD4 => nop_zpx(cpu, bus),
        0xD5 => cmp_zpx(cpu, bus),
        0xD6 => dec_zpx(cpu, bus),
        0xD7 => dcp_zpx(cpu, bus),
        0xD8 => cld(cpu, bus),
        0xD9 => cmp_absy(cpu, bus),
        0xDA => nop(cpu, bus),
        0xDB => dcp_absy(cpu, bus),
        0xDC => nop_absx(cpu, bus),
        0xDD => cmp_absx(cpu, bus),
        0xDE => dec_absx(cpu, bus),
        0xDF => dcp_absx(cpu, bus),
        0xE0 => cpx_imm(cpu, bus),
        0xE1 => sbc_indx(cpu, bus),
        0xE2 => nop_imm(cpu, bus),
        0xE3 => isc_indx(cpu, bus),
        0xE4 => cpx_zp(cpu, bus),
        0xE5 => sbc_zp(cpu, bus),
        0xE6 => inc_zp(cpu, bus),
        0xE7 => isc_zp(cpu, bus),
        0xE8 => inx(cpu, bus),
        0xE9 => sbc_imm(cpu, bus),
        0xEA => nop(cpu, bus),
        0xEB => sbc_imm(cpu, bus),
        0xEC => cpx_abs(cpu, bus),
        0xED => sbc_abs(cpu, bus),
        0xEE => inc_abs(cpu, bus),
        0xEF => isc_abs(cpu, bus),
        0xF0 => beq(cpu, bus),
        0xF1 => sbc_indy(cpu, bus),
        0xF2 => nop_imm(cpu, bus),
        0xF3 => isc_indy(cpu, bus),
        0xF4 => nop_zpx(cpu, bus),
        0xF5 => sbc_zpx(cpu, bus),
        0xF6 => inc_zpx(cpu, bus),
        0xF7 => isc_zpx(cpu, bus),
        0xF8 => sed(cpu, bus),
        0xF9 => sbc_absy(cpu, bus),
        0xFA => nop(cpu, bus),
        0xFB => isc_absy(cpu, bus),
        0xFC => nop_absx(cpu, bus),
        0xFD => sbc_absx(cpu, bus),
        0xFE => inc_absx(cpu, bus),
        0xFF => isc_absx(cpu, bus),
    }
}

} // verus!
