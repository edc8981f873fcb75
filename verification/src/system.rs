use vstd::prelude::*;
use crate::apu::{Apu, Dmc};
use crate::ppu::Ppu;
use crate::bus::{caught_up, cpu_read_step, cpu_write_step, extends, serves_dmc_dma, since, Bus, BusAccess};
use crate::cpu::{with_flag, CpuRp2a03, FLAG_BREAK, FLAG_INTERRUPT};
use crate::interrupt::{word, IRQ_VECTOR, NMI_VECTOR, RESET_VECTOR};
use crate::ops::{base_cycles, base_cycles_spec, execute, executes_opcode, instruction_run, is_read_at, is_write_of, push, stack_addr};

verus! {

/// Entering an interrupt handler through `vector`: pc (high byte first) and the
/// status with B clear and bit 5 set are pushed, I is set, and pc is loaded from the
/// vector.
pub open spec fn enters_handler(vector: u16, c0: CpuRp2a03, c1: CpuRp2a03, t0: Seq<BusAccess>, t1: Seq<BusAccess>) -> bool {
    let t = since(t0, t1);
    let sp = c0.st;
    &&& extends(t0, t1)
    &&& t.len() == 5
    &&& is_write_of(t[0], stack_addr(sp), (c0.pc >> 8u16) as u8)
    &&& is_write_of(t[1], stack_addr(sp.wrapping_sub(1)), c0.pc as u8)
    &&& is_write_of(t[2], stack_addr(sp.wrapping_sub(1).wrapping_sub(1)), (c0.sr & !FLAG_BREAK) | 0x20)
    &&& is_read_at(t[3], vector) && is_read_at(t[4], vector.wrapping_add(1))
    &&& c1 == CpuRp2a03 {
        pc: word(t[3].val, t[4].val),
        st: sp.wrapping_sub(1).wrapping_sub(1).wrapping_sub(1),
        sr: with_flag(c0.sr, FLAG_INTERRUPT, true),
        ..c0
    }
}

/// The RAM after an interrupt entry from `c`: pc (high byte first) and then the
/// status with B clear and bit 5 set, pushed from the stack pointer down.
pub open spec fn handler_stack(ram: Seq<u8>, c: CpuRp2a03) -> Seq<u8> {
    let sp = c.st;
    ram.update(0x100 + sp, (c.pc >> 8u16) as u8).update(0x100 + sp.wrapping_sub(1), c.pc as u8).update(
        0x100 + sp.wrapping_sub(1).wrapping_sub(1),
        (c.sr & !FLAG_BREAK) | 0x20,
    )
}

/// The five bus cycles of an interrupt entry from CPU `c`, from bus `b0` to `b5`: the
/// three stack writes of `handler_stack`, then the reads of the vector's low byte
/// `lo` and high byte `hi`, each cycle as `cpu_write_step` or `cpu_read_step`.
#[verifier::opaque]
pub open spec fn handler_cycles(b0: Bus, c: CpuRp2a03, vector: u16, lo: u8, hi: u8, b5: Bus) -> bool {
    let sp = c.st;
    exists|b1: Bus, b2: Bus, b3: Bus, b4: Bus|
        #![trigger cpu_write_step(b1, stack_addr(sp.wrapping_sub(1)), c.pc as u8, b2), cpu_read_step(b3, vector, lo, b4)]
        {
            &&& cpu_write_step(b0, stack_addr(sp), (c.pc >> 8u16) as u8, b1)
            &&& cpu_write_step(b1, stack_addr(sp.wrapping_sub(1)), c.pc as u8, b2)
            &&& cpu_write_step(b2, stack_addr(sp.wrapping_sub(1).wrapping_sub(1)), (c.sr & !FLAG_BREAK) | 0x20, b3)
            &&& cpu_read_step(b3, vector, lo, b4)
            &&& cpu_read_step(b4, vector.wrapping_add(1), hi, b5)
        }
}

#[verifier::spinoff_prover]
#[verifier::rlimit(50)]
fn enter_handler(cpu: &mut CpuRp2a03, bus: &mut Bus, vector: u16)
    requires
        old(bus).wf(),
        vector == NMI_VECTOR || vector == IRQ_VECTOR,
    ensures
        final(bus).wf(),
        enters_handler(vector, *old(cpu), *final(cpu), old(bus).accesses@, final(bus).accesses@),
        final(bus).ram@ == handler_stack(old(bus).ram@, *old(cpu)),
        ({
            let t = since(old(bus).accesses@, final(bus).accesses@);
            handler_cycles(*old(bus), *old(cpu), vector, t[3].val, t[4].val, *final(bus))
        }),
{
    let ghost t0 = bus.accesses@;
    let ghost sp = cpu.st;
    let ghost c0 = *cpu;
    let ghost b0 = *bus;
    assert(t0.subrange(0, t0.len() as int) =~= t0);
    push(cpu, bus, (cpu.pc() >> 8) as u8);
    let ghost t1 = bus.accesses@;
    let ghost b1 = *bus;
    push(cpu, bus, cpu.pc() as u8);
    let ghost t2 = bus.accesses@;
    let ghost b2 = *bus;
    let sr = (cpu.sr() & !FLAG_BREAK) | 0x20;
    push(cpu, bus, sr);
    let ghost t3 = bus.accesses@;
    let ghost b3 = *bus;
    cpu.set_flag(FLAG_INTERRUPT, true);
    let lo = bus.read(vector);
    let ghost t4 = bus.accesses@;
    let ghost b4 = *bus;
    let hi = bus.read(vector + 1);
    proof {
        let t5 = bus.accesses@;
        assert(t5.subrange(0, t0.len() as int) =~= t0);
        assert(since(t0, t5) =~= seq![t1.last(), t2.last(), t3.last(), t4.last(), t5.last()]);
        assert(cpu_write_step(b1, stack_addr(sp.wrapping_sub(1)), c0.pc as u8, b2));
        assert(cpu_read_step(b3, vector, lo, b4));
        assert(vector + 1 == vector.wrapping_add(1));
        assert(handler_cycles(b0, c0, vector, lo, hi, *bus)) by {
            reveal(handler_cycles);
        }
    }
    cpu.set_pc((lo as u16) | ((hi as u16) << 8));
}

/// NMI entry: seven cycles, through the vector at $FFFA.
pub fn nmi(cpu: &mut CpuRp2a03, bus: &mut Bus)
    requires
        old(bus).wf(),
    ensures
        final(bus).wf(),
        enters_handler(NMI_VECTOR, *old(cpu), *final(cpu), old(bus).accesses@, final(bus).accesses@),
        final(bus).ram@ == handler_stack(old(bus).ram@, *old(cpu)),
        ({
            let t = since(old(bus).accesses@, final(bus).accesses@);
            handler_cycles(*old(bus), *old(cpu), NMI_VECTOR, t[3].val, t[4].val, *final(bus))
        }),
{
    enter_handler(cpu, bus, NMI_VECTOR);
}

/// IRQ entry: seven cycles, through the vector at $FFFE.
pub fn irq(cpu: &mut CpuRp2a03, bus: &mut Bus)
    requires
        old(bus).wf(),
    ensures
        final(bus).wf(),
        enters_handler(IRQ_VECTOR, *old(cpu), *final(cpu), old(bus).accesses@, final(bus).accesses@),
        final(bus).ram@ == handler_stack(old(bus).ram@, *old(cpu)),
        ({
            let t = since(old(bus).accesses@, final(bus).accesses@);
            handler_cycles(*old(bus), *old(cpu), IRQ_VECTOR, t[3].val, t[4].val, *final(bus))
        }),
{
    enter_handler(cpu, bus, IRQ_VECTOR);
}

/// Reset: A, X and Y are cleared, the stack pointer is $FD, the status has I and
/// bit 5 set, and pc is loaded from the vector at $FFFC.
pub fn reset(cpu: &mut CpuRp2a03, bus: &mut Bus)
    requires
        old(bus).wf(),
    ensures
        final(bus).wf(),
        ({
            let t = since(old(bus).accesses@, final(bus).accesses@);
            &&& extends(old(bus).accesses@, final(bus).accesses@)
            &&& t.len() == 2 && is_read_at(t[0], RESET_VECTOR) && is_read_at(t[1], (RESET_VECTOR + 1) as u16)
            &&& *final(cpu) == (CpuRp2a03 { pc: word(t[0].val, t[1].val), a: 0, x: 0, y: 0, st: 0xFD, sr: 0x24 })
            &&& exists|b1: Bus|
                #[trigger] cpu_read_step(*old(bus), RESET_VECTOR, t[0].val, b1) && cpu_read_step(
                    b1,
                    (RESET_VECTOR + 1) as u16,
                    t[1].val,
                    *final(bus),
                )
        }),
{
    let ghost t0 = bus.accesses@;
    let ghost b0 = *bus;
    let lo = bus.read(RESET_VECTOR);
    let ghost t1 = bus.accesses@;
    let ghost b1 = *bus;
    let hi = bus.read(RESET_VECTOR + 1);
    proof {
        let t2 = bus.accesses@;
        assert(t2.subrange(0, t0.len() as int) =~= t0);
        assert(since(t0, t2) =~= seq![t1.last(), t2.last()]);
        assert(cpu_read_step(b0, RESET_VECTOR, lo, b1));
    }
    *cpu = CpuRp2a03::new((lo as u16) | ((hi as u16) << 8));
    cpu.set_st(0xFD);
    cpu.set_sr(0x24);
}

/// The DMC after `n` single-cycle clocks.
pub open spec fn dmc_after_steps(d: Dmc, n: nat) -> Dmc
    decreases n,
{
    if n == 0 {
        d
    } else {
        dmc_after_steps(d, (n - 1) as nat).after_step()
    }
}

/// The bus after the APU runs ahead by `base` cycles: a DMC DMA request it raises is
/// noted, and for the SH* stores the DMC is put back and its per-access count reset.
pub open spec fn bus_after_pre_tick(b: Bus, base: u16, is_sh: bool) -> Bus {
    let a1 = b.apu.after_cycles(base as nat, true);
    Bus {
        apu: if is_sh { Apu { dmc: b.apu.dmc, ..a1 } } else { a1 },
        dmc_just_fired: b.dmc_just_fired || a1.dmc.dma_needed,
        dmc_ticks: if is_sh { 0 } else { b.dmc_ticks },
        ..b
    }
}

/// The APU after the instruction: the cycles beyond the base without the DMC, then,
/// for the SH* stores, one DMC clock plus those of the `1 + cycles` that the
/// `1 + dmc_ticks` already applied per access did not cover.
pub open spec fn apu_after_instruction(a: Apu, base: u64, cycles: u64, is_sh: bool, dmc_ticks: u16) -> Apu {
    let a1 = if cycles > base { a.after_cycles((cycles - base) as nat, false) } else { a };
    if is_sh {
        let total = 1 + cycles;
        let applied = 1 + dmc_ticks;
        let n: nat = if total > applied { (total - applied) as nat } else { 0 };
        Apu { dmc: dmc_after_steps(a1.dmc, n + 1), ..a1 }
    } else {
        a1
    }
}

/// The APU runs ahead by the instruction's base cycles before it executes. For the
/// SH* stores the DMC is put back afterwards: they clock it per bus access.
fn pre_tick_apu(bus: &mut Bus, base: u16, is_sh: bool)
    requires
        old(bus).wf(),
    ensures
        final(bus).wf(),
        *final(bus) == bus_after_pre_tick(*old(bus), base, is_sh),
        final(bus).accesses == old(bus).accesses,
        final(bus).ram == old(bus).ram,
{
    let dmc_saved: Option<Dmc> = if is_sh { Some(bus.apu.save_dmc()) } else { None };
    bus.apu.tick(base);
    if bus.apu.dmc_dma_pending() {
        bus.dmc_just_fired = true;
    }
    if let Some(saved) = dmc_saved {
        bus.apu.restore_dmc(&saved);
        bus.dmc_ticks = 0;
    }
}

/// `b1` is bus `b0` after an instruction that started at `start_cycle` and took
/// `cycles` (`base` of them already run by the APU): the cycle count is set, the PPU
/// has caught up three dots per cycle (`caught_up`: each dot as `Ppu::tick`),
/// the APU has run as `apu_after_instruction` says, and nothing else changed.
#[verifier::opaque]
pub open spec fn after_instruction_timing(b0: Bus, b1: Bus, start_cycle: u64, base: u64, cycles: u64, is_sh: bool) -> bool {
    let c = start_cycle.wrapping_add(cycles);
    &&& b1.cpu_cycle == c
    &&& b1.ppu_sync_cycle == (if c > b0.ppu_sync_cycle { c } else { b0.ppu_sync_cycle })
    &&& c > b0.ppu_sync_cycle ==> b1.ppu.tick_count == (b0.ppu.tick_count + ((c - b0.ppu_sync_cycle) * 3)
        % 0x10000) % 0x1_0000_0000_0000_0000
    &&& c <= b0.ppu_sync_cycle ==> b1.ppu == b0.ppu && b1.mapper == b0.mapper
    &&& b0.ppu.same_registers(&b1.ppu)
    &&& b0.mapper.clocks_to(b1.mapper)
    &&& b1.apu == apu_after_instruction(b0.apu, base, cycles, is_sh, b0.dmc_ticks)
    &&& b1.ram == b0.ram
    &&& b1.accesses == b0.accesses
    &&& b1.pad1 == b0.pad1 && b1.pad2 == b0.pad2
    &&& b1.open_bus_val == b0.open_bus_val
    &&& b1.dmc_just_fired == b0.dmc_just_fired
    &&& b1.penultimate_sample_cycle == b0.penultimate_sample_cycle
    &&& b1.dmc_ticks == b0.dmc_ticks
    &&& exists|bp: Bus| #[trigger] caught_up(Bus { cpu_cycle: c, ..b0 }, bp) && b1 == Bus { apu: b1.apu, ..bp }
}

/// After the instruction: the PPU catches up to the cycle count, the APU runs the
/// cycles beyond the base, and for SH* stores the DMC gets the ticks it has not had.
#[verifier::spinoff_prover]
#[verifier::rlimit(40)]
fn post_tick(bus: &mut Bus, start_cycle: u64, base: u64, cycles: u64, is_sh: bool)
    requires
        old(bus).wf(),
        cycles <= 16,
    ensures
        final(bus).wf(),
        final(bus).accesses == old(bus).accesses,
        final(bus).ram == old(bus).ram,
        after_instruction_timing(*old(bus), *final(bus), start_cycle, base, cycles, is_sh),
{
    let ghost b0 = *bus;
    bus.cpu_cycle = start_cycle.wrapping_add(cycles);
    let ghost bc = *bus;
    bus.catch_up_ppu();
    let ghost bp = *bus;
    if cycles > base {
        bus.apu.tick_without_dmc((cycles - base) as u16);
    }
    let ghost a1 = bus.apu;
    assert(a1 == (if cycles > base { b0.apu.after_cycles((cycles - base) as nat, false) } else { b0.apu }));
    if is_sh {
        bus.apu.tick_dmc();
        assert(dmc_after_steps(a1.dmc, 1) == a1.dmc.after_step()) by {
            assert(dmc_after_steps(a1.dmc, 0) == a1.dmc);
        }
        let applied = 1u64 + bus.dmc_ticks as u64;
        let total = 1u64 + cycles;
        if total > applied {
            let n = (total - applied) as u16;
            let ghost bs = *bus;
            let mut k: u16 = 0;
            while k < n
                invariant
                    k <= n,
                    *bus == (Bus { apu: bus.apu, ..bs }),
                    bus.wf(),
                    bus.accesses == old(bus).accesses,
                    bus.ram == old(bus).ram,
                    bus.apu == (Apu { dmc: dmc_after_steps(a1.dmc, k as nat + 1), ..a1 }),
                decreases n - k,
            {
                bus.apu.tick_dmc();
                k = k + 1;
            }
        }
    }
    proof {
        reveal(after_instruction_timing);
        assert(bus.ppu == bp.ppu && bus.mapper == bp.mapper && bus.ppu_sync_cycle == bp.ppu_sync_cycle);
        assert(bc == (Bus { cpu_cycle: start_cycle.wrapping_add(cycles), ..b0 }));
        assert(caught_up(bc, bp) && *bus == (Bus { apu: bus.apu, ..bp }));
        assert(bc.cpu_cycle == start_cycle.wrapping_add(cycles));
    }
}

/// Whether the opcode is one of the SH* stores, which clock the DMC per bus access.
pub open spec fn is_sh_opcode(opcode: u8) -> bool {
    opcode == 0x93 || opcode == 0x9B || opcode == 0x9C || opcode == 0x9E || opcode == 0x9F
}

/// Whether IRQs are masked after instruction `opcode`, run from `c1` to `c2`: by the I
/// flag as it ends, except that CLI and SEI take effect one instruction late.
pub open spec fn irq_masked_after(opcode: u8, c1: CpuRp2a03, c2: CpuRp2a03) -> bool {
    if opcode == 0x58 || opcode == 0x78 { c1.sr & FLAG_INTERRUPT != 0 } else { c2.sr & FLAG_INTERRUPT != 0 }
}

/// The interrupt check from CPU `c` and bus `b` (IRQs masked when `masked`) to `c1`
/// and `b1`, taking `e` cycles: a pending NMI (from VBlank start or sampled on the
/// penultimate cycle) is entered; failing that, an unmasked IRQ from the APU frame
/// counter or the board is entered; otherwise nothing happens.
pub open spec fn services_interrupts(c: CpuRp2a03, b: Bus, masked: bool, c1: CpuRp2a03, b1: Bus, e: u8) -> bool {
    let nmi = b.ppu.nmi_from_vblank || b.ppu.nmi_deferred_pending;
    let irq = !nmi && !masked && (b.apu.frame_irq || b.mapper.spec_irq_pending());
    &&& extends(b.accesses@, b1.accesses@)
    &&& nmi ==> e == 7 && enters_handler(NMI_VECTOR, c, c1, b.accesses@, b1.accesses@)
    &&& irq ==> e == 7 && enters_handler(IRQ_VECTOR, c, c1, b.accesses@, b1.accesses@)
    &&& (nmi || irq) ==> b1.ram@ == handler_stack(b.ram@, c)
    &&& (nmi || irq) ==> b1.cpu_cycle == b.cpu_cycle.wrapping_add(7) && b1.ppu_sync_cycle >= b1.cpu_cycle
    &&& !nmi && !irq ==> e == 0 && c1 == c && b1.accesses == b.accesses && b1.ram == b.ram
    &&& nmi ==> {
        let t = since(b.accesses@, b1.accesses@);
        exists|be: Bus|
            #[trigger] handler_cycles(nmi_taken(b), c, NMI_VECTOR, t[3].val, t[4].val, be) && caught_up(
                Bus { cpu_cycle: b.cpu_cycle.wrapping_add(7), ..be },
                b1,
            )
    }
    &&& irq ==> {
        let t = since(b.accesses@, b1.accesses@);
        exists|be: Bus|
            #[trigger] handler_cycles(irq_polled(b), c, IRQ_VECTOR, t[3].val, t[4].val, be) && caught_up(
                Bus { cpu_cycle: b.cpu_cycle.wrapping_add(7), ..be },
                b1,
            )
    }
}

/// The bus as an NMI entry starts: the VBlank, deferred and latched NMI flags cleared.
pub open spec fn nmi_taken(b: Bus) -> Bus {
    Bus { ppu: Ppu { nmi_from_vblank: false, nmi_deferred_pending: false, nmi_latched: false, ..b.ppu }, ..b }
}

/// The bus as an IRQ entry starts: the board's IRQ acknowledged when it, and not the
/// APU frame counter, raised the line (`Bus::poll_irq`).
pub open spec fn irq_polled(b: Bus) -> Bus {
    if b.apu.frame_irq {
        b
    } else {
        Bus { mapper: b.mapper.after_ack(), ..b }
    }
}

/// Takes a pending NMI, or else an unmasked IRQ; returns the cycles spent (0 or 7).
#[verifier::spinoff_prover]
#[verifier::rlimit(50)]
fn service_interrupts(cpu: &mut CpuRp2a03, bus: &mut Bus, masked: bool) -> (r: u8)
    requires
        old(bus).wf(),
    ensures
        final(bus).wf(),
        services_interrupts(*old(cpu), *old(bus), masked, *final(cpu), *final(bus), r),
{
    let ghost t0 = bus.accesses@;
    let ghost b0 = *bus;
    assert(t0.subrange(0, t0.len() as int) =~= t0);
    if bus.ppu.nmi_from_vblank || bus.ppu.nmi_deferred_pending {
        bus.ppu.nmi_from_vblank = false;
        bus.ppu.nmi_deferred_pending = false;
        bus.ppu.nmi_latched = false;
        let svc_start = bus.cpu_cycle;
        nmi(cpu, bus);
        let ghost be = *bus;
        bus.cpu_cycle = svc_start.wrapping_add(7);
        proof {
            assert(*bus == (Bus { cpu_cycle: b0.cpu_cycle.wrapping_add(7), ..be }));
        }
        bus.catch_up_ppu();
        7
    } else if !masked && bus.poll_irq() {
        let svc_start = bus.cpu_cycle;
        irq(cpu, bus);
        let ghost be = *bus;
        bus.cpu_cycle = svc_start.wrapping_add(7);
        proof {
            assert(*bus == (Bus { cpu_cycle: b0.cpu_cycle.wrapping_add(7), ..be }));
        }
        bus.catch_up_ppu();
        7
    } else {
        0
    }
}

/// Runs one instruction with its timing: the opcode fetch, the APU advanced by the
/// instruction's base cycles (the SH* stores clock the DMC per access instead), the
/// instruction itself, the PPU and APU brought up to date, a pending DMC DMA, then
/// an NMI (from VBlank start or sampled on the penultimate cycle) or, failing that,
/// an unmasked IRQ. CLI and SEI take effect on IRQs one instruction late. Returns
/// the CPU cycles spent.
#[verifier::spinoff_prover]
#[verifier::rlimit(60)]
pub fn tick(cpu: &mut CpuRp2a03, bus: &mut Bus) -> (r: u8)
    requires
        old(bus).wf(),
    ensures
        final(bus).wf(),
        extends(old(bus).accesses@, final(bus).accesses@),
        since(old(bus).accesses@, final(bus).accesses@).len() >= 1,
        is_read_at(since(old(bus).accesses@, final(bus).accesses@)[0], old(cpu).pc),
        ({
            let fetch = since(old(bus).accesses@, final(bus).accesses@)[0];
            let c1 = CpuRp2a03 { pc: old(cpu).pc.wrapping_add(1), ..*old(cpu) };
            exists|c2: CpuRp2a03, b1: Bus, b2: Bus, rx: u8|
                #![trigger executes_opcode(fetch.val, c1, c2, b1, b2, rx)]
                {
                    &&& executes_opcode(fetch.val, c1, c2, b1, b2, rx)
                    &&& instruction_run(fetch.val, b1, b2)
                    &&& b1.accesses@ == old(bus).accesses@.push(fetch)
                    &&& b1.ram == old(bus).ram
                    &&& exists|bf: Bus|
                        #[trigger] cpu_read_step(*old(bus), old(cpu).pc, fetch.val, bf) && b1 == bus_after_pre_tick(
                            Bus {
                                penultimate_sample_cycle: old(bus).cpu_cycle.wrapping_add(
                                    (base_cycles_spec(fetch.val) - 2) as u64,
                                ),
                                ..bf
                            },
                            base_cycles_spec(fetch.val) as u16,
                            is_sh_opcode(fetch.val),
                        )
                    &&& extends(b2.accesses@, final(bus).accesses@)
                    &&& exists|bt: Bus, b3: Bus, d: u8, e: u8|
                        #![trigger serves_dmc_dma(bt, b3, d), services_interrupts(c2, b3, irq_masked_after(fetch.val, c1, c2), *final(cpu), *final(bus), e)]
                        {
                            &&& after_instruction_timing(b2, bt, old(bus).cpu_cycle,
                                base_cycles_spec(fetch.val) as u64, rx as u64, is_sh_opcode(fetch.val))
                            &&& serves_dmc_dma(bt, b3, d)
                            &&& services_interrupts(c2, b3, irq_masked_after(fetch.val, c1, c2), *final(cpu), *final(bus), e)
                            &&& r == rx + d + e
                        }
                }
        }),
{
    let ghost t0 = bus.accesses@;
    let ghost b0 = *bus;
    let ghost c0 = *cpu;
    let start_cycle = bus.cpu_cycle;

    let opcode = bus.read(cpu.pc());
    let ghost t1 = bus.accesses@;
    let ghost bf = *bus;
    cpu.set_pc(cpu.pc().wrapping_add(1));
    let base = base_cycles(opcode) as u64;
    bus.penultimate_sample_cycle = start_cycle.wrapping_add(base.saturating_sub(2));
    let ghost bpen = *bus;

    let is_cli_sei = opcode == 0x58 || opcode == 0x78;
    let i_flag_for_irq = if is_cli_sei { cpu.get_flag(FLAG_INTERRUPT) } else { false };
    let is_sh = opcode == 0x93 || opcode == 0x9B || opcode == 0x9C || opcode == 0x9E || opcode == 0x9F;
    pre_tick_apu(bus, base as u16, is_sh);

    let ghost c1 = *cpu;
    let ghost b1 = *bus;
    let rx = execute(opcode, cpu, bus);
    let ghost c2 = *cpu;
    let ghost b2 = *bus;
    let ghost t3 = bus.accesses@;
    let mut cycles = rx as u64;
    post_tick(bus, start_cycle, base, cycles, is_sh);
    let ghost bt = *bus;
    let d = bus.dmc_tick();
    cycles = cycles + d as u64;
    let ghost t4 = bus.accesses@;
    let ghost b3 = *bus;

    let masked = if is_cli_sei { i_flag_for_irq } else { cpu.get_flag(FLAG_INTERRUPT) };
    let extra = service_interrupts(cpu, bus, masked);
    proof {
        assert(masked == irq_masked_after(opcode, c1, c2));
        assert(serves_dmc_dma(bt, b3, d));
        assert(services_interrupts(c2, b3, irq_masked_after(opcode, c1, c2), *cpu, *bus, extra));
        let tf = bus.accesses@;
        assert(t4 == t3);
        assert(tf.subrange(0, t3.len() as int) =~= t3);
        assert(t3.subrange(0, t1.len() as int) =~= t1);
        assert(t1.subrange(0, t0.len() as int) =~= t0);
        assert(tf.subrange(0, t0.len() as int) =~= t3.subrange(0, t1.len() as int).subrange(0, t0.len() as int));
        assert(tf[t0.len() as int] == t3[t0.len() as int]);
        assert(t3[t0.len() as int] == t1[t0.len() as int]);
        let fetch = since(t0, tf)[0];
        assert(fetch == t1[t0.len() as int]);
        assert(b1.accesses@ =~= t0.push(fetch));
        assert(executes_opcode(fetch.val, c1, c2, b1, b2, rx));
        assert(bpen == (Bus {
            penultimate_sample_cycle: b0.cpu_cycle.wrapping_add((base_cycles_spec(opcode) - 2) as u64),
            ..bf
        }));
        assert(cpu_read_step(b0, c0.pc, opcode, bf));
    }
    (cycles + extra as u64) as u8
}

/// An interrupt entry followed by RTI restores the interrupted program counter, the
/// status (with B clear and bit 5 set) and the stack pointer: RTI pulls the status and
/// then pc, low byte first, from just above the three bytes that the entry pushed.
pub proof fn lemma_interrupt_then_rti(ram: Seq<u8>, c: CpuRp2a03)
    requires
        ram.len() == 2048,
    ensures
        ({
            let after = handler_stack(ram, c);
            let s0 = c.st.wrapping_sub(1).wrapping_sub(1).wrapping_sub(1);
            let s1 = s0.wrapping_add(1);
            let s2 = s1.wrapping_add(1);
            let s3 = s2.wrapping_add(1);
            &&& after[0x100 + s1] == (c.sr & !FLAG_BREAK) | 0x20
            &&& word(after[0x100 + s2], after[0x100 + s3]) == c.pc
            &&& s3 == c.st
        }),
{
    let sp = c.st;
    let s0 = sp.wrapping_sub(1).wrapping_sub(1).wrapping_sub(1);
    assert(s0.wrapping_add(1) == sp.wrapping_sub(1).wrapping_sub(1));
    assert(s0.wrapping_add(1).wrapping_add(1) == sp.wrapping_sub(1));
    assert(s0.wrapping_add(1).wrapping_add(1).wrapping_add(1) == sp);
    crate::bits::lemma_word_bits(c.pc);
}

} // verus!
