use vstd::prelude::*;
use crate::apu::Apu;
use crate::controller::Gamepad;
use crate::mapper::Mapper;
use crate::ppu::Ppu;

verus! {

/// One bus access made by the CPU: a read of `val` or a write of `val` at `addr`.
pub struct BusAccess {
    pub addr: u16,
    pub val: u8,
    pub write: bool,
}

/// Index into the 2 KiB of internal RAM that CPU address `addr` (below $2000) reaches:
/// $0000-$07FF repeated four times.
pub open spec fn ram_index(addr: u16) -> int {
    (addr & 0x07FF) as int
}

/// Reads at these addresses leave the data-bus latch as it was: the APU/IO block
/// ($4000-$5FFF) except the first controller port.
pub open spec fn read_keeps_open_bus(addr: u16) -> bool {
    0x4000 <= addr < 0x6000 && addr != 0x4016
}

/// The bus at the start of a CPU cycle, before the PPU catches up: the cycle counted
/// and, when it follows the instruction's penultimate cycle, a latched NMI moved to
/// the deferred slot that the end of the instruction takes.
pub open spec fn cycle_started(b: Bus) -> Bus {
    let c = Bus { cpu_cycle: b.cpu_cycle.wrapping_add(1), ..b };
    if c.samples_penultimate() {
        Bus { ppu: Ppu { nmi_latched: false, nmi_deferred_pending: true, ..c.ppu }, ..c }
    } else {
        c
    }
}

/// `b1` is `b0` with the PPU brought up to the CPU cycle: three dots per CPU cycle
/// since the last catch-up (each dot as `Ppu::tick`), the board clocked along, and
/// nothing else changed.
pub open spec fn caught_up(b0: Bus, b1: Bus) -> bool {
    if b0.cpu_cycle > b0.ppu_sync_cycle {
        let dots = ((b0.cpu_cycle - b0.ppu_sync_cycle) * 3) % 0x10000;
        &&& b1 == Bus { ppu: b1.ppu, mapper: b1.mapper, ppu_sync_cycle: b0.cpu_cycle, ..b0 }
        &&& b1.ppu.tick_count == (b0.ppu.tick_count + dots) % 0x1_0000_0000_0000_0000
        &&& Ppu::after_dots(b0.ppu, b0.mapper, dots as nat, b1.ppu, b1.mapper)
    } else {
        b1 == b0
    }
}

/// `b1` is `b0` at the start of its next CPU cycle, the PPU caught up.
pub open spec fn begins_cycle(b0: Bus, b1: Bus) -> bool {
    caught_up(cycle_started(b0), b1)
}

/// A CPU read of `addr` from bus `b`, taken at the start of its cycle (the PPU
/// caught up), returns `r` (`read_value`) and leaves the bus as `b1`, leaving aside
/// the data-bus latch and the access record: PPU registers act as
/// `ppu_register_read`, $4015 acknowledges the frame IRQ, the controller ports shift
/// their reports, and every other read changes nothing.
pub open spec fn read_effect(b: Bus, addr: u16, r: u8, b1: Bus) -> bool {
    &&& r == read_value(b, addr, r)
    &&& read_changes(b, addr, r, b1)
}

/// The value a CPU read of `addr` returns from bus `b` (at the start of its cycle):
/// internal RAM (mirrored), the APU status with bit 5 from the data bus, bit 0 of a
/// controller port over the data bus, the data-bus latch for the rest of the
/// APU/IO block, the cartridge from $6000; a PPU register read returns `r`, which
/// `ppu_register_read` fixes.
pub open spec fn read_value(b: Bus, addr: u16, r: u8) -> u8 {
    if addr < 0x2000 {
        b.ram[ram_index(addr)]
    } else if addr < 0x4000 {
        r
    } else if addr == 0x4015 {
        b.apu.spec_status() | (b.open_bus_val & 0x20)
    } else if addr == 0x4016 {
        (b.pad1.next_bit() & 0x01) | (b.open_bus_val & 0xFE)
    } else if addr == 0x4017 {
        (b.pad2.next_bit() & 0x01) | (b.open_bus_val & 0xFE)
    } else if addr < 0x6000 {
        b.open_bus_val
    } else {
        b.mapper.spec_cpu_read(addr)
    }
}

/// What a CPU read of `addr` returning `r` changes on bus `b` (see `read_effect`).
pub open spec fn read_changes(b: Bus, addr: u16, r: u8, b1: Bus) -> bool {
    let rest = Bus { open_bus_val: b1.open_bus_val, accesses: b1.accesses, ..b };
    if 0x2000 <= addr < 0x4000 {
        &&& b1 == Bus { ppu: b1.ppu, mapper: b1.mapper, ..rest }
        &&& b.mapper.clocks_to(b1.mapper)
        &&& ppu_register_read(b.ppu, b.mapper, addr, r, b1.ppu)
    } else if addr == 0x4015 {
        b1 == Bus { apu: Apu { frame_irq: false, ..b.apu }, ..rest }
    } else if addr == 0x4016 {
        b1 == Bus { pad1: b1.pad1, ..rest } && crate::controller::after_read(b.pad1, b1.pad1)
    } else if addr == 0x4017 {
        b1 == Bus { pad2: b1.pad2, ..rest } && crate::controller::after_read(b.pad2, b1.pad2)
    } else {
        b1 == rest
    }
}

/// A CPU read cycle of `addr` returning `r` from bus `b0` to `b1`: the cycle begins
/// (see `begins_cycle`), the read acts as `read_effect`, the access is recorded and
/// the value stays on the data bus unless the APU/IO block keeps it.
pub open spec fn cpu_read_step(b0: Bus, addr: u16, r: u8, b1: Bus) -> bool {
    &&& b1.accesses@ == b0.accesses@.push(BusAccess { addr, val: r, write: false })
    &&& b1.open_bus_val == (if read_keeps_open_bus(addr) { b0.open_bus_val } else { r })
    &&& exists|bc: Bus| #[trigger] begins_cycle(b0, bc) && read_effect(bc, addr, r, b1)
}

/// What a CPU write of `val` to `addr` does to bus `b`, taken at the start of its
/// cycle, leaving aside the data-bus latch and the access record: RAM, a PPU register
/// (with `val` left on the PPU's bus, and a PPUDATA write below $2000 reaching the
/// board), the controller strobe together with the APU, an APU register, or the
/// board; $4020-$5FFF changes nothing. For OAM DMA ($4014) the 256 bytes copied
/// from a RAM page into OAM are stated, with RAM and the DMA bookkeeping
/// unchanged.
pub open spec fn write_effect(b: Bus, addr: u16, val: u8, b1: Bus) -> bool {
    let rest = Bus { open_bus_val: b1.open_bus_val, accesses: b1.accesses, ..b };
    if addr < 0x2000 {
        b1 == Bus { ram: b1.ram, ..rest } && b1.ram@ == b.ram@.update(ram_index(addr), val)
    } else if addr < 0x4000 {
        let w = b.ppu.after_write_register(addr, val, b.mapper);
        &&& b1 == Bus { ppu: b1.ppu, mapper: b1.mapper, ..rest }
        &&& b1.ppu == Ppu { last_bus_value: val, last_bus_write_tick: w.tick_count, ..w }
        &&& Ppu::register_write_reaches_board(b.ppu, b.mapper, addr, val, b1.mapper)
    } else if addr == 0x4014 {
        &&& b1.ram == b.ram
        &&& b1.dmc_just_fired == b.dmc_just_fired
        &&& b1.penultimate_sample_cycle == b.penultimate_sample_cycle
        &&& b1.dmc_ticks == b.dmc_ticks
        &&& b1.ppu.oam_addr == b.ppu.oam_addr
        &&& val < 0x20 ==> forall|j: int|
            0 <= j < 256 ==> #[trigger] b1.ppu.oam[(b.ppu.oam_addr + j) % 256] == b.ram[ram_index((val * 256 + j) as u16)]
    } else if addr == 0x4016 {
        &&& b1 == Bus { pad1: b1.pad1, pad2: b1.pad2, apu: b.apu.after_write(addr, val), ..rest }
        &&& crate::controller::after_write(b.pad1, val, b1.pad1)
        &&& crate::controller::after_write(b.pad2, val, b1.pad2)
    } else if addr < 0x4020 {
        b1 == Bus { apu: b.apu.after_write(addr, val), ..rest }
    } else if addr < 0x6000 {
        b1 == rest
    } else {
        b1 == Bus { mapper: b1.mapper, ..rest } && b.mapper.after_cpu_write(addr, val, b1.mapper)
    }
}

/// A CPU write cycle of `val` to `addr` from bus `b0` to `b1`: the cycle begins (see
/// `begins_cycle`) and the write acts as `write_effect`.
pub open spec fn cpu_write_step(b0: Bus, addr: u16, val: u8, b1: Bus) -> bool {
    exists|bc: Bus| #[trigger] begins_cycle(b0, bc) && write_effect(bc, addr, val, b1)
}

/// `after` is `before` with more accesses appended.
pub open spec fn extends(before: Seq<BusAccess>, after: Seq<BusAccess>) -> bool {
    before.len() <= after.len() && after.subrange(0, before.len() as int) == before
}

/// The accesses appended to `before` in `after`.
pub open spec fn since(before: Seq<BusAccess>, after: Seq<BusAccess>) -> Seq<BusAccess> {
    after.subrange(before.len() as int, after.len() as int)
}

/// One recorded CPU access from bus `b0` to `b1`: a write cycle (`cpu_write_step`) or
/// a read cycle (`cpu_read_step`) of its address and value.
pub open spec fn access_step(b0: Bus, a: BusAccess, b1: Bus) -> bool {
    if a.write {
        cpu_write_step(b0, a.addr, a.val, b1)
    } else {
        cpu_read_step(b0, a.addr, a.val, b1)
    }
}

/// `bs` leads from `b0` to `b1` one access of `t` at a time.
pub open spec fn runs_through(bs: Seq<Bus>, t: Seq<BusAccess>, b0: Bus, b1: Bus) -> bool {
    &&& bs.len() == t.len() + 1
    &&& bs[0] == b0
    &&& bs[t.len() as int] == b1
    &&& forall|i: int| 0 <= i < t.len() ==> #[trigger] access_step(bs[i], t[i], bs[i + 1])
}

/// `b1` is `b0` after the CPU cycles recorded between them and nothing else: the
/// accesses appended to the record, each one a read or write cycle
/// (`access_step`) from the bus the previous one left.
pub open spec fn bus_run(b0: Bus, b1: Bus) -> bool {
    &&& extends(b0.accesses@, b1.accesses@)
    &&& exists|bs: Seq<Bus>| #[trigger] runs_through(bs, since(b0.accesses@, b1.accesses@), b0, b1)
}

/// No cycles: the bus as it was.
pub broadcast proof fn lemma_bus_run_refl(b: Bus)
    ensures
        #[trigger] bus_run(b, b),
{
    let t = since(b.accesses@, b.accesses@);
    assert(b.accesses@.subrange(0, b.accesses@.len() as int) =~= b.accesses@);
    assert(t =~= Seq::<BusAccess>::empty());
    assert(runs_through(seq![b], t, b, b));
}

/// Runs compose: the cycles from `b0` to `b1` and then from `b1` to `b2`.
pub broadcast proof fn lemma_bus_run_trans(b0: Bus, b1: Bus, b2: Bus)
    ensures
        #[trigger] bus_run(b0, b1) && #[trigger] bus_run(b1, b2) ==> bus_run(b0, b2),
{
    if bus_run(b0, b1) && bus_run(b1, b2) {
        let a0 = b0.accesses@;
        let a1 = b1.accesses@;
        let a2 = b2.accesses@;
        let t1 = since(a0, a1);
        let t2 = since(a1, a2);
        let bs1 = choose|bs: Seq<Bus>| #[trigger] runs_through(bs, t1, b0, b1);
        let bs2 = choose|bs: Seq<Bus>| #[trigger] runs_through(bs, t2, b1, b2);
        assert(a2.subrange(0, a0.len() as int) =~= a2.subrange(0, a1.len() as int).subrange(0, a0.len() as int));
        assert(extends(a0, a2));
        let t = since(a0, a2);
        assert(t =~= t1 + t2);
        let bs = bs1 + bs2.subrange(1, bs2.len() as int);
        assert forall|i: int| 0 <= i < t.len() implies #[trigger] access_step(bs[i], t[i], bs[i + 1]) by {
            if i < t1.len() {
                assert(access_step(bs1[i], t1[i], bs1[i + 1]));
            } else {
                let j = i - t1.len();
                assert(access_step(bs2[j], t2[j], bs2[j + 1]));
            }
        }
        assert(runs_through(bs, t, b0, b2));
    }
}

/// One recorded access is a run.
proof fn lemma_bus_run_one(b0: Bus, a: BusAccess, b1: Bus)
    requires
        b1.accesses@ == b0.accesses@.push(a),
        access_step(b0, a, b1),
    ensures
        bus_run(b0, b1),
{
    let t = since(b0.accesses@, b1.accesses@);
    assert(b1.accesses@.subrange(0, b0.accesses@.len() as int) =~= b0.accesses@);
    assert(t =~= seq![a]);
    assert(runs_through(seq![b0, b1], t, b0, b1));
}

/// A read cycle leaves RAM alone, and a read below $2000 returns the RAM cell it
/// reaches.
pub proof fn lemma_read_step_ram(b0: Bus, addr: u16, r: u8, b1: Bus)
    requires
        cpu_read_step(b0, addr, r, b1),
    ensures
        b1.ram == b0.ram,
        addr < 0x2000 ==> r == b0.ram[ram_index(addr)],
{
    let bc = choose|bc: Bus| #[trigger] begins_cycle(b0, bc) && read_effect(bc, addr, r, b1);
    assert(cycle_started(b0).ram == b0.ram);
    assert(bc.ram == b0.ram);
}

pub broadcast group group_bus_run {
    lemma_bus_run_refl,
    lemma_bus_run_trans,
}

/// The CPU's view of the system: RAM, cartridge, PPU, APU and controllers, with the
/// cycle bookkeeping that keeps the PPU in step with the CPU.
pub struct Bus {
    pub ram: [u8; 2048],
    pub mapper: Mapper,
    pub ppu: Ppu,
    pub apu: Apu,
    pub pad1: Gamepad,
    pub pad2: Gamepad,
    /// Last value on the data bus, returned by open-bus reads.
    pub open_bus_val: u8,
    /// A DMC DMA fired between instructions.
    pub dmc_just_fired: bool,
    /// CPU cycles so far (one per bus access).
    pub cpu_cycle: u64,
    /// The CPU cycle the PPU has been brought up to.
    pub ppu_sync_cycle: u64,
    /// The cycle at which the NMI latch is sampled (the instruction's penultimate).
    pub penultimate_sample_cycle: u64,
    /// DMC ticks applied per access during the current instruction.
    pub dmc_ticks: u16,
    /// Every read and write the CPU has made through this bus, oldest first.
    pub accesses: Ghost<Seq<BusAccess>>,
}

impl Bus {
    pub open spec fn wf(&self) -> bool {
        &&& self.mapper.wf()
        &&& self.ppu.wf()
        &&& self.apu.wf()
    }

    pub fn new(mapper: Mapper) -> (r: Self)
        requires
            mapper.wf(),
        ensures
            r.wf(),
            r.mapper == mapper,
            forall|i: int| 0 <= i < 2048 ==> #[trigger] r.ram[i] == 0,
            r.cpu_cycle == 0 && r.ppu_sync_cycle == 0 && r.penultimate_sample_cycle == 0,
            r.open_bus_val == 0 && !r.dmc_just_fired && r.dmc_ticks == 0,
            r.accesses@ == Seq::<BusAccess>::empty(),
            r.ppu.scanline == 0 && r.ppu.cycle == 0 && r.ppu.tick_count == 0,
            r.apu.cycles == 0,
            r.ppu.powered_on(),
            r.apu.powered_on(),
    {
        Bus {
            ram: [0; 2048],
            mapper,
            ppu: Ppu::new(),
            apu: Apu::new(),
            pad1: Gamepad::new(),
            pad2: Gamepad::new(),
            open_bus_val: 0,
            dmc_just_fired: false,
            cpu_cycle: 0,
            ppu_sync_cycle: 0,
            penultimate_sample_cycle: 0,
            dmc_ticks: 0,
            accesses: Ghost(Seq::empty()),
        }
    }

    /// Only the PPU and the board moved on: every other part of the bus is equal, and
    /// the PPU's registers and memories are unchanged.
    pub open spec fn only_video_advanced(&self, o: &Bus) -> bool {
        &&& o.ram == self.ram
        &&& o.apu == self.apu
        &&& o.pad1 == self.pad1
        &&& o.pad2 == self.pad2
        &&& o.open_bus_val == self.open_bus_val
        &&& o.dmc_just_fired == self.dmc_just_fired
        &&& o.cpu_cycle == self.cpu_cycle
        &&& o.penultimate_sample_cycle == self.penultimate_sample_cycle
        &&& o.dmc_ticks == self.dmc_ticks
        &&& o.accesses == self.accesses
        &&& self.ppu.same_registers(&o.ppu)
        &&& self.mapper.clocks_to(o.mapper)
    }

    /// Brings the PPU up to the current CPU cycle (three dots per CPU cycle).
    #[inline(always)]
    pub fn catch_up_ppu(&mut self)
        requires
            old(self).wf(),
        ensures
            final(self).wf(),
            old(self).only_video_advanced(&*final(self)),
            final(self).ppu_sync_cycle == (if old(self).cpu_cycle > old(self).ppu_sync_cycle {
                old(self).cpu_cycle
            } else {
                old(self).ppu_sync_cycle
            }),
            old(self).cpu_cycle > old(self).ppu_sync_cycle ==> final(self).ppu.tick_count == (old(self).ppu.tick_count
                + ((old(self).cpu_cycle - old(self).ppu_sync_cycle) * 3) % 0x10000) % 0x1_0000_0000_0000_0000,
            old(self).cpu_cycle <= old(self).ppu_sync_cycle ==> *final(self) == *old(self),
            old(self).cpu_cycle > old(self).ppu_sync_cycle ==> Ppu::after_dots(old(self).ppu, old(self).mapper,
                (((old(self).cpu_cycle - old(self).ppu_sync_cycle) * 3) % 0x10000) as nat, final(self).ppu,
                final(self).mapper),
            caught_up(*old(self), *final(self)),
    {
        proof {
            crate::mapper::lemma_clocks_to_step(self.mapper);
        }
        if self.cpu_cycle > self.ppu_sync_cycle {
            let d = self.cpu_cycle - self.ppu_sync_cycle;
            let d3 = d.wrapping_mul(3);
            proof {
                assert(d3 as u16 == d3 % 0x10000) by (bit_vector);
                assert(d3 == (d * 3) % 0x1_0000_0000_0000_0000);
                vstd::arithmetic::div_mod::lemma_mod_mod(d * 3, 0x10000, 0x1_0000_0000_0000);
                assert(0x10000 * 0x1_0000_0000_0000 == 0x1_0000_0000_0000_0000);
            }
            let ppu_dots = d3 as u16;
            self.ppu.tick_batch(ppu_dots, &mut self.mapper);
            self.ppu_sync_cycle = self.cpu_cycle;
        }
    }

    /// The NMI latch is sampled on the instruction's penultimate cycle: a latched NMI
    /// seen there is deferred until the instruction ends.
    pub open spec fn samples_penultimate(&self) -> bool {
        self.cpu_cycle > 0 && self.cpu_cycle - 1 == self.penultimate_sample_cycle && self.ppu.nmi_latched
    }

    #[inline(always)]
    fn sample_penultimate(&mut self)
        ensures
            old(self).samples_penultimate() ==> *final(self) == (Bus {
                ppu: Ppu { nmi_latched: false, nmi_deferred_pending: true, ..old(self).ppu },
                ..*old(self)
            }),
            !old(self).samples_penultimate() ==> *final(self) == *old(self),
    {
        if self.cpu_cycle > 0 && (self.cpu_cycle - 1) == self.penultimate_sample_cycle && self.ppu.nmi_latched {
            self.ppu.nmi_latched = false;
            self.ppu.nmi_deferred_pending = true;
        }
    }

    /// The start of every CPU cycle: count it, sample the NMI latch, catch the PPU up.
    fn begin_cycle(&mut self)
        requires
            old(self).wf(),
        ensures
            final(self).wf(),
            final(self).cpu_cycle == old(self).cpu_cycle.wrapping_add(1),
            final(self).ram == old(self).ram,
            final(self).apu == old(self).apu,
            final(self).pad1 == old(self).pad1,
            final(self).pad2 == old(self).pad2,
            final(self).open_bus_val == old(self).open_bus_val,
            final(self).dmc_just_fired == old(self).dmc_just_fired,
            final(self).penultimate_sample_cycle == old(self).penultimate_sample_cycle,
            final(self).dmc_ticks == old(self).dmc_ticks,
            final(self).accesses == old(self).accesses,
            old(self).mapper.clocks_to(final(self).mapper),
            same_visible_ppu(old(self).ppu, final(self).ppu),
            begins_cycle(*old(self), *final(self)),
            final(self).cpu_cycle <= final(self).ppu_sync_cycle,
    {
        self.cpu_cycle = self.cpu_cycle.wrapping_add(1);
        self.sample_penultimate();
        self.catch_up_ppu();
    }

    /// An internal CPU cycle without a bus access.
    #[inline(always)]
    pub fn advance_cycle(&mut self)
        requires
            old(self).wf(),
        ensures
            final(self).wf(),
            final(self).cpu_cycle == old(self).cpu_cycle.wrapping_add(1),
            final(self).ram == old(self).ram,
            final(self).accesses == old(self).accesses,
            old(self).mapper.clocks_to(final(self).mapper),
            begins_cycle(*old(self), *final(self)),
    {
        self.begin_cycle();
    }

    /// A CPU read from the PPU register block ($2000-$3FFF, repeating every 8 bytes).
    fn read_ppu(&mut self, addr: u16) -> (r: u8)
        requires
            old(self).wf(),
        ensures
            final(self).wf(),
            final(self).ram == old(self).ram,
            final(self).apu == old(self).apu,
            final(self).pad1 == old(self).pad1,
            final(self).pad2 == old(self).pad2,
            final(self).open_bus_val == old(self).open_bus_val,
            final(self).dmc_just_fired == old(self).dmc_just_fired,
            final(self).cpu_cycle == old(self).cpu_cycle,
            final(self).penultimate_sample_cycle == old(self).penultimate_sample_cycle,
            final(self).dmc_ticks == old(self).dmc_ticks,
            final(self).accesses == old(self).accesses,
            old(self).mapper.clocks_to(final(self).mapper),
            reads_ppu_register(old(self).ppu, old(self).mapper, addr, r, final(self).ppu),
            final(self).ppu.oam == old(self).ppu.oam && final(self).ppu.oam_addr == old(self).ppu.oam_addr,
            old(self).cpu_cycle <= old(self).ppu_sync_cycle ==> {
                &&& *final(self) == (Bus { ppu: final(self).ppu, mapper: final(self).mapper, ..*old(self) })
                &&& ppu_register_read(old(self).ppu, old(self).mapper, addr, r, final(self).ppu)
            },
    {
        let ghost m0 = self.mapper;
        self.catch_up_ppu();
        let ghost m1 = self.mapper;
        let ghost p1 = self.ppu;
        let v = self.ppu.read_register(addr, &mut self.mapper);
        proof {
            crate::mapper::lemma_clocks_to_trans(m0, m1, self.mapper);
            assert(ppu_register_read(p1, m1, addr, v, self.ppu));
        }
        v
    }

    /// A CPU write to the PPU register block; the written value stays on the PPU's bus.
    fn write_ppu(&mut self, addr: u16, val: u8)
        requires
            old(self).wf(),
        ensures
            final(self).wf(),
            final(self).ram == old(self).ram,
            final(self).apu == old(self).apu,
            final(self).pad1 == old(self).pad1,
            final(self).pad2 == old(self).pad2,
            final(self).open_bus_val == old(self).open_bus_val,
            final(self).dmc_just_fired == old(self).dmc_just_fired,
            final(self).cpu_cycle == old(self).cpu_cycle,
            final(self).penultimate_sample_cycle == old(self).penultimate_sample_cycle,
            final(self).dmc_ticks == old(self).dmc_ticks,
            final(self).accesses == old(self).accesses,
            writes_ppu_register(old(self).ppu, old(self).mapper, addr, val, final(self).ppu),
            old(self).cpu_cycle <= old(self).ppu_sync_cycle ==> {
                let w = old(self).ppu.after_write_register(addr, val, old(self).mapper);
                &&& *final(self) == (Bus { ppu: final(self).ppu, mapper: final(self).mapper, ..*old(self) })
                &&& final(self).ppu == (Ppu { last_bus_value: val, last_bus_write_tick: w.tick_count, ..w })
                &&& Ppu::register_write_reaches_board(old(self).ppu, old(self).mapper, addr, val, final(self).mapper)
            },
    {
        self.catch_up_ppu();
        let ghost p1 = self.ppu;
        let ghost m1 = self.mapper;
        self.ppu.write_register(addr, val, &mut self.mapper);
        self.ppu.last_bus_value = val;
        self.ppu.last_bus_write_tick = self.ppu.tick_count;
        proof {
            let w = p1.after_write_register(addr, val, m1);
            assert(self.ppu == (Ppu { last_bus_value: val, last_bus_write_tick: w.tick_count, ..w }));
        }
    }
}


/// `b1` is bus `b0` after serving a pending DMC DMA read, which took `d` CPU
/// cycles: four, during which the PPU runs twelve dots, the sample byte read from
/// the cartridge into the DMC and left on the data bus; or none, with nothing
/// changed, when no read is pending.
pub open spec fn serves_dmc_dma(b0: Bus, b1: Bus, d: u8) -> bool {
    &&& b1.ram == b0.ram
    &&& b1.accesses == b0.accesses
    &&& b0.apu.dmc.dma_needed ==> {
        let val = b1.mapper.spec_cpu_read(b0.apu.dmc.sample_addr);
        &&& d == 4
        &&& b1.cpu_cycle == b0.cpu_cycle.wrapping_add(4)
        &&& b1.apu == (Apu { dmc: b0.apu.dmc.after_dma_read(val), ..b0.apu })
        &&& b1.open_bus_val == val
        &&& b1.dmc_just_fired
        &&& Ppu::after_dots(b0.ppu, b0.mapper, 12, b1.ppu, b1.mapper)
        &&& b1 == Bus {
            ppu: b1.ppu,
            mapper: b1.mapper,
            cpu_cycle: b1.cpu_cycle,
            apu: b1.apu,
            open_bus_val: b1.open_bus_val,
            dmc_just_fired: true,
            ..b0
        }
    }
    &&& !b0.apu.dmc.dma_needed ==> d == 0 && b1 == b0
}

/// The PPU state a CPU can observe through the registers: memories, control
/// registers, scroll latches, the read buffer and the data-bus latch.
pub open spec fn same_visible_ppu(p: Ppu, q: Ppu) -> bool {
    &&& q.vram == p.vram
    &&& q.palette == p.palette
    &&& q.oam == p.oam
    &&& q.ctrl == p.ctrl
    &&& q.mask == p.mask
    &&& q.oam_addr == p.oam_addr
    &&& q.t == p.t
    &&& q.fine_x == p.fine_x
    &&& q.w == p.w
    &&& q.data_buffer == p.data_buffer
    &&& q.last_bus_value == p.last_bus_value
    &&& q.last_bus_write_tick == p.last_bus_write_tick
}

/// A read of PPU register `addr` (repeating every 8 bytes) from PPU `p`, with the
/// cartridge in state `m`, returns `r` and leaves the PPU as `q`.
pub open spec fn ppu_register_read(p: Ppu, m: Mapper, addr: u16, r: u8, q: Ppu) -> bool {
    if addr & 7 == 2 {
        r == p.spec_status_read() && q == p.after_read_status()
    } else if addr & 7 == 4 {
        r == p.spec_oam_read() && q == p
    } else if addr & 7 == 7 {
        r == p.spec_data_read(m) && q == p.after_read_data(m)
    } else {
        r == p.spec_open_bus() && q == p
    }
}

/// A read of PPU register `addr` from a bus whose PPU was `p0` and cartridge `m0`
/// returns `r` and leaves the PPU as `q`: the register read from the PPU brought up
/// to date, which differs from `p0` only in what time changes.
pub open spec fn reads_ppu_register(p0: Ppu, m0: Mapper, addr: u16, r: u8, q: Ppu) -> bool {
    exists|p: Ppu, m: Mapper|
        #![trigger ppu_register_read(p, m, addr, r, q)]
        same_visible_ppu(p0, p) && m0.clocks_to(m) && ppu_register_read(p, m, addr, r, q)
}

/// A write of `val` to PPU register `addr` on a bus whose PPU was `p0` and cartridge
/// `m0` leaves the PPU as `q`: the register write to the PPU brought up to date (which
/// differs from `p0` only in what time changes), with `val` left on its data bus.
pub open spec fn writes_ppu_register(p0: Ppu, m0: Mapper, addr: u16, val: u8, q: Ppu) -> bool {
    exists|p: Ppu, m: Mapper|
        #![trigger p.after_write_register(addr, val, m)]
        {
            let w = p.after_write_register(addr, val, m);
            &&& same_visible_ppu(p0, p)
            &&& m0.clocks_to(m)
            &&& q == (Ppu { last_bus_value: val, last_bus_write_tick: w.tick_count, ..w })
        }
}

impl Bus {
    /// The parts of the bus that a read outside the PPU and IO blocks leaves alone.
    pub open spec fn same_cpu_state(&self, o: &Bus) -> bool {
        &&& o.ram == self.ram
        &&& o.dmc_just_fired == self.dmc_just_fired
        &&& o.cpu_cycle == self.cpu_cycle
        &&& o.penultimate_sample_cycle == self.penultimate_sample_cycle
        &&& o.dmc_ticks == self.dmc_ticks
        &&& o.accesses == self.accesses
    }

    /// The value a CPU read sees, by address: RAM (mirrored), PPU registers, APU
    /// status with bit 5 from the data bus, the controller ports (bit 0 only), the
    /// data-bus latch for write-only and unmapped IO, and the cartridge from $6000.
    fn read_mapped(&mut self, addr: u16) -> (r: u8)
        requires
            old(self).wf(),
        ensures
            final(self).wf(),
            old(self).same_cpu_state(&*final(self)),
            final(self).open_bus_val == old(self).open_bus_val,
            old(self).mapper.clocks_to(final(self).mapper),
            addr < 0x2000 ==> r == old(self).ram[ram_index(addr)] && *final(self) == *old(self),
            addr == 0x4015 ==> r == old(self).apu.spec_status() | (old(self).open_bus_val & 0x20)
                && *final(self) == (Bus { apu: Apu { frame_irq: false, ..old(self).apu }, ..*old(self) }),
            addr == 0x4016 ==> r == (old(self).pad1.next_bit() & 0x01) | (old(self).open_bus_val & 0xFE),
            addr == 0x4017 ==> r == (old(self).pad2.next_bit() & 0x01) | (old(self).open_bus_val & 0xFE),
            (addr == 0x4016 || addr == 0x4017) ==> r & 0xFE == old(self).open_bus_val & 0xFE,
            (0x4000 <= addr < 0x6000 && addr != 0x4015 && addr != 0x4016 && addr != 0x4017) ==> r
                == old(self).open_bus_val && *final(self) == *old(self),
            addr >= 0x6000 ==> r == old(self).mapper.spec_cpu_read(addr) && *final(self) == *old(self),
            0x2000 <= addr < 0x4000 ==> reads_ppu_register(old(self).ppu, old(self).mapper, addr, r, final(self).ppu),
            final(self).ppu.oam == old(self).ppu.oam && final(self).ppu.oam_addr == old(self).ppu.oam_addr,
            old(self).cpu_cycle <= old(self).ppu_sync_cycle ==> read_effect(*old(self), addr, r, *final(self)),
    {
        proof {
            crate::mapper::lemma_clocks_to_step(self.mapper);
        }
        proof {
            crate::bits::lemma_word_bits(addr);
        }
        if addr < 0x2000 {
            self.ram[(addr & 0x07FF) as usize]
        } else if addr < 0x4000 {
            self.read_ppu(addr)
        } else if addr < 0x4018 {
            if addr == 0x4015 {
                let ob = self.open_bus_val;
                self.apu.read(addr) | (ob & 0x20)
            } else if addr == 0x4016 {
                let p = self.pad1.read();
                let ob = self.open_bus_val;
                proof {
                    crate::bits::lemma_port_bits(p, ob);
                }
                (p & 0x01) | (ob & 0xFE)
            } else if addr == 0x4017 {
                let p = self.pad2.read();
                let ob = self.open_bus_val;
                proof {
                    crate::bits::lemma_port_bits(p, ob);
                }
                (p & 0x01) | (ob & 0xFE)
            } else {
                self.open_bus_val
            }
        } else if addr < 0x4020 {
            self.open_bus_val
        } else if addr >= 0x6000 {
            self.mapper.cpu_read(addr)
        } else {
            self.open_bus_val
        }
    }

    /// One read cycle, without recording it as a CPU access (DMA reads use it too).
    fn read_cycle(&mut self, addr: u16) -> (r: u8)
        requires
            old(self).wf(),
        ensures
            final(self).wf(),
            final(self).ram == old(self).ram,
            final(self).accesses == old(self).accesses,
            final(self).cpu_cycle == old(self).cpu_cycle.wrapping_add(1),
            final(self).dmc_just_fired == old(self).dmc_just_fired,
            final(self).penultimate_sample_cycle == old(self).penultimate_sample_cycle,
            final(self).dmc_ticks == old(self).dmc_ticks,
            old(self).mapper.clocks_to(final(self).mapper),
            addr < 0x2000 ==> r == old(self).ram[ram_index(addr)],
            addr >= 0x6000 ==> r == final(self).mapper.spec_cpu_read(addr),
            final(self).open_bus_val == (if read_keeps_open_bus(addr) { old(self).open_bus_val } else { r }),
            0x2000 <= addr < 0x4000 ==> reads_ppu_register(old(self).ppu, old(self).mapper, addr, r, final(self).ppu),
            addr == 0x4016 ==> r == (old(self).pad1.next_bit() & 0x01) | (old(self).open_bus_val & 0xFE),
            addr == 0x4017 ==> r == (old(self).pad2.next_bit() & 0x01) | (old(self).open_bus_val & 0xFE),
            final(self).ppu.oam == old(self).ppu.oam && final(self).ppu.oam_addr == old(self).ppu.oam_addr,
            addr == 0x4015 ==> r == old(self).apu.spec_status() | (old(self).open_bus_val & 0x20)
                && final(self).apu == (Apu { frame_irq: false, ..old(self).apu }),
            (0x4000 <= addr < 0x6000 && addr != 0x4015 && addr != 0x4016 && addr != 0x4017) ==> r
                == old(self).open_bus_val,
            exists|bc: Bus| #[trigger] begins_cycle(*old(self), bc) && read_effect(bc, addr, r, *final(self)),
    {
        let ghost m0 = self.mapper;
        let ghost p0 = self.ppu;
        self.begin_cycle();
        let ghost bc = *self;
        let ghost m1 = self.mapper;
        let ghost p1 = self.ppu;
        let val = self.read_mapped(addr);
        proof {
            crate::mapper::lemma_clocks_to_trans(m0, m1, self.mapper);
            if 0x2000 <= addr < 0x4000 {
                let (p, m) = choose|p: Ppu, m: Mapper|
                    #![trigger ppu_register_read(p, m, addr, val, self.ppu)]
                    same_visible_ppu(p1, p) && m1.clocks_to(m) && ppu_register_read(p, m, addr, val, self.ppu);
                crate::mapper::lemma_clocks_to_trans(m0, m1, m);
                assert(same_visible_ppu(p0, p));
                assert(ppu_register_read(p, m, addr, val, self.ppu));
            }
        }
        let keep = addr >= 0x4000 && addr < 0x6000 && addr != 0x4016;
        if !keep {
            self.open_bus_val = val;
        }
        proof {
            assert(begins_cycle(*old(self), bc) && read_effect(bc, addr, val, *self));
        }
        val
    }

    /// A CPU read of `addr`: one cycle, recorded as an access.
    #[inline(always)]
    pub fn read(&mut self, addr: u16) -> (r: u8)
        requires
            old(self).wf(),
        ensures
            final(self).wf(),
            final(self).accesses@ == old(self).accesses@.push(BusAccess { addr, val: r, write: false }),
            final(self).ram == old(self).ram,
            final(self).cpu_cycle == old(self).cpu_cycle.wrapping_add(1),
            final(self).dmc_just_fired == old(self).dmc_just_fired,
            final(self).penultimate_sample_cycle == old(self).penultimate_sample_cycle,
            old(self).mapper.clocks_to(final(self).mapper),
            addr < 0x2000 ==> r == old(self).ram[ram_index(addr)],
            addr >= 0x6000 ==> r == final(self).mapper.spec_cpu_read(addr),
            final(self).open_bus_val == (if read_keeps_open_bus(addr) { old(self).open_bus_val } else { r }),
            0x2000 <= addr < 0x4000 ==> reads_ppu_register(old(self).ppu, old(self).mapper, addr, r, final(self).ppu),
            addr == 0x4016 ==> r == (old(self).pad1.next_bit() & 0x01) | (old(self).open_bus_val & 0xFE),
            addr == 0x4017 ==> r == (old(self).pad2.next_bit() & 0x01) | (old(self).open_bus_val & 0xFE),
            addr == 0x4015 ==> r == old(self).apu.spec_status() | (old(self).open_bus_val & 0x20)
                && final(self).apu == (Apu { frame_irq: false, ..old(self).apu }),
            (0x4000 <= addr < 0x6000 && addr != 0x4015 && addr != 0x4016 && addr != 0x4017) ==> r
                == old(self).open_bus_val,
            cpu_read_step(*old(self), addr, r, *final(self)),
            bus_run(*old(self), *final(self)),
    {
        let ghost b0 = *self;
        let val = self.read_cycle(addr);
        let ghost b1 = *self;
        self.accesses = Ghost(self.accesses@.push(BusAccess { addr, val, write: false }));
        proof {
            let bc = choose|bc: Bus| #[trigger] begins_cycle(b0, bc) && read_effect(bc, addr, val, b1);
            assert(begins_cycle(b0, bc) && read_effect(bc, addr, val, *self));
            lemma_bus_run_one(b0, BusAccess { addr, val, write: false }, *self);
        }
        val
    }

    /// OAM DMA: 256 bytes from page `page` into OAM starting at OAMADDR, two CPU
    /// cycles per byte.
    #[verifier::spinoff_prover]
    #[verifier::rlimit(50)]
    fn oam_dma(&mut self, page: u8)
        requires
            old(self).wf(),
        ensures
            final(self).wf(),
            final(self).ram == old(self).ram,
            final(self).accesses == old(self).accesses,
            final(self).dmc_just_fired == old(self).dmc_just_fired,
            final(self).penultimate_sample_cycle == old(self).penultimate_sample_cycle,
            final(self).dmc_ticks == old(self).dmc_ticks,
            final(self).ppu.oam_addr == old(self).ppu.oam_addr,
            page < 0x20 ==> forall|j: int|
                0 <= j < 256 ==> #[trigger] final(self).ppu.oam[(old(self).ppu.oam_addr + j) % 256]
                    == old(self).ram[ram_index((page * 256 + j) as u16)],
    {
        let base = (page as u16) << 8;
        assert(base == page * 256) by (bit_vector)
            requires
                base == (page as u16) << 8u16,
        ;
        let ghost o0 = self.ppu.oam_addr;
        let mut i: u16 = 0;
        while i < 256
            invariant
                i <= 256,
                self.wf(),
                self.ram == old(self).ram,
                self.accesses == old(self).accesses,
                self.dmc_just_fired == old(self).dmc_just_fired,
                self.penultimate_sample_cycle == old(self).penultimate_sample_cycle,
                self.dmc_ticks == old(self).dmc_ticks,
                o0 == old(self).ppu.oam_addr,
                base == page * 256,
                self.ppu.oam_addr == (o0 + i) % 256,
                page < 0x20 ==> forall|j: int|
                    0 <= j < i ==> #[trigger] self.ppu.oam[(o0 + j) % 256] == old(self).ram[ram_index((page * 256 + j) as u16)],
            decreases 256 - i,
        {
            let addr = base | i;
            assert(addr == page * 256 + i) by (bit_vector)
                requires
                    addr == base | i,
                    base == page * 256,
                    i < 256,
            ;
            let ghost p0 = self.ppu;
            let val = self.read_cycle(addr);
            self.cpu_cycle = self.cpu_cycle.wrapping_add(1);
            let oa = self.ppu.oam_addr;
            assert(oa == p0.oam_addr);
            self.ppu.oam[oa as usize] = val;
            self.ppu.oam_addr = oa.wrapping_add(1);
            let ghost p1 = self.ppu;
            self.ppu_tick(6);
            self.apu.tick(2);
            proof {
                assert(self.ppu.oam == p1.oam);
                if page < 0x20 {
                    assert forall|j: int| 0 <= j < i + 1 implies #[trigger] self.ppu.oam[(o0 + j) % 256]
                        == old(self).ram[ram_index((page * 256 + j) as u16)] by {
                        if j < i {
                            assert((o0 + j) % 256 != (o0 + i) % 256);
                        }
                    }
                }
            }
            i = i + 1;
        }
    }

    /// A CPU write of `val` to `addr`: RAM (mirrored), PPU registers, OAM DMA
    /// ($4014), the controller strobe ($4016), APU registers, or the cartridge from
    /// $6000; the value stays on the data bus unless it went to the stack page.
    #[inline(always)]
    #[verifier::spinoff_prover]
    #[verifier::rlimit(50)]
    pub fn write(&mut self, addr: u16, val: u8)
        requires
            old(self).wf(),
        ensures
            final(self).wf(),
            final(self).accesses@ == old(self).accesses@.push(BusAccess { addr, val, write: true }),
            addr < 0x2000 ==> final(self).ram@ == old(self).ram@.update(ram_index(addr), val),
            addr >= 0x2000 ==> final(self).ram == old(self).ram,
            addr != 0x4014 ==> final(self).cpu_cycle == old(self).cpu_cycle.wrapping_add(1),
            final(self).dmc_just_fired == old(self).dmc_just_fired,
            final(self).penultimate_sample_cycle == old(self).penultimate_sample_cycle,
            final(self).open_bus_val == (if addr & 0xFF00 != 0x0100 { val } else { old(self).open_bus_val }),
            0x2000 <= addr < 0x4000 ==> writes_ppu_register(old(self).ppu, old(self).mapper, addr, val, final(self).ppu),
            0x4000 <= addr < 0x4020 && addr != 0x4014 ==> final(self).apu == old(self).apu.after_write(addr, val),
            addr == 0x4016 ==> crate::controller::after_write(old(self).pad1, val, final(self).pad1)
                && crate::controller::after_write(old(self).pad2, val, final(self).pad2),
            addr == 0x4014 && val < 0x20 ==> forall|j: int|
                0 <= j < 256 ==> #[trigger] final(self).ppu.oam[(old(self).ppu.oam_addr + j) % 256]
                    == old(self).ram[ram_index((val * 256 + j) as u16)],
            addr >= 0x6000 ==> exists|m: Mapper| #[trigger] old(self).mapper.clocks_to(m) && m.after_cpu_write(addr, val, final(self).mapper),
            cpu_write_step(*old(self), addr, val, *final(self)),
            bus_run(*old(self), *final(self)),
    {
        proof {
            crate::bits::lemma_word_bits(addr);
        }
        let ghost p0 = self.ppu;
        let ghost m0 = self.mapper;
        self.begin_cycle();
        let ghost bc = *self;
        let ghost p1 = self.ppu;
        let ghost m1 = self.mapper;
        if addr < 0x2000 {
            self.ram[(addr & 0x07FF) as usize] = val;
        } else if addr < 0x4000 {
            self.write_ppu(addr, val);
        } else if addr < 0x4020 {
            if addr == 0x4014 {
                self.oam_dma(val);
            } else if addr == 0x4016 {
                self.pad1.write(val);
                self.pad2.write(val);
                self.apu.write(addr, val);
            } else {
                self.apu.write(addr, val);
            }
        } else if addr >= 0x6000 {
            self.mapper.cpu_write(addr, val);
        }
        proof {
            if 0x2000 <= addr < 0x4000 {
                let (p, m) = choose|p: Ppu, m: Mapper|
                    #![trigger p.after_write_register(addr, val, m)]
                    {
                        let w = p.after_write_register(addr, val, m);
                        &&& same_visible_ppu(p1, p)
                        &&& m1.clocks_to(m)
                        &&& self.ppu == (Ppu { last_bus_value: val, last_bus_write_tick: w.tick_count, ..w })
                    };
                crate::mapper::lemma_clocks_to_trans(m0, m1, m);
                assert(same_visible_ppu(p0, p));
                let w = p.after_write_register(addr, val, m);
                assert(self.ppu == (Ppu { last_bus_value: val, last_bus_write_tick: w.tick_count, ..w }));
            }
            if addr >= 0x6000 {
                assert(m0.clocks_to(m1) && m1.after_cpu_write(addr, val, self.mapper));
            }
        }
        if (addr & 0xFF00) != 0x0100 {
            self.open_bus_val = val;
        }
        self.accesses = Ghost(self.accesses@.push(BusAccess { addr, val, write: true }));
        proof {
            assert(begins_cycle(*old(self), bc) && write_effect(bc, addr, val, *self));
            lemma_bus_run_one(*old(self), BusAccess { addr, val, write: true }, *self);
        }
    }

    /// Whether an IRQ is asserted: the APU frame IRQ first, else the board's IRQ,
    /// which this acknowledges.
    pub fn poll_irq(&mut self) -> (r: bool)
        requires
            old(self).wf(),
        ensures
            final(self).wf(),
            r == (old(self).apu.frame_irq || old(self).mapper.spec_irq_pending()),
            *final(self) == (if !old(self).apu.frame_irq && old(self).mapper.spec_irq_pending() {
                Bus { mapper: old(self).mapper.after_ack(), ..*old(self) }
            } else {
                *old(self)
            }),
    {
        if self.apu.apu_irq_pending() {
            return true;
        }
        if self.mapper.irq_pending() {
            self.mapper.ack_irq();
            return true;
        }
        false
    }

    /// Performs a pending DMC DMA: four CPU cycles, one cartridge read of the sample
    /// byte handed to the DMC. Returns the cycles taken (0 when none was pending).
    pub fn dmc_tick(&mut self) -> (r: u8)
        requires
            old(self).wf(),
        ensures
            final(self).wf(),
            serves_dmc_dma(*old(self), *final(self), r),
            final(self).ram == old(self).ram,
            final(self).accesses == old(self).accesses,
            old(self).apu.dmc.dma_needed ==> {
                let val = final(self).mapper.spec_cpu_read(old(self).apu.dmc.sample_addr);
                &&& r == 4
                &&& final(self).cpu_cycle == old(self).cpu_cycle.wrapping_add(4)
                &&& final(self).apu == (Apu { dmc: old(self).apu.dmc.after_dma_read(val), ..old(self).apu })
                &&& final(self).open_bus_val == val
                &&& final(self).dmc_just_fired
            },
            !old(self).apu.dmc.dma_needed ==> r == 0 && *final(self) == *old(self),
    {
        if self.apu.dmc_dma_pending() {
            let addr = self.apu.dmc_sample_address();
            self.cpu_cycle = self.cpu_cycle.wrapping_add(4);
            self.ppu_tick(12);
            let val = self.mapper.cpu_read(addr);
            self.apu.dmc_complete_dma(val);
            self.open_bus_val = val;
            self.dmc_just_fired = true;
            4
        } else {
            0
        }
    }

    /// Runs the PPU for `count` dots.
    pub fn ppu_tick(&mut self, count: u16)
        requires
            old(self).wf(),
        ensures
            final(self).wf(),
            old(self).only_video_advanced(&*final(self)),
            final(self).ppu_sync_cycle == old(self).ppu_sync_cycle,
            Ppu::after_dots(old(self).ppu, old(self).mapper, count as nat, final(self).ppu, final(self).mapper),
    {
        self.ppu.tick_batch(count, &mut self.mapper);
    }

    /// Reads the PPU bus (for debuggers and front ends).
    pub fn ppu_read_mapped(&mut self, addr: u16) -> (r: u8)
        requires
            old(self).wf(),
        ensures
            r == old(self).ppu.spec_ppu_read(addr, old(self).mapper),
            *final(self) == *old(self),
    {
        self.ppu.ppu_read(addr, &mut self.mapper)
    }

    /// Writes the PPU bus (for debuggers and front ends).
    pub fn ppu_write_mapped(&mut self, addr: u16, val: u8)
        requires
            old(self).wf(),
        ensures
            final(self).wf(),
            addr >= 0x2000 ==> *final(self) == (Bus {
                ppu: old(self).ppu.after_write_nt(addr, val, old(self).mapper.spec_mirroring()),
                ..*old(self)
            }),
            addr < 0x2000 ==> old(self).mapper.after_ppu_write(addr, val, final(self).mapper) && *final(self)
                == (Bus { mapper: final(self).mapper, ..*old(self) }),
    {
        self.ppu.ppu_write(addr, val, &mut self.mapper);
    }
}

/// Internal RAM repeats every 2 KiB below $2000.
pub proof fn lemma_ram_mirrors(addr: u16)
    requires
        addr < 0x0800,
    ensures
        ram_index(addr) == addr,
        ram_index((addr + 0x0800) as u16) == addr,
        ram_index((addr + 0x1000) as u16) == addr,
        ram_index((addr + 0x1800) as u16) == addr,
{
    assert(addr < 0x0800 ==> addr & 0x07FF == addr && ((addr + 0x0800) as u16) & 0x07FF == addr && ((addr
        + 0x1000) as u16) & 0x07FF == addr && ((addr + 0x1800) as u16) & 0x07FF == addr) by (bit_vector);
}

/// A RAM read gives back what the last write stored in the same cell, through any of
/// its mirrors, and a write to another cell leaves it alone: `Bus::write` updates
/// `ram_index(w)` and `Bus::read` returns `ram_index(r)`.
pub proof fn lemma_ram_write_then_read(ram: Seq<u8>, w: u16, r: u16, val: u8)
    requires
        ram.len() == 2048,
        w < 0x2000,
        r < 0x2000,
    ensures
        ram.update(ram_index(w), val)[ram_index(r)] == (if w % 0x800 == r % 0x800 {
            val
        } else {
            ram[ram_index(r)]
        }),
{
    assert(w & 0x07FF == w % 0x800 && r & 0x07FF == r % 0x800) by (bit_vector);
}

/// The PPU registers repeat every 8 bytes through $2000-$3FFF: two addresses with the
/// same low three bits read and write alike.
pub proof fn lemma_ppu_registers_repeat(p: Ppu, m: Mapper, a: u16, b: u16, val: u8, r: u8, q: Ppu)
    requires
        a & 7 == b & 7,
    ensures
        ppu_register_read(p, m, a, r, q) == ppu_register_read(p, m, b, r, q),
        p.after_write_register(a, val, m) == p.after_write_register(b, val, m),
        reads_ppu_register(p, m, a, r, q) == reads_ppu_register(p, m, b, r, q),
{
    assert forall|p1: Ppu, m1: Mapper| ppu_register_read(p1, m1, a, r, q) == ppu_register_read(p1, m1, b, r, q) by {}
}

} // verus!
