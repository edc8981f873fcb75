use nes::apu::Apu;
use nes::bus::Bus;
use nes::cpu::{CpuRp2a03, FLAG_CARRY, FLAG_INTERRUPT, FLAG_NEGATIVE, FLAG_OVERFLOW, FLAG_ZERO};
use nes::debug::frame_diff;
use nes::mapper::Mapper;
use nes::ops::{adc_inner, base_cycles, cmp_inner, pull, push, sbc_inner};
use nes::ppu::Ppu;
use nes::rom::Rom;
use nes::{irq, nmi, reset, tick};

/// An NROM image whose 16 KiB PRG starts with `code` at $8000, with the reset
/// vector at $8000 and the NMI and IRQ vectors at $9000.
fn image_with(code: &[u8]) -> Vec<u8> {
    let mut data = vec![0x4E, 0x45, 0x53, 0x1A, 1, 0, 0, 0];
    data.resize(16, 0);
    let mut prg = vec![0xEAu8; 0x4000];
    prg[..code.len()].copy_from_slice(code);
    prg[0x3FFA] = 0x00;
    prg[0x3FFB] = 0x90;
    prg[0x3FFC] = 0x00;
    prg[0x3FFD] = 0x80;
    prg[0x3FFE] = 0x00;
    prg[0x3FFF] = 0x90;
    data.extend(&prg);
    data
}

fn boot(code: &[u8]) -> (CpuRp2a03, Bus) {
    let data = image_with(code);
    let rom = Rom::new(&data).unwrap();
    let mut cpu = CpuRp2a03::new(0);
    let mut bus = Bus::new(rom.create_mapper());
    reset(&mut cpu, &mut bus);
    (cpu, bus)
}

// ---- memory map ----

#[test]
fn ram_write_reads_back_at_every_mirror() {
    let (_, mut bus) = boot(&[]);
    bus.write(0x1923, 0x5C);
    for addr in [0x0123u16, 0x0923, 0x1123, 0x1923] {
        assert_eq!(bus.read(addr), 0x5C);
    }
    assert_eq!(bus.ram[0x123], 0x5C);
}

#[test]
fn apu_status_read_keeps_bit_5_from_the_data_bus() {
    let (_, mut bus) = boot(&[]);
    bus.write(0x0000, 0x20); // drives $20 onto the data bus
    assert_eq!(bus.open_bus_val, 0x20);
    let v = bus.read(0x4015);
    assert_eq!(v & 0x20, 0x20);
    // Write-only APU registers read the data bus.
    assert_eq!(bus.read(0x4000), 0x20);
}

#[test]
fn oam_dma_copies_a_page() {
    let (_, mut bus) = boot(&[]);
    for i in 0..256u16 {
        bus.write(0x0200 + i, i as u8);
    }
    bus.write(0x4014, 0x02);
    for i in 0..256usize {
        assert_eq!(bus.ppu.oam[i], i as u8);
    }
}

// ---- CPU arithmetic ----

#[test]
fn adc_sets_carry_zero_and_overflow() {
    let mut cpu = CpuRp2a03::new(0);
    cpu.set_a(0x50);
    adc_inner(&mut cpu, 0x50);
    assert_eq!(cpu.a(), 0xA0);
    assert!(cpu.get_flag(FLAG_OVERFLOW));
    assert!(cpu.get_flag(FLAG_NEGATIVE));
    assert!(!cpu.get_flag(FLAG_CARRY));

    let mut cpu = CpuRp2a03::new(0);
    cpu.set_a(0xFF);
    cpu.set_flag(FLAG_CARRY, true);
    adc_inner(&mut cpu, 0x00);
    assert_eq!(cpu.a(), 0x00);
    assert!(cpu.get_flag(FLAG_CARRY));
    assert!(cpu.get_flag(FLAG_ZERO));
    assert!(!cpu.get_flag(FLAG_OVERFLOW));
}

#[test]
fn sbc_borrows_and_overflows() {
    let mut cpu = CpuRp2a03::new(0);
    cpu.set_a(0x50);
    cpu.set_flag(FLAG_CARRY, true);
    sbc_inner(&mut cpu, 0xB0);
    assert_eq!(cpu.a(), 0xA0);
    assert!(cpu.get_flag(FLAG_OVERFLOW));
    assert!(!cpu.get_flag(FLAG_CARRY));

    let mut cpu = CpuRp2a03::new(0);
    cpu.set_a(0x05);
    sbc_inner(&mut cpu, 0x03); // carry clear: one more is taken
    assert_eq!(cpu.a(), 0x01);
    assert!(cpu.get_flag(FLAG_CARRY));
}

#[test]
fn cmp_orders_unsigned() {
    let mut cpu = CpuRp2a03::new(0);
    cmp_inner(&mut cpu, 5, 3);
    assert!(cpu.get_flag(FLAG_CARRY));
    assert!(!cpu.get_flag(FLAG_ZERO));
    cmp_inner(&mut cpu, 3, 5);
    assert!(!cpu.get_flag(FLAG_CARRY));
    assert!(cpu.get_flag(FLAG_NEGATIVE));
    cmp_inner(&mut cpu, 7, 7);
    assert!(cpu.get_flag(FLAG_CARRY));
    assert!(cpu.get_flag(FLAG_ZERO));
}

#[test]
fn base_cycle_table_entries() {
    assert_eq!(base_cycles(0xA9), 2); // LDA #
    assert_eq!(base_cycles(0x00), 7); // BRK
    assert_eq!(base_cycles(0x20), 6); // JSR
    assert_eq!(base_cycles(0xFE), 7); // INC abs,X
    assert_eq!(base_cycles(0xB1), 5); // LDA (ind),Y
}

// ---- stack ----

#[test]
fn push_then_pull_returns_the_byte() {
    let (mut cpu, mut bus) = boot(&[]);
    cpu.set_st(0xFD);
    push(&mut cpu, &mut bus, 0x42);
    assert_eq!(cpu.st(), 0xFC);
    assert_eq!(bus.ram[0x1FD], 0x42);
    assert_eq!(pull(&mut cpu, &mut bus), 0x42);
    assert_eq!(cpu.st(), 0xFD);
}

#[test]
fn jsr_then_rts_resumes_after_the_call() {
    // $8000: JSR $8010 ; $8003: NOP ... $8010: RTS
    let mut code = vec![0xEAu8; 0x20];
    code[0] = 0x20;
    code[1] = 0x10;
    code[2] = 0x80;
    code[0x10] = 0x60;
    let (mut cpu, mut bus) = boot(&code);
    cpu.set_st(0xFD);
    let c1 = tick(&mut cpu, &mut bus);
    assert_eq!(c1, 6);
    assert_eq!(cpu.pc(), 0x8010);
    assert_eq!(cpu.st(), 0xFB);
    tick(&mut cpu, &mut bus);
    assert_eq!(cpu.pc(), 0x8003);
    assert_eq!(cpu.st(), 0xFD);
}

#[test]
fn brk_then_rti_restores_status_and_resumes() {
    // $8000: BRK (padding byte) ; handler at $9000: RTI
    let mut code = vec![0xEAu8; 0x1010];
    code[0] = 0x00;
    code[0x1000] = 0x40;
    let (mut cpu, mut bus) = boot(&code);
    cpu.set_st(0xFD);
    cpu.set_sr(0x01);
    tick(&mut cpu, &mut bus);
    assert_eq!(cpu.pc(), 0x9000);
    assert!(cpu.get_flag(FLAG_INTERRUPT));
    tick(&mut cpu, &mut bus);
    assert_eq!(cpu.pc(), 0x8002);
    assert_eq!(cpu.sr(), 0x11); // the pushed copy had B set
}

#[test]
fn taken_branch_across_a_page_costs_four_cycles() {
    // $80F0 holds BEQ -0x80 ... put the branch near a page end
    let mut code = vec![0xEAu8; 0x100];
    code[0] = 0x4C; // JMP $80FD
    code[1] = 0xFD;
    code[2] = 0x80;
    code[0xFD] = 0xF0; // BEQ +$10 from $80FF -> $810F
    code[0xFE] = 0x10;
    let (mut cpu, mut bus) = boot(&code);
    tick(&mut cpu, &mut bus);
    cpu.set_flag(FLAG_ZERO, true);
    let c = tick(&mut cpu, &mut bus);
    assert_eq!(cpu.pc(), 0x810F);
    assert_eq!(c, 4);
}

// ---- PPU ----

#[test]
fn nametable_write_reads_back_with_mirroring() {
    let mut ppu = Ppu::new();
    ppu.ppu_write_nt(0x2005, 0x77, 0);
    assert_eq!(ppu.ppu_read_nt(0x2005, 0), 0x77);
    assert_eq!(ppu.ppu_read_nt(0x2405, 0), 0x77); // horizontal mirroring
    assert_eq!(ppu.ppu_read_nt(0x3005, 0), 0x77); // $3000 repeats $2000
    ppu.ppu_write_nt(0x2806, 0x99, 1);
    assert_eq!(ppu.ppu_read_nt(0x2006, 1), 0x99); // vertical mirroring
    assert_eq!(ppu.ppu_read_nt(0x2406, 1), 0x00);
}

#[test]
fn sprite_backdrop_entries_mirror_background_ones() {
    let mut ppu = Ppu::new();
    ppu.ppu_write_nt(0x3F10, 0x21, 0);
    assert_eq!(ppu.ppu_read_nt(0x3F00, 0), 0x21);
    ppu.ppu_write_nt(0x3F04, 0x15, 0);
    assert_eq!(ppu.ppu_read_nt(0x3F14, 0), 0x15);
    assert_eq!(ppu.ppu_read_nt(0x3F24, 0), 0x15); // 32-entry repeat
}

#[test]
fn two_address_writes_load_v() {
    let mut ppu = Ppu::new();
    ppu.write_addr(0x21);
    ppu.write_addr(0x08);
    assert_eq!(ppu.v, 0x2108);
    assert_eq!(ppu.w, 0);
    ppu.write_addr(0xFF); // bit 14 and 15 are dropped
    ppu.write_addr(0x00);
    assert_eq!(ppu.v, 0x3F00);
}

#[test]
fn status_read_resets_the_write_toggle() {
    let mut ppu = Ppu::new();
    ppu.write_scroll(0x10);
    assert_eq!(ppu.w, 1);
    ppu.status = 0x80;
    let s = ppu.read_status();
    assert_eq!(s & 0x80, 0x80);
    assert_eq!(ppu.w, 0);
    assert_eq!(ppu.status & 0x80, 0);
}

#[test]
fn data_port_reads_are_buffered_below_the_palette() {
    let mut mapper = Mapper::from_ines(0, 0, &[0u8; 0x4000], &[], true);
    let mut ppu = Ppu::new();
    ppu.ppu_write_nt(0x2000, 0xAB, 0);
    ppu.ppu_write_nt(0x2001, 0xCD, 0);
    ppu.write_addr(0x20);
    ppu.write_addr(0x00);
    let first = ppu.read_data(&mut mapper);
    assert_eq!(first, 0x00); // the old buffer
    assert_eq!(ppu.read_data(&mut mapper), 0xAB);
    assert_eq!(ppu.read_data(&mut mapper), 0xCD);
    assert_eq!(ppu.v, 0x2003);
}

#[test]
fn vblank_sets_at_scanline_241_and_raises_nmi() {
    let mut mapper = Mapper::from_ines(0, 0, &[0u8; 0x4000], &[], true);
    let mut ppu = Ppu::new();
    ppu.write_ctrl(0x80);
    // Dot 1 of scanline 241 is dot index 241 * 341 + 1.
    for _ in 0..(241 * 341 + 1) {
        ppu.tick(&mut mapper);
    }
    assert_eq!(ppu.status & 0x80, 0);
    ppu.tick(&mut mapper);
    assert_eq!(ppu.status & 0x80, 0x80);
    assert!(ppu.nmi_latched);
    assert!(ppu.nmi_from_vblank);
}

#[test]
fn frame_has_89342_dots_without_rendering() {
    let mut mapper = Mapper::from_ines(0, 0, &[0u8; 0x4000], &[], true);
    let mut ppu = Ppu::new();
    ppu.tick_batch(60000, &mut mapper);
    ppu.tick_batch(29341, &mut mapper);
    assert!(!ppu.frame_complete);
    assert_eq!((ppu.scanline, ppu.cycle), (261, 340));
    ppu.tick(&mut mapper);
    assert!(ppu.frame_complete);
    assert_eq!((ppu.scanline, ppu.cycle), (0, 0));
}

#[test]
fn odd_frame_with_rendering_skips_a_dot() {
    let mut mapper = Mapper::from_ines(0, 0, &[0u8; 0x4000], &[], true);
    let mut ppu = Ppu::new();
    ppu.write_mask(0x08);
    assert!(ppu.odd_frame);
    ppu.tick_batch(60000, &mut mapper);
    ppu.tick_batch(29340, &mut mapper);
    assert!(!ppu.frame_complete);
    assert_eq!((ppu.scanline, ppu.cycle), (261, 339));
    ppu.tick(&mut mapper);
    assert!(ppu.frame_complete);
    assert_eq!((ppu.scanline, ppu.cycle), (0, 0));
}

// ---- APU ----

#[test]
fn length_counter_loads_and_status_reports_it() {
    let mut apu = Apu::new();
    apu.write(0x4015, 0x01); // enable pulse 1
    apu.write(0x4003, 0x08); // length index 1
    assert_eq!(apu.p1.length_counter, 254);
    assert_eq!(apu.read(0x4015) & 0x01, 0x01);
    apu.write(0x4015, 0x00); // disabling clears the counter
    assert_eq!(apu.p1.length_counter, 0);
    assert_eq!(apu.read(0x4015) & 0x01, 0x00);
}

#[test]
fn dmc_address_and_length_registers() {
    let mut apu = Apu::new();
    apu.write(0x4012, 0x10);
    assert_eq!(apu.dmc.sample_addr_load, 0xC400);
    apu.write(0x4013, 0x02);
    assert_eq!(apu.dmc.sample_len, 33);
    apu.write(0x4010, 0x0F);
    assert_eq!(apu.dmc.timer_load, 32);
}

#[test]
fn frame_counter_write_takes_effect_after_three_cycles() {
    let mut apu = Apu::new();
    apu.write(0x4017, 0xC0);
    assert!(!apu.frame_mode);
    apu.tick(2);
    assert!(!apu.frame_mode);
    apu.tick(1);
    assert!(apu.frame_mode);
    assert!(apu.interrupt_inhibit);
}

#[test]
fn status_read_acknowledges_the_frame_irq() {
    let mut apu = Apu::new();
    apu.frame_irq = true;
    assert_eq!(apu.read(0x4015) & 0x40, 0x40);
    assert!(!apu.frame_irq);
    assert_eq!(apu.read(0x4015) & 0x40, 0x00);
}

// ---- frames ----

#[test]
fn frame_diff_finds_the_first_difference() {
    let a = [0u8; 61440];
    let mut b = [0u8; 61440];
    assert_eq!(frame_diff(&a, &b), None);
    b[300] = 1;
    b[70] = 2;
    b[61439] = 3;
    assert_eq!(frame_diff(&a, &b), Some((70, 0)));
    b[70] = 0;
    assert_eq!(frame_diff(&a, &b), Some((44, 1)));
}

#[test]
fn ppu_registers_repeat_every_eight_bytes() {
    let (_, mut bus) = boot(&[]);
    // $3FFE and $200E are both $2006; $3FFF is $2007.
    bus.write(0x3FFE, 0x21);
    bus.write(0x200E, 0x08);
    assert_eq!(bus.ppu.v, 0x2108);
    bus.write(0x3FFF, 0x77);
    assert_eq!(bus.ppu.v, 0x2109);
    bus.write(0x2006, 0x21);
    bus.write(0x2006, 0x08);
    let _ = bus.read(0x2FFF); // $2007: fills the read buffer
    assert_eq!(bus.read(0x2007), 0x77);
}

#[test]
fn controller_port_reads_keep_the_data_bus_high_bits() {
    let (_, mut bus) = boot(&[]);
    bus.pad1.a = true;
    bus.write(0x4016, 1);
    bus.write(0x4016, 0);
    bus.write(0x0000, 0xA4); // drives $A4 onto the data bus
    let v = bus.read(0x4016);
    assert_eq!(v, 0xA4 | 0x01);
    let v2 = bus.read(0x4016); // B: not pressed
    assert_eq!(v2, 0xA4 & 0xFE);
}

#[test]
fn nrom_16k_image_appears_twice() {
    let mut prg = vec![0u8; 0x4000];
    prg[0x0123] = 0x5A;
    let mut m = Mapper::from_ines(0, 0, &prg, &[], true);
    assert_eq!(m.cpu_read(0x8123), 0x5A);
    assert_eq!(m.cpu_read(0xC123), 0x5A);
}

#[test]
fn ppu_catches_up_three_dots_per_cpu_cycle() {
    let (_, mut bus) = boot(&[]);
    let t0 = bus.ppu.tick_count;
    let c0 = bus.cpu_cycle;
    let _ = bus.read(0x0000);
    let _ = bus.read(0x0001);
    assert_eq!(bus.ppu.tick_count - t0, 3 * (bus.cpu_cycle - c0));
}

#[test]
fn nmi_then_rti_resumes_the_interrupted_program() {
    // Handler at $9000: RTI.
    let mut code = vec![0xEAu8; 0x1010];
    code[0x1000] = 0x40;
    let (mut cpu, mut bus) = boot(&code);
    cpu.set_st(0xFD);
    cpu.set_sr(0x03);
    nmi(&mut cpu, &mut bus);
    assert_eq!(cpu.pc(), 0x9000);
    assert_eq!(cpu.st(), 0xFA);
    assert!(cpu.get_flag(FLAG_INTERRUPT));
    assert_eq!(bus.ram[0x1FD], 0x80);
    assert_eq!(bus.ram[0x1FC], 0x00);
    assert_eq!(bus.ram[0x1FB], 0x23); // B clear, bit 5 set
    tick(&mut cpu, &mut bus);
    assert_eq!(cpu.pc(), 0x8000);
    assert_eq!(cpu.sr(), 0x23);
    assert_eq!(cpu.st(), 0xFD);
}

#[test]
fn irq_pushes_status_without_break() {
    let (mut cpu, mut bus) = boot(&[]);
    cpu.set_st(0xFF);
    cpu.set_sr(0x10);
    irq(&mut cpu, &mut bus);
    assert_eq!(cpu.pc(), 0x9000);
    assert_eq!(bus.ram[0x1FD], 0x20);
    assert_eq!(cpu.st(), 0xFC);
}

#[test]
fn enabling_nmi_during_vblank_latches_it() {
    let mut ppu = Ppu::new();
    ppu.status = 0x80;
    ppu.nmi_output = false; // VBlank set with NMI disabled: the line is low
    ppu.write_ctrl(0x80);
    assert!(ppu.nmi_latched);
    assert!(ppu.nmi_output);
}

#[test]
fn store_then_load_reads_back() {
    // LDA #$42; STA $10; LDA #$00; LDA $10; INC $10; LDX $10; STA $0811; LDY $11
    let code = [
        0xA9, 0x42, 0x85, 0x10, 0xA9, 0x00, 0xA5, 0x10, 0xE6, 0x10, 0xA6, 0x10, 0x8D, 0x11, 0x08, 0xA4, 0x11,
    ];
    let (mut cpu, mut bus) = boot(&code);
    for _ in 0..4 {
        tick(&mut cpu, &mut bus);
    }
    assert_eq!(bus.ram[0x10], 0x42);
    assert_eq!(cpu.a(), 0x42);
    tick(&mut cpu, &mut bus);
    assert_eq!(bus.ram[0x10], 0x43);
    tick(&mut cpu, &mut bus);
    assert_eq!(cpu.x(), 0x43);
    tick(&mut cpu, &mut bus);
    tick(&mut cpu, &mut bus);
    assert_eq!(bus.ram[0x11], 0x42);
    assert_eq!(cpu.y(), 0x42);
}

#[test]
fn tick_batch_equals_single_ticks() {
    let chr: Vec<u8> = (0..0x2000usize).map(|i| i as u8).collect();
    let prg = vec![0u8; 0x8000];
    let setup = |m: &mut Mapper| {
        m.cpu_write(0xC000, 0);
        m.cpu_write(0xC001, 0);
        m.cpu_write(0xE001, 0);
    };
    let mut m1 = Mapper::from_ines(4, 0, &prg, &chr, false);
    let mut m2 = Mapper::from_ines(4, 0, &prg, &chr, false);
    setup(&mut m1);
    setup(&mut m2);
    let mut p1 = Ppu::new();
    let mut p2 = Ppu::new();
    for p in [&mut p1, &mut p2] {
        p.ctrl = 0x08;
        p.mask = 0x18;
        p.oam[0] = 20;
        p.oam[1] = 3;
    }
    p1.tick_batch(30000, &mut m1);
    for _ in 0..30000 {
        p2.tick(&mut m2);
    }
    assert_eq!(p1.tick_count, p2.tick_count);
    assert_eq!((p1.scanline, p1.cycle), (p2.scanline, p2.cycle));
    assert_eq!(p1.status, p2.status);
    assert_eq!((p1.v, p1.t), (p2.v, p2.t));
    assert_eq!((p1.prev_a12, p1.a12_low_cycles), (p2.prev_a12, p2.a12_low_cycles));
    assert_eq!((p1.sprite_count, p1.sprite_indices), (p2.sprite_count, p2.sprite_indices));
    assert!(p1.frame == p2.frame);
    assert_eq!(m1.irq_pending(), m2.irq_pending());
    assert!(m1.irq_pending());
}

#[test]
fn uxrom_write_on_short_prg_keeps_bank_zero() {
    let mut m = Mapper::from_ines(2, 0, &[7u8; 0x2000], &[], true);
    m.cpu_write(0x8000, 3);
    assert_eq!(m.ppu_read(0x0000), 0);
    m.ack_irq();
    m.clock_scanline();
    assert!(!m.irq_pending());
}
