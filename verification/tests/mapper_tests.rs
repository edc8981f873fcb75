use nes::mapper::{Mapper, MapperImpl, Mmc3};

#[test]
fn nrom_read_write() {
    let prg = vec![0xABu8; 0x4000];
    let mut m = Mapper::from_ines(0, 0, &prg, &[], true);
    assert_eq!(m.cpu_read(0x8000), 0xAB);
    assert_eq!(m.cpu_read(0xC000), 0xAB);
}

#[test]
fn uxrom_bank_switch() {
    let mut prg = vec![0u8; 0x8000];
    prg[0] = 0xAA; // first bank
    prg[0x4000] = 0xBB; // second bank
    let mut m = Mapper::from_ines(2, 0, &prg, &[], true);
    // default bank 0
    assert_eq!(m.cpu_read(0x8000), 0xAA);
    assert_eq!(m.cpu_read(0xC000), 0xBB);
    // switch to bank 1
    m.cpu_write(0x8000, 1);
    assert_eq!(m.cpu_read(0x8000), 0xBB);
    assert_eq!(m.cpu_read(0xC000), 0xBB); // last bank fixed
}

#[test]
fn cnrom_chr_banking() {
    let mut chr = vec![0u8; 0x8000];
    chr[0] = 0x11;
    chr[0x2000] = 0x22;
    let mut m = Mapper::from_ines(3, 0, &[0; 0x4000], &chr, false);
    assert_eq!(m.ppu_read(0x0000), 0x11);
    m.cpu_write(0x8000, 1);
    assert_eq!(m.ppu_read(0x0000), 0x22);
}

#[test]
fn mmc1_bank_switch() {
    let mut prg = vec![0u8; 0x8000];
    prg[0] = 0x11;
    prg[0x4000] = 0x22;
    let mut m = Mapper::from_ines(1, 0, &prg, &[], true);
    // MMC1 starts in 32KB mode with bank 0: $8000 is the first byte.
    assert_eq!(m.cpu_read(0x8000), 0x11);
}

#[test]
fn mmc3_bank_switch() {
    let mut prg = vec![0u8; 0x10000]; // 8 x 8KB banks
    prg[0] = 0xA1; // bank 0
    prg[0x2000] = 0xA2; // bank 1
    prg[0xE000] = 0xBB; // last 8KB bank
    prg[0xFE00] = 0xCC; // near end of last bank
    let mut m = Mapper::from_ines(4, 0, &prg, &[], true);

    // $E000-$FFFF is always the last bank
    assert_eq!(m.cpu_read(0xE000), 0xBB);
    assert_eq!(m.cpu_read(0xFE00), 0xCC);

    // Switch PRG bank at $A000-$BFFF (R4) via $8001 mode 6
    m.cpu_write(0x8000, 0x06); // select PRG bank index 6
    m.cpu_write(0x8001, 0x01); // set PRG bank to 1 (0x2000)
    assert_eq!(m.cpu_read(0xA000), 0xA2);
}

#[test]
fn mmc3_irq() {
    // Direct Mmc3 access (not through the Mapper enum)
    let prg = vec![0u8; 0x8000];
    let mut inner = Mmc3::new(&prg, &[], true, 0);

    assert!(!inner.irq_pending());
    println!("Write $C000=3");
    inner.cpu_write(0xC000, 3); // latch = 3
    println!("Write $C001=0");
    inner.cpu_write(0xC001, 0); // reload
    println!("Write $E000=0");
    inner.cpu_write(0xE000, 0); // ack
    println!("Write $E001=0");
    inner.cpu_write(0xE001, 0); // enable

    println!(
        "pre: counter={}, enabled={}, reload={}, flag={} (addr 0xE001)",
        inner.irq_counter, inner.irq_enabled, inner.irq_reload, inner.irq_flag
    );
    println!("running cpu_write 0xE001 directly...");
    inner.irq_enabled = true;
    if inner.irq_reload {
        inner.irq_counter = inner.irq_latch;
        inner.irq_reload = false;
    }
    println!("manual handler: counter={}, reload={}", inner.irq_counter, inner.irq_reload);

    inner.ack_irq();
    assert!(!inner.irq_pending());
}

#[test]
fn axrom_bank_switch() {
    let mut prg = vec![0u8; 0x10000];
    prg[0] = 0x77;
    prg[0x8000] = 0x88;
    let mut m = Mapper::from_ines(7, 0, &prg, &[], true);
    // bank 0
    assert_eq!(m.cpu_read(0x8000), 0x77);
    // switch to bank 1
    m.cpu_write(0x8000, 1);
    assert_eq!(m.cpu_read(0x8000), 0x88);
}

#[test]
fn gxrom_bank_switch() {
    let mut prg = vec![0u8; 0x10000];
    prg[0] = 0x11;
    prg[0x8000] = 0x22;
    let mut m = Mapper::from_ines(66, 0, &prg, &[], true);
    assert_eq!(m.cpu_read(0x8000), 0x11);
    m.cpu_write(0x8000, 0x10); // PRG bank 1, CHR bank 0
    assert_eq!(m.cpu_read(0x8000), 0x22);
}

// ---- further board behaviour ----

#[test]
fn mmc3_scanline_irq_fires_after_latch_clocks() {
    let prg = vec![0u8; 0x8000];
    let mut m = Mapper::from_ines(4, 0, &prg, &[], true);
    m.cpu_write(0xC000, 2); // latch = 2
    m.cpu_write(0xC001, 0); // request a reload
    m.cpu_write(0xE001, 0); // enable IRQs; the pending reload loads counter := 2
    m.clock_scanline(); // 1
    assert!(!m.irq_pending());
    m.clock_scanline(); // 0: IRQ
    assert!(m.irq_pending());
    m.ack_irq();
    assert!(!m.irq_pending());
}

#[test]
fn chr_ram_is_writable_and_rom_is_not() {
    let prg = vec![0u8; 0x4000];
    let mut ram_board = Mapper::from_ines(0, 0, &prg, &[], true);
    ram_board.ppu_write(0x0123, 0x5A);
    assert_eq!(ram_board.ppu_read(0x0123), 0x5A);
    assert!(ram_board.has_chr_ram());

    let chr = vec![0x77u8; 0x2000];
    let mut rom_board = Mapper::from_ines(0, 0, &prg, &chr, false);
    rom_board.ppu_write(0x0123, 0x5A);
    assert_eq!(rom_board.ppu_read(0x0123), 0x77);
    assert!(!rom_board.has_chr_ram());
}

#[test]
fn unknown_mapper_number_falls_back_to_nrom() {
    let prg = vec![0x3Cu8; 0x4000];
    let mut m = Mapper::from_ines(200, 1, &prg, &[], true);
    assert_eq!(m.cpu_read(0x8000), 0x3C);
    assert_eq!(m.cpu_read(0xFFFF), 0x3C);
    assert_eq!(m.mirroring(), 1);
    assert_eq!(m.nt_mapping(), 0xFF);
}

#[test]
fn mmc3_fixes_second_to_last_bank_at_c000() {
    let mut prg = vec![0u8; 0x10000];
    prg[0xC000] = 0x66;
    prg[0xE000] = 0x77;
    let mut m = Mapper::from_ines(4, 0, &prg, &[], true);
    assert_eq!(m.cpu_read(0xC000), 0x66);
    assert_eq!(m.cpu_read(0xE000), 0x77);
    // PRG mode 1 moves the fixed bank to $8000.
    m.cpu_write(0x8000, 0x40);
    assert_eq!(m.cpu_read(0x8000), 0x66);
}

#[test]
fn mmc3_chr_1k_banks_r2_to_r5_at_1000() {
    let chr: Vec<u8> = (0..0x2000usize).map(|i| (i / 0x400) as u8).collect();
    let mut m = Mapper::from_ines(4, 0, &[0u8; 0x8000], &chr, false);
    m.cpu_write(0x8000, 2);
    m.cpu_write(0x8001, 5);
    assert_eq!(m.ppu_read(0x1000), 5);
    m.cpu_write(0x8000, 5);
    m.cpu_write(0x8001, 3);
    assert_eq!(m.ppu_read(0x1C00), 3);
    // R1 (2 KiB) at $0800.
    m.cpu_write(0x8000, 1);
    m.cpu_write(0x8001, 6);
    assert_eq!(m.ppu_read(0x0800), 6);
    assert_eq!(m.ppu_read(0x0C00), 7);
}

#[test]
fn fixed_boards_keep_their_mirroring() {
    let prg = vec![0u8; 0x8000];
    for id in [0u8, 2, 3, 66] {
        let mut m = Mapper::from_ines(id, 1, &prg, &[], true);
        m.cpu_write(0x8000, 0xFF);
        m.ppu_write(0x0000, 0xFF);
        assert_eq!(m.mirroring(), 1);
    }
}

#[test]
fn cnrom_with_short_chr_still_reads_prg() {
    let mut prg = vec![0u8; 0x8000];
    prg[0x1234] = 0x42;
    let mut m = Mapper::from_ines(3, 0, &prg, &[1u8; 0x100], false);
    assert_eq!(m.cpu_read(0x9234), 0x42);
    m.cpu_write(0x8000, 0x01);
    assert_eq!(m.cpu_read(0x9234), 0x42);
}
