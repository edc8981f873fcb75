use nes::rom::Rom;

fn fake_header(prg_banks: u8, chr_banks: u8, flags6: u8, flags7: u8) -> Vec<u8> {
    let mut h = vec![0x4E, 0x45, 0x53, 0x1A, prg_banks, chr_banks, flags6, flags7];
    h.resize(16, 0);
    h
}

#[test]
fn invalid_header_rejected() {
    assert!(Rom::new(b"").is_none());
    assert!(Rom::new(b"NOPE").is_none());
    assert!(Rom::new(&[0; 16]).is_none());
    let mut valid = vec![0x4E, 0x45, 0x53, 0x1A, 1, 0, 0, 0];
    valid.resize(16, 0);
    valid.extend(&[0xAB; 0x4000]);
    assert!(Rom::new(&valid).is_some());
}

#[test]
fn nrom_16kb_prg_no_chr() {
    let prg = vec![0xABu8; 0x4000];
    let mut data = fake_header(1, 0, 0x00, 0x00);
    data.extend(&prg);
    let rom = Rom::new(&data).unwrap();
    assert_eq!(rom.mapper_id, 0);
    assert_eq!(rom.mirroring, 0);
    assert!(rom.has_chr_ram);
    assert_eq!(rom.prg.len(), 0x4000);
}

#[test]
fn nrom_16kb_prg_with_chr() {
    let prg = vec![0xCDu8; 0x4000];
    let chr = vec![0xEFu8; 0x2000];
    let mut data = fake_header(1, 1, 0x00, 0x00);
    data.extend(&prg);
    data.extend(&chr);
    let rom = Rom::new(&data).unwrap();
    assert_eq!(rom.mapper_id, 0);
    assert!(!rom.has_chr_ram);
    assert_eq!(rom.chr[0], 0xEF);
    assert_eq!(rom.chr[0x1FFF], 0xEF);
}

#[test]
fn nrom_32kb_prg() {
    let prg = vec![0x42u8; 0x8000];
    let mut data = fake_header(2, 0, 0x00, 0x00);
    data.extend(&prg);
    let rom = Rom::new(&data).unwrap();
    assert_eq!(rom.prg.len(), 0x8000);
    assert!(rom.has_chr_ram);
}

#[test]
fn mapper_detected() {
    let data = fake_header(1, 0, 0x50, 0x10);
    let rom = Rom::new(&data).unwrap();
    assert_eq!(rom.mapper_id, 0x15);
}

#[test]
fn mirroring_detected() {
    let h = fake_header(1, 0, 0x01, 0x00);
    assert_eq!(Rom::new(&h).unwrap().mirroring, 1);
    let v = fake_header(1, 0, 0x00, 0x00);
    assert_eq!(Rom::new(&v).unwrap().mirroring, 0);
}

#[test]
fn trainer_handled() {
    let prg = vec![0xFFu8; 0x4000];
    let mut data = fake_header(1, 0, 0x04, 0x00);
    data.extend(&[0xAA; 512]);
    data.extend(&prg);
    let rom = Rom::new(&data).unwrap();
    assert_eq!(rom.prg[0], 0xFF);
    assert!(rom.has_chr_ram);
}

#[test]
fn create_mapper_nrom() {
    let prg = vec![0xABu8; 0x4000];
    let mut data = fake_header(1, 0, 0x00, 0x00);
    data.extend(&prg);
    let rom = Rom::new(&data).unwrap();
    let mut mapper = rom.create_mapper();
    assert_eq!(mapper.cpu_read(0x8000), 0xAB);
    assert_eq!(mapper.cpu_read(0xC000), 0xAB);
}

#[test]
fn create_mapper_mmc3() {
    let prg = vec![0xABu8; 0x8000];
    let mut data = fake_header(2, 0, 0x00, 0x00);
    data.extend(&prg);
    let rom = Rom::new(&data).unwrap();
    let mut mapper = rom.create_mapper();
    // $E000 should read from last 8KB bank
    assert_eq!(mapper.cpu_read(0xE000), 0xAB);
}

#[test]
fn create_mapper_uxrom() {
    let prg = vec![0xAAu8; 0x8000];
    let mut data = fake_header(2, 0, 0x00, 0x00);
    data.extend(&prg);
    let rom = Rom::new(&data).unwrap();
    let mut mapper = rom.create_mapper();
    // UxROM: $8000 = bank 0 (switchable), $C000 = last bank (fixed)
    assert_eq!(mapper.cpu_read(0x8000), 0xAA);
    // Write to switch to bank 1
    mapper.cpu_write(0x8000, 1);
    assert_eq!(mapper.cpu_read(0x8000), 0xAA); // both banks same data
}

// ---- sizes the header declares but the image lacks ----

#[test]
fn truncated_prg_keeps_what_is_there() {
    let mut data = fake_header(2, 0, 0x00, 0x00);
    data.extend(&[0x11u8; 0x1000]);
    assert!(Rom::sections_fit(&data));
    let rom = Rom::new(&data).unwrap();
    assert_eq!(rom.prg.len(), 0x1000);
}

#[test]
fn sections_fit_reports_missing_trainer_and_chr() {
    // Trainer flag but only a header: the PRG would start past the end.
    let data = fake_header(1, 0, 0x04, 0x00);
    assert!(!Rom::sections_fit(&data));
    // CHR declared but the image stops inside the PRG data.
    let mut data = fake_header(1, 1, 0x00, 0x00);
    data.extend(&[0u8; 0x100]);
    assert!(!Rom::sections_fit(&data));
    // No header at all: nothing to check.
    assert!(Rom::sections_fit(b"NOPE"));
}

#[test]
fn board_supported_checks_rom_sizes() {
    let mut uxrom = fake_header(0, 0, 0x20, 0x00);
    uxrom.extend(&[0u8; 0x10]);
    let rom = Rom::new(&uxrom).unwrap();
    assert_eq!(rom.mapper_id, 2);
    assert!(!rom.board_supported());

    let mut nrom = fake_header(1, 0, 0x00, 0x00);
    nrom.extend(&[0u8; 0x4000]);
    assert!(Rom::new(&nrom).unwrap().board_supported());
}

#[test]
fn create_mapper_answers_like_from_ines() {
    let prg: Vec<u8> = (0..0x10000usize).map(|i| (i >> 8) as u8).collect();
    let mut data = fake_header(4, 0, 0x40, 0x00);
    data.extend(&prg);
    let rom = Rom::new(&data).unwrap();
    let mut a = rom.create_mapper();
    let mut b = nes::mapper::Mapper::from_ines(rom.mapper_id, rom.mirroring, &rom.prg, &rom.chr, rom.has_chr_ram);
    let writes = [(0x8000u16, 0x06u8), (0x8001, 0x03), (0xA000, 0x01), (0x0100, 0x5A)];
    for (addr, val) in writes {
        if addr >= 0x2000 {
            a.cpu_write(addr, val);
            b.cpu_write(addr, val);
        } else {
            a.ppu_write(addr, val);
            b.ppu_write(addr, val);
        }
        for probe in [0x8000u16, 0xA000, 0xC000, 0xE000] {
            assert_eq!(a.cpu_read(probe), b.cpu_read(probe));
        }
        assert_eq!(a.ppu_read(0x0100), b.ppu_read(0x0100));
        assert_eq!(a.mirroring(), b.mirroring());
    }
    assert_eq!(a.cpu_read(0xA000), 0x60);
    assert_eq!(a.ppu_read(0x0100), 0x5A);
}
