use nes::debug::{diagnostics, palette_all_black, pixel_info};
use nes::ppu::Ppu;

#[test]
fn diagnostics_of_a_blank_ppu() {
    let ppu = Ppu::new();
    let d = diagnostics(&ppu);
    assert!(!d.background_enabled);
    assert!(!d.sprites_enabled);
    assert!(!d.palette_loaded);
    assert_eq!(d.nonzero_tiles, 0);
    assert_eq!(d.frame, 0);
}

#[test]
fn diagnostics_count_tiles_sprites_and_frames() {
    let mut ppu = Ppu::new();
    ppu.mask = 0x18;
    ppu.palette[3] = 0x21;
    ppu.vram[0] = 1;
    ppu.vram[0x7FF] = 2;
    ppu.vram[0x800] = 3; // beyond the first 2 KiB: not counted
    for i in 0..64 {
        ppu.oam[i * 4] = 0xFF;
    }
    ppu.oam[0] = 0x10;
    ppu.oam[8] = 0xEE;
    ppu.oam[12] = 0xEF; // not above $EF
    ppu.tick_count = 89342 * 3 + 7;
    let d = diagnostics(&ppu);
    assert!(d.background_enabled);
    assert!(d.sprites_enabled);
    assert!(d.palette_loaded);
    assert_eq!(d.nonzero_tiles, 2);
    assert_eq!(d.visible_sprites, 2);
    assert_eq!(d.frame, 3);
}

#[test]
fn black_palette_detection() {
    let mut ppu = Ppu::new();
    for i in 0..8 {
        ppu.palette[i] = 0x0F;
    }
    assert!(palette_all_black(&ppu));
    assert!(!diagnostics(&ppu).palette_loaded);
    ppu.palette[7] = 0x30;
    assert!(!palette_all_black(&ppu));
    assert!(diagnostics(&ppu).palette_loaded);
}

#[test]
fn pixel_info_without_scroll() {
    let mut ppu = Ppu::new();
    ppu.render_v = 0;
    ppu.render_fine_x = 0;
    // Pixel (20, 35): tile (2, 4) of nametable 0.
    ppu.frame[35 * 256 + 20] = 0x07;
    ppu.vram[4 * 32 + 2] = 0x42;
    // Attribute byte for tiles (0-3, 4-7): entry (tile_y / 4) * 8 + tile_x / 4 = 8.
    // Tile (2, 4) is in the top-right quadrant of its 4x4 block: bits 2-3.
    ppu.vram[0x3C0 + 8] = 0b0000_1100;
    ppu.palette[3 * 4 + 3] = 0x2A;
    let info = pixel_info(&ppu, 20, 35);
    assert_eq!(info.color_index, 0x07);
    assert_eq!((info.world_x, info.world_y), (20, 35));
    assert_eq!(info.nametable, 0);
    assert_eq!((info.tile_x, info.tile_y), (2, 4));
    assert_eq!(info.nt_addr, 0x2000 + 4 * 32 + 2);
    assert_eq!(info.tile_index, 0x42);
    assert_eq!(info.attr_addr, 0x23C8);
    assert_eq!(info.attr, 0b0000_1100);
    assert_eq!(info.palette_group, 3);
    assert_eq!(info.palette_color, 0x2A);
}

#[test]
fn pixel_info_scrolls_into_the_next_nametable() {
    let mut ppu = Ppu::new();
    // Coarse X 31, fine X 7: column 10 lands 256 + 9 pixels in, in nametable 1.
    ppu.render_v = 31;
    ppu.render_fine_x = 7;
    ppu.vram[0x400 + 1] = 0x99;
    let info = pixel_info(&ppu, 10, 0);
    assert_eq!(info.world_x, 248 + 7 + 10);
    assert_eq!(info.nametable, 1);
    assert_eq!(info.tile_x, 1);
    assert_eq!(info.tile_index, 0x99);
    assert_eq!(info.nt_addr, 0x2401);
}
