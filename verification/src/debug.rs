use vstd::prelude::*;

use crate::ppu::Ppu;

verus! {

/// Pixels per frame row.
pub const FRAME_WIDTH: usize = 256;

/// Pixels in a frame (256 x 240).
pub const FRAME_PIXELS: usize = 61440;

/// Compares two frames pixel by pixel: the (x, y) of the first pixel, in row-major
/// order, where they differ, or `None` when they are equal.
pub fn frame_diff(a: &[u8; 61440], b: &[u8; 61440]) -> (r: Option<(u16, u16)>)
    ensures
        r is None <==> a@ == b@,
        r matches Some(p) ==> {
            let i = p.1 * 256 + p.0;
            &&& p.0 < 256 && p.1 < 240
            &&& a@[i] != b@[i]
            &&& forall|j: int| 0 <= j < i ==> a@[j] == b@[j]
        },
{
    let mut i: usize = 0;
    while i < FRAME_PIXELS
        invariant
            0 <= i <= 61440,
            a@.len() == 61440,
            b@.len() == 61440,
            forall|j: int| 0 <= j < i ==> a@[j] == b@[j],
        decreases 61440 - i,
    {
        if a[i] != b[i] {
            let x = (i % FRAME_WIDTH) as u16;
            let y = (i / FRAME_WIDTH) as u16;
            assert(y * 256 + x == i);
            return Some((x, y));
        }
        i = i + 1;
    }
    assert(a@ =~= b@);
    None
}

/// What the background renderer used for one pixel of the last frame, as seen
/// from the current scroll snapshot.
pub struct PixelInfo {
    /// Palette index stored in the frame at the pixel.
    pub color_index: u8,
    pub world_x: u16,
    pub world_y: u16,
    /// Nametable (0-3) after scrolling across table edges.
    pub nametable: u16,
    pub tile_x: u16,
    pub tile_y: u16,
    pub nt_addr: u16,
    pub tile_index: u8,
    pub attr_addr: u16,
    pub attr: u8,
    pub palette_group: u8,
    /// Background palette entry for the group and the pixel's low two bits.
    pub palette_color: u8,
}

/// Scrolled X coordinate of screen column `x`.
pub open spec fn world_x_of(ppu: Ppu, x: u16) -> u16 {
    (((ppu.render_v & 0x1F) << 3u16) + ppu.render_fine_x + x) as u16
}

/// Scrolled Y coordinate of screen row `y`.
pub open spec fn world_y_of(ppu: Ppu, y: u16) -> u16 {
    ((((ppu.render_v >> 5u16) & 0x1F) << 3u16) + ((ppu.render_v >> 12u16) & 7) + y) as u16
}

/// The nametable the scrolled position falls in: the snapshot's table, flipped
/// horizontally past X 256 and vertically on odd 30-row bands.
pub open spec fn nametable_at(ppu: Ppu, wx: u16, wy: u16) -> u16 {
    let nt = (ppu.render_v >> 10u16) & 3;
    let h = if (wx >> 8u16) & 1 != 0 { nt ^ 1 } else { nt };
    if ((wy >> 3u16) / 30) & 1 != 0 { h ^ 2 } else { h }
}

/// Everything `pixel_info` reports for screen pixel (`x`, `y`).
pub open spec fn spec_pixel_info(ppu: Ppu, x: u16, y: u16) -> PixelInfo {
    let wx = world_x_of(ppu, x);
    let wy = world_y_of(ppu, y);
    let nt = nametable_at(ppu, wx, wy);
    let tx = (wx >> 3u16) & 31;
    let ty = ((wy >> 3u16) % 30) & 31;
    let base: int = if nt & 1 != 0 { 0x400 } else { 0 };
    let attr = ppu.vram[base + 0x3C0 + (ty / 4) * 8 + tx / 4];
    let shift = (((tx >> 1u16) & 1) << 1u16) | (((ty >> 1u16) & 1) << 2u16);
    let group = (attr >> shift) & 3;
    let ci = ppu.frame[y * 256 + x];
    PixelInfo {
        color_index: ci,
        world_x: wx,
        world_y: wy,
        nametable: nt,
        tile_x: tx,
        tile_y: ty,
        nt_addr: 0x2000u16 | (nt << 10u16) | (ty << 5u16) | tx,
        tile_index: ppu.vram[base + ty * 32 + tx],
        attr_addr: 0x2000u16 | (nt << 10u16) | 0x03C0u16 | ((ty / 4) << 3u16) | (tx / 4),
        attr,
        palette_group: group,
        palette_color: ppu.palette[group * 4 + (ci & 3)],
    }
}

/// Looks up the tile, attribute and palette behind screen pixel (`x`, `y`) of the
/// last frame. Nametable memory is read directly, tables 0 and 2 sharing the first
/// kilobyte and tables 1 and 3 the second.
pub fn pixel_info(ppu: &Ppu, x: u16, y: u16) -> (r: PixelInfo)
    requires
        y * 256 + x < 61440,
    ensures
        r == spec_pixel_info(*ppu, x, y),
{
    let color_index = ppu.frame[(y as usize) * 256 + (x as usize)];
    let render_v = ppu.render_v;
    proof {
        crate::bits::lemma_word_bits(render_v);
    }
    let coarse_x = render_v & 0x001F;
    let coarse_y = (render_v >> 5) & 0x001F;
    let fine_y = (render_v >> 12) & 0x0007;
    let nt = (render_v >> 10) & 0x0003;
    let world_x = (coarse_x << 3) + ppu.render_fine_x as u16 + x;
    let world_y = (coarse_y << 3) + fine_y + y;
    let mut actual_nt = nt;
    if (world_x >> 8) & 1 != 0 {
        actual_nt = actual_nt ^ 1;
    }
    if ((world_y >> 3) / 30) & 1 != 0 {
        actual_nt = actual_nt ^ 2;
    }
    let tile_x = (world_x >> 3) & 31;
    let tile_y = ((world_y >> 3) % 30) & 31;
    proof {
        crate::bits::lemma_word_bits(world_x >> 3u16);
        crate::bits::lemma_word_bits((world_y >> 3u16) % 30);
        crate::bits::lemma_attr_shift(tile_x, tile_y);
        crate::bits::lemma_byte_bits(color_index);
    }
    let nt_addr = 0x2000 | (actual_nt << 10) | (tile_y << 5) | tile_x;
    let vram_base: usize = if actual_nt & 1 != 0 { 0x400 } else { 0 };
    let tile_index = ppu.vram[vram_base + (tile_y as usize * 32 + tile_x as usize)];
    let attr_addr = 0x2000 | (actual_nt << 10) | 0x03C0 | ((tile_y / 4) << 3) | (tile_x / 4);
    let attr = ppu.vram[vram_base + 0x3C0 + ((tile_y as usize / 4) * 8 + tile_x as usize / 4)];
    let pal_shift = (((tile_x >> 1) & 1) << 1) | (((tile_y >> 1) & 1) << 2);
    proof {
        crate::bits::lemma_byte_bits(attr >> pal_shift);
    }
    let palette_group = (attr >> pal_shift) & 3;
    let palette_color = ppu.palette[(palette_group as usize) * 4 + (color_index as usize & 3)];
    PixelInfo {
        color_index,
        world_x,
        world_y,
        nametable: actual_nt,
        tile_x,
        tile_y,
        nt_addr,
        tile_index,
        attr_addr,
        attr,
        palette_group,
        palette_color,
    }
}

/// A one-look summary of what the PPU is set up to draw.
pub struct Diagnostics {
    pub background_enabled: bool,
    pub sprites_enabled: bool,
    /// Some entry of the first two background palettes is neither $0F nor $00.
    pub palette_loaded: bool,
    /// Non-zero bytes in the first 2 KiB of nametable memory.
    pub nonzero_tiles: u32,
    /// OAM entries whose Y lies above $EF.
    pub visible_sprites: u32,
    /// Whole frames of PPU dots run so far.
    pub frame: u64,
}

/// Non-zero bytes among the first `n` of `s`.
pub open spec fn nonzero_count(s: Seq<u8>, n: nat) -> nat
    decreases n,
{
    if n == 0 {
        0
    } else {
        nonzero_count(s, (n - 1) as nat) + if s[n - 1] != 0 { 1nat } else { 0nat }
    }
}

/// OAM entries among the first `n` whose Y byte is below $EF.
pub open spec fn visible_sprite_count(oam: Seq<u8>, n: nat) -> nat
    decreases n,
{
    if n == 0 {
        0
    } else {
        visible_sprite_count(oam, (n - 1) as nat) + if oam[4 * (n - 1)] < 0xEF { 1nat } else { 0nat }
    }
}

proof fn lemma_nonzero_count_le(s: Seq<u8>, n: nat)
    ensures
        nonzero_count(s, n) <= n,
    decreases n,
{
    if n > 0 {
        lemma_nonzero_count_le(s, (n - 1) as nat);
    }
}

proof fn lemma_visible_sprite_count_le(oam: Seq<u8>, n: nat)
    ensures
        visible_sprite_count(oam, n) <= n,
    decreases n,
{
    if n > 0 {
        lemma_visible_sprite_count_le(oam, (n - 1) as nat);
    }
}

/// Whether some entry of the first two background palettes is loaded (not $0F or $00).
pub open spec fn palette_loaded(palette: Seq<u8>) -> bool {
    exists|i: int| 0 <= i < 8 && palette[i] != 0x0F && palette[i] != 0
}

/// Checks the common reasons for a blank screen: rendering switched off, an unloaded
/// palette, empty nametables, no sprites on screen.
pub fn diagnostics(ppu: &Ppu) -> (r: Diagnostics)
    ensures
        r.background_enabled == (ppu.mask & 0x08 != 0),
        r.sprites_enabled == (ppu.mask & 0x10 != 0),
        r.palette_loaded == palette_loaded(ppu.palette@),
        r.nonzero_tiles == nonzero_count(ppu.vram@, 0x800),
        r.visible_sprites == visible_sprite_count(ppu.oam@, 64),
        r.frame == ppu.tick_count / 89342,
{
    let mut loaded = false;
    let mut i: usize = 0;
    while i < 8
        invariant
            i <= 8,
            loaded == exists|j: int| 0 <= j < i && ppu.palette@[j] != 0x0F && ppu.palette@[j] != 0,
        decreases 8 - i,
    {
        let p = ppu.palette[i];
        if p != 0x0F && p != 0x00 {
            loaded = true;
        }
        i = i + 1;
    }
    let mut tiles: u32 = 0;
    let mut k: usize = 0;
    while k < 0x800
        invariant
            k <= 0x800,
            tiles == nonzero_count(ppu.vram@, k as nat),
        decreases 0x800 - k,
    {
        proof {
            lemma_nonzero_count_le(ppu.vram@, k as nat);
        }
        if ppu.vram[k] != 0 {
            tiles = tiles + 1;
        }
        k = k + 1;
    }
    let mut sprites: u32 = 0;
    let mut n: usize = 0;
    while n < 64
        invariant
            n <= 64,
            sprites == visible_sprite_count(ppu.oam@, n as nat),
        decreases 64 - n,
    {
        proof {
            lemma_visible_sprite_count_le(ppu.oam@, n as nat);
        }
        if ppu.oam[n * 4] < 0xEF {
            sprites = sprites + 1;
        }
        n = n + 1;
    }
    Diagnostics {
        background_enabled: ppu.mask & 0x08 != 0,
        sprites_enabled: ppu.mask & 0x10 != 0,
        palette_loaded: loaded,
        nonzero_tiles: tiles,
        visible_sprites: sprites,
        frame: ppu.tick_count / 89342,
    }
}

/// Whether the first two background palettes hold nothing but black ($0F).
pub fn palette_all_black(ppu: &Ppu) -> (r: bool)
    ensures
        r == forall|i: int| 0 <= i < 8 ==> ppu.palette@[i] == 0x0F,
{
    let mut i: usize = 0;
    while i < 8
        invariant
            i <= 8,
            forall|j: int| 0 <= j < i ==> ppu.palette@[j] == 0x0F,
        decreases 8 - i,
    {
        if ppu.palette[i] != 0x0F {
            return false;
        }
        i = i + 1;
    }
    true
}

} // verus!
