use vstd::prelude::*;
use crate::mapper::Mapper;

verus! {

// ---------------------------------------------------------------------------
// Timing
// ---------------------------------------------------------------------------
pub const VISIBLE_SCANLINES: u16 = 240;
pub const VBLANK_START: u16 = 241;
pub const PRERENDER_SCANLINE: u16 = 261;
pub const TOTAL_SCANLINES: u16 = 262;
pub const CYCLES_PER_LINE: u16 = 341;
pub const HORIZONTAL_COPY_CYCLE: u16 = 257;

/// PPU dots in one frame when no dot is skipped.
pub const DOTS_PER_FRAME: u32 = 89342;

// PPUSTATUS ($2002) bits
pub const STATUS_VBLANK: u8 = 0x80;
pub const STATUS_SPRITE0_HIT: u8 = 0x40;
pub const STATUS_SPRITE_OVERFLOW: u8 = 0x20;

// PPUMASK ($2001) bits
pub const MASK_BG_ENABLE: u8 = 0x08;
pub const MASK_SPRITE_ENABLE: u8 = 0x10;
pub const MASK_RENDERING_BITS: u8 = 0x18;

// PPUCTRL ($2000) bits
pub const CTRL_NMI_ENABLE: u8 = 0x80;

// Loopy-v bit masks
pub const V_COARSE_X_MASK: u16 = 0x001F;
pub const V_COARSE_Y_MASK: u16 = 0x03E0;
pub const V_HORIZONTAL_MASK: u16 = 0x041F;
pub const V_VERTICAL_MASK: u16 = 0x7BE0;
pub const V_COARSE_Y_WRAP: u16 = 0x03C0;
pub const V_COARSE_Y_CLAMP: u16 = 0x03E0;
pub const V_FINE_Y_OVERFLOW: u16 = 0x7000;

/// PPU ticks after which the open-bus latch has fully decayed to 0.
pub const OPEN_BUS_DECAY_TICKS: u64 = 5_000_000;

// ---------------------------------------------------------------------------
// Address arithmetic
// ---------------------------------------------------------------------------
/// The `vram` index that nametable address `a` ($2000-$3EFF) reaches. Mirroring 0
/// pairs $2000/$2400 and $2800/$2C00 (bit 11 selects the table); any other value
/// pairs $2000/$2800 and $2400/$2C00 (bit 10 selects it). $3000-$3EFF repeats
/// $2000-$2EFF.
pub open spec fn nt_slot(a: u16, mirroring: u8) -> int {
    let table = if mirroring == 0 { (a >> 11u16) & 1 } else { (a >> 10u16) & 1 };
    table * 0x400 + (a & 0x3FF)
}

/// The palette entry that address `a` ($3F00-$3FFF) reaches: 32 entries repeated,
/// with $3F10/$3F14/$3F18/$3F1C sharing $3F00/$3F04/$3F08/$3F0C.
pub open spec fn palette_slot(a: u16) -> int {
    let i = a & 0x1F;
    if i & 0x13 == 0x10 { (i & 0x0F) as int } else { i as int }
}

/// Coarse X + 1, wrapping from 31 to 0 into the horizontally adjacent nametable.
pub open spec fn inc_coarse_x(v: u16) -> u16 {
    if v & 0x1F == 31 {
        ((v & 0xFFE0) ^ 0x0400) as u16
    } else {
        (v + 1) as u16
    }
}

/// The end-of-line vertical step: coarse Y + 1 (row 29 wraps to 0 into the
/// vertically adjacent nametable; row 31 wraps to 0 flipping the horizontal
/// nametable bit), then fine Y + 1, with fine Y 7 wrapping to 0.
pub open spec fn inc_coarse_y(v: u16) -> u16 {
    let y = v & 0x03E0;
    let w = if y == 0x03C0 {
        ((v & 0xFC1F) ^ 0x0800) as u16
    } else if y == 0x03E0 {
        ((v & 0xFC1F) ^ 0x0400) as u16
    } else {
        (v + 0x0020) as u16
    };
    if (w >> 12u16) & 7 == 7 {
        w & 0x8FFF
    } else {
        (w + 0x1000) as u16
    }
}

/// `v` with its horizontal bits (coarse X and the horizontal nametable bit) from `t`.
pub open spec fn copy_horizontal_bits(v: u16, t: u16) -> u16 {
    (v & 0xFBE0) | (t & 0x041F)
}

/// `v` with its vertical bits (coarse Y, the vertical nametable bit, fine Y) from `t`.
pub open spec fn copy_vertical_bits(v: u16, t: u16) -> u16 {
    (v & 0x841F) | (t & 0x7BE0)
}

/// The bits faded at decay level `d` (0-255): `d`'s top bit and every bit below it,
/// so a higher level fades a superset of the bits of a lower one.
pub open spec fn fade_bits(d: u8) -> u8 {
    let a = d | (d >> 1u8);
    let b = a | (a >> 2u8);
    b | (b >> 4u8)
}

/// Executable `fade_bits`.
pub fn fade_mask(d: u8) -> (r: u8)
    ensures
        r == fade_bits(d),
{
    let a = d | (d >> 1);
    let b = a | (a >> 2);
    b | (b >> 4)
}

/// What the open bus reads `elapsed` PPU ticks after `last` was driven onto it: the
/// bits fade towards 0 as the decay level `elapsed * 255 / OPEN_BUS_DECAY_TICKS`
/// grows, and all are gone after `OPEN_BUS_DECAY_TICKS`.
pub open spec fn open_bus_value(last: u8, elapsed: int) -> u8 {
    if elapsed >= OPEN_BUS_DECAY_TICKS {
        0
    } else {
        let d = (elapsed * 255 / (OPEN_BUS_DECAY_TICKS as int)) as u8;
        last & !fade_bits(d)
    }
}

/// The open bus only ever loses bits as time passes: right after the write it reads
/// the value written, later reads hold a subset of the bits of earlier ones, and
/// after `OPEN_BUS_DECAY_TICKS` it reads 0.
pub proof fn lemma_open_bus_fades(last: u8, e1: int, e2: int)
    requires
        0 <= e1 <= e2,
    ensures
        open_bus_value(last, 0) == last,
        open_bus_value(last, e1) & !last == 0,
        open_bus_value(last, e2) & !open_bus_value(last, e1) == 0,
        e2 >= OPEN_BUS_DECAY_TICKS ==> open_bus_value(last, e2) == 0,
{
    assert(fade_bits(0u8) == 0 && last & !0u8 == last) by (bit_vector);
    if e2 < OPEN_BUS_DECAY_TICKS {
        vstd::arithmetic::div_mod::lemma_div_is_ordered(e1 * 255, e2 * 255, OPEN_BUS_DECAY_TICKS as int);
        vstd::arithmetic::div_mod::lemma_div_pos_is_pos(e1 * 255, OPEN_BUS_DECAY_TICKS as int);
        assert(e2 * 255 / (OPEN_BUS_DECAY_TICKS as int) < 256) by {
            vstd::arithmetic::div_mod::lemma_div_is_ordered(e2 * 255, OPEN_BUS_DECAY_TICKS as int * 255, OPEN_BUS_DECAY_TICKS as int);
            vstd::arithmetic::div_mod::lemma_div_by_multiple(255, OPEN_BUS_DECAY_TICKS as int);
        }
        let d1 = (e1 * 255 / (OPEN_BUS_DECAY_TICKS as int)) as u8;
        let d2 = (e2 * 255 / (OPEN_BUS_DECAY_TICKS as int)) as u8;
        assert(d1 <= d2);
        assert((last & !fade_bits(d2)) & !(last & !fade_bits(d1)) == 0 && (last & !fade_bits(d1)) & !last == 0)
            by (bit_vector)
            requires
                d1 <= d2,
        ;
    } else if e1 < OPEN_BUS_DECAY_TICKS {
        let d1 = (e1 * 255 / (OPEN_BUS_DECAY_TICKS as int)) as u8;
        assert(0u8 & !(last & !fade_bits(d1)) == 0 && (last & !fade_bits(d1)) & !last == 0) by (bit_vector);
    } else {
        assert(0u8 & !0u8 == 0 && 0u8 & !last == 0) by (bit_vector);
    }
}

// ---------------------------------------------------------------------------
// PPU state
// ---------------------------------------------------------------------------
pub struct Ppu {
    pub vram: [u8; 0x1000],
    pub palette: [u8; 0x20],
    pub oam: [u8; 0x100],
    pub ctrl: u8,
    pub mask: u8,
    pub status: u8,
    pub oam_addr: u8,
    /// Current VRAM address (loopy-v).
    pub v: u16,
    /// Temporary VRAM address (loopy-t).
    pub t: u16,
    pub fine_x: u8,
    /// Write toggle shared by $2005 and $2006 (0 = first write).
    pub w: u8,
    pub data_buffer: u8,
    pub last_bus_value: u8,
    pub tick_count: u64,
    pub last_bus_write_tick: u64,
    pub scanline: u16,
    pub cycle: u16,
    /// NMI edge detected, waiting for the CPU to sample it.
    pub nmi_latched: bool,
    /// Previous state of the NMI line (VBlank and NMI enable).
    pub nmi_output: bool,
    /// The latched edge came from VBlank start and is taken at once.
    pub nmi_from_vblank: bool,
    /// An NMI sampled at the penultimate cycle, taken after the instruction.
    pub nmi_deferred_pending: bool,
    pub frame_complete: bool,
    /// 256x240 palette indices, row-major.
    pub frame: [u8; 61440],
    pub odd_frame: bool,
    pub sprite_count: u8,
    pub sprite_indices: [u8; 8],
    pub sprite_zero_hit_possible: bool,
    /// A $2002 read on the VBlank-start dot suppresses that VBlank.
    pub vbl_suppressed: bool,
    /// Scroll snapshot used by the pixel renderer.
    pub render_v: u16,
    pub render_fine_x: u8,
    /// A12 edge tracking for scanline-counting boards.
    pub prev_a12: bool,
    pub a12_low_cycles: u8,
    pub bg_shift_low: u16,
    pub bg_shift_high: u16,
    pub bg_attr_shift_low: u16,
    pub bg_attr_shift_high: u16,
}

impl Ppu {
    /// Position in range, 3-bit fine X values, a 0/1 write toggle, at most eight
    /// selected sprites, each an OAM slot, and the NMI line up high exactly while
    /// VBlank is set with NMI enabled.
    pub open spec fn wf(&self) -> bool {
        &&& self.nmi_output == (self.status & STATUS_VBLANK != 0 && self.ctrl & CTRL_NMI_ENABLE != 0)
        &&& self.scanline < TOTAL_SCANLINES
        &&& self.cycle < CYCLES_PER_LINE
        &&& self.fine_x < 8
        &&& self.render_fine_x < 8
        &&& self.w < 2
        &&& self.sprite_count <= 8
        &&& forall|i: int| 0 <= i < 8 ==> #[trigger] self.sprite_indices[i] < 64
    }

    /// The power-on state: all memories, registers, counters and render latches
    /// zero, on an odd frame with no NMI pending and sprite-0 hits possible.
    pub open spec fn powered_on(&self) -> bool {
        &&& self.scanline == 0 && self.cycle == 0 && self.tick_count == 0
        &&& self.ctrl == 0 && self.mask == 0 && self.status == 0 && self.oam_addr == 0
        &&& self.v == 0 && self.t == 0 && self.fine_x == 0 && self.w == 0
        &&& self.odd_frame && !self.frame_complete
        &&& !self.nmi_latched && !self.nmi_output && !self.nmi_from_vblank && !self.nmi_deferred_pending
        &&& self.sprite_count == 0 && self.sprite_zero_hit_possible && !self.vbl_suppressed
        &&& self.data_buffer == 0 && self.last_bus_value == 0 && self.last_bus_write_tick == 0
        &&& forall|i: int| 0 <= i < 0x1000 ==> #[trigger] self.vram[i] == 0
        &&& forall|i: int| 0 <= i < 0x20 ==> #[trigger] self.palette[i] == 0
        &&& forall|i: int| 0 <= i < 0x100 ==> #[trigger] self.oam[i] == 0
        &&& forall|i: int| 0 <= i < 61440 ==> #[trigger] self.frame[i] == 0
        &&& forall|i: int| 0 <= i < 8 ==> #[trigger] self.sprite_indices[i] == 0
        &&& self.render_v == 0 && self.render_fine_x == 0 && !self.prev_a12 && self.a12_low_cycles == 0
        &&& self.bg_shift_low == 0 && self.bg_shift_high == 0 && self.bg_attr_shift_low == 0 && self.bg_attr_shift_high == 0
    }

    pub fn new() -> (r: Self)
        ensures
            r.wf(),
            r.scanline == 0 && r.cycle == 0 && r.tick_count == 0,
            r.ctrl == 0 && r.mask == 0 && r.status == 0 && r.oam_addr == 0,
            r.v == 0 && r.t == 0 && r.fine_x == 0 && r.w == 0,
            r.odd_frame && !r.frame_complete,
            !r.nmi_latched && !r.nmi_output && !r.nmi_from_vblank && !r.nmi_deferred_pending,
            r.sprite_count == 0 && r.sprite_zero_hit_possible && !r.vbl_suppressed,
            r.data_buffer == 0 && r.last_bus_value == 0 && r.last_bus_write_tick == 0,
            forall|i: int| 0 <= i < 0x1000 ==> #[trigger] r.vram[i] == 0,
            forall|i: int| 0 <= i < 0x20 ==> #[trigger] r.palette[i] == 0,
            forall|i: int| 0 <= i < 0x100 ==> #[trigger] r.oam[i] == 0,
            forall|i: int| 0 <= i < 61440 ==> #[trigger] r.frame[i] == 0,
            forall|i: int| 0 <= i < 8 ==> #[trigger] r.sprite_indices[i] == 0,
            r.render_v == 0 && r.render_fine_x == 0 && !r.prev_a12 && r.a12_low_cycles == 0,
            r.bg_shift_low == 0 && r.bg_shift_high == 0 && r.bg_attr_shift_low == 0 && r.bg_attr_shift_high == 0,
            r.powered_on(),
    {
        assert(0u8 & 0x80u8 == 0) by (bit_vector);
        Ppu {
            vram: [0; 0x1000],
            palette: [0; 0x20],
            oam: [0; 0x100],
            ctrl: 0,
            mask: 0,
            status: 0,
            oam_addr: 0,
            v: 0,
            t: 0,
            fine_x: 0,
            w: 0,
            data_buffer: 0,
            last_bus_value: 0,
            tick_count: 0,
            last_bus_write_tick: 0,
            scanline: 0,
            cycle: 0,
            nmi_latched: false,
            nmi_output: false,
            nmi_from_vblank: false,
            nmi_deferred_pending: false,
            frame_complete: false,
            frame: [0; 61440],
            odd_frame: true,
            sprite_count: 0,
            sprite_indices: [0; 8],
            sprite_zero_hit_possible: true,
            vbl_suppressed: false,
            render_v: 0,
            render_fine_x: 0,
            prev_a12: false,
            a12_low_cycles: 0,
            bg_shift_low: 0,
            bg_shift_high: 0,
            bg_attr_shift_low: 0,
            bg_attr_shift_high: 0,
        }
    }

    pub open spec fn spec_rendering_enabled(&self) -> bool {
        self.mask & MASK_RENDERING_BITS != 0
    }

    fn rendering_enabled(&self) -> (r: bool)
        ensures
            r == self.spec_rendering_enabled(),
    {
        self.mask & MASK_RENDERING_BITS != 0
    }

    fn rendering_or_prerender(&self) -> (r: bool)
        ensures
            r == (self.scanline < VISIBLE_SCANLINES || self.scanline == PRERENDER_SCANLINE),
    {
        self.scanline < VISIBLE_SCANLINES || self.scanline == PRERENDER_SCANLINE
    }

    // -----------------------------------------------------------------------
    // Nametable and palette memory
    // -----------------------------------------------------------------------
    /// What a PPU-bus read at `addr` ($2000-$3FFF after 14-bit masking) returns from
    /// nametable or palette memory; pattern addresses read 0 here.
    pub open spec fn spec_read_nt(&self, addr: u16, mirroring: u8) -> u8 {
        let a = addr & 0x3FFF;
        if a >= 0x3F00 {
            self.palette[palette_slot(a)]
        } else if a < 0x2000 {
            0
        } else {
            self.vram[nt_slot(a, mirroring)]
        }
    }

    /// Table number and offset of nametable address `addr`.
    fn nt_index(addr: u16, mirroring: u8) -> (r: (usize, u16))
        ensures
            r.0 < 2,
            r.1 < 0x400,
            r.0 * 0x400 + r.1 == nt_slot(addr & 0x3FFF, mirroring),
    {
        let a = addr & 0x3FFF;
        let nt: u16 = if mirroring == 0 { (a >> 11) & 1 } else { (a >> 10) & 1 };
        proof {
            crate::bits::lemma_word_bits(a);
        }
        (nt as usize, a & 0x03FF)
    }

    proof fn lemma_mirror_slot(a: u16, mirroring: u8)
        requires
            0x3000 <= a < 0x3F00,
        ensures
            nt_slot(a & 0x2FFF, mirroring) == nt_slot(a, mirroring),
            (a & 0x2FFF) & 0x3FFF == a & 0x2FFF,
    {
        crate::bits::lemma_word_bits(a);
    }

    /// Reads nametable or palette memory.
    pub fn ppu_read_nt(&self, addr: u16, mirroring: u8) -> (r: u8)
        ensures
            r == self.spec_read_nt(addr, mirroring),
    {
        let a = addr & 0x3FFF;
        if a >= 0x3F00 {
            let i = a & 0x1F;
            proof {
                crate::bits::lemma_word_bits(a);
            }
            let j = if i & 0x13 == 0x10 { (i & 0x0F) as usize } else { i as usize };
            self.palette[j]
        } else if a < 0x2000 {
            0
        } else {
            let b = if a >= 0x3000 { a & 0x2FFF } else { a };
            proof {
                if a >= 0x3000 {
                    Self::lemma_mirror_slot(a, mirroring);
                }
                crate::bits::lemma_word_bits(addr);
            }
            let (nt, off) = Self::nt_index(b, mirroring);
            self.vram[nt * 0x400 + off as usize]
        }
    }

    /// The memory after a PPU-bus write of `val` at `addr` (see `spec_read_nt`);
    /// pattern addresses are not stored here.
    pub open spec fn after_write_nt(self, addr: u16, val: u8, mirroring: u8) -> Ppu {
        let a = addr & 0x3FFF;
        if a >= 0x3F00 {
            Ppu { palette: vstd::array::spec_array_update(self.palette, palette_slot(a), val), ..self }
        } else if a < 0x2000 {
            self
        } else {
            Ppu { vram: vstd::array::spec_array_update(self.vram, nt_slot(a, mirroring), val), ..self }
        }
    }

    /// Writes nametable or palette memory.
    pub fn ppu_write_nt(&mut self, addr: u16, val: u8, mirroring: u8)
        ensures
            *final(self) == old(self).after_write_nt(addr, val, mirroring),
    {
        let a = addr & 0x3FFF;
        if a >= 0x3F00 {
            let i = a & 0x1F;
            proof {
                crate::bits::lemma_word_bits(a);
            }
            let j = if i & 0x13 == 0x10 { (i & 0x0F) as usize } else { i as usize };
            self.palette[j] = val;
        } else if a < 0x2000 {
        } else {
            let b = if a >= 0x3000 { a & 0x2FFF } else { a };
            proof {
                if a >= 0x3000 {
                    Self::lemma_mirror_slot(a, mirroring);
                }
                crate::bits::lemma_word_bits(addr);
            }
            let (nt, off) = Self::nt_index(b, mirroring);
            self.vram[nt * 0x400 + off as usize] = val;
        }
    }

    // -----------------------------------------------------------------------
    // Open bus
    // -----------------------------------------------------------------------
    /// The open-bus latch as the CPU sees it: the last value driven onto the PPU data
    /// bus, with bits fading towards 0 as ticks pass since that write, all gone after
    /// `OPEN_BUS_DECAY_TICKS`.
    pub open spec fn spec_open_bus(&self) -> u8 {
        let elapsed: int = if self.tick_count >= self.last_bus_write_tick {
            self.tick_count - self.last_bus_write_tick
        } else {
            0
        };
        open_bus_value(self.last_bus_value, elapsed)
    }

    /// The PPU open-bus value with decay applied.
    pub fn get_open_bus(&self) -> (r: u8)
        ensures
            r == self.spec_open_bus(),
    {
        let elapsed = self.tick_count.saturating_sub(self.last_bus_write_tick);
        if elapsed >= OPEN_BUS_DECAY_TICKS {
            return 0;
        }
        let decay = (elapsed * 255 / OPEN_BUS_DECAY_TICKS) as u8;
        self.last_bus_value & !fade_mask(decay)
    }

    /// Drives `val` onto the PPU data bus, restarting its decay.
    pub fn set_last_bus_value(&mut self, val: u8)
        ensures
            *final(self) == (Ppu { last_bus_value: val, last_bus_write_tick: old(self).tick_count, ..*old(self) }),
    {
        self.last_bus_value = val;
        self.last_bus_write_tick = self.tick_count;
    }

    // -----------------------------------------------------------------------
    // Scroll register operations
    // -----------------------------------------------------------------------
    fn increment_coarse_x(&mut self)
        ensures
            *final(self) == (Ppu { v: inc_coarse_x(old(self).v), ..*old(self) }),
    {
        let v = self.v;
        proof {
            crate::bits::lemma_word_bits(v);
        }
        if (v & V_COARSE_X_MASK) == 31 {
            self.v = (v & !V_COARSE_X_MASK) ^ 0x0400;
        } else {
            self.v = v + 1;
        }
    }

    fn increment_coarse_y(&mut self)
        ensures
            *final(self) == (Ppu { v: inc_coarse_y(old(self).v), ..*old(self) }),
    {
        let v0 = self.v;
        let y = v0 & V_COARSE_Y_MASK;
        proof {
            crate::bits::lemma_word_bits(v0);
        }
        let v1 = if y == V_COARSE_Y_WRAP {
            (v0 & !V_COARSE_Y_MASK) ^ 0x0800
        } else if y == V_COARSE_Y_CLAMP {
            (v0 & !V_COARSE_Y_MASK) ^ 0x0400
        } else {
            v0 + 0x0020
        };
        proof {
            crate::bits::lemma_word_bits(v1);
        }
        if (v1 >> 12) & 7 == 7 {
            self.v = v1 & !V_FINE_Y_OVERFLOW;
        } else {
            self.v = v1 + 0x1000;
        }
    }

    fn copy_horizontal(&mut self)
        ensures
            *final(self) == (Ppu { v: copy_horizontal_bits(old(self).v, old(self).t), ..*old(self) }),
    {
        let v = self.v;
        proof {
            crate::bits::lemma_word_bits(v);
        }
        self.v = (v & !V_HORIZONTAL_MASK) | (self.t & V_HORIZONTAL_MASK);
    }

    fn copy_vertical(&mut self)
        ensures
            *final(self) == (Ppu { v: copy_vertical_bits(old(self).v, old(self).t), ..*old(self) }),
    {
        let v = self.v;
        proof {
            crate::bits::lemma_word_bits(v);
        }
        self.v = (v & !V_VERTICAL_MASK) | (self.t & V_VERTICAL_MASK);
    }

    // -----------------------------------------------------------------------
    // NMI edge detection
    // -----------------------------------------------------------------------
    /// The NMI line is VBlank AND NMI-enable; a rising edge latches an NMI (marked as
    /// coming from VBlank start when `from_vblank`), and the line state is remembered.
    pub open spec fn after_nmi_edge(self, from_vblank: bool) -> Ppu {
        let out = self.status & STATUS_VBLANK != 0 && self.ctrl & CTRL_NMI_ENABLE != 0;
        let edge = !self.nmi_output && out;
        Ppu {
            nmi_latched: self.nmi_latched || edge,
            nmi_from_vblank: self.nmi_from_vblank || (edge && from_vblank),
            nmi_output: out,
            ..self
        }
    }

    /// Re-evaluates the NMI line after VBlank or NMI-enable changed.
    #[inline(always)]
    pub fn update_nmi_edge(&mut self, from_vblank: bool)
        ensures
            *final(self) == old(self).after_nmi_edge(from_vblank),
    {
        let new_output = (self.status & STATUS_VBLANK != 0) && (self.ctrl & CTRL_NMI_ENABLE != 0);
        let was_active = self.nmi_output;
        let edge = !was_active && new_output;
        if edge {
            self.nmi_latched = true;
            if from_vblank {
                self.nmi_from_vblank = true;
            }
        }
        self.nmi_output = new_output;
    }
}


// ---------------------------------------------------------------------------
// Pattern-table access with A12 tracking, and the CPU-facing registers
// ---------------------------------------------------------------------------
impl Ppu {
    /// Whether putting `addr` on the PPU bus is an A12 rising edge after A12 stayed
    /// low for at least 3 ticks: such an edge clocks the board's scanline counter.
    pub open spec fn a12_clocks(&self, addr: u16) -> bool {
        addr & 0x1000 != 0 && !self.prev_a12 && self.a12_low_cycles >= 3
    }

    /// A12 bookkeeping after `addr` is on the bus: any edge restarts the low count.
    pub open spec fn after_a12(self, addr: u16) -> Ppu {
        let high = addr & 0x1000 != 0;
        Ppu {
            a12_low_cycles: if high != self.prev_a12 { 0 } else { self.a12_low_cycles },
            prev_a12: high,
            ..self
        }
    }

    /// The board after `addr` is on the bus.
    pub open spec fn mapper_after_a12(&self, addr: u16, m: Mapper) -> Mapper {
        if self.a12_clocks(addr) { m.after_clock() } else { m }
    }

    fn notify_mapper_a12(&mut self, addr: u16, mapper: &mut Mapper)
        requires
            old(mapper).ppu_wf(),
        ensures
            *final(self) == old(self).after_a12(addr),
            *final(mapper) == old(self).mapper_after_a12(addr, *old(mapper)),
            final(mapper).ppu_wf(),
            old(mapper).wf() ==> final(mapper).wf(),
    {
        let a12_new = (addr & 0x1000) != 0;
        if a12_new && !self.prev_a12 {
            if self.a12_low_cycles >= 3 {
                mapper.clock_scanline();
            }
            self.a12_low_cycles = 0;
        } else if !a12_new && self.prev_a12 {
            self.a12_low_cycles = 0;
        }
        self.prev_a12 = a12_new;
    }

    /// Reads pattern memory through the board, tracking A12 edges.
    pub fn chr_read(&mut self, addr: u16, mapper: &mut Mapper) -> (r: u8)
        requires
            old(mapper).ppu_wf(),
        ensures
            *final(self) == old(self).after_a12(addr),
            *final(mapper) == old(self).mapper_after_a12(addr, *old(mapper)),
            final(mapper).ppu_wf(),
            old(mapper).wf() ==> final(mapper).wf(),
            r == final(mapper).spec_ppu_read(addr),
    {
        self.notify_mapper_a12(addr, mapper);
        mapper.ppu_read(addr)
    }

    /// What a PPU-bus read at `addr` returns: pattern memory from the board below
    /// $2000, nametable and palette memory above.
    pub open spec fn spec_ppu_read(&self, addr: u16, m: Mapper) -> u8 {
        if addr < 0x2000 {
            m.spec_ppu_read(addr)
        } else {
            self.spec_read_nt(addr, m.spec_mirroring())
        }
    }

    /// Reads the PPU bus (for debuggers and front ends).
    pub fn ppu_read(&mut self, addr: u16, mapper: &mut Mapper) -> (r: u8)
        requires
            old(mapper).ppu_wf(),
        ensures
            r == old(self).spec_ppu_read(addr, *old(mapper)),
            *final(self) == *old(self),
            *final(mapper) == *old(mapper),
    {
        if addr < 0x2000 {
            mapper.ppu_read(addr)
        } else {
            self.ppu_read_nt(addr, mapper.mirroring())
        }
    }

    /// Writes the PPU bus (for debuggers and front ends): pattern writes go to the
    /// board, the rest to nametable and palette memory.
    pub fn ppu_write(&mut self, addr: u16, val: u8, mapper: &mut Mapper)
        requires
            old(mapper).ppu_wf(),
        ensures
            final(mapper).ppu_wf(),
            old(mapper).wf() ==> final(mapper).wf(),
            addr < 0x2000 ==> *final(self) == *old(self) && old(mapper).after_ppu_write(addr, val, *final(mapper)),
            addr >= 0x2000 ==> *final(mapper) == *old(mapper) && *final(self) == old(self).after_write_nt(
                addr,
                val,
                old(mapper).spec_mirroring(),
            ),
    {
        if addr < 0x2000 {
            mapper.ppu_write(addr, val);
        } else {
            self.ppu_write_nt(addr, val, mapper.mirroring());
        }
    }

    /// The VRAM address step after a $2007 access: 32 with PPUCTRL bit 2, else 1.
    pub open spec fn vram_increment(&self) -> u16 {
        if self.ctrl & 0x04 != 0 { 32 } else { 1 }
    }

    // ---- $2002 ----
    /// The $2002 value: VBlank, sprite-0 hit and overflow over the low 5 open-bus bits.
    pub open spec fn spec_status_read(&self) -> u8 {
        (self.status & 0xE0) | (self.spec_open_bus() & 0x1F)
    }

    /// A $2002 read clears VBlank and the write toggle; on the VBlank-start dot it
    /// suppresses that VBlank; the NMI line is then re-evaluated.
    pub open spec fn after_read_status(self) -> Ppu {
        Ppu {
            status: self.status & 0x7F,
            w: 0,
            vbl_suppressed: self.vbl_suppressed || (self.scanline == VBLANK_START && self.cycle == 1
                && self.status & 0x80 == 0),
            ..self
        }.after_nmi_edge(false)
    }

    pub fn read_status(&mut self) -> (r: u8)
        requires
            old(self).wf(),
        ensures
            r == old(self).spec_status_read(),
            *final(self) == old(self).after_read_status(),
            final(self).wf(),
    {
        let s = self.status;
        proof {
            crate::bits::lemma_byte_bits(s);
        }
        self.status = s & !STATUS_VBLANK;
        self.w = 0;
        let result = (s & 0xE0) | (self.get_open_bus() & 0x1F);
        if self.scanline == VBLANK_START && self.cycle == 1 && (s & STATUS_VBLANK) == 0 {
            self.vbl_suppressed = true;
        }
        self.update_nmi_edge(false);
        result
    }

    // ---- $2004 ----
    /// The $2004 value: the OAM byte at OAMADDR, with bits 2-4 of attribute bytes
    /// reading as 0.
    pub open spec fn spec_oam_read(&self) -> u8 {
        let b = self.oam[self.oam_addr as int];
        if self.oam_addr & 0x03 == 2 { b & 0xE3 } else { b }
    }

    pub fn read_oam_data(&mut self) -> (r: u8)
        ensures
            r == old(self).spec_oam_read(),
            *final(self) == *old(self),
    {
        let mut val = self.oam[self.oam_addr as usize];
        if self.oam_addr & 0x03 == 2 {
            val = val & 0xE3;
        }
        val
    }

    // ---- $2007 read ----
    /// The $2007 value: the read buffer below the palette, the palette entry (over
    /// two open-bus bits) at $3F00 and above.
    pub open spec fn spec_data_read(&self, m: Mapper) -> u8 {
        let a = self.v & 0x3FFF;
        if a < 0x3F00 {
            self.data_buffer
        } else {
            (self.spec_open_bus() & 0xC0) | (self.spec_read_nt(a, m.spec_mirroring()) & 0x3F)
        }
    }

    /// The board after a $2007 read (a pattern read may clock its scanline counter).
    pub open spec fn mapper_after_data_read(&self, m: Mapper) -> Mapper {
        let a = self.v & 0x3FFF;
        if a < 0x2000 { self.mapper_after_a12(a, m) } else { m }
    }

    /// After a $2007 read the buffer holds the byte at v (for palette reads, the
    /// nametable byte underneath), and v steps.
    pub open spec fn after_read_data(self, m: Mapper) -> Ppu {
        let a = self.v & 0x3FFF;
        let mir = m.spec_mirroring();
        let p = if a < 0x2000 { self.after_a12(a) } else { self };
        let buf = if a < 0x2000 {
            self.mapper_after_data_read(m).spec_ppu_read(a)
        } else if a < 0x3F00 {
            self.spec_read_nt(a, mir)
        } else {
            self.spec_read_nt(a & 0x2FFF, mir)
        };
        Ppu { data_buffer: buf, v: self.v.wrapping_add(self.vram_increment()), ..p }
    }

    pub fn read_data(&mut self, mapper: &mut Mapper) -> (r: u8)
        requires
            old(mapper).ppu_wf(),
            old(self).wf(),
        ensures
            r == old(self).spec_data_read(*old(mapper)),
            *final(self) == old(self).after_read_data(*old(mapper)),
            *final(mapper) == old(self).mapper_after_data_read(*old(mapper)),
            final(mapper).ppu_wf(),
            old(mapper).wf() ==> final(mapper).wf(),
            final(self).wf(),
    {
        let addr = self.v & 0x3FFF;
        let inc: u16 = if self.ctrl & 0x04 != 0 { 32 } else { 1 };
        if addr < 0x2000 {
            let val = self.chr_read(addr, mapper);
            let result = self.data_buffer;
            self.data_buffer = val;
            self.v = self.v.wrapping_add(inc);
            result
        } else {
            let mir = mapper.mirroring();
            let val = self.ppu_read_nt(addr, mir);
            let result = if addr < 0x3F00 {
                self.data_buffer
            } else {
                (self.get_open_bus() & 0xC0) | (val & 0x3F)
            };
            if addr < 0x3F00 {
                self.data_buffer = val;
            } else {
                self.data_buffer = self.ppu_read_nt(addr & 0x2FFF, mir);
            }
            self.v = self.v.wrapping_add(inc);
            result
        }
    }

    // ---- writes ----
    /// A $2000 write: PPUCTRL, nametable select into t bits 10-11, then the NMI line
    /// is re-evaluated (enabling NMI during VBlank latches one).
    pub open spec fn after_write_ctrl(self, val: u8) -> Ppu {
        Ppu {
            last_bus_value: val,
            last_bus_write_tick: self.tick_count,
            ctrl: val,
            t: (self.t & 0xF3FF) | (((val as u16) & 3) << 10u16),
            ..self
        }.after_nmi_edge(false)
    }

    pub fn write_ctrl(&mut self, val: u8)
        requires
            old(self).wf(),
        ensures
            *final(self) == old(self).after_write_ctrl(val),
            final(self).wf(),
    {
        self.set_last_bus_value(val);
        self.ctrl = val;
        self.t = (self.t & 0xF3FF) | ((val as u16 & 3) << 10);
        self.update_nmi_edge(false);
    }

    pub fn write_mask(&mut self, val: u8)
        ensures
            *final(self) == (Ppu {
                last_bus_value: val,
                last_bus_write_tick: old(self).tick_count,
                mask: val,
                ..*old(self)
            }),
    {
        self.set_last_bus_value(val);
        self.mask = val;
    }

    pub fn write_oam_addr(&mut self, val: u8)
        ensures
            *final(self) == (Ppu {
                last_bus_value: val,
                last_bus_write_tick: old(self).tick_count,
                oam_addr: val,
                ..*old(self)
            }),
    {
        self.set_last_bus_value(val);
        self.oam_addr = val;
    }

    /// A $2004 write stores at OAMADDR, which then steps (wrapping).
    pub fn write_oam_data(&mut self, val: u8)
        ensures
            *final(self) == (Ppu {
                last_bus_value: val,
                last_bus_write_tick: old(self).tick_count,
                oam: vstd::array::spec_array_update(old(self).oam, old(self).oam_addr as int, val),
                oam_addr: old(self).oam_addr.wrapping_add(1),
                ..*old(self)
            }),
    {
        self.set_last_bus_value(val);
        let i = self.oam_addr;
        self.oam[i as usize] = val;
        self.oam_addr = i.wrapping_add(1);
    }

    /// A $2005 write: the first sets coarse X (t bits 0-4) and fine X, the second
    /// fine Y (t bits 12-14) and coarse Y (t bits 5-9); the toggle flips.
    pub open spec fn after_write_scroll(self, val: u8) -> Ppu {
        let p = Ppu { last_bus_value: val, last_bus_write_tick: self.tick_count, ..self };
        if self.w == 0 {
            Ppu { t: (self.t & 0xFFE0) | ((val >> 3u8) as u16), fine_x: val & 7, w: 1, ..p }
        } else {
            Ppu {
                t: (self.t & 0xFC1F) | (((val as u16) & 0x07) << 12u16) | (((val as u16) & 0xF8) << 2u16),
                w: 0,
                ..p
            }
        }
    }

    pub fn write_scroll(&mut self, val: u8)
        requires
            old(self).wf(),
        ensures
            *final(self) == old(self).after_write_scroll(val),
            final(self).wf(),
    {
        self.set_last_bus_value(val);
        proof {
            crate::bits::lemma_byte_bits(val);
        }
        if self.w == 0 {
            self.t = (self.t & 0xFFE0) | ((val >> 3) as u16);
            self.fine_x = val & 7;
            self.w = 1;
        } else {
            self.t = (self.t & 0xFC1F) | (((val as u16) & 0x07) << 12) | (((val as u16) & 0xF8) << 2);
            self.w = 0;
        }
    }

    /// A $2006 write: the first sets the high 6 address bits of t (clearing bit 14),
    /// the second the low 8 and copies t into v; the toggle flips.
    pub open spec fn after_write_addr(self, val: u8) -> Ppu {
        let p = Ppu { last_bus_value: val, last_bus_write_tick: self.tick_count, ..self };
        if self.w == 0 {
            Ppu { t: ((self.t & 0x00FF) | ((val as u16) << 8u16)) & 0x3FFF, w: 1, ..p }
        } else {
            let t = (self.t & 0xFF00) | (val as u16);
            Ppu { t, v: t, w: 0, ..p }
        }
    }

    pub fn write_addr(&mut self, val: u8)
        requires
            old(self).wf(),
        ensures
            *final(self) == old(self).after_write_addr(val),
            final(self).wf(),
    {
        self.set_last_bus_value(val);
        if self.w == 0 {
            self.t = ((self.t & 0x00FF) | ((val as u16) << 8)) & 0x3FFF;
            self.w = 1;
        } else {
            self.t = (self.t & 0xFF00) | val as u16;
            self.v = self.t;
            self.w = 0;
        }
    }

    /// A $2007 write stores at v (pattern writes go to the board), and v steps.
    pub open spec fn after_write_data(self, val: u8, m: Mapper) -> Ppu {
        let a = self.v & 0x3FFF;
        let p = Ppu { last_bus_value: val, last_bus_write_tick: self.tick_count, ..self };
        let q = if a < 0x2000 { p } else { p.after_write_nt(a, val, m.spec_mirroring()) };
        Ppu { v: self.v.wrapping_add(self.vram_increment()), ..q }
    }

    pub fn write_data(&mut self, val: u8, mapper: &mut Mapper)
        requires
            old(mapper).ppu_wf(),
            old(self).wf(),
        ensures
            *final(self) == old(self).after_write_data(val, *old(mapper)),
            (old(self).v & 0x3FFF) < 0x2000 ==> old(mapper).after_ppu_write(
                old(self).v & 0x3FFF,
                val,
                *final(mapper),
            ),
            (old(self).v & 0x3FFF) >= 0x2000 ==> *final(mapper) == *old(mapper),
            final(mapper).ppu_wf(),
            old(mapper).wf() ==> final(mapper).wf(),
            final(self).wf(),
    {
        self.set_last_bus_value(val);
        let addr = self.v & 0x3FFF;
        if addr < 0x2000 {
            mapper.ppu_write(addr, val);
        } else {
            self.ppu_write_nt(addr, val, mapper.mirroring());
        }
        let inc: u16 = if self.ctrl & 0x04 != 0 { 32 } else { 1 };
        self.v = self.v.wrapping_add(inc);
    }
}


// ---------------------------------------------------------------------------
// Rendering
// ---------------------------------------------------------------------------
/// 2-bit pattern value of column `px` (0 = leftmost) in a pattern row given by its
/// two bit planes.
pub open spec fn pattern_bits(lo: u8, hi: u8, px: u16) -> u8 {
    let shift = (7 - px) as u16;
    (((hi >> shift) & 1) << 1u8) | ((lo >> shift) & 1)
}

/// The pattern value of column `px` from the planes: 1 when the low plane has the
/// column's bit (bit 7 for the leftmost column), plus 2 when the high plane has it.
pub open spec fn plane_sum(lo: u8, hi: u8, px: u16) -> int {
    (if lo & (0x80u8 >> px) != 0 { 1u8 } else { 0u8 }) + (if hi & (0x80u8 >> px) != 0 { 2u8 } else { 0u8 })
}

/// The two bit planes of a pattern row: the low plane (the byte at the tile row's
/// address) gives bit 0 of the column's pattern value and the high plane (the byte
/// 8 further on) gives bit 1; column 0 is the leftmost, the planes' bit 7.
pub proof fn lemma_pattern_planes(lo: u8, hi: u8, px: u16)
    requires
        px < 8,
    ensures
        pattern_bits(lo, hi, px) == plane_sum(lo, hi, px),
        pattern_bits(lo, 0, px) == (if lo & (0x80u8 >> px) != 0 { 1u8 } else { 0u8 }),
        pattern_bits(0, hi, px) == (if hi & (0x80u8 >> px) != 0 { 2u8 } else { 0u8 }),
        pattern_bits(lo, hi, px) < 4,
{
    assert((((((hi >> ((7 - px) as u16)) & 1) << 1u8) | ((lo >> ((7 - px) as u16)) & 1)) == (if lo & (0x80u8
        >> px) != 0 { 1u8 } else { 0u8 }) + (if hi & (0x80u8 >> px) != 0 { 2u8 } else { 0u8 })) && (((((0u8 >> ((7
        - px) as u16)) & 1) << 1u8) | ((lo >> ((7 - px) as u16)) & 1)) == (if lo & (0x80u8 >> px) != 0 { 1u8 } else {
        0u8 })) && (((((hi >> ((7 - px) as u16)) & 1) << 1u8) | ((0u8 >> ((7 - px) as u16)) & 1)) == (if hi & (0x80u8
        >> px) != 0 { 2u8 } else { 0u8 })) && (((((hi >> ((7 - px) as u16)) & 1) << 1u8) | ((lo >> ((7 - px) as u16))
        & 1)) < 4)) by (bit_vector)
        requires
            px < 8,
    ;
}

fn pattern_value(lo: u8, hi: u8, px: u16) -> (r: u8)
    requires
        px < 8,
    ensures
        r == pattern_bits(lo, hi, px),
        r == plane_sum(lo, hi, px),
        r < 4,
{
    proof {
        lemma_pattern_planes(lo, hi, px);
    }
    let shift = 7 - px;
    assert(((((hi >> shift) & 1) << 1u8) | ((lo >> shift) & 1)) < 4) by (bit_vector)
        requires shift < 8;
    (((hi >> shift) & 1) << 1) | ((lo >> shift) & 1)
}

impl Ppu {
    /// Background pixel at screen position (x, y) from the scroll snapshot
    /// (`render_v`, `render_fine_x`): its 2-bit pattern value and palette entry
    /// (entry 0 for a transparent pixel). Scrolling past the right edge moves to the
    /// horizontally adjacent nametable, past row 29 to the vertically adjacent one.
    pub open spec fn spec_bg_pixel(&self, x: u16, y: u16, m: Mapper) -> (u8, u8) {
        let rv = self.render_v;
        let world_x = (((rv & 0x1F) << 3u16) + (self.render_fine_x as u16) + x) as u16;
        let world_y = ((((rv >> 5u16) & 0x1F) << 3u16) + ((rv >> 12u16) & 7) + y) as u16;
        let row = world_y >> 3u16;
        let nt0 = (rv >> 10u16) & 3;
        let nt1 = if (world_x >> 8u16) & 1 != 0 { nt0 ^ 1 } else { nt0 };
        let nt = if (row / 30) & 1 != 0 { nt1 ^ 2 } else { nt1 };
        let tile_x = (world_x >> 3u16) & 31;
        let tile_y = (row % 30) & 31;
        let nt_base = 0x2000u16 | (nt << 10u16);
        let mir = m.spec_mirroring();
        let tile = self.spec_read_nt(nt_base | (tile_y << 5u16) | tile_x, mir);
        let table: u16 = if self.ctrl & 0x10 != 0 { 0x1000 } else { 0 };
        let addr = table | ((tile as u16) << 4u16) | (world_y & 7);
        let pixel = pattern_bits(m.spec_ppu_read(addr), m.spec_ppu_read(addr | 8), world_x & 7);
        if pixel == 0 {
            (0, self.palette[0])
        } else {
            let attr = self.spec_read_nt(
                nt_base | 0x03C0 | ((tile_y >> 2u16) << 3u16) | (tile_x >> 2u16),
                mir,
            );
            let s = (((tile_x >> 1u16) & 1) << 1u16) | (((tile_y >> 1u16) & 1) << 2u16);
            let group = (attr >> s) & 3;
            (pixel, self.palette[group * 4 + pixel])
        }
    }

    fn compute_bg_pixel(&self, x: u16, y: u16, mapper: &mut Mapper) -> (r: (u8, u8))
        requires
            old(mapper).ppu_wf(),
            x < 256,
            y < 240,
            self.render_fine_x < 8,
        ensures
            r == self.spec_bg_pixel(x, y, *old(mapper)),
            r.0 < 4,
            *final(mapper) == *old(mapper),
    {
        let rv = self.render_v;
        let coarse_x = rv & 0x001F;
        let coarse_y = (rv >> 5) & 0x001F;
        let fine_y = (rv >> 12) & 0x0007;
        let nt = (rv >> 10) & 0x0003;
        proof {
            crate::bits::lemma_word_bits(rv);
        }
        let world_x = (coarse_x << 3) + self.render_fine_x as u16 + x;
        let world_y = (coarse_y << 3) + fine_y + y;
        let mirroring = mapper.mirroring();
        let mut actual_nt = nt;
        if (world_x >> 8) & 1 != 0 {
            actual_nt = actual_nt ^ 1;
        }
        let coarse_y_calc = world_y >> 3;
        if (coarse_y_calc / 30) & 1 != 0 {
            actual_nt = actual_nt ^ 2;
        }
        let tile_x = (world_x >> 3) & 31;
        let tile_y = (coarse_y_calc % 30) & 31;
        let pixel_x = world_x & 7;
        let pixel_y = world_y & 7;
        proof {
            crate::bits::lemma_word_bits(world_x);
        }
        let nt_base = 0x2000 | (actual_nt << 10);
        let nt_addr = nt_base | (tile_y << 5) | tile_x;
        let tile_index = self.ppu_read_nt(nt_addr, mirroring);
        let bg_table: u16 = if self.ctrl & 0x10 != 0 { 0x1000 } else { 0x0000 };
        let tile_addr = bg_table | ((tile_index as u16) << 4) | pixel_y;
        let low = mapper.ppu_read(tile_addr);
        let high = mapper.ppu_read(tile_addr | 0x0008);
        let pixel = pattern_value(low, high, pixel_x);
        if pixel == 0 {
            (0, self.palette[0])
        } else {
            let attr_addr = nt_base | 0x03C0 | ((tile_y >> 2) << 3) | (tile_x >> 2);
            let attr = self.ppu_read_nt(attr_addr, mirroring);
            let s = ((tile_x >> 1) & 1) << 1 | ((tile_y >> 1) & 1) << 2;
            proof {
                crate::bits::lemma_attr_shift(tile_x, tile_y);
                crate::bits::lemma_byte_bits(attr >> s);
            }
            let pal_group = (attr >> s) & 3;
            proof {
                crate::bits::lemma_palette_index(pal_group, pixel);
            }
            (pixel, self.palette[((pal_group as usize) << 2) | pixel as usize])
        }
    }

    pub open spec fn sprite_height(&self) -> u16 {
        if self.ctrl & 0x20 != 0 { 16 } else { 8 }
    }

    /// The 2-bit pattern value that sprite `idx` (an OAM slot) shows at column x of
    /// the current scanline, 0 where it does not cover x. Attribute bit 7 flips it
    /// vertically and bit 6 horizontally; 8x16 sprites take their pattern table from
    /// tile bit 0, 8x8 sprites from PPUCTRL bit 3.
    pub open spec fn spec_sprite_value(&self, idx: int, x: u16, m: Mapper) -> u8 {
        let sy = self.oam[idx * 4] as u16;
        let tile = self.oam[idx * 4 + 1] as u16;
        let attr = self.oam[idx * 4 + 2];
        let sx = self.oam[idx * 4 + 3] as u16;
        if x < sx || x >= sx + 8 {
            0
        } else {
            let use16 = self.ctrl & 0x20 != 0;
            let sy_off = (self.scanline.wrapping_sub(sy)) as u8;
            let h: u8 = if use16 { 16 } else { 8 };
            let py: u8 = if attr & 0x80 != 0 { h.wrapping_sub(1).wrapping_sub(sy_off) } else { sy_off };
            let dx = (x - sx) as u8;
            let px: u8 = if attr & 0x40 != 0 { (7 - dx) as u8 } else { dx };
            let addr: u16 = if use16 {
                let bank: u16 = if tile & 1 != 0 { 0x1000 } else { 0 };
                let bottom: u16 = if py >= 8 { 1 } else { 0 };
                bank | ((((tile & 0xFE) + bottom) as u16) << 4u16) | ((py & 7) as u16)
            } else {
                let bank: u16 = if self.ctrl & 0x08 != 0 { 0x1000 } else { 0 };
                bank | (tile << 4u16) | (py as u16)
            };
            pattern_bits(m.spec_ppu_read(addr), m.spec_ppu_read(addr | 8), px as u16)
        }
    }

    /// Sprite compositing over the selected sprites from slot `si` on: the first one
    /// with an opaque pixel at x wins; it shows its sprite-palette colour unless its
    /// priority bit puts it behind an opaque background pixel. The second value is
    /// that pixel when the winner is OAM sprite 0, else 0.
    pub open spec fn spec_sprite_pixel_from(&self, si: int, x: u16, bg_pixel: u8, bg_color: u8, m: Mapper) -> (u8, u8)
        decreases 8 - si,
    {
        if si < 0 || si >= self.sprite_count || si >= 8 {
            (bg_color, 0)
        } else {
            let idx = self.sprite_indices[si] as int;
            let p = self.spec_sprite_value(idx, x, m);
            if p == 0 {
                self.spec_sprite_pixel_from(si + 1, x, bg_pixel, bg_color, m)
            } else {
                let attr = self.oam[idx * 4 + 2];
                let sp0: u8 = if idx == 0 { p } else { 0 };
                if attr & 0x20 != 0 && bg_pixel != 0 {
                    (bg_color, sp0)
                } else {
                    (self.palette[0x10 + (attr & 3) * 4 + p], sp0)
                }
            }
        }
    }

    fn sprite_value(&self, idx: u8, x: u16, mapper: &mut Mapper) -> (r: u8)
        requires
            old(mapper).ppu_wf(),
            idx < 64,
        ensures
            r == self.spec_sprite_value(idx as int, x, *old(mapper)),
            r < 4,
            *final(mapper) == *old(mapper),
    {
        let oi = idx as usize * 4;
        let sy = self.oam[oi] as u16;
        let tile = self.oam[oi + 1] as u16;
        let attr = self.oam[oi + 2];
        let sx = self.oam[oi + 3] as u16;
        if x < sx || x >= sx + 8 {
            return 0;
        }
        let use_16 = self.ctrl & 0x20 != 0;
        let sprite_h: u8 = if use_16 { 16 } else { 8 };
        let sy_off = self.scanline.wrapping_sub(sy) as u8;
        let pixel_y = if attr & 0x80 != 0 {
            sprite_h.wrapping_sub(1).wrapping_sub(sy_off)
        } else {
            sy_off
        };
        let dx = (x - sx) as u8;
        let pixel_x: u8 = if attr & 0x40 != 0 { 7 - dx } else { dx };
        let tile_addr: u16 = if use_16 {
            let bank: u16 = if tile & 1 != 0 { 0x1000 } else { 0x0000 };
            let base_tile = tile & 0xFE;
            let bottom: u16 = if pixel_y >= 8 { 1 } else { 0 };
            proof {
                crate::bits::lemma_word_bits(tile);
            }
            let fine_y = pixel_y & 7;
            bank | ((base_tile + bottom) << 4) | fine_y as u16
        } else {
            let bank: u16 = if self.ctrl & 0x08 != 0 { 0x1000 } else { 0x0000 };
            bank | (tile << 4) | pixel_y as u16
        };
        let low = mapper.ppu_read(tile_addr);
        let high = mapper.ppu_read(tile_addr | 8);
        pattern_value(low, high, pixel_x as u16)
    }

    fn render_sprite_pixel(&self, x: u16, bg_pixel: u8, bg_color: u8, mapper: &mut Mapper) -> (r: (u8, u8))
        requires
            old(mapper).ppu_wf(),
            self.wf(),
        ensures
            r == self.spec_sprite_pixel_from(0, x, bg_pixel, bg_color, *old(mapper)),
            *final(mapper) == *old(mapper),
    {
        let ghost m0 = *mapper;
        let mut si: u8 = 0;
        while si < self.sprite_count
            invariant
                self.wf(),
                si <= self.sprite_count,
                *mapper == m0,
                m0 == *old(mapper),
                m0.ppu_wf(),
                self.spec_sprite_pixel_from(0, x, bg_pixel, bg_color, m0)
                    == self.spec_sprite_pixel_from(si as int, x, bg_pixel, bg_color, m0),
            decreases self.sprite_count - si,
        {
            let idx = self.sprite_indices[si as usize];
            assert(self.sprite_indices[si as int] < 64);
            let pixel = self.sprite_value(idx, x, mapper);
            if pixel != 0 {
                let attr = self.oam[idx as usize * 4 + 2];
                let sp0_here: u8 = if idx == 0 { pixel } else { 0 };
                let behind = attr & 0x20 != 0;
                let pal = attr & 0x03;
                proof {
                    crate::bits::lemma_byte_bits(attr);
                    crate::bits::lemma_palette_index(pal, pixel);
                }
                assert(pal == attr & 3);
                let colour = if behind && bg_pixel != 0 {
                    bg_color
                } else {
                    self.palette[0x10 | ((pal as usize) << 2) | pixel as usize]
                };
                return (colour, sp0_here);
            }
            si = si + 1;
        }
        (bg_color, 0)
    }

    /// The PPU after drawing the pixel at (x, y): background (unless hidden, or
    /// clipped in the leftmost 8 columns), sprites composited over it when shown,
    /// and the sprite-0 hit flag raised the first time an opaque sprite-0 pixel meets
    /// an opaque background pixel (never in column 255).
    pub open spec fn after_render_pixel(self, x: u16, y: u16, m: Mapper) -> Ppu {
        let bg = if self.mask & 0x08 == 0 || (self.mask & 0x02 == 0 && x < 8) {
            (0u8, self.palette[0])
        } else {
            self.spec_bg_pixel(x, y, m)
        };
        let at = y * 256 + x;
        if self.mask & 0x10 != 0 && (self.mask & 0x04 != 0 || x >= 8) {
            let sp = self.spec_sprite_pixel_from(0, x, bg.0, bg.1, m);
            let hit = sp.1 != 0 && bg.0 != 0 && x != 255 && self.sprite_zero_hit_possible;
            Ppu {
                status: if hit { self.status | 0x40 } else { self.status },
                sprite_zero_hit_possible: self.sprite_zero_hit_possible && !hit,
                frame: vstd::array::spec_array_update(self.frame, at, sp.0),
                ..self
            }
        } else {
            Ppu { frame: vstd::array::spec_array_update(self.frame, at, bg.1), ..self }
        }
    }

    #[verifier::spinoff_prover]
    #[verifier::rlimit(60)]
    fn render_pixel(&mut self, x: u16, y: u16, mapper: &mut Mapper)
        requires
            old(mapper).ppu_wf(),
            old(self).wf(),
            x < 256,
            y < 240,
        ensures
            *final(self) == old(self).after_render_pixel(x, y, *old(mapper)),
            *final(mapper) == *old(mapper),
            final(self).wf(),
    {
        proof {
            crate::bits::lemma_byte_bits(self.status);
        }
        let bg_enabled = self.mask & 0x08 != 0;
        let show_left = self.mask & 0x02 != 0;
        let (bg_pixel, bg_colour) = if !bg_enabled || (!show_left && x < 8) {
            (0u8, self.palette[0])
        } else {
            self.compute_bg_pixel(x, y, mapper)
        };
        let at = (y as usize) * 256 + (x as usize);
        if self.mask & 0x10 != 0 && (self.mask & 0x04 != 0 || x >= 8) {
            let (sprite_colour, sp0_pixel) = self.render_sprite_pixel(x, bg_pixel, bg_colour, mapper);
            if sp0_pixel != 0 && bg_pixel != 0 && x != 255 && self.sprite_zero_hit_possible {
                self.status = self.status | 0x40;
                self.sprite_zero_hit_possible = false;
            }
            self.frame[at] = sprite_colour;
        } else {
            self.frame[at] = bg_colour;
        }
    }
}


// ---------------------------------------------------------------------------
// Tile fetch and sprite evaluation
// ---------------------------------------------------------------------------
impl Ppu {
    /// The fetch for one background tile: nametable byte, its 2-bit attribute, and
    /// the two pattern bytes of row `fine_y`.
    pub open spec fn spec_tile_pattern(&self, tile_x: u16, tile_y: u16, fine_y: u16, nt: u16, m: Mapper) -> (u8, u8, u8, u8) {
        let mir = m.spec_mirroring();
        let nt_base = 0x2000u16 | (nt << 10u16);
        let nt_byte = self.spec_read_nt(nt_base | (tile_y << 5u16) | tile_x, mir);
        let attr = self.spec_read_nt(nt_base | 0x03C0 | ((tile_y >> 2u16) << 3u16) | (tile_x >> 2u16), mir);
        let attr_bits = (attr >> (((tile_x & 2) >> 1u16) | ((tile_y & 2) << 1u16))) & 3;
        let table: u16 = if self.ctrl & 0x10 != 0 { 0x1000 } else { 0 };
        let addr = table | ((nt_byte as u16) << 4u16) | fine_y;
        (nt_byte, attr_bits, m.spec_ppu_read(addr), m.spec_ppu_read(addr | 8))
    }

    fn fetch_tile_pattern(&self, tile_x: u16, tile_y: u16, fine_y: u16, nt: u16, mapper: &mut Mapper) -> (r: (u8, u8, u8, u8))
        requires
            old(mapper).ppu_wf(),
        ensures
            r == self.spec_tile_pattern(tile_x, tile_y, fine_y, nt, *old(mapper)),
            *final(mapper) == *old(mapper),
    {
        let mirroring = mapper.mirroring();
        let nt_base = 0x2000 | (nt << 10);
        let nt_byte = self.ppu_read_nt(nt_base | (tile_y << 5) | tile_x, mirroring);
        let attr = self.ppu_read_nt(nt_base | 0x03C0 | ((tile_y >> 2) << 3) | (tile_x >> 2), mirroring);
        let attr_shift = ((tile_x & 2) >> 1) | ((tile_y & 2) << 1);
        proof {
            crate::bits::lemma_attr_shift(tile_x, tile_y);
        }
        let attr_bits = (attr >> attr_shift) & 3;
        let bg_table: u16 = if self.ctrl & 0x10 != 0 { 0x1000 } else { 0x0000 };
        let tile_addr = bg_table | ((nt_byte as u16) << 4) | fine_y;
        let pat_low = mapper.ppu_read(tile_addr);
        let pat_high = mapper.ppu_read(tile_addr | 0x0008);
        (nt_byte, attr_bits, pat_low, pat_high)
    }

    /// Loads the tile at v into the upper halves of the background shift registers.
    pub open spec fn after_fetch_bg_tile(self, m: Mapper) -> Ppu {
        let v = self.v;
        let f = self.spec_tile_pattern(v & 0x1F, (v >> 5u16) & 0x1F, (v >> 12u16) & 7, (v >> 10u16) & 3, m);
        Ppu {
            bg_shift_low: (self.bg_shift_low & 0x00FF) | ((f.2 as u16) << 8u16),
            bg_shift_high: (self.bg_shift_high & 0x00FF) | ((f.3 as u16) << 8u16),
            bg_attr_shift_low: (self.bg_attr_shift_low & 0x00FF) | (((f.1 & 1) as u16) << 8u16),
            bg_attr_shift_high: (self.bg_attr_shift_high & 0x00FF) | ((((f.1 >> 1u8) & 1) as u16) << 8u16),
            ..self
        }
    }

    fn fetch_bg_tile(&mut self, mapper: &mut Mapper)
        requires
            old(mapper).ppu_wf(),
        ensures
            *final(self) == old(self).after_fetch_bg_tile(*old(mapper)),
            *final(mapper) == *old(mapper),
    {
        let tile_x = self.v & 0x001F;
        let tile_y = (self.v >> 5) & 0x001F;
        let fine_y = (self.v >> 12) & 0x0007;
        let nt = (self.v >> 10) & 0x0003;
        let (_, attr_bits, pat_low, pat_high) = self.fetch_tile_pattern(tile_x, tile_y, fine_y, nt, mapper);
        self.bg_shift_low = (self.bg_shift_low & 0x00FF) | ((pat_low as u16) << 8);
        self.bg_shift_high = (self.bg_shift_high & 0x00FF) | ((pat_high as u16) << 8);
        self.bg_attr_shift_low = (self.bg_attr_shift_low & 0x00FF) | (((attr_bits & 1) as u16) << 8);
        self.bg_attr_shift_high = (self.bg_attr_shift_high & 0x00FF) | ((((attr_bits >> 1) & 1) as u16) << 8);
    }

    /// Sprite `i` (an OAM slot) covers scanline `sl`.
    pub open spec fn sprite_on_line(&self, i: int, sl: u16) -> bool {
        let sy = self.oam[i * 4] as int;
        sy <= sl && sl < sy + self.sprite_height()
    }

    /// The OAM slots among the first `n` whose sprites cover scanline `sl`, in OAM order.
    pub open spec fn sprites_on_line(&self, sl: u16, n: int) -> Seq<u8>
        decreases n,
    {
        if n <= 0 {
            seq![]
        } else {
            let s = self.sprites_on_line(sl, n - 1);
            if self.sprite_on_line(n - 1, sl) { s.push((n - 1) as u8) } else { s }
        }
    }

    /// The sprites for scanline `sl` are the first eight (in OAM order) that cover it;
    /// a ninth raises the sprite-overflow flag.
    pub open spec fn evaluated_for(&self, sl: u16, o: &Ppu) -> bool {
        let hits = self.sprites_on_line(sl, 64);
        &&& o.sprite_count == (if hits.len() < 8 { hits.len() } else { 8 })
        &&& forall|k: int| 0 <= k < o.sprite_count ==> #[trigger] o.sprite_indices[k] == hits[k]
        &&& forall|k: int| o.sprite_count <= k < 8 ==> #[trigger] o.sprite_indices[k] == self.sprite_indices[k]
        &&& o.status == (if hits.len() > 8 { self.status | 0x20 } else { self.status })
    }

    /// The pattern address fetched for sprite slot `si` (its tile, or $FF for an empty
    /// slot): the table from PPUCTRL bit 3, or from the tile's bit 0 for 8x16 sprites.
    /// The second fetch of the slot is at this address | 8.
    pub open spec fn sprite_fetch_addr(&self, si: int) -> u16 {
        let tile: u16 = if si < self.sprite_count {
            self.oam[self.sprite_indices[si] * 4 + 1] as u16
        } else {
            0xFF
        };
        if self.ctrl & 0x20 != 0 {
            let bank: u16 = if tile & 1 != 0 { 0x1000 } else { 0x0000 };
            bank | ((tile & 0xFE) << 4u16)
        } else {
            let bank: u16 = if self.ctrl & 0x08 != 0 { 0x1000 } else { 0x0000 };
            bank | (tile << 4u16)
        }
    }

    /// The PPU (its A12 tracking) and the board after the pattern fetches of the first
    /// `k` sprite slots of `p`, two per slot, each as `after_a12` and `mapper_after_a12`.
    pub open spec fn after_sprite_fetches(p: Ppu, m: Mapper, k: int) -> (Ppu, Mapper)
        decreases k,
    {
        if k <= 0 {
            (p, m)
        } else {
            let prev = Self::after_sprite_fetches(p, m, k - 1);
            let a = p.sprite_fetch_addr(k - 1);
            let q1 = prev.0.after_a12(a);
            let n1 = prev.0.mapper_after_a12(a, prev.1);
            (q1.after_a12(a | 8), q1.mapper_after_a12(a | 8, n1))
        }
    }

    /// The sprite evaluation for scanline `sl` from `b` with the board in `m`, giving
    /// `q` and `n`: the sprites selected as `evaluated_for` says and, while rendering,
    /// the eight slots' pattern fetches (`after_sprite_fetches`); with rendering off
    /// nothing is fetched.
    pub open spec fn sprites_evaluated(b: Ppu, sl: u16, m: Mapper, q: Ppu, n: Mapper) -> bool {
        let e = Ppu { sprite_count: q.sprite_count, sprite_indices: q.sprite_indices, status: q.status, ..b };
        &&& b.evaluated_for(sl, &e)
        &&& if b.spec_rendering_enabled() {
            (q, n) == Self::after_sprite_fetches(e, m, 8)
        } else {
            q == e && n == m
        }
    }

    proof fn lemma_hits_bound(&self, sl: u16, n: int)
        requires
            0 <= n <= 64,
        ensures
            self.sprites_on_line(sl, n).len() <= n,
            forall|k: int| 0 <= k < self.sprites_on_line(sl, n).len() ==> #[trigger] self.sprites_on_line(sl, n)[k] < n,
        decreases n,
    {
        if n > 0 {
            self.lemma_hits_bound(sl, n - 1);
        }
    }

    proof fn lemma_hits_same(&self, o: &Ppu, sl: u16, n: int)
        requires
            self.oam == o.oam,
            self.ctrl == o.ctrl,
        ensures
            self.sprites_on_line(sl, n) == o.sprites_on_line(sl, n),
        decreases n,
    {
        if n > 0 {
            self.lemma_hits_same(o, sl, n - 1);
        }
    }

    fn select_sprites(&mut self, sl: u16)
        requires
            old(self).wf(),
        ensures
            final(self).wf(),
            old(self).evaluated_for(sl, &*final(self)),
            *final(self) == (Ppu {
                sprite_count: final(self).sprite_count,
                sprite_indices: final(self).sprite_indices,
                status: final(self).status,
                ..*old(self)
            }),
    {
        let ghost s0 = *self;
        self.sprite_count = 0;
        let sprite_h: u16 = if self.ctrl & 0x20 != 0 { 16 } else { 8 };
        let mut i: usize = 0;
        while i < 64
            invariant
                0 <= i <= 64,
                self.wf(),
                self.oam == s0.oam,
                self.ctrl == s0.ctrl,
                sprite_h == s0.sprite_height(),
                *self == (Ppu {
                    sprite_count: self.sprite_count,
                    sprite_indices: self.sprite_indices,
                    status: self.status,
                    ..s0
                }),
                self.sprite_count == (if s0.sprites_on_line(sl, i as int).len() < 8 {
                    s0.sprites_on_line(sl, i as int).len()
                } else {
                    8
                }),
                forall|k: int| 0 <= k < self.sprite_count ==> #[trigger] self.sprite_indices[k] == s0.sprites_on_line(sl, i as int)[k],
                forall|k: int| self.sprite_count <= k < 8 ==> #[trigger] self.sprite_indices[k] == s0.sprite_indices[k],
                self.status == (if s0.sprites_on_line(sl, i as int).len() > 8 { s0.status | 0x20 } else { s0.status }),
            decreases 64 - i,
        {
            proof {
                s0.lemma_hits_bound(sl, i as int);
            }
            let sy = self.oam[i * 4] as u16;
            if sy <= sl && sl < sy + sprite_h {
                if self.sprite_count < 8 {
                    let c = self.sprite_count;
                    self.sprite_indices[c as usize] = i as u8;
                    self.sprite_count = c + 1;
                } else {
                    let st = self.status;
                    let ghost s0s = s0.status;
                    proof {
                        crate::bits::lemma_byte_bits(s0s);
                    }
                    self.status = st | 0x20;
                }
            }
            i = i + 1;
        }
    }

    /// The pattern fetches of the eight sprite slots (tile $FF for empty slots) put
    /// the sprite pattern table on the bus, clocking A12-counting boards.
    #[verifier::spinoff_prover]
    #[verifier::rlimit(60)]
    fn fetch_sprite_patterns(&mut self, mapper: &mut Mapper)
        requires
            old(self).wf(),
            old(mapper).ppu_wf(),
        ensures
            final(self).wf(),
            final(mapper).ppu_wf(),
            old(mapper).wf() ==> final(mapper).wf(),
            old(mapper).clocks_to(*final(mapper)),
            *final(self) == (Ppu {
                prev_a12: final(self).prev_a12,
                a12_low_cycles: final(self).a12_low_cycles,
                ..*old(self)
            }),
            (*final(self), *final(mapper)) == Self::after_sprite_fetches(*old(self), *old(mapper), 8),
    {
        let ghost s0 = *self;
        let ghost m0 = *mapper;
        proof {
            crate::mapper::lemma_clocks_to_step(m0);
        }
        let use_16 = self.ctrl & 0x20 != 0;
        let mut si: u8 = 0;
        while si < 8
            invariant
                si <= 8,
                self.wf(),
                mapper.ppu_wf(),
                m0.wf() ==> mapper.wf(),
                m0.clocks_to(*mapper),
                use_16 == (s0.ctrl & 0x20 != 0),
                *self == (Ppu { prev_a12: self.prev_a12, a12_low_cycles: self.a12_low_cycles, ..s0 }),
                (*self, *mapper) == Self::after_sprite_fetches(s0, m0, si as int),
            decreases 8 - si,
        {
            let tile: u16 = if si < self.sprite_count {
                assert(self.sprite_indices[si as int] < 64);
                let idx = self.sprite_indices[si as usize] as usize;
                self.oam[idx * 4 + 1] as u16
            } else {
                0xFF
            };
            let addr: u16 = if use_16 {
                let bank: u16 = if tile & 1 != 0 { 0x1000 } else { 0x0000 };
                bank | ((tile & 0xFE) << 4)
            } else {
                let bank: u16 = if self.ctrl & 0x08 != 0 { 0x1000 } else { 0x0000 };
                bank | (tile << 4)
            };
            assert(addr == s0.sprite_fetch_addr(si as int));
            let ghost ma = *mapper;
            let _ = self.chr_read(addr, mapper);
            proof {
                crate::mapper::lemma_clocks_to_step(ma);
                crate::mapper::lemma_clocks_to_trans(m0, ma, *mapper);
            }
            let ghost mb = *mapper;
            let _ = self.chr_read(addr | 8, mapper);
            proof {
                crate::mapper::lemma_clocks_to_step(mb);
                crate::mapper::lemma_clocks_to_trans(m0, mb, *mapper);
                assert(Self::after_sprite_fetches(s0, m0, si + 1) == (*self, *mapper));
            }
            si = si + 1;
        }
    }

    /// Selects the sprites for scanline `sl` and, while rendering, performs their
    /// pattern fetches.
    fn evaluate_sprites_for(&mut self, sl: u16, mapper: &mut Mapper)
        requires
            old(self).wf(),
            old(mapper).ppu_wf(),
        ensures
            final(self).wf(),
            final(mapper).ppu_wf(),
            old(mapper).wf() ==> final(mapper).wf(),
            old(mapper).clocks_to(*final(mapper)),
            old(self).evaluated_for(sl, &*final(self)),
            *final(self) == (Ppu {
                sprite_count: final(self).sprite_count,
                sprite_indices: final(self).sprite_indices,
                status: final(self).status,
                prev_a12: final(self).prev_a12,
                a12_low_cycles: final(self).a12_low_cycles,
                ..*old(self)
            }),
            Self::sprites_evaluated(*old(self), sl, *old(mapper), *final(self), *final(mapper)),
    {
        self.select_sprites(sl);
        if self.rendering_enabled() {
            self.fetch_sprite_patterns(mapper);
        } else {
            proof {
                crate::mapper::lemma_clocks_to_step(*mapper);
            }
        }
    }
}


// ---------------------------------------------------------------------------
// The dot clock
// ---------------------------------------------------------------------------
/// Setting the sprite-0 hit or overflow flag leaves the other status bits alone.
proof fn lemma_status_flags(s: u8)
    ensures
        (s | 0x40) & 0x9F == s & 0x9F,
        (s | 0x20) & 0x9F == s & 0x9F,
{
    crate::bits::lemma_byte_bits(s);
}

impl Ppu {
    /// Position of the current dot within the frame.
    pub open spec fn dot_index(&self) -> int {
        self.scanline * 341 + self.cycle
    }

    /// (scanline, cycle, odd_frame, frame_complete) after one dot. Dot 340 ends the
    /// line; the line after 261 is 0 of the next frame, which toggles the odd-frame
    /// flag and marks the frame complete. On odd frames with rendering enabled the
    /// last dot of the pre-render line is skipped.
    pub open spec fn tick_position(&self) -> (u16, u16, bool, bool) {
        if self.cycle >= 340 {
            if self.scanline + 1 >= TOTAL_SCANLINES {
                (0, 0, !self.odd_frame, true)
            } else {
                ((self.scanline + 1) as u16, 0, self.odd_frame, self.frame_complete)
            }
        } else if self.scanline == PRERENDER_SCANLINE && self.cycle + 1 == 340 && self.odd_frame
            && self.spec_rendering_enabled() {
            (0, 0, !self.odd_frame, true)
        } else {
            (self.scanline, (self.cycle + 1) as u16, self.odd_frame, self.frame_complete)
        }
    }

    /// The registers and memories that only the CPU side changes are equal.
    pub open spec fn same_registers(&self, o: &Ppu) -> bool {
        &&& o.vram == self.vram
        &&& o.palette == self.palette
        &&& o.oam == self.oam
        &&& o.ctrl == self.ctrl
        &&& o.mask == self.mask
        &&& o.oam_addr == self.oam_addr
        &&& o.t == self.t
        &&& o.fine_x == self.fine_x
        &&& o.w == self.w
        &&& o.data_buffer == self.data_buffer
        &&& o.last_bus_value == self.last_bus_value
        &&& o.last_bus_write_tick == self.last_bus_write_tick
        &&& o.nmi_deferred_pending == self.nmi_deferred_pending
    }

    /// The NMI line state and the VBlank suppression are equal.
    pub open spec fn same_nmi_state(&self, o: &Ppu) -> bool {
        &&& o.nmi_latched == self.nmi_latched
        &&& o.nmi_output == self.nmi_output
        &&& o.nmi_from_vblank == self.nmi_from_vblank
        &&& o.vbl_suppressed == self.vbl_suppressed
    }

    /// `o` differs from `self` at most in what drawing a dot changes: v and its
    /// snapshot, the pixels, shift registers, sprite selection, A12 tracking, and
    /// the sprite-0 hit and overflow flags.
    pub open spec fn render_step(&self, o: &Ppu) -> bool {
        &&& self.same_registers(o)
        &&& self.same_nmi_state(o)
        &&& o.tick_count == self.tick_count
        &&& o.scanline == self.scanline
        &&& o.cycle == self.cycle
        &&& o.frame_complete == self.frame_complete
        &&& o.odd_frame == self.odd_frame
        &&& o.status & 0x9F == self.status & 0x9F
    }

    /// Dot 1 of scanline 241: unless a $2002 read suppressed it, VBlank rises (the
    /// overflow flag clears) and the NMI line is re-evaluated as a VBlank edge.
    pub open spec fn after_vblank_start(self) -> Ppu {
        if self.vbl_suppressed {
            Ppu { vbl_suppressed: false, ..self }
        } else {
            Ppu { status: (self.status | 0x80) & 0xDF, vbl_suppressed: false, ..self }.after_nmi_edge(true)
        }
    }

    /// Dot 1 of the pre-render line: VBlank, sprite-0 hit and overflow clear.
    pub open spec fn after_prerender_clear(self) -> Ppu {
        Ppu { status: self.status & 0x1F, ..self }.after_nmi_edge(false)
    }

    fn cycle1_vblank_set(&mut self)
        requires
            old(self).wf(),
        ensures
            *final(self) == old(self).after_vblank_start(),
            final(self).wf(),
    {
        if !self.vbl_suppressed {
            let st = self.status;
            proof {
                crate::bits::lemma_byte_bits(st);
            }
            self.status = (st | STATUS_VBLANK) & !STATUS_SPRITE_OVERFLOW;
            self.update_nmi_edge(true);
        }
        self.vbl_suppressed = false;
    }

    fn cycle1_prerender_clear(&mut self)
        requires
            old(self).wf(),
        ensures
            *final(self) == old(self).after_prerender_clear(),
            final(self).wf(),
    {
        let st = self.status;
        proof {
            crate::bits::lemma_byte_bits(st);
        }
        self.status = st & !(STATUS_VBLANK | STATUS_SPRITE0_HIT | STATUS_SPRITE_OVERFLOW);
        self.update_nmi_edge(false);
    }

    /// End of line: the position moves to dot 0 of the next line; entering the
    /// pre-render line re-arms sprite-0 hit, copies the vertical scroll (while
    /// rendering) and snapshots the scroll for the renderer.
    /// The end of a line: dot 0 of the next line (a new frame after line 261). Entering
    /// the pre-render line re-arms sprite-0 hit, copies the vertical scroll from t while
    /// rendering, and snapshots the scroll for the renderer.
    pub open spec fn after_line_end(self) -> Ppu {
        let wrap = self.scanline + 1 >= TOTAL_SCANLINES;
        let s = Ppu {
            cycle: 0,
            scanline: if wrap { 0 } else { (self.scanline + 1) as u16 },
            odd_frame: if wrap { !self.odd_frame } else { self.odd_frame },
            frame_complete: wrap || self.frame_complete,
            ..self
        };
        if s.scanline == PRERENDER_SCANLINE {
            let v = if s.spec_rendering_enabled() { copy_vertical_bits(s.v, s.t) } else { s.v };
            Ppu { sprite_zero_hit_possible: true, v, render_v: v, render_fine_x: s.fine_x, ..s }
        } else {
            s
        }
    }

    fn advance_scanline(&mut self, mapper: &mut Mapper)
        requires
            old(self).wf(),
            old(self).cycle >= 340,
        ensures
            final(self).wf(),
            *final(self) == old(self).after_line_end(),
            (final(self).scanline, final(self).cycle, final(self).odd_frame, final(self).frame_complete)
                == old(self).tick_position(),
            old(self).same_registers(&*final(self)),
            old(self).same_nmi_state(&*final(self)),
            final(self).tick_count == old(self).tick_count,
            final(self).status == old(self).status,
            *final(mapper) == *old(mapper),
    {
        self.cycle = 0;
        let ns = self.scanline + 1;
        if ns >= TOTAL_SCANLINES {
            self.scanline = 0;
            self.odd_frame = !self.odd_frame;
            self.frame_complete = true;
        } else {
            self.scanline = ns;
        }
        mapper.notify_scanline(self.scanline);
        if self.scanline == PRERENDER_SCANLINE {
            self.sprite_zero_hit_possible = true;
            if self.rendering_enabled() {
                self.copy_vertical();
            }
            self.render_v = self.v;
            self.render_fine_x = self.fine_x;
        }
    }

    /// On odd frames with rendering enabled, dot 340 of the pre-render line is skipped:
    /// the frame ends at once.
    fn handle_odd_frame_skip(&mut self, mapper: &mut Mapper) -> (r: bool)
        requires
            old(self).wf(),
        ensures
            r == (old(self).scanline == PRERENDER_SCANLINE && old(self).cycle == 340 && old(self).odd_frame
                && old(self).spec_rendering_enabled()),
            r ==> *final(self) == (Ppu {
                cycle: 0,
                scanline: 0,
                odd_frame: !old(self).odd_frame,
                frame_complete: true,
                sprite_zero_hit_possible: true,
                ..*old(self)
            }),
            !r ==> *final(self) == *old(self),
            *final(mapper) == *old(mapper),
            final(self).wf(),
    {
        if self.scanline == PRERENDER_SCANLINE && self.cycle == CYCLES_PER_LINE - 1 && self.odd_frame
            && self.rendering_enabled() {
            self.cycle = 0;
            self.scanline = 0;
            self.odd_frame = !self.odd_frame;
            self.frame_complete = true;
            self.sprite_zero_hit_possible = true;
            mapper.notify_scanline(0);
            return true;
        }
        false
    }

    /// Dots 1-256 of a rendering line (`cy` is the dot): every 8th dot, while
    /// rendering, fetches a background tile and steps coarse X; visible lines draw
    /// pixel `cy - 1`; dot 256, while rendering, steps the vertical scroll.
    pub open spec fn after_render_dot(self, cy: u16, m: Mapper) -> Ppu {
        let on = self.spec_rendering_enabled();
        let s1 = if on && cy & 7 == 1 {
            let f = self.after_fetch_bg_tile(m);
            Ppu { v: inc_coarse_x(f.v), ..f }
        } else {
            self
        };
        let s2 = if self.scanline < VISIBLE_SCANLINES {
            s1.after_render_pixel((cy - 1) as u16, self.scanline, m)
        } else {
            s1
        };
        if cy == 256 && on {
            Ppu { v: inc_coarse_y(s2.v), ..s2 }
        } else {
            s2
        }
    }

    /// Dots 1-256: every 8th dot (while rendering) fetches a background tile and
    /// steps coarse X; visible lines draw the pixel; dot 256 steps the vertical scroll.
    #[verifier::spinoff_prover]
    #[verifier::rlimit(40)]
    fn cycles_1_to_256(&mut self, cy: u16, mapper: &mut Mapper)
        requires
            old(self).wf(),
            old(mapper).ppu_wf(),
            1 <= cy <= 256,
        ensures
            final(self).wf(),
            *final(self) == old(self).after_render_dot(cy, *old(mapper)),
            old(self).render_step(&*final(self)),
            old(self).scanline >= VISIBLE_SCANLINES ==> final(self).status == old(self).status,
            *final(mapper) == *old(mapper),
    {
        let ghost s0 = *self;
        if self.rendering_enabled() && (cy & 7) == 1 {
            self.fetch_bg_tile(mapper);
            self.increment_coarse_x();
        }
        if self.scanline < VISIBLE_SCANLINES {
            let ghost s1 = *self;
            self.render_pixel(cy - 1, self.scanline, mapper);
            proof {
                lemma_status_flags(s1.status);
            }
        }
        if cy == 256 && self.rendering_enabled() {
            self.increment_coarse_y();
        }
    }

    /// Dot 257 while rendering: the horizontal scroll is copied from t into v and into
    /// the renderer's snapshot, with the snapshot's fine X.
    pub open spec fn after_scroll_copy(self) -> Ppu {
        if self.spec_rendering_enabled() {
            let v = copy_horizontal_bits(self.v, self.t);
            Ppu { v, render_v: (self.render_v & 0xFBE0) | (v & 0x041F), render_fine_x: self.fine_x, ..self }
        } else {
            self
        }
    }

    /// The line whose sprites dot 257 of line `sl` evaluates.
    pub open spec fn next_line(sl: u16) -> u16 {
        if sl == PRERENDER_SCANLINE { 0 } else { (sl + 1) as u16 }
    }

    /// Dot 257: while rendering, the horizontal scroll is copied from t and into the
    /// renderer's snapshot; then the sprites for the next line are evaluated.
    fn cycle257_copy_and_eval(&mut self, mapper: &mut Mapper)
        requires
            old(self).wf(),
            old(mapper).ppu_wf(),
        ensures
            final(self).wf(),
            old(self).after_scroll_copy().evaluated_for(Self::next_line(old(self).scanline), &*final(self)),
            *final(self) == (Ppu {
                sprite_count: final(self).sprite_count,
                sprite_indices: final(self).sprite_indices,
                status: final(self).status,
                prev_a12: final(self).prev_a12,
                a12_low_cycles: final(self).a12_low_cycles,
                ..old(self).after_scroll_copy()
            }),
            final(mapper).ppu_wf(),
            old(mapper).wf() ==> final(mapper).wf(),
            old(mapper).clocks_to(*final(mapper)),
            old(self).render_step(&*final(self)),
            Self::sprites_evaluated(old(self).after_scroll_copy(), Self::next_line(old(self).scanline), *old(mapper),
                *final(self), *final(mapper)),
    {
        if self.rendering_enabled() {
            self.copy_horizontal();
            let rv = self.render_v;
            proof {
                crate::bits::lemma_word_bits(rv);
            }
            self.render_v = (rv & !V_HORIZONTAL_MASK) | (self.v & V_HORIZONTAL_MASK);
            self.render_fine_x = self.fine_x;
        }
        let next_sl: u16 = if self.scanline == PRERENDER_SCANLINE { 0 } else { self.scanline + 1 };
        let ghost s1 = *self;
        self.evaluate_sprites_for(next_sl, mapper);
        proof {
            lemma_status_flags(s1.status);
        }
    }

    /// The dot counters: the tick count, and while A12 is low its low-time count
    /// (saturating at 255).
    pub open spec fn after_dot_counters(self) -> Ppu {
        Ppu {
            tick_count: self.tick_count.wrapping_add(1),
            a12_low_cycles: if !self.prev_a12 && self.a12_low_cycles < 255 {
                (self.a12_low_cycles + 1) as u8
            } else {
                self.a12_low_cycles
            },
            ..self
        }
    }

    /// Dot 257 of a rendering line, where the next line's sprites are evaluated.
    pub open spec fn is_sprite_eval_dot(&self) -> bool {
        &&& self.cycle == HORIZONTAL_COPY_CYCLE
        &&& (self.scanline < VISIBLE_SCANLINES || self.scanline == PRERENDER_SCANLINE)
    }

    /// One dot from this state with the cartridge in state `m`: the counters, then the
    /// line end, or the odd-frame skip, or the dot's VBlank event and rendering work.
    /// On a sprite-evaluation dot this is the state just before the evaluation.
    #[verifier::opaque]
    pub open spec fn after_dot(self, m: Mapper) -> Ppu {
        let s = self.after_dot_counters();
        let cy = self.cycle;
        let sl = self.scanline;
        if cy >= 340 {
            s.after_line_end()
        } else {
            let s1 = Ppu { cycle: (cy + 1) as u16, ..s };
            if sl == PRERENDER_SCANLINE && cy + 1 == 340 && self.odd_frame && self.spec_rendering_enabled() {
                Ppu {
                    cycle: 0,
                    scanline: 0,
                    odd_frame: !self.odd_frame,
                    frame_complete: true,
                    sprite_zero_hit_possible: true,
                    ..s1
                }
            } else {
                s1.after_dot_work(cy, m)
            }
        }
    }

    /// The work of dot `cy` once the cycle has advanced: the VBlank set or pre-render
    /// clear on dot 1, then on rendering lines the background and pixel work of dots
    /// 1-256 or the scroll copy of dot 257.
    #[verifier::opaque]
    pub open spec fn after_dot_work(self, cy: u16, m: Mapper) -> Ppu {
        let sl = self.scanline;
        let s2 = if cy == 1 && sl == VBLANK_START {
            self.after_vblank_start()
        } else if cy == 1 && sl == PRERENDER_SCANLINE {
            self.after_prerender_clear()
        } else {
            self
        };
        if sl < VISIBLE_SCANLINES || sl == PRERENDER_SCANLINE {
            if 1 <= cy && cy <= 256 {
                s2.after_render_dot(cy, m)
            } else if cy == HORIZONTAL_COPY_CYCLE {
                s2.after_scroll_copy()
            } else {
                s2
            }
        } else {
            s2
        }
    }

    fn dot_work(&mut self, cy: u16, mapper: &mut Mapper)
        requires
            old(self).wf(),
            old(mapper).ppu_wf(),
            cy < 340,
        ensures
            final(self).wf(),
            final(mapper).ppu_wf(),
            old(mapper).wf() ==> final(mapper).wf(),
            old(mapper).clocks_to(*final(mapper)),
            final(self).tick_count == old(self).tick_count,
            final(self).scanline == old(self).scanline,
            final(self).cycle == old(self).cycle,
            final(self).odd_frame == old(self).odd_frame,
            final(self).frame_complete == old(self).frame_complete,
            old(self).same_registers(&*final(self)),
            cy == 1 && old(self).scanline == VBLANK_START ==> {
                let e = old(self).after_vblank_start();
                final(self).status == e.status && e.same_nmi_state(&*final(self))
            },
            cy == 1 && old(self).scanline == PRERENDER_SCANLINE ==> {
                let e = old(self).after_prerender_clear();
                final(self).status == e.status && e.same_nmi_state(&*final(self))
            },
            !(cy == 1 && (old(self).scanline == VBLANK_START || old(self).scanline == PRERENDER_SCANLINE))
                ==> old(self).same_nmi_state(&*final(self)) && final(self).status & 0x9F == old(self).status
                & 0x9F,
            !(cy == HORIZONTAL_COPY_CYCLE && (old(self).scanline < VISIBLE_SCANLINES || old(self).scanline
                == PRERENDER_SCANLINE)) ==> *final(self) == old(self).after_dot_work(cy, *old(mapper))
                && *final(mapper) == *old(mapper),
            cy == HORIZONTAL_COPY_CYCLE && (old(self).scanline < VISIBLE_SCANLINES || old(self).scanline
                == PRERENDER_SCANLINE) ==> Self::sprites_evaluated(old(self).after_dot_work(cy, *old(mapper)),
                Self::next_line(old(self).scanline), *old(mapper), *final(self), *final(mapper)),
            cy == HORIZONTAL_COPY_CYCLE && (old(self).scanline < VISIBLE_SCANLINES || old(self).scanline
                == PRERENDER_SCANLINE) ==> {
                let b = old(self).after_dot_work(cy, *old(mapper));
                &&& b.evaluated_for(Self::next_line(old(self).scanline), &*final(self))
                &&& *final(self) == (Ppu {
                    sprite_count: final(self).sprite_count,
                    sprite_indices: final(self).sprite_indices,
                    status: final(self).status,
                    prev_a12: final(self).prev_a12,
                    a12_low_cycles: final(self).a12_low_cycles,
                    ..b
                })
            },
    {
        proof {
            crate::mapper::lemma_clocks_to_step(*mapper);
            reveal(Ppu::after_dot_work);
        }
        let sl = self.scanline;
        if cy == 1 {
            if sl == VBLANK_START {
                self.cycle1_vblank_set();
            } else if sl == PRERENDER_SCANLINE {
                self.cycle1_prerender_clear();
            }
        }
        if self.rendering_or_prerender() {
            if 1 <= cy && cy <= 256 {
                self.cycles_1_to_256(cy, mapper);
            }
            if cy == HORIZONTAL_COPY_CYCLE {
                self.cycle257_copy_and_eval(mapper);
            }
        }
    }

    #[verifier::rlimit(100)]
    fn dot(&mut self, mapper: &mut Mapper)
        requires
            old(self).wf(),
            old(mapper).ppu_wf(),
        ensures
            !old(self).is_sprite_eval_dot() ==> *final(self) == old(self).after_dot(*old(mapper))
                && *final(mapper) == *old(mapper),
            old(self).is_sprite_eval_dot() ==> Self::sprites_evaluated(old(self).after_dot(*old(mapper)),
                Self::next_line(old(self).scanline), *old(mapper), *final(self), *final(mapper)),
            old(self).is_sprite_eval_dot() ==> {
                let b = old(self).after_dot(*old(mapper));
                &&& b.evaluated_for(Self::next_line(old(self).scanline), &*final(self))
                &&& *final(self) == (Ppu {
                    sprite_count: final(self).sprite_count,
                    sprite_indices: final(self).sprite_indices,
                    status: final(self).status,
                    prev_a12: final(self).prev_a12,
                    a12_low_cycles: final(self).a12_low_cycles,
                    ..b
                })
            },
            final(self).wf(),
            final(mapper).ppu_wf(),
            old(mapper).wf() ==> final(mapper).wf(),
            old(mapper).clocks_to(*final(mapper)),
            final(self).tick_count == old(self).tick_count.wrapping_add(1),
            (final(self).scanline, final(self).cycle, final(self).odd_frame, final(self).frame_complete)
                == old(self).tick_position(),
    {
        proof {
            crate::mapper::lemma_clocks_to_step(*mapper);
        }
        let ghost s0 = *self;
        let ghost m0 = *mapper;
        self.tick_count = self.tick_count.wrapping_add(1);
        if self.tick_count == 1 {
            mapper.notify_scanline(0);
        }
        if !self.prev_a12 && self.a12_low_cycles < 255 {
            self.a12_low_cycles = self.a12_low_cycles + 1;
        }
        let ghost sc = *self;
        assert(sc == s0.after_dot_counters());
        let cy = self.cycle;
        if cy > CYCLES_PER_LINE - 2 {
            self.advance_scanline(mapper);
            assert(*self == s0.after_dot(m0)) by {
                reveal(Ppu::after_dot);
            }
            return;
        }
        self.cycle = cy + 1;
        let ghost s1 = *self;
        assert(s1 == (Ppu { cycle: (cy + 1) as u16, ..sc }));
        if self.handle_odd_frame_skip(mapper) {
            assert(*self == s0.after_dot(m0)) by {
                reveal(Ppu::after_dot);
            }
            return;
        }
        assert(s0.after_dot(m0) == s1.after_dot_work(cy, m0)) by {
            reveal(Ppu::after_dot);
        }
        self.dot_work(cy, mapper);
    }

    /// One dot from `p`, with the board in `m`, to `q`, with the board in `n`: exactly
    /// `after_dot`, except that on a sprite-evaluation dot the next line's sprites are
    /// selected (`evaluated_for`), the A12 tracking follows the pattern fetches and the
    /// board is clocked by them.
    pub open spec fn dot_step(p: Ppu, m: Mapper, q: Ppu, n: Mapper) -> bool {
        &&& !p.is_sprite_eval_dot() ==> q == p.after_dot(m) && n == m
        &&& p.is_sprite_eval_dot() ==> Self::sprites_evaluated(p.after_dot(m), Self::next_line(p.scanline), m, q, n)
        &&& p.is_sprite_eval_dot() ==> {
            let b = p.after_dot(m);
            &&& b.evaluated_for(Self::next_line(p.scanline), &q)
            &&& q == (Ppu {
                sprite_count: q.sprite_count,
                sprite_indices: q.sprite_indices,
                status: q.status,
                prev_a12: q.prev_a12,
                a12_low_cycles: q.a12_low_cycles,
                ..b
            })
            &&& m.clocks_to(n)
        }
    }

    /// `ps` and `ms` are the PPU and board states along `k` dots, each a `dot_step`
    /// from the one before.
    pub open spec fn dot_run(ps: Seq<Ppu>, ms: Seq<Mapper>, k: nat) -> bool {
        &&& ps.len() == k + 1
        &&& ms.len() == k + 1
        &&& forall|i: int| 0 <= i < k ==> #[trigger] Self::dot_step(ps[i], ms[i], ps[i + 1], ms[i + 1])
    }

    /// `q` with the board in `n` is `p` with the board in `m` after `k` dots.
    pub open spec fn after_dots(p: Ppu, m: Mapper, k: nat, q: Ppu, n: Mapper) -> bool {
        exists|ps: Seq<Ppu>, ms: Seq<Mapper>|
            #[trigger] Self::dot_run(ps, ms, k) && ps[0] == p && ms[0] == m && ps[k as int] == q && ms[k as int] == n
    }

    /// One dot is a function of the PPU and the board: two `dot_step`s from the same
    /// state reach the same PPU and the same board.
    pub proof fn lemma_dot_step_deterministic(p: Ppu, m: Mapper, q1: Ppu, n1: Mapper, q2: Ppu, n2: Mapper)
        requires
            Self::dot_step(p, m, q1, n1),
            Self::dot_step(p, m, q2, n2),
        ensures
            q1 == q2,
            n1 == n2,
    {
        if p.is_sprite_eval_dot() {
            let b = p.after_dot(m);
            let e1 = Ppu { sprite_count: q1.sprite_count, sprite_indices: q1.sprite_indices, status: q1.status, ..b };
            let e2 = Ppu { sprite_count: q2.sprite_count, sprite_indices: q2.sprite_indices, status: q2.status, ..b };
            let sl = Self::next_line(p.scanline);
            assert(b.evaluated_for(sl, &e1) && b.evaluated_for(sl, &e2));
            assert(e1.sprite_count == e2.sprite_count);
            assert forall|k: int| 0 <= k < 8 implies e1.sprite_indices@[k] == e2.sprite_indices@[k] by {
                if k < e1.sprite_count {
                    assert(e1.sprite_indices[k] == e2.sprite_indices[k]);
                } else {
                    assert(e1.sprite_indices[k] == b.sprite_indices[k]);
                    assert(e2.sprite_indices[k] == b.sprite_indices[k]);
                }
            }
            assert(e1.sprite_indices@ =~= e2.sprite_indices@);
            assert(e1.sprite_indices == e2.sprite_indices);
            assert(e1 == e2);
        }
    }

    /// `k` dots are a function of the PPU and the board: any two runs of `k` dots from
    /// the same state reach the same PPU and the same board. Together with
    /// `lemma_after_dots_extend`, running `Ppu::tick` `k` times and `tick_batch(k)`
    /// reach the same state.
    pub proof fn lemma_after_dots_deterministic(p: Ppu, m: Mapper, k: nat, q1: Ppu, n1: Mapper, q2: Ppu, n2: Mapper)
        requires
            Self::after_dots(p, m, k, q1, n1),
            Self::after_dots(p, m, k, q2, n2),
        ensures
            q1 == q2,
            n1 == n2,
    {
        let (ps1, ms1) = choose|ps: Seq<Ppu>, ms: Seq<Mapper>|
            #[trigger] Self::dot_run(ps, ms, k) && ps[0] == p && ms[0] == m && ps[k as int] == q1 && ms[k as int] == n1;
        let (ps2, ms2) = choose|ps: Seq<Ppu>, ms: Seq<Mapper>|
            #[trigger] Self::dot_run(ps, ms, k) && ps[0] == p && ms[0] == m && ps[k as int] == q2 && ms[k as int] == n2;
        Self::lemma_runs_agree(ps1, ms1, ps2, ms2, k, k as int);
    }

    proof fn lemma_runs_agree(ps1: Seq<Ppu>, ms1: Seq<Mapper>, ps2: Seq<Ppu>, ms2: Seq<Mapper>, k: nat, i: int)
        requires
            Self::dot_run(ps1, ms1, k),
            Self::dot_run(ps2, ms2, k),
            ps1[0] == ps2[0],
            ms1[0] == ms2[0],
            0 <= i <= k,
        ensures
            ps1[i] == ps2[i],
            ms1[i] == ms2[i],
        decreases i,
    {
        if i > 0 {
            let j = i - 1;
            Self::lemma_runs_agree(ps1, ms1, ps2, ms2, k, j);
            assert(Self::dot_step(ps1[j], ms1[j], ps1[j + 1], ms1[j + 1]));
            assert(Self::dot_step(ps2[j], ms2[j], ps2[j + 1], ms2[j + 1]));
            Self::lemma_dot_step_deterministic(ps1[j], ms1[j], ps1[j + 1], ms1[j + 1], ps2[j + 1], ms2[j + 1]);
        }
    }

    /// A run of `k` dots followed by one more dot is a run of `k + 1` dots: `tick_batch`
    /// runs and single `Ppu::tick` calls compose.
    pub proof fn lemma_after_dots_extend(p: Ppu, m: Mapper, k: nat, q: Ppu, n: Mapper, q2: Ppu, n2: Mapper)
        requires
            Self::after_dots(p, m, k, q, n),
            Self::dot_step(q, n, q2, n2),
        ensures
            Self::after_dots(p, m, k + 1, q2, n2),
    {
        let (ps, ms) = choose|ps: Seq<Ppu>, ms: Seq<Mapper>|
            #[trigger] Self::dot_run(ps, ms, k) && ps[0] == p && ms[0] == m && ps[k as int] == q && ms[k as int] == n;
        let ps2 = ps.push(q2);
        let ms2 = ms.push(n2);
        assert forall|i: int| 0 <= i < k + 1 implies #[trigger] Self::dot_step(ps2[i], ms2[i], ps2[i + 1], ms2[i + 1]) by {
            if i < k {
                assert(Self::dot_step(ps[i], ms[i], ps[i + 1], ms[i + 1]));
            }
        }
        assert(Self::dot_run(ps2, ms2, k + 1));
    }

    /// `tick_batch(k)` reaches the same PPU and board as `k` single `Ppu::tick` calls:
    /// `ps` and `ms` are the states the single calls pass through (each a `dot_step`,
    /// as `Ppu::tick` promises) and `q`, `n` what `tick_batch` promises (`after_dots`).
    /// With `k == 0` nothing changes.
    pub proof fn lemma_batch_equals_single_ticks(
        p: Ppu,
        m: Mapper,
        k: nat,
        q: Ppu,
        n: Mapper,
        ps: Seq<Ppu>,
        ms: Seq<Mapper>,
    )
        requires
            Self::after_dots(p, m, k, q, n),
            Self::dot_run(ps, ms, k),
            ps[0] == p,
            ms[0] == m,
        ensures
            ps[k as int] == q,
            ms[k as int] == n,
            k == 0 ==> q == p && n == m,
    {
        assert(Self::after_dots(p, m, k, ps[k as int], ms[k as int]));
        Self::lemma_after_dots_deterministic(p, m, k, ps[k as int], ms[k as int], q, n);
    }

    /// No dots leave the PPU and the board as they were.
    pub proof fn lemma_after_dots_zero(p: Ppu, m: Mapper)
        ensures
            Self::after_dots(p, m, 0, p, m),
    {
        assert(Self::dot_run(seq![p], seq![m], 0));
    }

    /// One PPU dot.
    pub fn tick(&mut self, mapper: &mut Mapper)
        requires
            old(self).wf(),
            old(mapper).ppu_wf(),
        ensures
            !old(self).is_sprite_eval_dot() ==> *final(self) == old(self).after_dot(*old(mapper))
                && *final(mapper) == *old(mapper),
            old(self).is_sprite_eval_dot() ==> Self::sprites_evaluated(old(self).after_dot(*old(mapper)),
                Self::next_line(old(self).scanline), *old(mapper), *final(self), *final(mapper)),
            old(self).is_sprite_eval_dot() ==> {
                let b = old(self).after_dot(*old(mapper));
                &&& b.evaluated_for(Self::next_line(old(self).scanline), &*final(self))
                &&& *final(self) == (Ppu {
                    sprite_count: final(self).sprite_count,
                    sprite_indices: final(self).sprite_indices,
                    status: final(self).status,
                    prev_a12: final(self).prev_a12,
                    a12_low_cycles: final(self).a12_low_cycles,
                    ..b
                })
            },
            final(self).wf(),
            final(mapper).ppu_wf(),
            old(mapper).wf() ==> final(mapper).wf(),
            old(mapper).clocks_to(*final(mapper)),
            final(self).tick_count == old(self).tick_count.wrapping_add(1),
            (final(self).scanline, final(self).cycle, final(self).odd_frame, final(self).frame_complete)
                == old(self).tick_position(),
            old(self).same_registers(&*final(self)),
            old(self).cycle == 1 && old(self).scanline == VBLANK_START ==> {
                let e = old(self).after_vblank_start();
                final(self).status == e.status && e.same_nmi_state(&*final(self))
            },
            old(self).cycle == 1 && old(self).scanline == PRERENDER_SCANLINE ==> {
                let e = old(self).after_prerender_clear();
                final(self).status == e.status && e.same_nmi_state(&*final(self))
            },
            !(old(self).cycle == 1 && (old(self).scanline == VBLANK_START || old(self).scanline
                == PRERENDER_SCANLINE)) ==> old(self).same_nmi_state(&*final(self)) && final(self).status
                & 0x9F == old(self).status & 0x9F,
    {
        let ghost s0 = *self;
        let ghost m0 = *mapper;
        self.dot(mapper);
        proof {
            Self::lemma_dot_summary(s0, m0, *self);
        }
    }

    /// One PPU dot, as a `dot_step`.
    fn tick_step(&mut self, mapper: &mut Mapper)
        requires
            old(self).wf(),
            old(mapper).ppu_wf(),
        ensures
            final(self).wf(),
            final(mapper).ppu_wf(),
            old(mapper).wf() ==> final(mapper).wf(),
            old(mapper).clocks_to(*final(mapper)),
            Self::dot_step(*old(self), *old(mapper), *final(self), *final(mapper)),
            final(self).tick_count == old(self).tick_count.wrapping_add(1),
            old(self).same_registers(&*final(self)),
            (final(self).scanline, final(self).cycle, final(self).odd_frame, final(self).frame_complete)
                == old(self).tick_position(),
    {
        self.tick(mapper);
    }

    /// The background and pixel work of a rendering dot leaves the registers and the
    /// NMI state alone and changes no status flag but sprite-0 hit.
    proof fn lemma_render_dot_keeps(s: Ppu, cy: u16, m: Mapper)
        ensures
            s.same_registers(&s.after_render_dot(cy, m)),
            s.same_nmi_state(&s.after_render_dot(cy, m)),
            s.after_render_dot(cy, m).status & 0x9F == s.status & 0x9F,
    {
        crate::bits::lemma_byte_bits(s.status);
        let on = s.spec_rendering_enabled();
        let s1 = if on && cy & 7 == 1 {
            let f = s.after_fetch_bg_tile(m);
            Ppu { v: inc_coarse_x(f.v), ..f }
        } else {
            s
        };
        assert(s.same_registers(&s1) && s.same_nmi_state(&s1) && s1.status == s.status);
        let s2 = if s.scanline < VISIBLE_SCANLINES {
            Self::lemma_render_pixel_keeps(s1, (cy - 1) as u16, s.scanline, m);
            s1.after_render_pixel((cy - 1) as u16, s.scanline, m)
        } else {
            s1
        };
        assert(s.same_registers(&s2) && s.same_nmi_state(&s2));
        assert(s2.status & 0x9F == s.status & 0x9F);
    }

    proof fn lemma_render_pixel_keeps(s: Ppu, x: u16, y: u16, m: Mapper)
        ensures
            s.same_registers(&s.after_render_pixel(x, y, m)),
            s.same_nmi_state(&s.after_render_pixel(x, y, m)),
            s.after_render_pixel(x, y, m).status == s.status || s.after_render_pixel(x, y, m).status
                == s.status | 0x40,
    {
    }

    /// What a dot's exact effect implies about the registers, the NMI state and the
    /// status flags.
    proof fn lemma_dot_summary(s0: Ppu, m0: Mapper, q: Ppu)
        requires
            s0.wf(),
            !s0.is_sprite_eval_dot() ==> q == s0.after_dot(m0),
            s0.is_sprite_eval_dot() ==> {
                let b = s0.after_dot(m0);
                &&& b.evaluated_for(Self::next_line(s0.scanline), &q)
                &&& q == (Ppu {
                    sprite_count: q.sprite_count,
                    sprite_indices: q.sprite_indices,
                    status: q.status,
                    prev_a12: q.prev_a12,
                    a12_low_cycles: q.a12_low_cycles,
                    ..b
                })
            },
        ensures
            s0.same_registers(&q),
            s0.cycle == 1 && s0.scanline == VBLANK_START ==> {
                let e = s0.after_vblank_start();
                q.status == e.status && e.same_nmi_state(&q)
            },
            s0.cycle == 1 && s0.scanline == PRERENDER_SCANLINE ==> {
                let e = s0.after_prerender_clear();
                q.status == e.status && e.same_nmi_state(&q)
            },
            !(s0.cycle == 1 && (s0.scanline == VBLANK_START || s0.scanline == PRERENDER_SCANLINE))
                ==> s0.same_nmi_state(&q) && q.status & 0x9F == s0.status & 0x9F,
    {
        reveal(Ppu::after_dot);
        reveal(Ppu::after_dot_work);
        let sc = s0.after_dot_counters();
        let cy = s0.cycle;
        let sl = s0.scanline;
        crate::bits::lemma_byte_bits(s0.status);
        if cy >= 340 {
        } else {
            let s1 = Ppu { cycle: (cy + 1) as u16, ..sc };
            if sl == PRERENDER_SCANLINE && cy + 1 == 340 && s0.odd_frame && s0.spec_rendering_enabled() {
            } else {
                let s2 = if cy == 1 && sl == VBLANK_START {
                    s1.after_vblank_start()
                } else if cy == 1 && sl == PRERENDER_SCANLINE {
                    s1.after_prerender_clear()
                } else {
                    s1
                };
                assert(s0.same_registers(&s2));
                crate::bits::lemma_byte_bits(s2.status);
                if sl < VISIBLE_SCANLINES || sl == PRERENDER_SCANLINE {
                    if 1 <= cy && cy <= 256 {
                        Self::lemma_render_dot_keeps(s2, cy, m0);
                    } else if cy == HORIZONTAL_COPY_CYCLE {
                        crate::bits::lemma_byte_bits(s2.after_scroll_copy().status);
                    }
                }
            }
        }
    }
}


impl Ppu {
    /// Without rendering (so without the odd-frame skip), one dot moves the dot index
    /// one step forward modulo the frame length, and the frame completes exactly
    /// when it wraps.
    pub proof fn lemma_dot_advance(&self)
        requires
            self.wf(),
            !self.spec_rendering_enabled(),
        ensures
            ({
                let (sl, cy, odd, done) = self.tick_position();
                &&& sl * 341 + cy == (self.dot_index() + 1) % (DOTS_PER_FRAME as int)
                &&& done == (self.frame_complete || self.dot_index() + 1 == DOTS_PER_FRAME)
                &&& sl < TOTAL_SCANLINES && cy < CYCLES_PER_LINE
            }),
    {
        let i = self.dot_index();
        assert(0 <= i < 89342);
        if i + 1 < 89342 {
            vstd::arithmetic::div_mod::lemma_fundamental_div_mod_converse(i + 1, 89342, 0, i + 1);
        } else {
            vstd::arithmetic::div_mod::lemma_fundamental_div_mod_converse(i + 1, 89342, 1, 0);
        }
    }

    /// `count` PPU dots.
    pub fn tick_batch(&mut self, count: u16, mapper: &mut Mapper)
        requires
            old(self).wf(),
            old(mapper).ppu_wf(),
        ensures
            final(self).wf(),
            final(mapper).ppu_wf(),
            old(mapper).wf() ==> final(mapper).wf(),
            old(mapper).clocks_to(*final(mapper)),
            old(self).same_registers(&*final(self)),
            final(self).tick_count == (old(self).tick_count + count) % 0x1_0000_0000_0000_0000,
            old(self).frame_complete ==> final(self).frame_complete,
            !old(self).spec_rendering_enabled() ==> final(self).dot_index() == (old(self).dot_index() + count)
                % (DOTS_PER_FRAME as int),
            !old(self).spec_rendering_enabled() && old(self).dot_index() + count >= DOTS_PER_FRAME
                ==> final(self).frame_complete,
            Self::after_dots(*old(self), *old(mapper), count as nat, *final(self), *final(mapper)),
    {
        let ghost s0 = *self;
        let ghost m0 = *mapper;
        let ghost mut wraps: int = 0;
        let ghost mut twraps: int = 0;
        proof {
            crate::mapper::lemma_clocks_to_step(m0);
        }
        let ghost mut ps: Seq<Ppu> = seq![s0];
        let ghost mut ms: Seq<Mapper> = seq![m0];
        let mut k: u16 = 0;
        while k < count
            invariant
                k <= count,
                self.wf(),
                mapper.ppu_wf(),
                m0.wf() ==> mapper.wf(),
                Self::dot_run(ps, ms, k as nat),
                ps[0] == s0 && ms[0] == m0,
                ps[k as int] == *self && ms[k as int] == *mapper,
                m0.clocks_to(*mapper),
                s0.same_registers(&*self),
                s0.frame_complete ==> self.frame_complete,
                0 <= twraps,
                self.tick_count + twraps * 0x1_0000_0000_0000_0000 == s0.tick_count + k,
                !s0.spec_rendering_enabled() ==> {
                    &&& 0 <= wraps
                    &&& self.dot_index() + wraps * 89342 == s0.dot_index() + k
                    &&& wraps > 0 ==> self.frame_complete
                },
            decreases count - k,
        {
            let ghost before = *self;
            let ghost mb = *mapper;
            self.tick_step(mapper);
            proof {
                let ps1 = ps.push(*self);
                let ms1 = ms.push(*mapper);
                assert forall|i: int| 0 <= i < k + 1 implies #[trigger] Self::dot_step(ps1[i], ms1[i], ps1[i + 1], ms1[i + 1]) by {
                    if i < k {
                        assert(ps1[i] == ps[i] && ps1[i + 1] == ps[i + 1] && ms1[i] == ms[i] && ms1[i + 1] == ms[i + 1]);
                        assert(Self::dot_step(ps[i], ms[i], ps[i + 1], ms[i + 1]));
                    }
                }
                ps = ps1;
                ms = ms1;
                crate::mapper::lemma_clocks_to_trans(m0, mb, *mapper);
                if before.tick_count == 0xFFFF_FFFF_FFFF_FFFF {
                    twraps = twraps + 1;
                }
                if !s0.spec_rendering_enabled() {
                    before.lemma_dot_advance();
                    if before.dot_index() + 1 == 89342 {
                        wraps = wraps + 1;
                    }
                }
            }
            k = k + 1;
        }
        proof {
            assert(Self::dot_run(ps, ms, count as nat));
            vstd::arithmetic::div_mod::lemma_fundamental_div_mod_converse(
                s0.tick_count + count,
                0x1_0000_0000_0000_0000,
                twraps,
                self.tick_count as int,
            );
            if !s0.spec_rendering_enabled() {
                vstd::arithmetic::div_mod::lemma_fundamental_div_mod_converse(
                    s0.dot_index() + count,
                    89342,
                    wraps,
                    self.dot_index(),
                );
            }
        }
    }
}


// ---------------------------------------------------------------------------
// Laws of the PPU memory map and registers
// ---------------------------------------------------------------------------
/// A write to nametable or palette memory is read back at the same address.
pub proof fn lemma_nt_write_then_read(p: Ppu, addr: u16, val: u8, mirroring: u8)
    requires
        addr & 0x3FFF >= 0x2000,
    ensures
        p.after_write_nt(addr, val, mirroring).spec_read_nt(addr, mirroring) == val,
{
    let a = addr & 0x3FFF;
    if a >= 0x3F00 {
        assert(palette_slot(a) < 0x20) by {
            crate::bits::lemma_word_bits(a);
        }
    } else {
        assert(nt_slot(a, mirroring) < 0x1000) by {
            crate::bits::lemma_word_bits(a);
        }
    }
}

/// A write leaves every address that maps to another cell unchanged.
pub proof fn lemma_nt_write_other(p: Ppu, addr: u16, other: u16, val: u8, mirroring: u8)
    requires
        addr & 0x3FFF >= 0x2000,
        other & 0x3FFF >= 0x2000,
        (addr & 0x3FFF >= 0x3F00) == (other & 0x3FFF >= 0x3F00),
        addr & 0x3FFF >= 0x3F00 ==> palette_slot(addr & 0x3FFF) != palette_slot(other & 0x3FFF),
        addr & 0x3FFF < 0x3F00 ==> nt_slot(addr & 0x3FFF, mirroring) != nt_slot(other & 0x3FFF, mirroring),
    ensures
        p.after_write_nt(addr, val, mirroring).spec_read_nt(other, mirroring) == p.spec_read_nt(other, mirroring),
{
    let a = addr & 0x3FFF;
    let b = other & 0x3FFF;
    crate::bits::lemma_word_bits(a);
    crate::bits::lemma_word_bits(b);
}

/// The sprite palette's entry 0 of each group reads back the background entries:
/// $3F10/$3F14/$3F18/$3F1C are $3F00/$3F04/$3F08/$3F0C.
pub proof fn lemma_palette_backdrop_mirror(p: Ppu, k: u16, mirroring: u8)
    requires
        k < 4,
    ensures
        p.spec_read_nt((0x3F10 + 4 * k) as u16, mirroring) == p.spec_read_nt((0x3F00 + 4 * k) as u16, mirroring),
{
    let a = (0x3F10 + 4 * k) as u16;
    let b = (0x3F00 + 4 * k) as u16;
    assert(k < 4 ==> {
        let a = (0x3F10 + 4 * k) as u16;
        let b = (0x3F00 + 4 * k) as u16;
        &&& a & 0x3FFF == a && b & 0x3FFF == b
        &&& (a & 0x1F) & 0x13 == 0x10 && ((a & 0x1F) & 0x0F) == b & 0x1F
        &&& (b & 0x1F) & 0x13 != 0x10
    }) by (bit_vector);
}

/// Mirroring 0 shows the same table at $2000 and $2400 (and at $2800 and $2C00);
/// any other value shows it at $2000 and $2800 (and at $2400 and $2C00).
pub proof fn lemma_nametable_mirroring(p: Ppu, off: u16)
    requires
        off < 0x400,
    ensures
        p.spec_read_nt((0x2000 + off) as u16, 0) == p.spec_read_nt((0x2400 + off) as u16, 0),
        p.spec_read_nt((0x2800 + off) as u16, 0) == p.spec_read_nt((0x2C00 + off) as u16, 0),
        p.spec_read_nt((0x2000 + off) as u16, 1) == p.spec_read_nt((0x2800 + off) as u16, 1),
        p.spec_read_nt((0x2400 + off) as u16, 1) == p.spec_read_nt((0x2C00 + off) as u16, 1),
{
    assert(off < 0x400 ==> {
        let a = (0x2000 + off) as u16;
        let b = (0x2400 + off) as u16;
        let c = (0x2800 + off) as u16;
        let d = (0x2C00 + off) as u16;
        &&& a & 0x3FFF == a && b & 0x3FFF == b && c & 0x3FFF == c && d & 0x3FFF == d
        &&& (a >> 11u16) & 1 == (b >> 11u16) & 1 && (c >> 11u16) & 1 == (d >> 11u16) & 1
        &&& (a >> 10u16) & 1 == (c >> 10u16) & 1 && (b >> 10u16) & 1 == (d >> 10u16) & 1
        &&& a & 0x3FF == off && b & 0x3FF == off && c & 0x3FF == off && d & 0x3FF == off
    }) by (bit_vector);
}

/// Two $2006 writes starting from the first-write state load v with the 14-bit
/// address they spell (high byte first) and leave the toggle at the first write.
pub proof fn lemma_two_address_writes(p: Ppu, hi: u8, lo: u8)
    requires
        p.w == 0,
    ensures
        p.after_write_addr(hi).after_write_addr(lo).v == (((hi as u16) & 0x3F) << 8u16) | (lo as u16),
        p.after_write_addr(hi).after_write_addr(lo).w == 0,
{
    let t = p.t;
    assert((((((t & 0x00FF) | ((hi as u16) << 8u16)) & 0x3FFF) & 0xFF00) | (lo as u16))
        == ((((hi as u16) & 0x3F) << 8u16) | (lo as u16))) by (bit_vector);
}

/// Enabling NMI (PPUCTRL bit 7) while VBlank is set raises an NMI at once.
pub proof fn lemma_nmi_on_enable(p: Ppu, val: u8)
    requires
        p.wf(),
        p.ctrl & 0x80 == 0,
        val & 0x80 != 0,
        p.status & 0x80 != 0,
    ensures
        p.after_write_ctrl(val).nmi_latched,
        p.after_write_ctrl(val).nmi_output,
        p.after_write_ctrl(val).ctrl == val,
{
}

/// A $2002 read always leaves the $2005/$2006 toggle at the first write and VBlank clear.
pub proof fn lemma_status_read_resets_toggle(p: Ppu)
    ensures
        p.after_read_status().w == 0,
        p.after_read_status().status & 0x80 == 0,
{
    let s = p.status;
    crate::bits::lemma_byte_bits(s);
}


impl Ppu {
    /// A CPU read of PPU register `addr & 7`: $2002 status, $2004 OAM data, $2007
    /// data; the write-only registers read the decayed open bus.
    pub fn read_register(&mut self, addr: u16, mapper: &mut Mapper) -> (r: u8)
        requires
            old(self).wf(),
            old(mapper).ppu_wf(),
        ensures
            final(self).wf(),
            final(mapper).ppu_wf(),
            old(mapper).wf() ==> final(mapper).wf(),
            old(mapper).clocks_to(*final(mapper)),
            addr & 7 == 2 ==> r == old(self).spec_status_read() && *final(self) == old(self).after_read_status(),
            addr & 7 == 4 ==> r == old(self).spec_oam_read() && *final(self) == *old(self),
            addr & 7 == 7 ==> r == old(self).spec_data_read(*old(mapper)) && *final(self)
                == old(self).after_read_data(*old(mapper)),
            addr & 7 != 2 && addr & 7 != 4 && addr & 7 != 7 ==> r == old(self).spec_open_bus() && *final(self)
                == *old(self),
    {
        proof {
            crate::mapper::lemma_clocks_to_step(*mapper);
        }
        let reg = addr & 7;
        if reg == 2 {
            self.read_status()
        } else if reg == 4 {
            self.read_oam_data()
        } else if reg == 7 {
            self.read_data(mapper)
        } else {
            self.get_open_bus()
        }
    }

    /// A CPU write of `val` to PPU register `addr & 7` ($2002 ignores writes).
    /// The PPU after a CPU write of `val` to register `addr` (repeating every 8 bytes),
    /// with the cartridge in state `m`; $2002 is read-only.
    pub open spec fn after_write_register(self, addr: u16, val: u8, m: Mapper) -> Ppu {
        let reg = addr & 7;
        if reg == 0 {
            self.after_write_ctrl(val)
        } else if reg == 1 {
            Ppu { last_bus_value: val, last_bus_write_tick: self.tick_count, mask: val, ..self }
        } else if reg == 3 {
            Ppu { last_bus_value: val, last_bus_write_tick: self.tick_count, oam_addr: val, ..self }
        } else if reg == 4 {
            Ppu {
                last_bus_value: val,
                last_bus_write_tick: self.tick_count,
                oam: vstd::array::spec_array_update(self.oam, self.oam_addr as int, val),
                oam_addr: self.oam_addr.wrapping_add(1),
                ..self
            }
        } else if reg == 5 {
            self.after_write_scroll(val)
        } else if reg == 6 {
            self.after_write_addr(val)
        } else if reg == 7 {
            self.after_write_data(val, m)
        } else {
            self
        }
    }

    /// What a register write at `addr` does to the board `m`: a PPUDATA write below
    /// $2000 is a CHR write at the current address; nothing else reaches the board.
    pub open spec fn register_write_reaches_board(p: Ppu, m: Mapper, addr: u16, val: u8, m1: Mapper) -> bool {
        if addr & 7 == 7 && (p.v & 0x3FFF) < 0x2000 {
            m.after_ppu_write(p.v & 0x3FFF, val, m1)
        } else {
            m1 == m
        }
    }

    pub fn write_register(&mut self, addr: u16, val: u8, mapper: &mut Mapper)
        requires
            old(self).wf(),
            old(mapper).ppu_wf(),
        ensures
            final(self).wf(),
            final(mapper).ppu_wf(),
            old(mapper).wf() ==> final(mapper).wf(),
            *final(self) == old(self).after_write_register(addr, val, *old(mapper)),
            addr & 7 == 0 ==> *final(self) == old(self).after_write_ctrl(val),
            addr & 7 == 5 ==> *final(self) == old(self).after_write_scroll(val),
            addr & 7 == 6 ==> *final(self) == old(self).after_write_addr(val),
            addr & 7 == 7 ==> *final(self) == old(self).after_write_data(val, *old(mapper)),
            addr & 7 != 7 ==> *final(mapper) == *old(mapper),
            Self::register_write_reaches_board(*old(self), *old(mapper), addr, val, *final(mapper)),
    {
        let reg = addr & 7;
        if reg == 0 {
            self.write_ctrl(val);
        } else if reg == 1 {
            self.write_mask(val);
        } else if reg == 3 {
            self.write_oam_addr(val);
        } else if reg == 4 {
            self.write_oam_data(val);
        } else if reg == 5 {
            self.write_scroll(val);
        } else if reg == 6 {
            self.write_addr(val);
        } else if reg == 7 {
            self.write_data(val, mapper);
        }
    }
}

impl Default for Ppu {
    /// The power-on state of `Ppu::new`.
    fn default() -> (r: Self)
        ensures
            r.wf(),
            r.scanline == 0 && r.cycle == 0 && r.tick_count == 0,
            r.ctrl == 0 && r.mask == 0 && r.status == 0 && r.oam_addr == 0,
            r.v == 0 && r.t == 0 && r.fine_x == 0 && r.w == 0,
            r.odd_frame && !r.frame_complete,
            !r.nmi_latched && !r.nmi_output && !r.nmi_from_vblank && !r.nmi_deferred_pending,
            r.sprite_count == 0 && r.sprite_zero_hit_possible && !r.vbl_suppressed,
            r.data_buffer == 0 && r.last_bus_value == 0 && r.last_bus_write_tick == 0,
            forall|i: int| 0 <= i < 0x1000 ==> #[trigger] r.vram[i] == 0,
            forall|i: int| 0 <= i < 0x20 ==> #[trigger] r.palette[i] == 0,
            forall|i: int| 0 <= i < 0x100 ==> #[trigger] r.oam[i] == 0,
            forall|i: int| 0 <= i < 61440 ==> #[trigger] r.frame[i] == 0,
            forall|i: int| 0 <= i < 8 ==> #[trigger] r.sprite_indices[i] == 0,
            r.render_v == 0 && r.render_fine_x == 0 && !r.prev_a12 && r.a12_low_cycles == 0,
            r.bg_shift_low == 0 && r.bg_shift_high == 0 && r.bg_attr_shift_low == 0 && r.bg_attr_shift_high == 0,
    {
        Ppu::new()
    }
}

} // verus!
