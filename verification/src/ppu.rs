//! The picture processing unit: a per-dot state machine that fills a
//! 256x240 framebuffer of palette indices, drives the background and sprite
//! pipelines, and exposes eight CPU-visible registers.

use vstd::prelude::*;
use crate::bits::filled_vec;
use crate::bits::lemma_u16_and_le;
use crate::bits::lemma_u8_and_le;
use crate::bits::lemma_u16_or_le;
use crate::bits::lemma_u16_shr_le;
use crate::bits::reverse_bits;
use crate::bits::sat_add64;
use crate::bits::sat_add64_spec;
use crate::mapper::Mapper0;

verus! {

/// The control register image written through $2000.
/// Bit 2 selects the VRAM increment, bit 3 the sprite pattern half,
/// bit 4 the background pattern half, bit 5 the sprite height,
/// bit 7 enables the v-blank NMI.
#[derive(Clone, Copy, Debug, PartialEq, Eq, Structural)]
pub struct PPUCTRL {
    pub bits: u8,
}

impl PPUCTRL {
    /// How far $2007 accesses move the VRAM address: 1 across, 32 down.
    pub fn vram_increment(self) -> (r: u16)
        ensures
            r == vram_increment_spec(self.bits),
    {
        if self.bits & 0x04 != 0 {
            32
        } else {
            1
        }
    }

    /// The sprite pattern table base for 8x8 sprites: $0000 or $1000.
    pub fn sprite_tile_select(self) -> (r: u16)
        ensures
            r == sprite_tile_select_spec(self.bits),
    {
        if self.bits & 0x08 != 0 {
            0x1000
        } else {
            0
        }
    }

    /// The background pattern table base: $0000 or $1000.
    pub fn bg_tile_select(self) -> (r: u16)
        ensures
            r == bg_tile_select_spec(self.bits),
    {
        if self.bits & 0x10 != 0 {
            0x1000
        } else {
            0
        }
    }

    /// Sprite height in pixels: 8 or 16.
    pub fn sprite_height(self) -> (r: u8)
        ensures
            r == sprite_height_spec(self.bits),
    {
        if self.bits & 0x20 != 0 {
            16
        } else {
            8
        }
    }
}

pub open spec fn vram_increment_spec(ctrl: u8) -> u16 {
    if ctrl & 0x04 != 0 {
        32u16
    } else {
        1u16
    }
}

pub open spec fn sprite_tile_select_spec(ctrl: u8) -> u16 {
    if ctrl & 0x08 != 0 {
        0x1000u16
    } else {
        0u16
    }
}

pub open spec fn bg_tile_select_spec(ctrl: u8) -> u16 {
    if ctrl & 0x10 != 0 {
        0x1000u16
    } else {
        0u16
    }
}

pub open spec fn sprite_height_spec(ctrl: u8) -> u8 {
    if ctrl & 0x20 != 0 {
        16u8
    } else {
        8u8
    }
}

/// The picture processing unit.
pub struct Ppu {
    /// Control register image ($2000, write-only).
    pub ppuctrl: PPUCTRL,
    /// Mask register image ($2001, write-only): bit 3 shows the background,
    /// bit 4 shows sprites, bits 1 and 2 unmask the leftmost column.
    pub ppumask: u8,
    /// Status register image ($2002, read-only): bit 5 sprite overflow,
    /// bit 6 sprite-zero hit, bit 7 v-blank.
    pub ppustatus: u8,
    /// OAM address port ($2003).
    pub oam_address: u8,
    /// Current VRAM address.
    pub v: u16,
    /// Temporary VRAM address: the top-left onscreen tile.
    pub t: u16,
    /// Fine X scroll (3 bits).
    pub x: u8,
    /// First/second write toggle for $2005 and $2006.
    pub w: bool,
    /// The frame as 256x240 palette indices.
    pub output: Vec<u8>,
    /// 2 KiB of nametable memory, reached through the mirroring the
    /// cartridge header picks.
    pub vram: Vec<u8>,
    /// 32 bytes of palette RAM.
    pub palette_vram: Vec<u8>,
    /// The one-read buffer behind $2007.
    pub vram_buffer: u8,
    /// Current dot, 0 to 340.
    pub dot: u16,
    /// Current scanline, 0 to 261; 261 is the pre-render line.
    pub scanline: u16,
    pub nt_latch: u8,
    pub at_latch: u8,
    pub pattern_latch_lo: u8,
    pub pattern_latch_hi: u8,
    pub lo_at_reg: u16,
    pub hi_at_reg: u16,
    pub lo_bitmap_reg: u16,
    pub hi_bitmap_reg: u16,
    /// Primary OAM: 64 sprites of 4 bytes (Y, tile, attributes, X).
    pub oam_memory: Vec<u8>,
    /// Secondary OAM: the 8 sprites picked for the current scanline.
    pub secondary_oam_memory: Vec<u8>,
    /// Pattern bitmap pairs for the 8 scanline sprites.
    pub sprite_pattern_lo: Vec<u8>,
    pub sprite_pattern_hi: Vec<u8>,
    /// Attribute latches for the 8 scanline sprites.
    pub sprite_at: Vec<u8>,
    /// X counters for the 8 scanline sprites.
    pub sprite_x_pos: Vec<i16>,
    pub sprite_count: u8,
    /// The cartridge's CHR channel; None until a cartridge is connected.
    pub mapper: Option<Mapper0>,
    /// Raised when v-blank starts with NMI enabled; the console hands it to
    /// the CPU at the next instruction boundary.
    pub nmi_line: bool,
    /// How many times v-blank has started: the frame-ready signal.
    pub frame_count: u64,
}

/// Buffer sizes and timing counters are what the hardware fixes.
pub open spec fn ppu_wf(p: Ppu) -> bool {
    &&& p.output@.len() == 61440
    &&& p.vram@.len() == 0x800
    &&& p.palette_vram@.len() == 32
    &&& p.oam_memory@.len() == 256
    &&& p.secondary_oam_memory@.len() == 32
    &&& p.sprite_pattern_lo@.len() == 8
    &&& p.sprite_pattern_hi@.len() == 8
    &&& p.sprite_at@.len() == 8
    &&& p.sprite_x_pos@.len() == 8
    &&& p.dot <= 340
    &&& p.scanline <= 261
    &&& p.x < 8
    &&& match p.mapper {
        Some(m) => m.wf(),
        None => true,
    }
}

/// The palette RAM index an address in $3F00-$3FFF folds to: 32-byte
/// mirroring, with every fourth slot reduced to the background table.
pub open spec fn palette_fold(addr: u16) -> int {
    if addr % 4 == 0 {
        (addr & 0x0F) as int
    } else {
        (addr & 0x1F) as int
    }
}

/// What the CHR channel holds, or zeros with no cartridge.
pub open spec fn chr_byte(p: Ppu, addr: u16) -> u8 {
    match p.mapper {
        Some(m) => m.chr_data@[addr as int],
        None => 0u8,
    }
}

/// Whether the cartridge asks for vertical nametable mirroring (header
/// flag byte 6, bit 0); an empty slot defaults to horizontal.
pub open spec fn vertical_mirroring(p: Ppu) -> bool {
    match p.mapper {
        Some(m) => m.header.flags6 & 1 != 0,
        None => false,
    }
}

/// The 2 KiB nametable slot a PPU address in $2000-$2FFF lands on:
/// vertical mirroring repeats the two tables side by side, horizontal
/// stacks them.
pub open spec fn nt_index(vertical: bool, addr: u16) -> int {
    let d = addr - 0x2000;
    if vertical {
        d % 0x800
    } else {
        (d / 0x800) * 0x400 + d % 0x400
    }
}

/// What a PPU-side read of `addr` returns; reads have no side effect.
pub open spec fn vram_peek(p: Ppu, addr: u16) -> u8 {
    if addr < 0x2000 {
        chr_byte(p, addr)
    } else if addr < 0x3000 {
        p.vram@[nt_index(vertical_mirroring(p), addr)]
    } else if addr < 0x3F00 {
        p.vram@[nt_index(vertical_mirroring(p), (addr - 0x1000) as u16)]
    } else {
        p.palette_vram@[palette_fold(addr)]
    }
}

/// The linear position of a (scanline, dot) pair inside the frame.
pub open spec fn dot_pos(p: Ppu) -> int {
    p.scanline * 341 + p.dot
}

/// The one dot at which the v-blank flag rises and the frame signal fires.
pub open spec fn vblank_trigger(p: Ppu) -> bool {
    p.dot == 1 && p.scanline == 241
}

/// The one dot at which the status flags are cleared.
pub open spec fn status_clear_point(p: Ppu) -> bool {
    p.dot == 1 && p.scanline == 261
}

/// Fields the eight CPU-visible ports can never touch.
pub open spec fn ports_untouched(a: Ppu, b: Ppu) -> bool {
    &&& b.output@ == a.output@
    &&& b.secondary_oam_memory@ == a.secondary_oam_memory@
    &&& b.sprite_pattern_lo@ == a.sprite_pattern_lo@
    &&& b.sprite_pattern_hi@ == a.sprite_pattern_hi@
    &&& b.sprite_at@ == a.sprite_at@
    &&& b.sprite_x_pos@ == a.sprite_x_pos@
    &&& b.sprite_count == a.sprite_count
    &&& b.nt_latch == a.nt_latch
    &&& b.at_latch == a.at_latch
    &&& b.pattern_latch_lo == a.pattern_latch_lo
    &&& b.pattern_latch_hi == a.pattern_latch_hi
    &&& b.lo_at_reg == a.lo_at_reg
    &&& b.hi_at_reg == a.hi_at_reg
    &&& b.lo_bitmap_reg == a.lo_bitmap_reg
    &&& b.hi_bitmap_reg == a.hi_bitmap_reg
    &&& b.dot == a.dot
    &&& b.scanline == a.scanline
    &&& b.frame_count == a.frame_count
    &&& b.nmi_line == a.nmi_line
}

/// The memories a VRAM write can touch, as they stand after writing `value`
/// at `addr`.
pub open spec fn vram_write_post(pre: Ppu, post: Ppu, addr: u16, value: u8) -> bool {
    &&& post.vram@ == if 0x2000 <= addr < 0x3000 {
        pre.vram@.update(nt_index(vertical_mirroring(pre), addr), value)
    } else if 0x3000 <= addr < 0x3F00 {
        pre.vram@.update(nt_index(vertical_mirroring(pre), (addr - 0x1000) as u16), value)
    } else {
        pre.vram@
    }
    &&& post.palette_vram@ == if addr >= 0x3F00 {
        pre.palette_vram@.update(palette_fold(addr), value)
    } else {
        pre.palette_vram@
    }
    &&& match (pre.mapper, post.mapper) {
        (Some(m0), Some(m1)) => {
            &&& m1.header == m0.header
            &&& m1.pgr_data@ == m0.pgr_data@
            &&& m1.chr_data@ == if addr < 0x2000 && m0.chr_writable() {
                m0.chr_data@.update(addr as int, value)
            } else {
                m0.chr_data@
            }
        },
        (None, None) => true,
        _ => false,
    }
}

/// How one write to a CPU-visible register changes the PPU.
pub open spec fn reg_write_post(pre: Ppu, post: Ppu, address: u16, value: u8) -> bool {
    &&& ports_untouched(pre, post)
    &&& if address == 0x2000 {
        &&& post.ppuctrl.bits == value
        &&& post.t == (pre.t & 0xF3FF) | (((value & 0x03) as u16) << 10)
        &&& post.ppumask == pre.ppumask
        &&& post.ppustatus == pre.ppustatus
        &&& post.oam_address == pre.oam_address
        &&& post.v == pre.v
        &&& post.x == pre.x
        &&& post.w == pre.w
        &&& post.vram_buffer == pre.vram_buffer
        &&& same_data_memories(pre, post)
    } else if address == 0x2001 {
        &&& post.ppumask == value
        &&& only_mask_changed(pre, post)
    } else if address == 0x2002 {
        post == pre
    } else if address == 0x2003 {
        &&& post.oam_address == value
        &&& post.ppuctrl == pre.ppuctrl
        &&& post.ppumask == pre.ppumask
        &&& post.ppustatus == pre.ppustatus
        &&& post.v == pre.v
        &&& post.t == pre.t
        &&& post.x == pre.x
        &&& post.w == pre.w
        &&& post.vram_buffer == pre.vram_buffer
        &&& same_data_memories(pre, post)
    } else if address == 0x2004 {
        &&& post.oam_memory@ == pre.oam_memory@.update(pre.oam_address as int, value)
        &&& post.oam_address == pre.oam_address.wrapping_add(1)
        &&& post.ppuctrl == pre.ppuctrl
        &&& post.ppumask == pre.ppumask
        &&& post.ppustatus == pre.ppustatus
        &&& post.v == pre.v
        &&& post.t == pre.t
        &&& post.x == pre.x
        &&& post.w == pre.w
        &&& post.vram_buffer == pre.vram_buffer
        &&& post.vram@ == pre.vram@
        &&& post.palette_vram@ == pre.palette_vram@
        &&& post.mapper == pre.mapper
    } else if address == 0x2005 {
        &&& if !pre.w {
            &&& post.t == (pre.t & 0xFFE0) | ((value >> 3) as u16)
            &&& post.x == value & 0x07
        } else {
            &&& post.t == (pre.t & 0x8C1F) | (((value & 0x07) as u16) << 12) | (((value
                & 0xF8) as u16) << 2)
            &&& post.x == pre.x
        }
        &&& post.w == !pre.w
        &&& post.ppuctrl == pre.ppuctrl
        &&& post.ppumask == pre.ppumask
        &&& post.ppustatus == pre.ppustatus
        &&& post.oam_address == pre.oam_address
        &&& post.v == pre.v
        &&& post.vram_buffer == pre.vram_buffer
        &&& same_data_memories(pre, post)
    } else if address == 0x2006 {
        &&& if !pre.w {
            &&& post.t == (pre.t & 0x00FF) | (((value & 0x3F) as u16) << 8)
            &&& post.v == pre.v
        } else {
            &&& post.t == (pre.t & 0xFF00) | (value as u16)
            &&& post.v == post.t
        }
        &&& post.w == !pre.w
        &&& post.ppuctrl == pre.ppuctrl
        &&& post.ppumask == pre.ppumask
        &&& post.ppustatus == pre.ppustatus
        &&& post.oam_address == pre.oam_address
        &&& post.x == pre.x
        &&& post.vram_buffer == pre.vram_buffer
        &&& same_data_memories(pre, post)
    } else {
        // $2007: write through the VRAM port, then step the address.
        &&& vram_write_post(pre, post, pre.v & 0x3FFF, value)
        &&& post.v == pre.v.wrapping_add(vram_increment_spec(pre.ppuctrl.bits)) & 0x3FFF
        &&& post.ppuctrl == pre.ppuctrl
        &&& post.ppumask == pre.ppumask
        &&& post.ppustatus == pre.ppustatus
        &&& post.oam_address == pre.oam_address
        &&& post.t == pre.t
        &&& post.x == pre.x
        &&& post.w == pre.w
        &&& post.vram_buffer == pre.vram_buffer
        &&& post.oam_memory@ == pre.oam_memory@
    }
}

pub open spec fn same_data_memories(a: Ppu, b: Ppu) -> bool {
    &&& b.vram@ == a.vram@
    &&& b.palette_vram@ == a.palette_vram@
    &&& b.mapper == a.mapper
    &&& b.oam_memory@ == a.oam_memory@
}

pub open spec fn only_mask_changed(a: Ppu, b: Ppu) -> bool {
    &&& b.ppuctrl == a.ppuctrl
    &&& b.ppustatus == a.ppustatus
    &&& b.oam_address == a.oam_address
    &&& b.v == a.v
    &&& b.t == a.t
    &&& b.x == a.x
    &&& b.w == a.w
    &&& b.vram_buffer == a.vram_buffer
    &&& same_data_memories(a, b)
}

/// What one read of a CPU-visible register returns.
pub open spec fn reg_read_result(pre: Ppu, address: u16) -> u8 {
    if address == 0x2002 {
        pre.ppustatus
    } else if address == 0x2004 {
        pre.oam_memory@[pre.oam_address as int]
    } else if address == 0x2007 {
        if pre.v & 0x3FFF >= 0x3F00 {
            vram_peek(pre, pre.v & 0x3FFF)
        } else {
            pre.vram_buffer
        }
    } else {
        0u8
    }
}

/// How one read of a CPU-visible register changes the PPU.
pub open spec fn reg_read_post(pre: Ppu, post: Ppu, address: u16) -> bool {
    &&& ports_untouched(pre, post)
    &&& same_data_memories(pre, post)
    &&& if address == 0x2002 {
        // Reading status clears the v-blank bit and the write toggle.
        &&& post.ppustatus == pre.ppustatus & 0x7F
        &&& post.w == false
        &&& post.ppuctrl == pre.ppuctrl
        &&& post.ppumask == pre.ppumask
        &&& post.oam_address == pre.oam_address
        &&& post.v == pre.v
        &&& post.t == pre.t
        &&& post.x == pre.x
        &&& post.vram_buffer == pre.vram_buffer
    } else if address == 0x2007 {
        // Reading data refills the buffer and steps the address.
        &&& post.vram_buffer == vram_peek(pre, (pre.v & 0x3FFF) & 0x2FFF)
        &&& post.v == pre.v.wrapping_add(vram_increment_spec(pre.ppuctrl.bits)) & 0x3FFF
        &&& post.ppuctrl == pre.ppuctrl
        &&& post.ppumask == pre.ppumask
        &&& post.ppustatus == pre.ppustatus
        &&& post.oam_address == pre.oam_address
        &&& post.t == pre.t
        &&& post.x == pre.x
        &&& post.w == pre.w
    } else {
        post == pre
    }
}

/// Coarse X stepping: at 31 it wraps to 0 and flips the horizontal
/// nametable bit, otherwise it counts up.
pub open spec fn inc_horizontal_spec(v: u16) -> u16 {
    if v & 0x001F == 31 {
        (v & 0xFFE0) ^ 0x0400
    } else {
        v.wrapping_add(1)
    }
}

/// Y stepping: fine Y counts to 7, then coarse Y counts up with the 29-to-0
/// rollover that flips the vertical nametable bit, while 31 rolls to 0
/// without the flip.
pub open spec fn inc_vertical_spec(v: u16) -> u16 {
    if v & 0x7000 != 0x7000 {
        v.wrapping_add(0x1000)
    } else {
        let v2 = v & 0x8FFF;
        let y = (v2 & 0x03E0) >> 5;
        if y == 29 {
            (v2 & 0xFC1F) ^ 0x0800
        } else if y == 31 {
            v2 & 0xFC1F
        } else {
            (v2 & 0xFC1F) | (((y + 1) as u16) << 5)
        }
    }
}

/// Whether either layer is switched on in the mask register.
pub open spec fn rendering_enabled_spec(mask: u8) -> bool {
    mask & 0x08 != 0 || mask & 0x10 != 0
}

/// The two pattern bits the background shift registers produce under fine X.
pub open spec fn bg_pattern_bits(p: Ppu) -> u16 {
    (((p.hi_bitmap_reg >> p.x) & 1) * 2 + ((p.lo_bitmap_reg >> p.x) & 1)) as u16
}

/// The palette index the background pipeline writes at the current dot:
/// pattern 0 is transparent and takes the universal backdrop.
pub open spec fn bg_pixel_color(p: Ppu) -> u8 {
    let pixel = bg_pattern_bits(p);
    if pixel == 0 {
        vram_peek(p, 0x3F00)
    } else {
        let at = ((p.hi_at_reg >> p.x) & 1) * 8 + ((p.lo_at_reg >> p.x) & 1) * 4;
        vram_peek(p, (0x3F00 + at + pixel) as u16)
    }
}

/// Whether the background fetch schedule runs at this dot: the visible
/// dots and the prefetch tail of visible and pre-render scanlines.
pub open spec fn fetch_cycle_spec(p: Ppu) -> bool {
    (p.scanline <= 239 || p.scanline == 261) && (1 <= p.dot <= 256 || p.dot >= 321)
}

/// The nametable entry the fetch schedule reads.
pub open spec fn nt_fetch_addr(v: u16) -> u16 {
    0x2000 | (v & 0x0FFF)
}

/// The attribute entry the fetch schedule reads.
pub open spec fn at_fetch_addr(v: u16) -> u16 {
    0x23C0 | (v & 0x0C00) | ((v >> 4) & 0x38) | ((v >> 2) & 0x07)
}

/// The pattern-table byte the fetch schedule reads for the latched tile.
pub open spec fn bg_pattern_fetch_addr(ctrl: u8, nt: u8, v: u16, hi: bool) -> u16 {
    bg_tile_select_spec(ctrl) | ((nt as int * 16 + ((v >> 12) & 0x7) + if hi {
        8int
    } else {
        0int
    }) as u16)
}

/// Fields one whole PPU clock can never touch: the CPU-facing port state
/// other than `v`, and the CPU-written memories.
pub open spec fn tick_keeps(a: Ppu, b: Ppu) -> bool {
    &&& b.ppuctrl == a.ppuctrl
    &&& b.ppumask == a.ppumask
    &&& b.oam_address == a.oam_address
    &&& b.t == a.t
    &&& b.x == a.x
    &&& b.w == a.w
    &&& b.vram_buffer == a.vram_buffer
    &&& b.vram@ == a.vram@
    &&& b.palette_vram@ == a.palette_vram@
    &&& b.mapper == a.mapper
    &&& b.oam_memory@ == a.oam_memory@
}

/// The dot after this one.
pub open spec fn next_dot(p: Ppu) -> u16 {
    if p.dot >= 340 {
        0u16
    } else {
        (p.dot + 1) as u16
    }
}

/// The scanline after this dot.
pub open spec fn next_scanline(p: Ppu) -> u16 {
    if p.dot >= 340 {
        if p.scanline >= 261 {
            0u16
        } else {
            (p.scanline + 1) as u16
        }
    } else {
        p.scanline
    }
}

/// Fields the pixel pipeline can never touch: the port registers, the
/// scroll state, and the CPU-written memories. Only the fetch schedule and
/// the scroll-copy dots move `v`, and they stand outside these functions.
pub open spec fn pipeline_keeps_ports(a: Ppu, b: Ppu) -> bool {
    &&& b.ppuctrl == a.ppuctrl
    &&& b.ppumask == a.ppumask
    &&& b.oam_address == a.oam_address
    &&& b.v == a.v
    &&& b.t == a.t
    &&& b.x == a.x
    &&& b.w == a.w
    &&& b.vram_buffer == a.vram_buffer
    &&& b.vram@ == a.vram@
    &&& b.palette_vram@ == a.palette_vram@
    &&& b.mapper == a.mapper
    &&& b.oam_memory@ == a.oam_memory@
}

/// The framebuffer slot of the pixel the current dot draws.
pub open spec fn sprite_pixel_index(p: Ppu) -> int {
    p.scanline * 256 + (p.dot - 1)
}

/// Whether scanline sprite `s` covers the current dot, judged on its X
/// counter after this dot's decrement.
pub open spec fn sprite_active(p: Ppu, s: int) -> bool {
    let xp = p.sprite_x_pos@[s].wrapping_sub(1);
    -8 < xp <= 0
}

/// The two pattern bits scanline sprite `s` produces at the current dot.
pub open spec fn scanline_sprite_bits(p: Ppu, s: int) -> u8 {
    let bit_idx = (7 + p.sprite_x_pos@[s].wrapping_sub(1)) as u8;
    (((p.sprite_pattern_hi@[s] >> bit_idx) & 1) * 2 + ((p.sprite_pattern_lo@[s] >> bit_idx)
        & 1)) as u8
}

/// The palette index scanline sprite `s` contributes: sprite palettes live
/// in the upper half of palette RAM.
pub open spec fn scanline_sprite_color(p: Ppu, s: int) -> u8 {
    vram_peek(
        p,
        (0x3F00 + ((p.sprite_at@[s] & 0x3) + 4) * 4 + scanline_sprite_bits(p, s)) as u16,
    )
}

/// The pixel after the first `n` scanline sprites have been blended over
/// the byte `under`: an active, non-transparent sprite pixel lands when
/// its priority bit says "in front" or the pixel under it is the backdrop.
pub open spec fn composited_pixel(p: Ppu, under: u8, n: nat) -> u8
    decreases n,
{
    if n == 0 {
        under
    } else {
        let s = n - 1;
        let prev = composited_pixel(p, under, (n - 1) as nat);
        if sprite_active(p, s) && scanline_sprite_bits(p, s) != 0 && (p.sprite_at@[s] & 0x20 == 0
            || prev == p.palette_vram@[0]) {
            scanline_sprite_color(p, s)
        } else {
            prev
        }
    }
}

/// The framebuffer pixel after the first `n` scanline sprites have been
/// blended over what the frame already holds at the current dot.
pub open spec fn sprites_pixel_after(p: Ppu, n: nat) -> u8 {
    composited_pixel(p, p.output@[sprite_pixel_index(p)], n)
}

/// The blend depends only on the sprite latches, the palette, the pattern
/// memory and the byte underneath, never on the rest of the PPU.
pub proof fn lemma_composited_congruence(p1: Ppu, p2: Ppu, under: u8, n: nat)
    requires
        p1.sprite_x_pos@ == p2.sprite_x_pos@,
        p1.sprite_pattern_lo@ == p2.sprite_pattern_lo@,
        p1.sprite_pattern_hi@ == p2.sprite_pattern_hi@,
        p1.sprite_at@ == p2.sprite_at@,
        p1.palette_vram@ == p2.palette_vram@,
        p1.vram@ == p2.vram@,
        p1.mapper == p2.mapper,
    ensures
        composited_pixel(p1, under, n) == composited_pixel(p2, under, n),
    decreases n,
{
    if n > 0 {
        lemma_composited_congruence(p1, p2, under, (n - 1) as nat);
    }
}

/// The exact condition under which this dot raises the sprite-zero-hit
/// flag: sprite 0 active with a non-transparent pixel over a
/// non-transparent background pixel, both layers on, the pixel not masked
/// by the left-column clip, never at x = 255, and only while the flag is
/// still clear.
pub open spec fn sprite_zero_hit_fires(p: Ppu) -> bool {
    &&& sprite_active(p, 0)
    &&& scanline_sprite_bits(p, 0) != 0
    &&& p.ppustatus & 0x40 == 0
    &&& p.ppumask & 0x08 != 0
    &&& p.ppumask & 0x10 != 0
    &&& !((p.dot - 1 == 0 || p.dot - 1 == 7) && (p.ppumask & 0x02 == 0 || p.ppumask & 0x04 == 0))
    &&& p.dot - 1 != 255
    &&& scanline_sprite_color(p, 0) & 0x03 != 0
    &&& p.output@[sprite_pixel_index(p)] & 0x03 != 0
}

/// Whether the sprite whose OAM record starts at `j` covers the current
/// scanline.
pub open spec fn sprite_in_range(p: Ppu, j: int) -> bool {
    let top = p.oam_memory@[j] as int;
    top <= p.scanline < top + sprite_height_spec(p.ppuctrl.bits)
}

/// The OAM record offsets of the sprites the evaluation pass picks when it
/// has scanned indices up to (excluding) `i`: aligned records in range of
/// the scanline, starting at the OAM address, at most eight.
pub open spec fn selected_sprites(p: Ppu, i: int) -> Seq<int>
    decreases i,
{
    if i <= p.oam_address {
        Seq::empty()
    } else {
        let prev = selected_sprites(p, i - 1);
        if (i - 1) % 4 == 0 && sprite_in_range(p, i - 1) && prev.len() < 8 {
            prev.push(i - 1)
        } else {
            prev
        }
    }
}

/// How many aligned OAM records from the OAM address up to (excluding) `i`
/// cover the current scanline, with no eight-sprite cap: the ninth one is
/// what raises the sprite-overflow flag.
pub open spec fn in_range_count(p: Ppu, i: int) -> nat
    decreases i,
{
    if i <= p.oam_address {
        0nat
    } else {
        in_range_count(p, i - 1) + if (i - 1) % 4 == 0 && sprite_in_range(p, i - 1) {
            1nat
        } else {
            0nat
        }
    }
}

/// The evaluation pass never picks more than eight sprites, and every pick
/// is an aligned OAM record offset inside the scanned range.
pub proof fn lemma_selected_props(p: Ppu, i: int)
    ensures
        selected_sprites(p, i).len() <= 8,
        forall|s: int|
            0 <= s < selected_sprites(p, i).len() ==> p.oam_address <= #[trigger] selected_sprites(
                p,
                i,
            )[s] < i && selected_sprites(p, i)[s] % 4 == 0,
    decreases i,
{
    if i > p.oam_address {
        lemma_selected_props(p, i - 1);
    }
}

/// The pattern row the evaluation fetches for the sprite at `j`: its
/// scanline offset, walked bottom-up under vertical flip.
pub open spec fn sprite_row(p: Ppu, j: int) -> int {
    let off = p.scanline - p.oam_memory@[j];
    if p.oam_memory@[j + 2] & 0x80 != 0 {
        sprite_height_spec(p.ppuctrl.bits) - 1 - off
    } else {
        off
    }
}

/// The pattern-table address of the sprite's low bitmap row.
pub open spec fn sprite_pattern_addr(p: Ppu, j: int) -> u16 {
    (((p.oam_memory@[j + 1] as int) * 16 + sprite_row(p, j)) as u16) | sprite_tile_select_spec(
        p.ppuctrl.bits,
    )
}

/// The bitmap byte latched for the sprite at `j`, mirrored under
/// horizontal flip; the high plane sits eight bytes above the low one.
pub open spec fn sprite_pattern_byte(p: Ppu, j: int, hi: bool) -> u8 {
    let a = if hi {
        (sprite_pattern_addr(p, j) + 8) as u16
    } else {
        sprite_pattern_addr(p, j)
    };
    let raw = vram_peek(p, a);
    if p.oam_memory@[j + 2] & 0x40 != 0 {
        crate::bits::reverse_bits_spec(raw)
    } else {
        raw
    }
}

impl Ppu {
    /// A PPU in its power-up state, parked at the pre-render line.
    pub fn new() -> (r: Ppu)
        ensures
            ppu_wf(r),
            r.ppuctrl.bits == 0,
            r.ppumask == 0,
            r.ppustatus == 0,
            r.oam_address == 0,
            r.v == 0,
            r.t == 0,
            r.x == 0,
            r.w == false,
            r.vram_buffer == 0,
            r.dot == 0,
            r.scanline == 261,
            r.frame_count == 0,
            r.nmi_line == false,
            r.mapper is None,
            r.output@ == Seq::new(61440, |i: int| 0u8),
            r.vram@ == Seq::new(0x800, |i: int| 0u8),
            r.palette_vram@ == Seq::new(32, |i: int| 0u8),
            r.oam_memory@ == Seq::new(256, |i: int| 0u8),
    {
        Ppu {
            ppuctrl: PPUCTRL { bits: 0 },
            ppumask: 0,
            ppustatus: 0,
            oam_address: 0,
            v: 0,
            t: 0,
            x: 0,
            w: false,
            output: filled_vec(61440, 0),
            vram: filled_vec(0x800, 0),
            palette_vram: filled_vec(32, 0),
            vram_buffer: 0,
            dot: 0,
            scanline: 261,
            nt_latch: 0,
            at_latch: 0,
            pattern_latch_lo: 0,
            pattern_latch_hi: 0,
            lo_at_reg: 0,
            hi_at_reg: 0,
            lo_bitmap_reg: 0,
            hi_bitmap_reg: 0,
            oam_memory: filled_vec(256, 0),
            secondary_oam_memory: filled_vec(32, 0),
            sprite_pattern_lo: filled_vec(8, 0),
            sprite_pattern_hi: filled_vec(8, 0),
            sprite_at: filled_vec(8, 0),
            sprite_x_pos: zero_vec_i16(8),
            sprite_count: 0,
            mapper: None,
            nmi_line: false,
            frame_count: 0,
        }
    }

    /// Read a byte from PPU address space: pattern tables through the
    /// cartridge, nametables with their $3000 mirror, palette RAM with its
    /// backdrop fold.
    pub fn read_vram(&self, addr: u16) -> (r: u8)
        requires
            ppu_wf(*self),
            addr < 0x4000,
        ensures
            r == vram_peek(*self, addr),
    {
        proof {
            lemma_u16_and_le();
        }
        if addr < 0x2000 {
            match &self.mapper {
                Some(m) => m.read_chr(addr),
                None => 0,
            }
        } else if addr < 0x3000 {
            let vertical = self.vertical_mirroring_bit();
            self.vram[nametable_index(vertical, addr)]
        } else if addr < 0x3F00 {
            let vertical = self.vertical_mirroring_bit();
            self.vram[nametable_index(vertical, addr - 0x1000)]
        } else {
            let idx = if addr % 4 == 0 {
                addr & 0x0F
            } else {
                addr & 0x1F
            };
            self.palette_vram[idx as usize]
        }
    }

    /// Whether the connected cartridge asks for vertical mirroring.
    pub fn vertical_mirroring_bit(&self) -> (r: bool)
        ensures
            r == vertical_mirroring(*self),
    {
        match &self.mapper {
            Some(m) => m.header.flags6 & 1 != 0,
            None => false,
        }
    }

    /// Write a byte into PPU address space; pattern-table writes land only
    /// on CHR RAM.
    pub fn write_vram(&mut self, addr: u16, value: u8)
        requires
            ppu_wf(*old(self)),
            addr < 0x4000,
        ensures
            ppu_wf(*final(self)),
            vram_write_post(*old(self), *final(self), addr, value),
            ports_untouched(*old(self), *final(self)),
            final(self).ppuctrl == old(self).ppuctrl,
            final(self).ppumask == old(self).ppumask,
            final(self).ppustatus == old(self).ppustatus,
            final(self).oam_address == old(self).oam_address,
            final(self).oam_memory@ == old(self).oam_memory@,
            final(self).v == old(self).v,
            final(self).t == old(self).t,
            final(self).x == old(self).x,
            final(self).w == old(self).w,
            final(self).vram_buffer == old(self).vram_buffer,
    {
        proof {
            lemma_u16_and_le();
        }
        if addr < 0x2000 {
            match &mut self.mapper {
                Some(m) => m.write_chr(addr, value),
                None => (),
            }
        } else if addr < 0x3000 {
            let vertical = self.vertical_mirroring_bit();
            self.vram[nametable_index(vertical, addr)] = value;
        } else if addr < 0x3F00 {
            let vertical = self.vertical_mirroring_bit();
            self.vram[nametable_index(vertical, addr - 0x1000)] = value;
        } else {
            let idx = if addr % 4 == 0 {
                addr & 0x0F
            } else {
                addr & 0x1F
            };
            self.palette_vram[idx as usize] = value;
        }
    }
    /// A CPU write to one of the eight registers at $2000-$2007.
    /// $2002 is read-only and the write is dropped.
    pub fn write_register_cpu_address(&mut self, address: u16, value: u8)
        requires
            ppu_wf(*old(self)),
            0x2000 <= address <= 0x2007,
        ensures
            ppu_wf(*final(self)),
            reg_write_post(*old(self), *final(self), address, value),
    {
        proof {
            lemma_u16_and_le();
            lemma_u8_and_le();
        }
        match address {
            0x2000 => {
                self.ppuctrl = PPUCTRL { bits: value };
                self.t = (self.t & 0xF3FF) | (((value & 0x03) as u16) << 10);
            },
            0x2001 => {
                self.ppumask = value;
            },
            0x2002 => {},
            0x2003 => {
                self.oam_address = value;
            },
            0x2004 => {
                self.oam_memory[self.oam_address as usize] = value;
                self.oam_address = self.oam_address.wrapping_add(1);
            },
            0x2005 => {
                if !self.w {
                    self.t = (self.t & 0xFFE0) | ((value >> 3) as u16);
                    self.x = value & 0x07;
                } else {
                    self.t = (self.t & 0x8C1F) | (((value & 0x07) as u16) << 12) | (((value
                        & 0xF8) as u16) << 2);
                }
                self.w = !self.w;
            },
            0x2006 => {
                if !self.w {
                    self.t = (self.t & 0x00FF) | (((value & 0x3F) as u16) << 8);
                } else {
                    self.t = (self.t & 0xFF00) | (value as u16);
                    self.v = self.t;
                }
                self.w = !self.w;
            },
            _ => {
                let addr = self.v & 0x3FFF;
                self.write_vram(addr, value);
                let incr = self.ppuctrl.vram_increment();
                self.v = self.v.wrapping_add(incr) & 0x3FFF;
            },
        }
    }

    /// A CPU read from one of the eight registers; write-only registers
    /// read as 0. Reading $2002 clears the v-blank bit and the write
    /// toggle; reading $2007 goes through the one-read buffer except for
    /// palette addresses, which come back directly.
    pub fn read_register_cpu_address(&mut self, address: u16) -> (r: u8)
        requires
            ppu_wf(*old(self)),
            0x2000 <= address <= 0x2007,
        ensures
            ppu_wf(*final(self)),
            r == reg_read_result(*old(self), address),
            reg_read_post(*old(self), *final(self), address),
    {
        proof {
            lemma_u16_and_le();
        }
        match address {
            0x2002 => {
                self.w = false;
                let ret = self.ppustatus;
                self.ppustatus = self.ppustatus & 0x7F;
                ret
            },
            0x2004 => self.oam_memory[self.oam_address as usize],
            0x2007 => {
                let addr = self.v & 0x3FFF;
                let ret = if addr >= 0x3F00 {
                    self.read_vram(addr)
                } else {
                    self.vram_buffer
                };
                self.vram_buffer = self.read_vram(addr & 0x2FFF);
                let incr = self.ppuctrl.vram_increment();
                self.v = self.v.wrapping_add(incr) & 0x3FFF;
                ret
            },
            _ => 0,
        }
    }

    /// Step coarse X in `v`, wrapping into the neighbouring nametable.
    pub fn inc_horizontal(&mut self)
        ensures
            final(self).v == inc_horizontal_spec(old(self).v),
            unchanged_but_v(*old(self), *final(self)),
    {
        if self.v & 0x001F == 31 {
            self.v = (self.v & 0xFFE0) ^ 0x0400;
        } else {
            self.v = self.v.wrapping_add(1);
        }
    }

    /// Step fine and coarse Y in `v`, with the 29-to-0 rollover.
    pub fn inc_vertical(&mut self)
        ensures
            final(self).v == inc_vertical_spec(old(self).v),
            unchanged_but_v(*old(self), *final(self)),
    {
        proof {
            lemma_u16_and_le();
            lemma_u16_shr_le();
        }
        if self.v & 0x7000 != 0x7000 {
            self.v = self.v.wrapping_add(0x1000);
        } else {
            self.v = self.v & 0x8FFF;
            let y: u16 = (self.v & 0x03E0) >> 5;
            if y == 29 {
                // Coarse Y rolls to 0 and the vertical nametable flips.
                self.v = (self.v & 0xFC1F) ^ 0x0800;
            } else if y == 31 {
                // Out-of-range coarse Y rolls to 0 without the flip.
                self.v = self.v & 0xFC1F;
            } else {
                self.v = (self.v & 0xFC1F) | ((y + 1) << 5);
            }
        }
    }

    /// Produce the background pixel for the current dot and shift the
    /// background registers one bit onward.
    pub fn render_background(&mut self)
        requires
            ppu_wf(*old(self)),
            1 <= old(self).dot <= 256,
            old(self).scanline <= 239,
        ensures
            ppu_wf(*final(self)),
            final(self).output@ == old(self).output@.update(
                old(self).scanline * 256 + old(self).dot - 1,
                bg_pixel_color(*old(self)),
            ),
            final(self).lo_at_reg == old(self).lo_at_reg >> 1,
            final(self).hi_at_reg == old(self).hi_at_reg >> 1,
            final(self).lo_bitmap_reg == old(self).lo_bitmap_reg >> 1,
            final(self).hi_bitmap_reg == old(self).hi_bitmap_reg >> 1,
            pipeline_keeps_ports(*old(self), *final(self)),
            final(self).ppustatus == old(self).ppustatus,
            final(self).dot == old(self).dot,
            final(self).scanline == old(self).scanline,
            final(self).frame_count == old(self).frame_count,
            final(self).nmi_line == old(self).nmi_line,
            final(self).nt_latch == old(self).nt_latch,
            final(self).at_latch == old(self).at_latch,
            final(self).pattern_latch_lo == old(self).pattern_latch_lo,
            final(self).pattern_latch_hi == old(self).pattern_latch_hi,
            final(self).secondary_oam_memory@ == old(self).secondary_oam_memory@,
            final(self).sprite_pattern_lo@ == old(self).sprite_pattern_lo@,
            final(self).sprite_pattern_hi@ == old(self).sprite_pattern_hi@,
            final(self).sprite_at@ == old(self).sprite_at@,
            final(self).sprite_x_pos@ == old(self).sprite_x_pos@,
            final(self).sprite_count == old(self).sprite_count,
    {
        proof {
            lemma_u16_and_le();
        }
        let x_pos: u16 = self.dot - 1;
        let y_pos: u16 = self.scanline;
        let fine_x: u8 = self.x;
        let pixel_hi: u16 = (self.hi_bitmap_reg >> fine_x) & 0x01;
        let pixel_lo: u16 = (self.lo_bitmap_reg >> fine_x) & 0x01;
        let pixel: u16 = pixel_hi * 2 + pixel_lo;
        let color: u8 = if pixel == 0 {
            self.read_vram(0x3F00)
        } else {
            let at_lo: u16 = (self.lo_at_reg >> fine_x) & 0x01;
            let at_hi: u16 = (self.hi_at_reg >> fine_x) & 0x01;
            let at_data: u16 = at_hi * 8 + at_lo * 4;
            self.read_vram(0x3F00 + at_data + pixel)
        };
        let idx: usize = y_pos as usize * 256 + x_pos as usize;
        self.output[idx] = color;
        self.lo_at_reg = self.lo_at_reg >> 1;
        self.hi_at_reg = self.hi_at_reg >> 1;
        self.lo_bitmap_reg = self.lo_bitmap_reg >> 1;
        self.hi_bitmap_reg = self.hi_bitmap_reg >> 1;
    }

    /// Walk the eight sprite X counters for the current dot, blend active
    /// sprite pixels into the framebuffer, and raise the sprite-zero-hit
    /// flag when sprite 0 overlaps the background under the documented
    /// conditions. The flag never rises at x = 255, never when it is
    /// already set, and never with a layer switched off.
    pub fn render_sprites(&mut self)
        requires
            ppu_wf(*old(self)),
            1 <= old(self).dot <= 256,
            old(self).scanline <= 239,
        ensures
            ppu_wf(*final(self)),
            pipeline_keeps_ports(*old(self), *final(self)),
            final(self).dot == old(self).dot,
            final(self).scanline == old(self).scanline,
            final(self).frame_count == old(self).frame_count,
            final(self).nmi_line == old(self).nmi_line,
            final(self).nt_latch == old(self).nt_latch,
            final(self).at_latch == old(self).at_latch,
            final(self).pattern_latch_lo == old(self).pattern_latch_lo,
            final(self).pattern_latch_hi == old(self).pattern_latch_hi,
            final(self).lo_at_reg == old(self).lo_at_reg,
            final(self).hi_at_reg == old(self).hi_at_reg,
            final(self).lo_bitmap_reg == old(self).lo_bitmap_reg,
            final(self).hi_bitmap_reg == old(self).hi_bitmap_reg,
            final(self).secondary_oam_memory@ == old(self).secondary_oam_memory@,
            final(self).sprite_pattern_lo@ == old(self).sprite_pattern_lo@,
            final(self).sprite_pattern_hi@ == old(self).sprite_pattern_hi@,
            final(self).sprite_at@ == old(self).sprite_at@,
            final(self).sprite_count == old(self).sprite_count,
            final(self).sprite_x_pos@.len() == 8,
            forall|j: int|
                0 <= j < 8 ==> final(self).sprite_x_pos@[j] == old(
                    self,
                ).sprite_x_pos@[j].wrapping_sub(1),
            final(self).ppustatus == if sprite_zero_hit_fires(*old(self)) {
                old(self).ppustatus | 0x40
            } else {
                old(self).ppustatus
            },
            final(self).ppustatus != old(self).ppustatus ==> {
                &&& old(self).ppustatus & 0x40 == 0
                &&& old(self).dot - 1 != 255
                &&& old(self).ppumask & 0x08 != 0
                &&& old(self).ppumask & 0x10 != 0
            },
            final(self).output@ == old(self).output@.update(
                sprite_pixel_index(*old(self)),
                sprites_pixel_after(*old(self), 8),
            ),
    {
        proof {
            lemma_u8_and_le();
        }
        let x_pos: u16 = self.dot - 1;
        let y_pos: u16 = self.scanline;
        let mut i: usize = 0;
        while i < 8
            invariant
                ppu_wf(*self),
                pipeline_keeps_ports(*old(self), *self),
                self.dot == old(self).dot,
                self.scanline == old(self).scanline,
                self.frame_count == old(self).frame_count,
                self.nmi_line == old(self).nmi_line,
                self.nt_latch == old(self).nt_latch,
                self.at_latch == old(self).at_latch,
                self.pattern_latch_lo == old(self).pattern_latch_lo,
                self.pattern_latch_hi == old(self).pattern_latch_hi,
                self.lo_at_reg == old(self).lo_at_reg,
                self.hi_at_reg == old(self).hi_at_reg,
                self.lo_bitmap_reg == old(self).lo_bitmap_reg,
                self.hi_bitmap_reg == old(self).hi_bitmap_reg,
                self.secondary_oam_memory@ == old(self).secondary_oam_memory@,
                self.sprite_pattern_lo@ == old(self).sprite_pattern_lo@,
                self.sprite_pattern_hi@ == old(self).sprite_pattern_hi@,
                self.sprite_at@ == old(self).sprite_at@,
                self.sprite_count == old(self).sprite_count,
                i <= 8,
                ppu_wf(*old(self)),
                x_pos == old(self).dot - 1,
                y_pos == old(self).scanline,
                x_pos <= 255,
                y_pos <= 239,
                forall|j: int|
                    0 <= j < i ==> self.sprite_x_pos@[j] == old(
                        self,
                    ).sprite_x_pos@[j].wrapping_sub(1),
                forall|j: int| i <= j < 8 ==> self.sprite_x_pos@[j] == old(self).sprite_x_pos@[j],
                self.ppustatus == if i > 0 && sprite_zero_hit_fires(*old(self)) {
                    old(self).ppustatus | 0x40
                } else {
                    old(self).ppustatus
                },
                self.ppustatus != old(self).ppustatus ==> {
                    &&& old(self).ppustatus & 0x40 == 0
                    &&& old(self).dot - 1 != 255
                    &&& old(self).ppumask & 0x08 != 0
                    &&& old(self).ppumask & 0x10 != 0
                },
                self.output@.len() == old(self).output@.len(),
                self.output@[sprite_pixel_index(*old(self))] == sprites_pixel_after(
                    *old(self),
                    i as nat,
                ),
                forall|k: int|
                    0 <= k < self.output@.len() && k != sprite_pixel_index(*old(self))
                        ==> self.output@[k] == old(self).output@[k],
            decreases 8 - i,
        {
            proof {
                lemma_u8_and_le();
            }
            let xp: i16 = self.sprite_x_pos[i].wrapping_sub(1);
            self.sprite_x_pos[i] = xp;
            if xp <= 0 && xp > -8 {
                // The sprite overlaps the current dot.
                let bit_idx: u8 = (7i16 + xp) as u8;
                let pattern_lo: u8 = (self.sprite_pattern_lo[i] >> bit_idx) & 1;
                let pattern_hi: u8 = (self.sprite_pattern_hi[i] >> bit_idx) & 1;
                let pattern: u8 = pattern_hi * 2 + pattern_lo;
                proof {
                    assert(pattern == scanline_sprite_bits(*old(self), i as int));
                }
                if pattern != 0 {
                    let at_data: u8 = (self.sprite_at[i] & 0x3) + 4;
                    let color: u8 = self.read_vram(
                        0x3F00 + (at_data as u16) * 4 + (pattern as u16),
                    );
                    proof {
                        assert(color == scanline_sprite_color(*old(self), i as int));
                    }
                    let idx: usize = y_pos as usize * 256 + x_pos as usize;
                    if i == 0 && self.ppustatus & 0x40 == 0 && self.ppumask & 0x08 != 0
                        && self.ppumask & 0x10 != 0 && !((x_pos == 0 || x_pos == 7) && (self.ppumask
                        & 0x02 == 0 || self.ppumask & 0x04 == 0)) && x_pos != 255 && color & 0x03
                        != 0 && self.output[idx] & 0x03 != 0 {
                        proof {
                            assert(forall|y: u8| #[trigger] (y | 0x40u8) & 0x40u8 != 0)
                                by (bit_vector);
                        }
                        self.ppustatus = self.ppustatus | 0x40;
                    }
                    let priority: u8 = self.sprite_at[i] & 0x20;
                    if priority == 0 || self.output[idx] == self.palette_vram[0] {
                        self.output[idx] = color;
                    }
                }
            }
            i += 1;
        }
        proof {
            assert(self.output@ =~= old(self).output@.update(
                sprite_pixel_index(*old(self)),
                sprites_pixel_after(*old(self), 8),
            ));
        }
    }
    /// At dot 256 of a visible scanline, pick up to eight sprites whose Y
    /// range contains the next scanline, latch their attributes and X
    /// positions, and fetch their pattern bitmaps honouring the two flip
    /// attribute bits. A ninth in-range sprite raises the sprite-overflow
    /// flag.
    #[verifier::rlimit(40)]
    pub fn sprite_evaluation(&mut self)
        requires
            ppu_wf(*old(self)),
        ensures
            ppu_wf(*final(self)),
            pipeline_keeps_ports(*old(self), *final(self)),
            final(self).output@ == old(self).output@,
            final(self).ppustatus == if old(self).dot == 256 && in_range_count(*old(self), 256)
                > 8 {
                old(self).ppustatus | 0x20
            } else {
                old(self).ppustatus
            },
            final(self).dot == old(self).dot,
            final(self).scanline == old(self).scanline,
            final(self).frame_count == old(self).frame_count,
            final(self).nmi_line == old(self).nmi_line,
            final(self).nt_latch == old(self).nt_latch,
            final(self).at_latch == old(self).at_latch,
            final(self).pattern_latch_lo == old(self).pattern_latch_lo,
            final(self).pattern_latch_hi == old(self).pattern_latch_hi,
            final(self).lo_at_reg == old(self).lo_at_reg,
            final(self).hi_at_reg == old(self).hi_at_reg,
            final(self).lo_bitmap_reg == old(self).lo_bitmap_reg,
            final(self).hi_bitmap_reg == old(self).hi_bitmap_reg,
            final(self).secondary_oam_memory@ == old(self).secondary_oam_memory@,
            final(self).sprite_count == old(self).sprite_count,
            old(self).dot != 256 ==> {
                &&& final(self).sprite_at@ == old(self).sprite_at@
                &&& final(self).sprite_x_pos@ == old(self).sprite_x_pos@
                &&& final(self).sprite_pattern_lo@ == old(self).sprite_pattern_lo@
                &&& final(self).sprite_pattern_hi@ == old(self).sprite_pattern_hi@
            },
            old(self).dot == 256 ==> {
                &&& forall|s: int|
                    0 <= s < selected_sprites(*old(self), 256).len()
                        ==> #[trigger] final(self).sprite_at@[s] == old(self).oam_memory@[
                        selected_sprites(*old(self), 256)[s] + 2] && final(self).sprite_x_pos@[s]
                        == old(self).oam_memory@[selected_sprites(*old(self), 256)[s] + 3] as i16
                        && final(self).sprite_pattern_lo@[s] == sprite_pattern_byte(
                        *old(self),
                        selected_sprites(*old(self), 256)[s],
                        false,
                    ) && final(self).sprite_pattern_hi@[s] == sprite_pattern_byte(
                        *old(self),
                        selected_sprites(*old(self), 256)[s],
                        true,
                    )
                &&& forall|s: int|
                    selected_sprites(*old(self), 256).len() <= s < 8
                        ==> #[trigger] final(self).sprite_at@[s] == old(self).sprite_at@[s]
                        && final(self).sprite_x_pos@[s] == old(self).sprite_x_pos@[s]
                        && final(self).sprite_pattern_lo@[s] == old(self).sprite_pattern_lo@[s]
                        && final(self).sprite_pattern_hi@[s] == old(self).sprite_pattern_hi@[s]
            },
    {
        if self.dot != 256 {
            return ;
        }
        let y_pos: u16 = self.scanline;
        let mut sprite_count: usize = 0;
        let mut in_range_total: usize = 0;
        let mut i: usize = self.oam_address as usize;
        while i < 256
            invariant
                ppu_wf(*self),
                ppu_wf(*old(self)),
                pipeline_keeps_ports(*old(self), *self),
                self.output@ == old(self).output@,
                self.ppustatus == if in_range_count(*old(self), i as int) > 8 {
                    old(self).ppustatus | 0x20
                } else {
                    old(self).ppustatus
                },
                in_range_total == in_range_count(*old(self), i as int),
                in_range_total <= i,
                self.dot == old(self).dot,
                self.scanline == old(self).scanline,
                self.frame_count == old(self).frame_count,
                self.nmi_line == old(self).nmi_line,
                self.nt_latch == old(self).nt_latch,
                self.at_latch == old(self).at_latch,
                self.pattern_latch_lo == old(self).pattern_latch_lo,
                self.pattern_latch_hi == old(self).pattern_latch_hi,
                self.lo_at_reg == old(self).lo_at_reg,
                self.hi_at_reg == old(self).hi_at_reg,
                self.lo_bitmap_reg == old(self).lo_bitmap_reg,
                self.hi_bitmap_reg == old(self).hi_bitmap_reg,
                self.secondary_oam_memory@ == old(self).secondary_oam_memory@,
                self.sprite_count == old(self).sprite_count,
                y_pos == old(self).scanline,
                old(self).oam_address <= i <= 256,
                sprite_count == selected_sprites(*old(self), i as int).len(),
                forall|s: int|
                    0 <= s < selected_sprites(*old(self), i as int).len()
                        ==> #[trigger] self.sprite_at@[s] == old(self).oam_memory@[
                        selected_sprites(*old(self), i as int)[s] + 2] && self.sprite_x_pos@[s]
                        == old(self).oam_memory@[selected_sprites(*old(self), i as int)[s]
                        + 3] as i16 && self.sprite_pattern_lo@[s] == sprite_pattern_byte(
                        *old(self),
                        selected_sprites(*old(self), i as int)[s],
                        false,
                    ) && self.sprite_pattern_hi@[s] == sprite_pattern_byte(
                        *old(self),
                        selected_sprites(*old(self), i as int)[s],
                        true,
                    ),
                forall|s: int|
                    selected_sprites(*old(self), i as int).len() <= s < 8
                        ==> #[trigger] self.sprite_at@[s] == old(self).sprite_at@[s]
                        && self.sprite_x_pos@[s] == old(self).sprite_x_pos@[s]
                        && self.sprite_pattern_lo@[s] == old(self).sprite_pattern_lo@[s]
                        && self.sprite_pattern_hi@[s] == old(self).sprite_pattern_hi@[s],
            decreases 256 - i,
        {
            proof {
                lemma_u16_or_le();
                lemma_selected_props(*old(self), i as int);
                lemma_selected_props(*old(self), i as int + 1);
            }
            let ghost sel_pre = selected_sprites(*old(self), i as int);
            if i % 4 == 0 {
                let sprite_y_top: u8 = self.oam_memory[i];
                let offset: i16 = y_pos as i16 - sprite_y_top as i16;
                let sprite_height: i16 = self.ppuctrl.sprite_height() as i16;
                let sprite_tile_select: u16 = self.ppuctrl.sprite_tile_select();
                if offset < sprite_height && offset >= 0 {
                    in_range_total = in_range_total + 1;
                    if in_range_total == 9 {
                        // The ninth in-range sprite raises the overflow flag.
                        self.ppustatus = self.ppustatus | 0x20;
                    }
                    proof {
                        assert(in_range_count(*old(self), i + 1) == in_range_count(
                            *old(self),
                            i as int,
                        ) + 1);
                    }
                } else {
                    proof {
                        assert(in_range_count(*old(self), i + 1) == in_range_count(
                            *old(self),
                            i as int,
                        ));
                    }
                }
                if offset < sprite_height && offset >= 0 && sprite_count < 8 {
                    let sprite_idx: u16 = self.oam_memory[i + 1] as u16;
                    let at: u8 = self.oam_memory[i + 2];
                    self.sprite_at[sprite_count] = at;
                    // Vertical flip walks the tile rows bottom-up.
                    let row: i16 = if at & 0x80 != 0 {
                        sprite_height - 1 - offset
                    } else {
                        offset
                    };
                    let addr: u16 = (sprite_idx * 16 + row as u16) | sprite_tile_select;
                    let mut pattern_lo: u8 = self.read_vram(addr);
                    let mut pattern_hi: u8 = self.read_vram(addr + 8);
                    self.sprite_x_pos[sprite_count] = self.oam_memory[i + 3] as i16;
                    // Horizontal flip mirrors each bitmap row.
                    if at & 0x40 != 0 {
                        pattern_lo = reverse_bits(pattern_lo);
                        pattern_hi = reverse_bits(pattern_hi);
                    }
                    self.sprite_pattern_lo[sprite_count] = pattern_lo;
                    self.sprite_pattern_hi[sprite_count] = pattern_hi;
                    proof {
                        assert(selected_sprites(*old(self), i + 1) == sel_pre.push(i as int));
                        let j = i as int;
                        let slot = sel_pre.len() as int;
                        assert(self.sprite_at@[slot] == old(self).oam_memory@[j + 2]);
                        assert(self.sprite_x_pos@[slot] == old(self).oam_memory@[j + 3] as i16);
                        assert(row as int == sprite_row(*old(self), j));
                        assert(addr == sprite_pattern_addr(*old(self), j));
                        assert(self.sprite_pattern_lo@[slot] == sprite_pattern_byte(
                            *old(self),
                            j,
                            false,
                        ));
                        assert(self.sprite_pattern_hi@[slot] == sprite_pattern_byte(
                            *old(self),
                            j,
                            true,
                        ));
                    }
                    sprite_count += 1;
                } else {
                    proof {
                        assert(selected_sprites(*old(self), i + 1) == sel_pre);
                    }
                }
            } else {
                proof {
                    assert(selected_sprites(*old(self), i + 1) == sel_pre);
                    assert(in_range_count(*old(self), i + 1) == in_range_count(
                        *old(self),
                        i as int,
                    ));
                }
            }
            proof {
                let sel_post = selected_sprites(*old(self), i as int + 1);
                assert forall|s: int|
                    sel_post.len() <= s < 8 implies self.sprite_at@[s] == old(self).sprite_at@[s]
                    && self.sprite_x_pos@[s] == old(self).sprite_x_pos@[s]
                    && self.sprite_pattern_lo@[s] == old(self).sprite_pattern_lo@[s]
                    && self.sprite_pattern_hi@[s] == old(self).sprite_pattern_hi@[s] by {
                    assert(sel_pre.len() <= s < 8);
                    assert(self.sprite_at@[s] == old(self).sprite_at@[s]);
                    assert(self.sprite_x_pos@[s] == old(self).sprite_x_pos@[s]);
                    assert(self.sprite_pattern_lo@[s] == old(self).sprite_pattern_lo@[s]);
                    assert(self.sprite_pattern_hi@[s] == old(self).sprite_pattern_hi@[s]);
                }
                assert forall|s: int|
                    0 <= s < sel_post.len() implies #[trigger] self.sprite_at@[s] == old(
                    self,
                ).oam_memory@[sel_post[s] + 2] && self.sprite_x_pos@[s] == old(self).oam_memory@[
                    sel_post[s] + 3] as i16 && self.sprite_pattern_lo@[s] == sprite_pattern_byte(
                    *old(self),
                    sel_post[s],
                    false,
                ) && self.sprite_pattern_hi@[s] == sprite_pattern_byte(
                    *old(self),
                    sel_post[s],
                    true,
                ) by {
                    if s < sel_pre.len() {
                        assert(sel_post[s] == sel_pre[s]);
                        assert(self.sprite_at@[s] == old(self).oam_memory@[sel_pre[s] + 2]);
                    }
                }
            }
            i += 1;
        }
    }

    /// Advance one dot: raise the v-blank flag, the NMI line and the frame
    /// signal at (dot 1, scanline 241); clear the status flags at (dot 1,
    /// scanline 261); then step the dot and scanline counters.
    pub fn inc_dot(&mut self)
        requires
            ppu_wf(*old(self)),
        ensures
            ppu_wf(*final(self)),
            final(self).dot == next_dot(*old(self)),
            final(self).scanline == next_scanline(*old(self)),
            dot_pos(*final(self)) == (dot_pos(*old(self)) + 1) % 89342,
            final(self).frame_count == sat_add64_spec(
                old(self).frame_count,
                if vblank_trigger(*old(self)) {
                    1u64
                } else {
                    0u64
                },
            ),
            final(self).nmi_line == (old(self).nmi_line || (vblank_trigger(*old(self)) && old(
                self,
            ).ppuctrl.bits & 0x80 != 0)),
            final(self).ppustatus == if vblank_trigger(*old(self)) {
                old(self).ppustatus | 0x80
            } else if status_clear_point(*old(self)) {
                old(self).ppustatus & 0x1F
            } else {
                old(self).ppustatus
            },
            pipeline_keeps_ports(*old(self), *final(self)),
            final(self).output@ == old(self).output@,
            final(self).secondary_oam_memory@ == old(self).secondary_oam_memory@,
            final(self).sprite_pattern_lo@ == old(self).sprite_pattern_lo@,
            final(self).sprite_pattern_hi@ == old(self).sprite_pattern_hi@,
            final(self).sprite_at@ == old(self).sprite_at@,
            final(self).sprite_x_pos@ == old(self).sprite_x_pos@,
            final(self).sprite_count == old(self).sprite_count,
            final(self).nt_latch == old(self).nt_latch,
            final(self).at_latch == old(self).at_latch,
            final(self).pattern_latch_lo == old(self).pattern_latch_lo,
            final(self).pattern_latch_hi == old(self).pattern_latch_hi,
            final(self).lo_at_reg == old(self).lo_at_reg,
            final(self).hi_at_reg == old(self).hi_at_reg,
            final(self).lo_bitmap_reg == old(self).lo_bitmap_reg,
            final(self).hi_bitmap_reg == old(self).hi_bitmap_reg,
            final(self).v == old(self).v,
    {
        if self.dot == 1 && self.scanline == 241 {
            self.ppustatus = self.ppustatus | 0x80;
            if self.ppuctrl.bits & 0x80 != 0 {
                self.nmi_line = true;
            }
            self.frame_count = sat_add64(self.frame_count, 1);
        }
        if self.dot == 1 && self.scanline == 261 {
            self.ppustatus = self.ppustatus & 0x1F;
        }
        if self.dot >= 340 {
            self.dot = 0;
            if self.scanline >= 261 {
                self.scanline = 0;
            } else {
                self.scanline = self.scanline + 1;
            }
        } else {
            self.dot = self.dot + 1;
        }
    }

    /// One PPU clock: when rendering is enabled, run the background and
    /// sprite pipelines for visible dots, the fetch schedule and scroll
    /// stepping, and the per-scanline sprite evaluation; then advance the
    /// dot counter with its v-blank edges.
    pub fn tick(&mut self)
        requires
            ppu_wf(*old(self)),
        ensures
            ppu_wf(*final(self)),
            tick_keeps(*old(self), *final(self)),
            final(self).dot == next_dot(*old(self)),
            final(self).scanline == next_scanline(*old(self)),
            dot_pos(*final(self)) == (dot_pos(*old(self)) + 1) % 89342,
            final(self).frame_count == sat_add64_spec(
                old(self).frame_count,
                if vblank_trigger(*old(self)) {
                    1u64
                } else {
                    0u64
                },
            ),
            final(self).nmi_line == (old(self).nmi_line || (vblank_trigger(*old(self)) && old(
                self,
            ).ppuctrl.bits & 0x80 != 0)),
            vblank_trigger(*old(self)) ==> final(self).ppustatus == old(self).ppustatus | 0x80,
            status_clear_point(*old(self)) ==> final(self).ppustatus == old(self).ppustatus
                & 0x1F,
            // Outside the edge dots the status only gains the sprite-zero
            // and sprite-overflow bits the pipeline may raise.
            !vblank_trigger(*old(self)) && !status_clear_point(*old(self))
                ==> (final(self).ppustatus == old(self).ppustatus
                || final(self).ppustatus == old(self).ppustatus | 0x40
                || final(self).ppustatus == old(self).ppustatus | 0x20
                || final(self).ppustatus == (old(self).ppustatus | 0x40) | 0x20),
            // With both layers off only the backdrop fill and the clock move.
            !rendering_enabled_spec(old(self).ppumask) ==> {
                &&& final(self).v == old(self).v
                &&& final(self).lo_at_reg == old(self).lo_at_reg
                &&& final(self).hi_at_reg == old(self).hi_at_reg
                &&& final(self).lo_bitmap_reg == old(self).lo_bitmap_reg
                &&& final(self).hi_bitmap_reg == old(self).hi_bitmap_reg
                &&& final(self).sprite_x_pos@ == old(self).sprite_x_pos@
                &&& final(self).secondary_oam_memory@ == old(self).secondary_oam_memory@
            },
            // The framebuffer can only change on visible scanlines, and on
            // a visible rendering dot it takes exactly the sprite-over-
            // background composition at the current pixel.
            old(self).scanline > 239 ==> final(self).output@ == old(self).output@,
            rendering_enabled_spec(old(self).ppumask) && old(self).scanline <= 239 && 1 <= old(
                self,
            ).dot <= 256 ==> final(self).output@ == old(self).output@.update(
                sprite_pixel_index(*old(self)),
                composited_pixel(*old(self), bg_pixel_color(*old(self)), 8),
            ),
            // With rendering on, dot 257 reloads the horizontal scroll bits
            // of v from t, and the pre-render line's dots 280-304 reload
            // the vertical ones; between those windows v rests.
            rendering_enabled_spec(old(self).ppumask) && old(self).dot == 257 ==> final(self).v
                == (old(self).v & 0x7BE0) | (old(self).t & 0x041F),
            rendering_enabled_spec(old(self).ppumask) && status_clear_point(*old(self))
                ==> final(self).v == old(self).v,
            rendering_enabled_spec(old(self).ppumask) && 280 <= old(self).dot <= 304 && old(
                self,
            ).scanline == 261 ==> final(self).v == (old(self).v & 0x041F) | (old(self).t & 0x7BE0),
            rendering_enabled_spec(old(self).ppumask) && 257 < old(self).dot < 321 && !(280 <= old(
                self,
            ).dot <= 304 && old(self).scanline == 261) ==> final(self).v == old(self).v,
            // The fetch schedule fills one latch per odd phase and steps
            // coarse X (plus Y at dot 256) on phase zero.
            rendering_enabled_spec(old(self).ppumask) && fetch_cycle_spec(*old(self)) ==> {
                &&& old(self).dot % 8 == 1 ==> final(self).nt_latch == vram_peek(
                    *old(self),
                    nt_fetch_addr(old(self).v),
                )
                &&& old(self).dot % 8 == 3 ==> final(self).at_latch == vram_peek(
                    *old(self),
                    at_fetch_addr(old(self).v),
                )
                &&& old(self).dot % 8 == 5 ==> final(self).pattern_latch_lo == vram_peek(
                    *old(self),
                    bg_pattern_fetch_addr(
                        old(self).ppuctrl.bits,
                        old(self).nt_latch,
                        old(self).v,
                        false,
                    ),
                )
                &&& old(self).dot % 8 == 7 ==> final(self).pattern_latch_hi == vram_peek(
                    *old(self),
                    bg_pattern_fetch_addr(
                        old(self).ppuctrl.bits,
                        old(self).nt_latch,
                        old(self).v,
                        true,
                    ),
                )
                &&& old(self).dot % 8 == 0 ==> final(self).v == if old(self).dot == 256 {
                    inc_vertical_spec(inc_horizontal_spec(old(self).v))
                } else {
                    inc_horizontal_spec(old(self).v)
                }
            },
    {
        proof {
            lemma_u16_and_le();
            lemma_u16_or_le();
        }
        let rendering_enabled = self.ppumask & 0x08 != 0 || self.ppumask & 0x10 != 0;
        let phase: u16 = self.dot % 8;
        let render_cycle = self.dot >= 1 && self.dot <= 256;
        let visible_scanline = self.scanline <= 239;
        let pre_render_line = self.scanline == 261;
        let fetch_cycle = (visible_scanline || pre_render_line) && (render_cycle || self.dot
            >= 321);
        let fine_y: u16 = (self.v >> 12) & 0x7;
        if !rendering_enabled && visible_scanline && render_cycle {
            // With both layers off the screen shows the universal backdrop.
            let c = self.read_vram(0x3F00);
            let idx: usize = self.scanline as usize * 256 + (self.dot - 1) as usize;
            self.output[idx] = c;
        }
        if rendering_enabled {
            if render_cycle && visible_scanline {
                self.render_background();
                let ghost mid = *self;
                self.render_sprites();
                proof {
                    lemma_composited_congruence(
                        mid,
                        *old(self),
                        bg_pixel_color(*old(self)),
                        8,
                    );
                    assert(self.output@ =~= old(self).output@.update(
                        sprite_pixel_index(*old(self)),
                        composited_pixel(*old(self), bg_pixel_color(*old(self)), 8),
                    ));
                }
            }
            if fetch_cycle {
                if phase == 1 {
                    // Reload the shift registers and fetch the nametable byte.
                    let sh: u16 = ((self.v >> 4) & 4) | (self.v.wrapping_sub(1) & 2);
                    let bitmap: u16 = ((self.at_latch >> (sh as u8)) & 0x03) as u16;
                    self.lo_at_reg = self.lo_at_reg | (bitmap & 1) * 0xFF00;
                    self.hi_at_reg = self.hi_at_reg | ((bitmap >> 1) & 1) * 0xFF00;
                    self.lo_bitmap_reg = self.lo_bitmap_reg | ((reverse_bits(
                        self.pattern_latch_lo,
                    ) as u16) << 8);
                    self.hi_bitmap_reg = self.hi_bitmap_reg | ((reverse_bits(
                        self.pattern_latch_hi,
                    ) as u16) << 8);
                    let a: u16 = 0x2000 | (self.v & 0x0FFF);
                    self.nt_latch = self.read_vram(a);
                } else if phase == 3 {
                    let a: u16 = 0x23C0 | (self.v & 0x0C00) | ((self.v >> 4) & 0x38) | ((self.v
                        >> 2) & 0x07);
                    self.at_latch = self.read_vram(a);
                } else if phase == 5 {
                    let bg: u16 = self.ppuctrl.bg_tile_select();
                    let a: u16 = bg | ((self.nt_latch as u16) * 16 + fine_y);
                    self.pattern_latch_lo = self.read_vram(a);
                } else if phase == 7 {
                    let bg: u16 = self.ppuctrl.bg_tile_select();
                    let a: u16 = bg | ((self.nt_latch as u16) * 16 + fine_y + 8);
                    self.pattern_latch_hi = self.read_vram(a);
                } else if phase == 0 {
                    self.inc_horizontal();
                    if self.dot == 256 {
                        self.inc_vertical();
                    }
                }
            }
            if visible_scanline || pre_render_line {
                if self.dot == 1 {
                    self.secondary_oam_memory = filled_vec(32, 0xFF);
                    self.sprite_count = 0;
                } else if self.dot >= 65 && self.dot <= 256 {
                    self.sprite_evaluation();
                }
            }
            if self.dot == 257 {
                // hori(v) = hori(t)
                self.v = (self.v & 0x7BE0) | (self.t & 0x041F);
            }
            if self.dot >= 280 && self.dot <= 304 && pre_render_line {
                // vert(v) = vert(t)
                self.v = (self.v & 0x041F) | (self.t & 0x7BE0);
            }
        }
        self.inc_dot();
    }
}

/// Fields that only `v` stepping leaves alone: everything but `v`.
pub open spec fn unchanged_but_v(a: Ppu, b: Ppu) -> bool {
    &&& b.ppuctrl == a.ppuctrl
    &&& b.ppumask == a.ppumask
    &&& b.ppustatus == a.ppustatus
    &&& b.oam_address == a.oam_address
    &&& b.t == a.t
    &&& b.x == a.x
    &&& b.w == a.w
    &&& b.vram_buffer == a.vram_buffer
    &&& b.output@ == a.output@
    &&& b.vram@ == a.vram@
    &&& b.palette_vram@ == a.palette_vram@
    &&& b.mapper == a.mapper
    &&& b.oam_memory@ == a.oam_memory@
    &&& b.secondary_oam_memory@ == a.secondary_oam_memory@
    &&& b.sprite_pattern_lo@ == a.sprite_pattern_lo@
    &&& b.sprite_pattern_hi@ == a.sprite_pattern_hi@
    &&& b.sprite_at@ == a.sprite_at@
    &&& b.sprite_x_pos@ == a.sprite_x_pos@
    &&& b.sprite_count == a.sprite_count
    &&& b.nt_latch == a.nt_latch
    &&& b.at_latch == a.at_latch
    &&& b.pattern_latch_lo == a.pattern_latch_lo
    &&& b.pattern_latch_hi == a.pattern_latch_hi
    &&& b.lo_at_reg == a.lo_at_reg
    &&& b.hi_at_reg == a.hi_at_reg
    &&& b.lo_bitmap_reg == a.lo_bitmap_reg
    &&& b.hi_bitmap_reg == a.hi_bitmap_reg
    &&& b.dot == a.dot
    &&& b.scanline == a.scanline
    &&& b.frame_count == a.frame_count
    &&& b.nmi_line == a.nmi_line
}

/// Palette RAM reads whose address ends in a zero hex digit all alias the
/// universal backdrop byte, whatever else the palette holds.
pub proof fn lemma_palette_backdrop_alias(p: Ppu, addr: u16)
    requires
        ppu_wf(p),
        0x3F00 <= addr <= 0x3FFF,
        addr % 16 == 0,
    ensures
        vram_peek(p, addr) == p.palette_vram@[0],
{
    assert(addr % 16 == 0 ==> addr % 4 == 0 && addr & 0x0F == 0) by (bit_vector);
}

/// Two data-port writes at consecutive nametable addresses, followed by a
/// re-addressed sequence of three buffered data-port reads, hand the two
/// values back in order: the first read returns the stale buffer, the next
/// two return the written bytes.
pub proof fn lemma_data_port_roundtrip(
    s0: Ppu,
    s1: Ppu,
    s2: Ppu,
    t0: Ppu,
    t1: Ppu,
    t2: Ppu,
    a: u16,
    v1: u8,
    v2: u8,
)
    requires
        ppu_wf(s0),
        s0.ppuctrl.bits & 0x04 == 0,
        s0.v == a,
        0x2000 <= a,
        a + 1 < 0x3000,
        reg_write_post(s0, s1, 0x2007, v1),
        reg_write_post(s1, s2, 0x2007, v2),
        // The reader has set the address back to `a` on a PPU whose
        // cartridge and nametables hold what the writes left.
        t0.vram@ == s2.vram@,
        t0.mapper == s0.mapper,
        t0.ppuctrl.bits & 0x04 == 0,
        t0.v == a,
        reg_read_post(t0, t1, 0x2007),
        reg_read_post(t1, t2, 0x2007),
    ensures
        reg_read_result(t1, 0x2007) == v1,
        reg_read_result(t2, 0x2007) == v2,
{
    assert(forall|x: u16|
        #![trigger (x & 0x3FFF)]
        0x2000 <= x <= 0x3000 ==> ((x & 0x3FFF) == x && (x < 0x3000 ==> (x & 0x2FFF)
            == x))) by (bit_vector);
    let a1 = (a + 1) as u16;
    let a2 = (a + 2) as u16;
    assert((a1 & 0x3FFF) == a1 && (a1 & 0x2FFF) == a1);
    assert((a2 & 0x3FFF) == a2);
    let vm = vertical_mirroring(s0);
    lemma_nt_index_distinct(vm, a);
    assert(s1.v == a + 1);
    assert(s1.vram@ == s0.vram@.update(nt_index(vm, a), v1));
    assert(s2.vram@ == s0.vram@.update(nt_index(vm, a), v1).update(nt_index(vm, a1), v2));
    assert(t1.vram_buffer == vram_peek(t0, a));
    assert(t1.v == a + 1);
    assert(t2.vram_buffer == vram_peek(t1, (a + 1) as u16));
}

/// Two consecutive nametable addresses never share a 2 KiB slot, under
/// either mirroring.
pub proof fn lemma_nt_index_distinct(vertical: bool, a: u16)
    requires
        0x2000 <= a,
        a + 1 < 0x3000,
    ensures
        nt_index(vertical, a) != nt_index(vertical, (a + 1) as u16),
{
    let d = a - 0x2000;
    if !vertical {
        assert(d / 0x800 == 0 || d / 0x800 == 1);
        assert((d + 1) / 0x800 == 0 || (d + 1) / 0x800 == 1);
    }
}

/// The frame position at which the v-blank signal fires: dot 1 of
/// scanline 241.
pub open spec fn vblank_pos() -> int {
    (241 * 341 + 1) as int
}

/// The number of dots in one frame.
pub open spec fn frame_dots() -> int {
    (262 * 341) as int
}

/// The v-blank trigger fires exactly at the one frame position reserved
/// for it.
pub proof fn lemma_trigger_pos(p: Ppu)
    requires
        ppu_wf(p),
    ensures
        vblank_trigger(p) <==> dot_pos(p) == vblank_pos(),
{
}

/// How many of the next `n` dots, starting at frame position `p0`, fire
/// the v-blank signal.
pub open spec fn vblank_hits(p0: int, n: nat) -> nat
    decreases n,
{
    if n == 0 {
        0nat
    } else {
        vblank_hits(p0, (n - 1) as nat) + if (p0 + n - 1) % frame_dots() == vblank_pos() {
            1nat
        } else {
            0nat
        }
    }
}

/// A window of `n` dots fires at most `n` times.
pub proof fn lemma_hits_le_n(p0: int, n: nat)
    ensures
        vblank_hits(p0, n) <= n,
    decreases n,
{
    if n > 0 {
        lemma_hits_le_n(p0, (n - 1) as nat);
    }
}

/// The closed form of the v-blank count: within one frame's worth of dots
/// the signal fires exactly when the window reaches the trigger position.
pub proof fn lemma_vblank_hits_closed(p0: int, n: nat)
    requires
        0 <= p0 < frame_dots(),
        n <= frame_dots(),
    ensures
        vblank_hits(p0, n) == if (vblank_pos() - p0) % frame_dots() < n {
            1nat
        } else {
            0nat
        },
    decreases n,
{
    let m = frame_dots();
    let k0 = (vblank_pos() - p0) % m;
    if vblank_pos() - p0 >= 0 {
        vstd::arithmetic::div_mod::lemma_small_mod((vblank_pos() - p0) as nat, m as nat);
    } else {
        vstd::arithmetic::div_mod::lemma_mod_multiples_vanish(1, vblank_pos() - p0, m);
        vstd::arithmetic::div_mod::lemma_small_mod((vblank_pos() - p0 + m) as nat, m as nat);
    }
    if n > 0 {
        lemma_vblank_hits_closed(p0, (n - 1) as nat);
        if p0 + n - 1 < m {
            vstd::arithmetic::div_mod::lemma_small_mod((p0 + n - 1) as nat, m as nat);
        } else {
            vstd::arithmetic::div_mod::lemma_mod_multiples_vanish(-1, p0 + n - 1, m);
            vstd::arithmetic::div_mod::lemma_small_mod((p0 + n - 1 - m) as nat, m as nat);
        }
    }
}

/// Exactly one v-blank signal fires per frame: over any window of one
/// frame's worth of dots the count is one, and no shorter window sees two.
pub proof fn lemma_one_vblank_per_frame(p0: int)
    requires
        0 <= p0 < frame_dots(),
    ensures
        vblank_hits(p0, frame_dots() as nat) == 1,
        forall|n: nat| n <= frame_dots() ==> #[trigger] vblank_hits(p0, n) <= 1,
{
    lemma_vblank_hits_closed(p0, frame_dots() as nat);
    assert forall|n: nat| n <= frame_dots() implies #[trigger] vblank_hits(p0, n) <= 1 by {
        lemma_vblank_hits_closed(p0, n);
    }
}

/// Stepping one dot commutes with the frame-position fold.
pub proof fn lemma_mod_step(a: int)
    requires
        a >= 0,
    ensures
        (a % frame_dots() + 1) % frame_dots() == (a + 1) % frame_dots(),
{
    let m = frame_dots();
    let r = a % m;
    vstd::arithmetic::div_mod::lemma_fundamental_div_mod(a, m);
    if r + 1 < m {
        vstd::arithmetic::div_mod::lemma_small_mod((r + 1) as nat, m as nat);
        vstd::arithmetic::div_mod::lemma_mod_multiples_vanish(a / m, r + 1, m);
    } else {
        assert(a + 1 == m * (a / m + 1));
        vstd::arithmetic::div_mod::lemma_mod_multiples_vanish(a / m + 1, 0, m);
        vstd::arithmetic::div_mod::lemma_mod_multiples_vanish(1, 0, m);
        vstd::arithmetic::div_mod::lemma_small_mod(0nat, m as nat);
    }
}

/// The 2 KiB nametable slot for an address in $2000-$2FFF, under the given
/// mirroring.
fn nametable_index(vertical: bool, addr: u16) -> (r: usize)
    requires
        0x2000 <= addr < 0x3000,
    ensures
        r == nt_index(vertical, addr),
        r < 0x800,
{
    let d = (addr - 0x2000) as usize;
    if vertical {
        d % 0x800
    } else {
        (d / 0x800) * 0x400 + d % 0x400
    }
}

/// A vector of `len` zero words.
fn zero_vec_i16(len: usize) -> (r: Vec<i16>)
    ensures
        r@ == Seq::new(len as nat, |i: int| 0i16),
{
    let mut out: Vec<i16> = Vec::new();
    let mut i: usize = 0;
    while i < len
        invariant
            i <= len,
            out@ == Seq::new(i as nat, |j: int| 0i16),
        decreases len - i,
    {
        out.push(0);
        proof {
            assert(out@ =~= Seq::new(i as nat + 1, |j: int| 0i16));
        }
        i += 1;
    }
    out
}

} // verus!
