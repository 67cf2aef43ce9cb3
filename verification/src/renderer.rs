//! The scanline renderer (PPU).
//!
//! A frame is traversed in phases of the machine-cycle clock modulo
//! 114: at phase 0 a line starts (OAM scan, or VBlank on the line
//! after the last visible one), at phase 20 the line is drawn into
//! the back buffer and LY advances, at phase 63 the line enters
//! HBlank.  STAT interrupts are requested exactly on the enabled
//! rising edges of the mode bits, and the two frame buffers swap
//! exactly once per frame, on VBlank entry.

use vstd::prelude::*;

use crate::gb::{
    coincidence_regs, interrupt_mask, with_regs, GameBoy, InterruptType, Registers, Sprite,
    DISPLAY_SIZE,
};
use crate::memory::read_spec;
use crate::util::{wadd8, wadd16};

verus! {

broadcast use
    crate::util::lemma_and_one,
    crate::util::lemma_mask_bounds_u16;

/// Which frame buffer the renderer is drawing into.
pub open spec fn backbuf_of(g: GameBoy) -> Seq<u8> {
    if g.backbuf_id == 0 {
        g.displaybuf_0@
    } else {
        g.displaybuf_1@
    }
}

/// Which frame buffer the host is shown.
pub open spec fn frontbuf_of(g: GameBoy) -> Seq<u8> {
    if g.backbuf_id == 0 {
        g.displaybuf_1@
    } else {
        g.displaybuf_0@
    }
}

/// `b` equals `a` apart (possibly) from the two frame buffers.
pub open spec fn same_except_bufs(a: GameBoy, b: GameBoy) -> bool {
    b == (GameBoy { displaybuf_0: b.displaybuf_0, displaybuf_1: b.displaybuf_1, ..a })
}

impl GameBoy {
    /// The front buffer: 160 × 144 two-bit palette indices.
    pub fn display(&self) -> (r: &Vec<u8>)
        ensures
            r@ == frontbuf_of(*self),
    {
        match self.backbuf_id {
            0 => &self.displaybuf_1,
            _ => &self.displaybuf_0,
        }
    }

    /// One pixel of the back buffer.
    fn backbuf_px(&self, index: usize) -> (r: u8)
        requires
            self.wf(),
            index < DISPLAY_SIZE,
        ensures
            r == backbuf_of(*self)[index as int],
    {
        match self.backbuf_id {
            0 => self.displaybuf_0[index],
            _ => self.displaybuf_1[index],
        }
    }

    /// Store one pixel of the back buffer.
    fn backbuf_set(&mut self, index: usize, value: u8)
        requires
            old(self).wf(),
            index < DISPLAY_SIZE,
        ensures
            final(self).wf(),
            same_except_bufs(*old(self), *final(self)),
            backbuf_of(*final(self)) == backbuf_of(*old(self)).update(index as int, value),
            frontbuf_of(*final(self)) == frontbuf_of(*old(self)),
    {
        match self.backbuf_id {
            0 => {
                self.displaybuf_0[index] = value;
            },
            _ => {
                self.displaybuf_1[index] = value;
            },
        }
    }
}

/// The tile-data base address and adjusted tile index under the
/// addressing mode selected by LCDC bit 4.
pub open spec fn tile_data(lcdc: u8, tile_num: u8) -> (u16, u8) {
    if lcdc & 0x10 == 0 {
        if tile_num <= 127 {
            (0x9000u16, tile_num)
        } else {
            (0x8800u16, (tile_num - 128) as u8)
        }
    } else {
        (0x8000u16, tile_num)
    }
}

/// The background pixel drawn at column `x` of the current line:
/// tile number fetched from the tilemap under SCX/SCY scrolling, two
/// bit-planes combined, mapped through BGP.
pub open spec fn bg_pixel(g: GameBoy, x: u8) -> u8 {
    let tilemap_base: u16 = if (g.r.lcdc >> 3) & 1 == 0 { 0x9800u16 } else { 0x9C00u16 };
    let tile_y: u8 = wadd8(g.r.ly, g.r.scy) % 8;
    let x_off: u16 = ((((x as u16) + (g.r.scx as u16)) / 8) as u16) & 0x1F;
    let y_off: u16 = (32 * (((((g.r.ly as u16) + (g.r.scy as u16)) as u16) & 0xFF) / 8)) as u16;
    let tile_num = read_spec(g, (tilemap_base + (((x_off + y_off) as u16) & 0x3FF)) as u16);
    let td = tile_data(g.r.lcdc, tile_num);
    let tile_addr: u16 = (td.0 + (td.1 as u16) * 16 + 2 * (tile_y as u16)) as u16;
    let lo = read_spec(g, tile_addr);
    let hi = read_spec(g, wadd16(tile_addr, 1));
    let tile_x: u16 = (((x as u16) + (g.r.scx as u16)) % 8) as u16;
    let colour = (((lo >> ((7 - tile_x) as u16)) & 1) + 2 * ((hi >> ((7 - tile_x) as u16)) & 1)) as u8;
    (g.r.bg_pal >> ((colour * 2) as u8)) & 3
}

/// The back buffer after the background pass over the current line.
pub open spec fn bg_row_applied(g: GameBoy, buf: Seq<u8>) -> Seq<u8> {
    Seq::new(
        buf.len(),
        |i: int| if g.r.ly * 160 <= i < g.r.ly * 160 + 160 {
            bg_pixel(g, (i - g.r.ly * 160) as u8)
        } else {
            buf[i]
        },
    )
}

/// Full effect of the background pass: the visible cells of the
/// current line take their background pixels, everything else stays.
pub open spec fn render_background_post(a: GameBoy, b: GameBoy) -> bool {
    &&& same_except_bufs(a, b)
    &&& backbuf_of(b) == bg_row_applied(a, backbuf_of(a))
    &&& frontbuf_of(b) == frontbuf_of(a)
}

/// The first screen column the window covers: WX − 7, floored at 0.
pub open spec fn win_lb(wx: u8) -> int {
    if wx >= 7 {
        wx - 7
    } else {
        0
    }
}

/// The window pixel drawn at screen column `sx` of the current line,
/// fetched with the window line counter in place of the scrolled LY.
pub open spec fn win_pixel(g: GameBoy, sx: u16) -> u8 {
    let tilemap_base: u16 = if (g.r.lcdc >> 6) & 1 == 0 { 0x9800u16 } else { 0x9C00u16 };
    let x_off: u16 = ((((sx - win_lb(g.r.wx)) as u16) / 8) as u16) & 0x1F;
    let y_off: u16 = ((g.window_line_counter as u16) / 8 * 32) as u16;
    let tile_num = read_spec(g, (tilemap_base + (((x_off + y_off) as u16) & 0x3FF)) as u16);
    let td = tile_data(g.r.lcdc, tile_num);
    let tile_addr: u16 = (td.0 + (td.1 as u16) * 16
        + 2 * ((g.window_line_counter as u16) % 8)) as u16;
    let lo = read_spec(g, tile_addr);
    let hi = read_spec(g, wadd16(tile_addr, 1));
    let tile_x: u16 = sx % 8;
    let colour = (((lo >> ((7 - tile_x) as u16)) & 1) + 2 * ((hi >> ((7 - tile_x) as u16)) & 1)) as u8;
    (g.r.bg_pal >> ((colour * 2) as u8)) & 3
}

/// The back buffer after the window pass over the current line.
pub open spec fn win_row_applied(g: GameBoy, buf: Seq<u8>) -> Seq<u8> {
    Seq::new(
        buf.len(),
        |i: int| if g.r.ly * 160 + win_lb(g.r.wx) <= i < g.r.ly * 160 + 160 {
            win_pixel(g, (i - g.r.ly * 160) as u16)
        } else {
            buf[i]
        },
    )
}

/// Full effect of the window pass: nothing when the line is above
/// WY; otherwise the window columns of the line are drawn and the
/// window line counter advances when any pixel was drawn.
pub open spec fn render_window_post(a: GameBoy, b: GameBoy) -> bool {
    if a.r.ly < a.r.wy {
        b == a
    } else {
        &&& b == (GameBoy {
            displaybuf_0: b.displaybuf_0,
            displaybuf_1: b.displaybuf_1,
            window_line_counter: if win_lb(a.r.wx) < 160 {
                wadd8(a.window_line_counter, 1)
            } else {
                a.window_line_counter
            },
            ..a
        })
        &&& backbuf_of(b) == win_row_applied(a, backbuf_of(a))
        &&& frontbuf_of(b) == frontbuf_of(a)
    }
}

impl GameBoy {
    /// Draw the background row of the current line into the back
    /// buffer.
    fn render_background(&mut self)
        requires
            old(self).wf(),
        ensures
            final(self).wf(),
            render_background_post(*old(self), *final(self)),
    {
        let ghost a = *old(self);
        let tilemap_base: u16 = if (self.r.lcdc >> 3) & 1 == 0 { 0x9800 } else { 0x9C00 };

        let mut screen_x: u16 = 0;
        while screen_x < 160
            invariant
                a.wf(),
                self.wf(),
                screen_x <= 160,
                tilemap_base == (if (a.r.lcdc >> 3) & 1 == 0 { 0x9800u16 } else { 0x9C00u16 }),
                same_except_bufs(a, *self),
                frontbuf_of(*self) == frontbuf_of(a),
                backbuf_of(*self).len() == backbuf_of(a).len(),
                forall|i: int| 0 <= i < backbuf_of(a).len() ==> backbuf_of(*self)[i]
                    == (if a.r.ly * 160 <= i < a.r.ly * 160 + screen_x {
                        bg_pixel(a, (i - a.r.ly * 160) as u8)
                    } else {
                        backbuf_of(a)[i]
                    }),
            decreases 160 - screen_x,
        {
            let tile_y: u8 = self.r.ly.wrapping_add(self.r.scy) % 8;
            let x_quot: u16 = (screen_x + self.r.scx as u16) / 8;
            proof {
                crate::util::lemma_mask_bounds_u16(x_quot);
                crate::util::lemma_mask_bounds_u16((((self.r.ly as u16) + (self.r.scy as u16)) as u16));
            }
            let x_off: u16 = x_quot & 0x1F;
            let y_off: u16 = 32 * ((((self.r.ly as u16) + (self.r.scy as u16)) & 0xFF) / 8);
            proof {
                crate::util::lemma_mask_bounds_u16(((x_off + y_off) as u16));
            }
            let tile_num = self.read(tilemap_base + ((x_off + y_off) & 0x3FF));

            let td = self.select_tile_addressing_method(tile_num);
            let tile_addr: u16 = td.0 + (td.1 as u16) * 16 + 2 * (tile_y as u16);

            let tile_data_low = self.read(tile_addr);
            let tile_data_high = self.read(tile_addr.wrapping_add(1));

            let tile_x: u16 = (screen_x + self.r.scx as u16) % 8;
            let pixel_data_low = (tile_data_low >> (7 - tile_x)) & 1;
            let pixel_data_high = (tile_data_high >> (7 - tile_x)) & 1;
            let colour = pixel_data_low + 2 * pixel_data_high;

            let index: usize = (self.r.ly as usize) * 160 + (screen_x as usize);
            if index < 160 * 144 {
                let px = self.map_background_palette(colour);
                proof {
                    assert(px == bg_pixel(a, screen_x as u8));
                }
                self.backbuf_set(index, px);
            }
            screen_x = screen_x + 1;
        }
        proof {
            vstd::seq_lib::assert_seqs_equal!(backbuf_of(*self), bg_row_applied(a, backbuf_of(a)));
        }
    }

    /// Draw the window row of the current line into the back buffer.
    fn render_window(&mut self)
        requires
            old(self).wf(),
        ensures
            final(self).wf(),
            render_window_post(*old(self), *final(self)),
    {
        if self.r.ly < self.r.wy {
            return ;
        }

        let ghost a = *old(self);
        let tilemap_base: u16 = if (self.r.lcdc >> 6) & 1 == 0 { 0x9800 } else { 0x9C00 };

        let lb: u16 = if self.r.wx >= 7 { (self.r.wx - 7) as u16 } else { 0 };
        let mut drew_pixels = false;
        let mut screen_x: u16 = lb;
        while screen_x < 160
            invariant
                a.wf(),
                self.wf(),
                lb == win_lb(a.r.wx),
                lb <= screen_x,
                lb < 160 ==> screen_x <= 160,
                lb >= 160 ==> screen_x == lb,
                tilemap_base == (if (a.r.lcdc >> 6) & 1 == 0 { 0x9800u16 } else { 0x9C00u16 }),
                drew_pixels == (lb < 160 && screen_x > lb),
                same_except_bufs(a, *self),
                frontbuf_of(*self) == frontbuf_of(a),
                backbuf_of(*self).len() == backbuf_of(a).len(),
                forall|i: int| 0 <= i < backbuf_of(a).len() ==> backbuf_of(*self)[i]
                    == (if a.r.ly * 160 + lb <= i < a.r.ly * 160 + screen_x {
                        win_pixel(a, (i - a.r.ly * 160) as u16)
                    } else {
                        backbuf_of(a)[i]
                    }),
            decreases 160 - screen_x,
        {
            drew_pixels = true;
            let index: usize = (self.r.ly as usize) * 160 + (screen_x as usize);
            let x_quot: u16 = (screen_x - lb) / 8;
            proof {
                crate::util::lemma_mask_bounds_u16(x_quot);
            }
            let x_off: u16 = x_quot & 0x1F;
            let y_off: u16 = 32 * ((self.window_line_counter as u16) / 8);
            proof {
                crate::util::lemma_mask_bounds_u16(((x_off + y_off) as u16));
            }
            let tile_num = self.read(tilemap_base + ((x_off + y_off) & 0x3FF));

            let td = self.select_tile_addressing_method(tile_num);
            let tile_addr: u16 = td.0 + (td.1 as u16) * 16
                + 2 * ((self.window_line_counter as u16) % 8);

            let tile_data_low = self.read(tile_addr);
            let tile_data_high = self.read(tile_addr.wrapping_add(1));

            let tile_x: u16 = screen_x % 8;
            let pixel_data_low = (tile_data_low >> (7 - tile_x)) & 1;
            let pixel_data_high = (tile_data_high >> (7 - tile_x)) & 1;
            let colour = pixel_data_low + 2 * pixel_data_high;

            if index < 160 * 144 {
                let px = self.map_background_palette(colour);
                proof {
                    assert(px == win_pixel(a, screen_x));
                }
                self.backbuf_set(index, px);
            }
            screen_x = screen_x + 1;
        }
        proof {
            vstd::seq_lib::assert_seqs_equal!(backbuf_of(*self), win_row_applied(a, backbuf_of(a)));
        }
        if drew_pixels {
            self.window_line_counter = self.window_line_counter.wrapping_add(1);
        }
    }

    /// Resolve the tile-data addressing mode selected by LCDC bit 4:
    /// the base address and the adjusted tile index.
    fn select_tile_addressing_method(&self, tile_num: u8) -> (r: (u16, u8))
        ensures
            r == tile_data(self.r.lcdc, tile_num),
    {
        if self.r.lcdc & 0x10 == 0 {
            if tile_num <= 127 {
                (0x9000, tile_num)
            } else {
                (0x8800, tile_num - 128)
            }
        } else {
            (0x8000, tile_num)
        }
    }
}

/// The sprite descriptor decoded from OAM slot `i`: biased screen
/// coordinates, the attribute bits, and the height from LCDC bit 2.
pub open spec fn sprite_slot(g: GameBoy, i: int) -> Sprite {
    let attrs = read_spec(g, (0xFE00 + i * 4 + 3) as u16);
    Sprite {
        size_y: ((((g.r.lcdc >> 2) & 1) + 1) * 8) as u8,
        x: (read_spec(g, (0xFE00 + i * 4 + 1) as u16) - 8) as i16,
        y: (read_spec(g, (0xFE00 + i * 4) as u16) - 16) as i16,
        x_flip: (attrs >> 5) & 1,
        y_flip: (attrs >> 6) & 1,
        pal: (attrs >> 4) & 1,
        priority: (attrs >> 7) & 1,
        tile_num: read_spec(g, (0xFE00 + i * 4 + 2) as u16),
    }
}

/// Whether the OAM scan keeps a sprite: on screen horizontally and
/// covering the current line.
pub open spec fn sprite_selected(g: GameBoy, s: Sprite) -> bool {
    s.x > 0 && s.y <= g.r.ly && g.r.ly < s.y + s.size_y
}

/// The sprite buffer after scanning the first `n` OAM slots: the
/// selected sprites in slot order, capped at ten.
pub open spec fn selected_sprites(g: GameBoy, n: nat) -> Seq<Sprite>
    decreases n,
{
    if n == 0 {
        Seq::empty()
    } else {
        let prev = selected_sprites(g, (n - 1) as nat);
        let s = sprite_slot(g, n - 1);
        if sprite_selected(g, s) && prev.len() < 10 {
            prev.push(s)
        } else {
            prev
        }
    }
}

/// Bounds that every sprite built by the OAM scan satisfies.
pub open spec fn sprite_bounds(s: Sprite) -> bool {
    &&& -8 <= s.x <= 247
    &&& -16 <= s.y <= 239
    &&& s.size_y == 8 || s.size_y == 16
    &&& s.pal <= 1
}

/// Every sprite the scan keeps is within the OAM value ranges and
/// covers the current line.
pub proof fn lemma_selected_sprites_bounds(g: GameBoy, n: nat)
    ensures
        forall|k: int| 0 <= k < selected_sprites(g, n).len()
            ==> sprite_bounds(#[trigger] selected_sprites(g, n)[k])
                && sprite_selected(g, selected_sprites(g, n)[k]),
    decreases n,
{
    if n > 0 {
        lemma_selected_sprites_bounds(g, (n - 1) as nat);
        let prev = selected_sprites(g, (n - 1) as nat);
        let s = sprite_slot(g, n - 1);
        let lcdc = g.r.lcdc;
        assert(((((lcdc >> 2) & 1) + 1) * 8) as u8 == 8
            || ((((lcdc >> 2) & 1) + 1) * 8) as u8 == 16) by (bit_vector);
        let attrs = read_spec(g, (0xFE00 + (n - 1) * 4 + 3) as u16);
        assert((attrs >> 4) & 1 <= 1) by (bit_vector);
        assert(sprite_bounds(s));
        assert forall|k: int| 0 <= k < selected_sprites(g, n).len()
            implies sprite_bounds(#[trigger] selected_sprites(g, n)[k])
                && sprite_selected(g, selected_sprites(g, n)[k]) by {
            if sprite_selected(g, s) && prev.len() < 10 {
                assert(selected_sprites(g, n) == prev.push(s));
                if k < prev.len() {
                    assert(selected_sprites(g, n)[k] == prev[k]);
                } else {
                    assert(selected_sprites(g, n)[k] == s);
                }
            } else {
                assert(selected_sprites(g, n) == prev);
            }
        }
    }
}

/// The two bit-plane bytes of the sprite's row on the current line,
/// honouring the vertical flip and the tall-sprite tile pairing.
pub open spec fn sprite_line_bytes(g: GameBoy, s: Sprite) -> (u8, u8) {
    let tn_top0 = if s.size_y == 16 { s.tile_num & !1 } else { s.tile_num };
    let tn_bottom0 = if s.size_y == 16 { s.tile_num | 1 } else { s.tile_num };
    let tn_top = if s.y_flip != 0 { tn_bottom0 } else { tn_top0 };
    let sy0 = g.r.ly - s.y;
    let sy = if s.y_flip != 0 { 7 - sy0 } else { sy0 };
    let tile_addr = wadd16((0x8000 + (tn_top as u16) * 16) as u16, ((2 * sy) as i16) as u16);
    (read_spec(g, tile_addr), read_spec(g, wadd16(tile_addr, 1)))
}

/// The pixel that one column of a sprite row leaves on the screen:
/// transparent colour zero and the background-priority rule both keep
/// the current pixel.
pub open spec fn sprite_tile_pixel(g: GameBoy, s: Sprite, lo: u8, hi: u8, x: int, cur: u8) -> u8 {
    let sh = (if s.x_flip != 0 { x } else { 7 - x }) as u16;
    let colour = (((lo >> sh) & 1) + 2 * ((hi >> sh) & 1)) as u8;
    if colour != 0 && (s.priority == 0 || cur == 0) {
        (read_spec(g, (0xFF48 + s.pal) as u16) >> ((colour * 2) as u8)) & 3
    } else {
        cur
    }
}

/// The back buffer after drawing one sprite row (bytes `lo`, `hi`).
pub open spec fn sprite_tile_applied(g: GameBoy, s: Sprite, lo: u8, hi: u8, buf: Seq<u8>) -> Seq<u8> {
    Seq::new(
        buf.len(),
        |i: int| if g.r.ly * 160 + s.x <= i < g.r.ly * 160 + s.x + 8 && g.r.ly * 160 <= i {
            sprite_tile_pixel(g, s, lo, hi, i - (g.r.ly * 160 + s.x), buf[i])
        } else {
            buf[i]
        },
    )
}

/// The back buffer after drawing one whole sprite.
pub open spec fn sprite_applied(g: GameBoy, s: Sprite, buf: Seq<u8>) -> Seq<u8> {
    sprite_tile_applied(g, s, sprite_line_bytes(g, s).0, sprite_line_bytes(g, s).1, buf)
}

/// The back buffer after drawing a sequence of sprites in order.
pub open spec fn sprites_applied(g: GameBoy, ss: Seq<Sprite>, buf: Seq<u8>) -> Seq<u8>
    decreases ss.len(),
{
    if ss.len() == 0 {
        buf
    } else {
        sprite_applied(g, ss.last(), sprites_applied(g, ss.drop_last(), buf))
    }
}

impl GameBoy {
    /// Scan the forty OAM slots and keep the sprites that cover the
    /// current line, at most ten, in slot order.
    fn scan_oam(&mut self) -> (sprites: Vec<Sprite>)
        requires
            old(self).wf(),
        ensures
            final(self).wf(),
            *final(self) == (GameBoy { oam_base: 0xFEA0u16, ..*old(self) }),
            sprites@ == selected_sprites(*old(self), 40),
    {
        let ghost a = *old(self);
        self.oam_base = 0xFE00;
        let mut sprite_buffer: Vec<Sprite> = Vec::new();
        let mut i: usize = 0;
        while i < 40
            invariant
                a.wf(),
                i <= 40,
                *self == (GameBoy { oam_base: (0xFE00 + 4 * i) as u16, ..a }),
                sprite_buffer@ == selected_sprites(a, i as nat),
            decreases 40 - i,
        {
            let attrs = self.oam(3);
            let size_bit = (self.r.lcdc >> 2) & 1;
            let sprite = Sprite {
                size_y: (size_bit + 1) * 8,
                x: self.oam(1) as i16 - 8,
                y: self.oam(0) as i16 - 16,
                x_flip: (attrs >> 5) & 1,
                y_flip: (attrs >> 6) & 1,
                pal: (attrs >> 4) & 1,
                priority: (attrs >> 7) & 1,
                tile_num: self.oam(2),
            };
            if sprite.x > 0 && self.r.ly as i16 >= sprite.y
                && (self.r.ly as i16) < sprite.y + sprite.size_y as i16
                && sprite_buffer.len() < 10 {
                sprite_buffer.push(sprite);
            }
            self.oam_base = self.oam_base + 4;
            i = i + 1;
        }
        sprite_buffer
    }

    /// Draw the eight columns of one sprite row into the back buffer.
    fn render_sprite_tile(&mut self, sprite: Sprite, tile_data_low: u8, tile_data_high: u8)
        requires
            old(self).wf(),
            sprite_bounds(sprite),
        ensures
            final(self).wf(),
            same_except_bufs(*old(self), *final(self)),
            frontbuf_of(*final(self)) == frontbuf_of(*old(self)),
            backbuf_of(*final(self)) == sprite_tile_applied(
                *old(self), sprite, tile_data_low, tile_data_high, backbuf_of(*old(self)),
            ),
    {
        let ghost a = *old(self);
        let ghost base = a.r.ly * 160 + sprite.x;
        let mut x: i16 = 0;
        while x < 8
            invariant
                a.wf(),
                self.wf(),
                0 <= x <= 8,
                sprite_bounds(sprite),
                base == a.r.ly * 160 + sprite.x,
                same_except_bufs(a, *self),
                frontbuf_of(*self) == frontbuf_of(a),
                backbuf_of(*self).len() == backbuf_of(a).len(),
                forall|i: int| 0 <= i < backbuf_of(a).len() ==> backbuf_of(*self)[i]
                    == (if base <= i < base + x && a.r.ly * 160 <= i {
                        sprite_tile_pixel(a, sprite, tile_data_low, tile_data_high, i - base,
                            backbuf_of(a)[i])
                    } else {
                        backbuf_of(a)[i]
                    }),
            decreases 8 - x,
        {
            let screen_x: i16 = sprite.x + x;

            if screen_x >= 0 {
                let shift: u16 = if sprite.x_flip != 0 { x as u16 } else { (7 - x) as u16 };

                let pixel_data_low = (tile_data_low >> shift) & 1;
                let pixel_data_high = (tile_data_high >> shift) & 1;

                let index: usize = (self.r.ly as usize) * 160 + (screen_x as usize);
                let colour = pixel_data_low + 2 * pixel_data_high;

                if index < 160 * 144 && colour != 0 {
                    let cur = self.backbuf_px(index);
                    if sprite.priority == 0 || cur == 0 {
                        let px = self.map_sprite_palette(sprite.pal, colour);
                        self.backbuf_set(index, px);
                    }
                }
            }
            x = x + 1;
        }
        proof {
            vstd::seq_lib::assert_seqs_equal!(
                backbuf_of(*self),
                sprite_tile_applied(a, sprite, tile_data_low, tile_data_high, backbuf_of(a))
            );
        }
    }

    /// Draw one scanned sprite: fetch its row's two bit-planes and
    /// blend the eight columns into the back buffer.
    fn render_sprite(&mut self, sprite: Sprite)
        requires
            old(self).wf(),
            sprite_bounds(sprite),
            sprite_selected(*old(self), sprite),
        ensures
            final(self).wf(),
            same_except_bufs(*old(self), *final(self)),
            frontbuf_of(*final(self)) == frontbuf_of(*old(self)),
            backbuf_of(*final(self)) == sprite_applied(*old(self), sprite, backbuf_of(*old(self))),
    {
        let mut tile_num_top = sprite.tile_num;
        let mut tile_num_bottom = sprite.tile_num;

        if sprite.size_y == 16 {
            tile_num_top = sprite.tile_num & !1;
            tile_num_bottom = sprite.tile_num | 1;
        }

        if sprite.y_flip != 0 {
            tile_num_top = tile_num_bottom;
        }

        let mut sprite_y: i16 = self.r.ly as i16 - sprite.y;

        if sprite.y_flip != 0 {
            sprite_y = 7 - sprite_y;
        }

        let tile_addr_top: u16 = (0x8000 + (tile_num_top as u16) * 16)
            .wrapping_add((2 * sprite_y) as u16);

        let tile_data_top_low_bits = self.read(tile_addr_top);
        let tile_data_top_high_bits = self.read(tile_addr_top.wrapping_add(1));

        self.render_sprite_tile(sprite, tile_data_top_low_bits, tile_data_top_high_bits);
    }
}

/// Effect of the sprite pass: when LCDC enables objects, the scanned
/// sprites are blended over the line in slot order and the OAM scan
/// pointer rests past the table; otherwise nothing happens.
pub open spec fn sprite_phase_post(a: GameBoy, b: GameBoy) -> bool {
    if (a.r.lcdc >> 1) & 1 != 0 {
        &&& b == (GameBoy {
            oam_base: 0xFEA0u16,
            displaybuf_0: b.displaybuf_0,
            displaybuf_1: b.displaybuf_1,
            ..a
        })
        &&& frontbuf_of(b) == frontbuf_of(a)
        &&& backbuf_of(b) == sprites_applied(a, selected_sprites(a, 40), backbuf_of(a))
    } else {
        b == a
    }
}

/// Effect of the background pass gated by LCDC bit 0.
pub open spec fn bg_phase_post(a: GameBoy, b: GameBoy) -> bool {
    if a.r.lcdc & 1 != 0 {
        render_background_post(a, b)
    } else {
        b == a
    }
}

/// Effect of the window pass gated by LCDC bits 0 and 5.
pub open spec fn win_phase_post(a: GameBoy, b: GameBoy) -> bool {
    if a.r.lcdc & 1 != 0 && (a.r.lcdc >> 5) & 1 != 0 {
        render_window_post(a, b)
    } else {
        b == a
    }
}

/// Full effect of drawing one line: nothing with the LCD disabled;
/// otherwise the background, window and sprite passes in order.
pub open spec fn render_scanline_post(a: GameBoy, b: GameBoy) -> bool {
    if (a.r.lcdc >> 7) & 1 == 0 {
        b == a
    } else {
        exists|m1: GameBoy, m2: GameBoy|
            #[trigger] bg_phase_post(a, m1) && #[trigger] win_phase_post(m1, m2)
            && sprite_phase_post(m2, b)
    }
}

impl GameBoy {
    /// Draw the current line into the back buffer: background, then
    /// window, then sprites, each gated by its LCDC bit.
    fn render_scanline(&mut self)
        requires
            old(self).wf(),
        ensures
            final(self).wf(),
            render_scanline_post(*old(self), *final(self)),
            final(self).r == old(self).r,
    {
        if (self.r.lcdc >> 7) & 1 == 0 {
            return ;
        }

        let ghost a = *old(self);
        let ghost mut m1 = *self;
        let ghost mut m2 = *self;
        if self.r.lcdc & 1 != 0 {
            self.render_background();
            proof {
                m1 = *self;
            }
            if (self.r.lcdc >> 5) & 1 != 0 {
                self.render_window();
            }
            proof {
                m2 = *self;
            }
        }

        if (self.r.lcdc >> 1) & 1 != 0 {
            let sprites = self.scan_oam();
            let ghost a2 = m2;
            proof {
                lemma_selected_sprites_bounds(a2, 40);
            }
            let mut si: usize = 0;
            while si < sprites.len()
                invariant
                    a2.wf(),
                    self.wf(),
                    si <= sprites@.len(),
                    sprites@ == selected_sprites(a2, 40),
                    forall|k: int| 0 <= k < sprites@.len()
                        ==> sprite_bounds(#[trigger] sprites@[k]) && sprite_selected(a2, sprites@[k]),
                    *self == (GameBoy {
                        oam_base: 0xFEA0u16,
                        displaybuf_0: self.displaybuf_0,
                        displaybuf_1: self.displaybuf_1,
                        ..a2
                    }),
                    frontbuf_of(*self) == frontbuf_of(a2),
                    backbuf_of(*self) == sprites_applied(a2, sprites@.take(si as int), backbuf_of(a2)),
                decreases sprites@.len() - si,
            {
                let sprite = sprites[si];
                let ghost pre = *self;
                self.render_sprite(sprite);
                proof {
                    vstd::seq_lib::assert_seqs_equal!(
                        sprite_applied(pre, sprite, backbuf_of(pre)),
                        sprite_applied(a2, sprite, backbuf_of(pre))
                    );
                    assert(sprites@.take(si + 1).drop_last() =~= sprites@.take(si as int));
                    assert(sprites@.take(si + 1).last() == sprites@[si as int]);
                }
                si = si + 1;
            }
            proof {
                assert(sprites@.take(sprites@.len() as int) =~= sprites@);
            }
        }
        proof {
            assert(bg_phase_post(a, m1));
            assert(win_phase_post(m1, m2));
            assert(sprite_phase_post(m2, *self));
        }
    }
}


/// The machine after VBlank entry: mode 1, the VBlank request, the
/// back-buffer swap, LY back to zero (with its coincidence check) and
/// a fresh window line counter.
pub open spec fn vblank_apply(a: GameBoy) -> GameBoy {
    let r1 = Registers {
        stat: (a.r.stat & 0xFC) | 1,
        iflag: a.r.iflag | interrupt_mask(InterruptType::VBlank),
        ly: 0,
        ..a.r
    };
    GameBoy {
        backbuf_id: ((a.backbuf_id + 1) % 2) as u8,
        window_line_counter: 0,
        r: coincidence_regs(r1),
        ..a
    }
}

/// The register file after the draw phase's bookkeeping: LY up by
/// one, its coincidence check, then mode 3.
pub open spec fn draw_phase_regs(r: Registers) -> Registers {
    let ra = Registers { ly: (r.ly + 1) as u8, ..r };
    let rb = coincidence_regs(ra);
    Registers { stat: (rb.stat & 0xFC) | 3, ..rb }
}

/// The LCD interrupt requests fired by the enabled rising edges of
/// the STAT mode bits, comparing against the mode before this cycle.
pub open spec fn stat_edges_regs(old_stat: u8, r: Registers) -> Registers {
    let i1 = if (r.stat >> 5) & 1 != 0 && r.stat & 3 == 2 && old_stat & 3 != 2 {
        r.iflag | interrupt_mask(InterruptType::LCD)
    } else {
        r.iflag
    };
    let i2 = if (r.stat >> 4) & 1 != 0 && r.stat & 3 == 1 && old_stat & 3 != 1 {
        i1 | interrupt_mask(InterruptType::LCD)
    } else {
        i1
    };
    let i3 = if (r.stat >> 3) & 1 != 0 && r.stat & 3 == 0 && old_stat & 3 != 0 {
        i2 | interrupt_mask(InterruptType::LCD)
    } else {
        i2
    };
    Registers { iflag: i3, ..r }
}

/// Full effect of one renderer step, by the phase of the clock
/// within the 114-cycle line.
#[verifier::opaque]
pub open spec fn renderer_post(a: GameBoy, b: GameBoy) -> bool {
    if a.clock % 114 == 0 && a.r.ly == 144 {
        b == with_regs(vblank_apply(a), stat_edges_regs(a.r.stat, vblank_apply(a).r))
    } else if a.clock % 114 == 0 && a.r.ly < 144 {
        b == with_regs(a, stat_edges_regs(a.r.stat, (Registers { stat: (a.r.stat & 0xFC) | 2, ..a.r })))
    } else if a.clock % 114 == 20 && a.r.ly < 144 {
        exists|m: GameBoy|
            #[trigger] render_scanline_post(a, m)
            && b == with_regs(m, stat_edges_regs(a.r.stat, draw_phase_regs(m.r)))
    } else if a.clock % 114 == 63 {
        b == with_regs(a, stat_edges_regs(a.r.stat, (Registers { stat: (a.r.stat & 0xFC) | 0, ..a.r })))
    } else {
        b == with_regs(a, stat_edges_regs(a.r.stat, a.r))
    }
}

impl GameBoy {
    /// Set the PPU mode in the low two bits of STAT.
    fn update_stat(&mut self, mode: u8)
        requires
            mode <= 3,
        ensures
            *final(self) == with_regs(*old(self), (Registers { stat: (old(self).r.stat & 0xFC) | mode, ..old(self).r })),
    {
        self.r.stat = (self.r.stat & 0xFC) | mode;
    }

    /// One renderer step: mode transitions and drawing on the fixed
    /// clock phases, then the STAT-edge interrupt requests.
    pub fn renderer(&mut self)
        requires
            old(self).wf(),
        ensures
            final(self).wf(),
            renderer_post(*old(self), *final(self)),
            final(self).clock == old(self).clock,
            final(self).r.f == old(self).r.f,
            final(self).r.ly <= 144 || final(self).r.ly == old(self).r.ly,
            (final(self).backbuf_id != old(self).backbuf_id)
                <==> (old(self).clock % 114 == 0 && old(self).r.ly == 144),
            old(self).clock % 114 == 0 && old(self).r.ly == 144 ==> final(self).r.stat & 3 == 1,
            old(self).clock % 114 == 0 && old(self).r.ly < 144 ==> final(self).r.stat & 3 == 2,
            old(self).clock % 114 == 20 && old(self).r.ly < 144 ==> final(self).r.stat & 3 == 3,
            old(self).clock % 114 == 63 ==> final(self).r.stat & 3 == 0,
    {
        proof {
            reveal(renderer_post);
        }
        let ghost a = *old(self);
        let old_stat = self.r.stat;
        if self.clock % 114 == 0 && self.r.ly == 144 {
            self.update_stat(1);
            self.request_interrupt(InterruptType::VBlank);
            self.backbuf_id = (self.backbuf_id + 1) % 2;
            self.r.ly = 0;
            self.check_and_trigger_ly_coincidence();
            self.window_line_counter = 0;
        } else if self.clock % 114 == 0 && self.r.ly < 144 {
            self.update_stat(2);
        } else if self.clock % 114 == 20 && self.r.ly < 144 {
            self.render_scanline();
            let ghost m = *self;
            self.r.ly = self.r.ly + 1;
            self.check_and_trigger_ly_coincidence();
            let ghost rb = self.r;
            self.update_stat(3);
            proof {
                assert(render_scanline_post(a, m));
                lemma_stat_modes(rb.stat, 0);
            }
        } else if self.clock % 114 == 63 {
            self.update_stat(0);
        }
        if (self.r.stat >> 5) & 1 != 0 && self.r.stat & 3 == 2 && old_stat & 3 != 2 {
            self.request_interrupt(InterruptType::LCD);
        }
        if (self.r.stat >> 4) & 1 != 0 && self.r.stat & 3 == 1 && old_stat & 3 != 1 {
            self.request_interrupt(InterruptType::LCD);
        }
        if (self.r.stat >> 3) & 1 != 0 && self.r.stat & 3 == 0 && old_stat & 3 != 0 {
            self.request_interrupt(InterruptType::LCD);
        }
        proof {
            lemma_stat_modes(a.r.stat, old(self).r.iflag);
            lemma_stat_modes((a.r.stat & 0xFC) | 1, 0);
            lemma_stat_modes((a.r.stat & 0xFC) | 2, 0);
            lemma_stat_modes((a.r.stat & 0xFC) | 3, 0);
            lemma_stat_modes(a.r.stat & 0xFC, 0);
            lemma_stat_modes(self.r.stat, 0);
        }
    }
}

/// How the coincidence update and the edge requests leave the STAT
/// mode bits alone: clearing bit 2 or requesting interrupts never
/// moves the low two bits, and writing a mode leaves exactly it.
pub proof fn lemma_stat_modes(s: u8, i: u8)
    ensures
        ((s & 0xFB) | 4) & 3 == s & 3,
        (s & 0xFB) & 3 == s & 3,
        ((s & 0xFC) | 1) & 3 == 1,
        ((s & 0xFC) | 2) & 3 == 2,
        ((s & 0xFC) | 3) & 3 == 3,
        ((s & 0xFC) | 0) & 3 == 0,
        (s & 0xFC) & 3 == 0,
{
    assert(((s & 0xFB) | 4) & 3 == s & 3
        && (s & 0xFB) & 3 == s & 3
        && ((s & 0xFC) | 1) & 3 == 1
        && ((s & 0xFC) | 2) & 3 == 2
        && ((s & 0xFC) | 3) & 3 == 3
        && ((s & 0xFC) | 0) & 3 == 0
        && (s & 0xFC) & 3 == 0) by (bit_vector);
}

} // verus!
