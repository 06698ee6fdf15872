use vstd::prelude::*;
use super::{PPU, Background, Status};
use super::scroll::lemma_scroll_keeps_timing;
use super::sprite::lemma_sprite_fetch_keeps_timing;
use super::palette::NES_PALETTE;

verus! {

/// Background and sprite pixels combined: a transparent layer shows the other;
/// where both are opaque, priority 0 puts the sprite in front. Returns the pixel,
/// whether it is the sprite's, its palette, and whether sprite 0 hit the background
/// (both opaque and enabled, not at x = 255, and not in the leftmost 8 pixels while
/// either layer is clipped there).
pub open spec fn mux(
    show_bg_left: bool,
    show_sprites_left: bool,
    bg_pixel: u8,
    bg_palette: u8,
    sprite_pixel: u8,
    sprite_palette: u8,
    sprite_priority: u8,
    sprite_is_zero: bool,
    bg_enabled: bool,
    sprite_enabled: bool,
    screen_x: u16,
) -> (u8, bool, u8, bool) {
    let bg = if bg_enabled { bg_pixel } else { 0 };
    let sp = if sprite_enabled { sprite_pixel } else { 0 };
    let (final_pixel, is_sprite, palette_select) = if bg == 0 && sp == 0 {
        (0u8, false, 0u8)
    } else if bg == 0 {
        (sp, true, sprite_palette)
    } else if sp == 0 {
        (bg, false, bg_palette)
    } else if sprite_priority == 0 {
        (sp, true, sprite_palette)
    } else {
        (bg, false, bg_palette)
    };
    let left_clip_active = screen_x < 8 && (!show_bg_left || !show_sprites_left);
    let hit = bg != 0 && sp != 0 && sprite_is_zero && bg_enabled && sprite_enabled && screen_x != 255
        && !left_clip_active;
    (final_pixel, is_sprite, palette_select, hit)
}

impl PPU {
    /// The PPU after the pixel for `dot` is drawn: background bits from the shift
    /// registers at fine X, the covering sprite, the priority mux, then the color
    /// from palette RAM written to the framebuffer at (dot - 4, scanline).
    pub closed spec fn pixel_output(self, dot: u16) -> Self {
        let bit = (15 - self.regs.x) as u16;
        let lo = (self.bg.shift_lo >> bit) & 1;
        let hi = (self.bg.shift_hi >> bit) & 1;
        let bg_pixel = ((hi << 1u16) | lo) as u8;
        let attr_bit = (7 - self.regs.x) as u8;
        let attr_lo = (self.bg.attr_shift_lo >> attr_bit) & 1;
        let attr_hi = (self.bg.attr_shift_hi >> attr_bit) & 1;
        let bg_palette = (attr_hi << 1u8) | attr_lo;
        let (sprite_pixel, sprite_palette, sprite_priority, sprite_is_zero) = self.sprite_pixel_from(
            0,
            (dot - 1) as u16,
        );
        let (final_pixel, is_sprite, palette_select, hit) = mux(
            self.mask.show_bg_in_leftmost,
            self.mask.show_sprites_in_leftmost,
            bg_pixel,
            bg_palette,
            sprite_pixel,
            sprite_palette,
            sprite_priority,
            sprite_is_zero,
            self.mask.bg_rendering,
            self.mask.sprite_rendering,
            (dot - 1) as u16,
        );
        let p = if hit { PPU { status: Status { sprite0_hit: true, ..self.status }, ..self } } else { self };
        let s_bit: u16 = if is_sprite { 1 } else { 0 };
        let palette_addr = 0x3F00 | (s_bit << 4u16) | ((palette_select as u16) << 2u16) | final_pixel as u16;
        let color = NES_PALETTE[(p.vram_value(palette_addr) & 0x3F) as int];
        PPU {
            framebuffer: vstd::array::spec_array_update(p.framebuffer, self.timing.scanline * 256 + (dot - 4), color),
            ..p
        }
    }

    /// One dot of the render pipeline, when rendering is on: background shifts and
    /// fetches on dots 1-256 and 321-336 (pixels out on dots 4-259 of visible lines),
    /// the vertical scroll step on dot 256, the horizontal reload on dot 257, sprite
    /// fetches on dots 257-320, and the vertical reload on dots 280-304 of the
    /// pre-render line.
    pub closed spec fn render_cycle(self) -> Self {
        let dot = self.timing.dot;
        if !(self.mask.bg_rendering || self.mask.sprite_rendering) || dot == 0 {
            self
        } else {
            let a = if (dot >= 1 && dot <= 256) || (dot >= 321 && dot <= 336) {
                self.background_stepped()
            } else {
                self
            };
            let b = if dot == 256 { a.vertical_incremented() } else { a };
            let c = if dot == 257 { b.horizontal_copied() } else { b };
            let e = if dot >= 257 && dot <= 320 { c.sprite_fetched(dot) } else { c };
            if self.timing.scanline == -1 && dot >= 280 && dot <= 304 { e.vertical_copied() } else { e }
        }
    }

    /// One dot of the background pipeline: the shift registers move on, the pixel
    /// is drawn on dots 4-259 of visible lines, then the fetch for this dot.
    pub closed spec fn background_stepped(self) -> Self {
        let dot = self.timing.dot;
        let g = self.bg;
        let shifted = PPU {
            bg: Background {
                shift_lo: g.shift_lo << 1u16,
                shift_hi: g.shift_hi << 1u16,
                attr_shift_lo: (g.attr_shift_lo << 1u8) | (if g.attr_latch_lo { 1u8 } else { 0 }),
                attr_shift_hi: (g.attr_shift_hi << 1u8) | (if g.attr_latch_hi { 1u8 } else { 0 }),
                ..g
            },
            ..self
        };
        let drawn = if dot >= 4 && dot <= 259 && self.timing.scanline >= 0 {
            shifted.pixel_output(dot)
        } else {
            shifted
        };
        drawn.fetch_stepped(dot)
    }

    /// The fetch of an 8-dot tile window, by the dot's place in it: nametable byte,
    /// attribute byte, low and high pattern bytes, then the reload of the shift
    /// registers and the step to the next tile.
    pub closed spec fn fetch_stepped(self, dot: u16) -> Self {
        let d = self.bg;
        let step = (dot - 1) % 8;
        if step == 0 {
            PPU { bg: Background { nt_latch: self.nametable_byte(), ..d }, ..self }
        } else if step == 2 {
            PPU { bg: Background { at_latch: self.attribute_byte(), ..d }, ..self }
        } else if step == 4 {
            PPU { bg: Background { lo_latch: self.pattern_byte(false), ..d }, ..self }
        } else if step == 6 {
            PPU { bg: Background { hi_latch: self.pattern_byte(true), ..d }, ..self }
        } else if step == 7 {
            let quadrant = self.quadrant_bits();
            PPU {
                bg: Background {
                    shift_lo: (d.shift_lo & 0xFF00) | d.lo_latch as u16,
                    shift_hi: (d.shift_hi & 0xFF00) | d.hi_latch as u16,
                    attr_latch_lo: quadrant & 1 != 0,
                    attr_latch_hi: quadrant & 2 != 0,
                    ..d
                },
                ..self
            }.coarse_x_incremented()
        } else {
            self
        }
    }

    // once per dot: the background pixel from the shift registers and the sprite
    // pipeline, written to the framebuffer
    fn output_pixel(&mut self, dot: u16)
        requires
            4 <= dot <= 259,
            0 <= old(self).scanline() <= 239,
        ensures
            *final(self) == old(self).pixel_output(dot),
    {
        proof { use_type_invariant(&*self); }
        let g = self.bg;
        let fine_x = self.regs.x;
        let bit = 15 - fine_x as u16;
        let shift_lo = g.shift_lo;
        let shift_hi = g.shift_hi;
        let lo = (shift_lo >> bit) & 1;
        let hi = (shift_hi >> bit) & 1;
        proof {
            assert((shift_lo >> bit) & 1 <= 1) by (bit_vector);
            assert((shift_hi >> bit) & 1 <= 1) by (bit_vector);
            assert(((hi << 1u16) | lo) < 4) by (bit_vector) requires lo <= 1, hi <= 1;
        }
        let bg_pixel = ((hi << 1u16) | lo) as u8;

        let attr_bit = 7 - fine_x;
        let attr_lo = (g.attr_shift_lo >> attr_bit) & 1;
        let attr_hi = (g.attr_shift_hi >> attr_bit) & 1;
        let bg_palette = (attr_hi << 1u8) | attr_lo;

        let (sprite_pixel, sprite_palette, sprite_priority, sprite_is_zero) = self.current_sprite_pixel(dot);

        let screen_x = dot - 1;
        let (final_pixel, is_sprite, palette_select, hit) = self.priority_mux(
            bg_pixel,
            bg_palette,
            sprite_pixel,
            sprite_palette,
            sprite_priority,
            sprite_is_zero,
            self.mask.bg_rendering,
            self.mask.sprite_rendering,
            screen_x,
        );

        if hit {
            self.status = Status { sprite0_hit: true, ..self.status };
        }

        let s_bit: u16 = if is_sprite { 1 } else { 0 };
        let palette_addr = 0x3F00 | (s_bit << 4u16) | ((palette_select as u16) << 2u16) | final_pixel as u16;
        let color_index = self.read_vram(palette_addr) & 0x3F;
        proof { crate::bits::lemma_byte_fields(self.vram_value(palette_addr)); }
        let color = NES_PALETTE[color_index as usize];

        let x = (dot - 4) as usize;
        let y = self.timing.scanline as usize;
        self.framebuffer[y * 256 + x] = color;
    }

    // the table math for output_pixel
    fn priority_mux(
        &self,
        bg_pixel: u8,
        bg_palette: u8,
        sprite_pixel: u8,
        sprite_palette: u8,
        sprite_priority: u8,
        sprite_is_zero: bool,
        bg_enabled: bool,
        sprite_enabled: bool,
        screen_x: u16,
    ) -> (r: (u8, bool, u8, bool))
        ensures
            r == mux(
                self.mask.show_bg_in_leftmost,
                self.mask.show_sprites_in_leftmost,
                bg_pixel,
                bg_palette,
                sprite_pixel,
                sprite_palette,
                sprite_priority,
                sprite_is_zero,
                bg_enabled,
                sprite_enabled,
                screen_x,
            ),
    {
        let bg_pixel = if bg_enabled { bg_pixel } else { 0 };
        let sprite_pixel = if sprite_enabled { sprite_pixel } else { 0 };

        let (final_pixel, is_sprite, palette_select) = if bg_pixel == 0 && sprite_pixel == 0 {
            (0u8, false, 0u8)
        } else if bg_pixel == 0 {
            (sprite_pixel, true, sprite_palette)
        } else if sprite_pixel == 0 {
            (bg_pixel, false, bg_palette)
        } else if sprite_priority == 0 {
            (sprite_pixel, true, sprite_palette)
        } else {
            (bg_pixel, false, bg_palette)
        };

        let left_clip_active = screen_x < 8 && (!self.mask.show_bg_in_leftmost || !self.mask.show_sprites_in_leftmost);

        let hit = bg_pixel != 0 && sprite_pixel != 0 && sprite_is_zero && bg_enabled && sprite_enabled
            && screen_x != 255 && !left_clip_active;

        (final_pixel, is_sprite, palette_select, hit)
    }

    pub fn run_render_cycle(&mut self)
        requires
            old(self).rendering_enabled() && 4 <= old(self).dot() <= 256 ==> old(self).scanline() <= 239,
        ensures
            *final(self) == old(self).render_cycle(),
    {
        proof { use_type_invariant(&*self); }
        if !(self.mask.bg_rendering || self.mask.sprite_rendering) {
            return;
        }

        let dot = self.timing.dot;
        let scanline = self.timing.scanline;

        // idle on cycle 0
        if dot == 0 {
            return;
        }

        // background fetch, shift, output on dots 1-256 and 321-336
        if (dot >= 1 && dot <= 256) || (dot >= 321 && dot <= 336) {
            self.background_cycle();
        }

        // vertical scroll increment on dot 256
        if dot == 256 {
            self.increment_vert_v();
        }

        // horizontal scroll reload on dot 257
        if dot == 257 {
            self.copy_horizontal_bits();
        }

        // sprite tile fetches for the next line, dots 257-320
        if dot >= 257 && dot <= 320 {
            self.sprite_fetch_cycle(dot);
        }

        // pre-render line only, dots 280-304: vertical scroll reload
        if scanline == -1 && dot >= 280 && dot <= 304 {
            self.copy_vertical_bits();
        }
        // dots 337-340 are not modelled
    }

    fn background_cycle(&mut self)
        requires
            4 <= old(self).dot() <= 259 ==> old(self).scanline() <= 239,
            old(self).dot() >= 1,
        ensures
            *final(self) == old(self).background_stepped(),
    {
        proof { use_type_invariant(&*self); }
        let dot = self.timing.dot;
        let g = self.bg;
        self.bg = Background {
            shift_lo: g.shift_lo << 1u16,
            shift_hi: g.shift_hi << 1u16,
            attr_shift_lo: (g.attr_shift_lo << 1u8) | (if g.attr_latch_lo { 1u8 } else { 0 }),
            attr_shift_hi: (g.attr_shift_hi << 1u8) | (if g.attr_latch_hi { 1u8 } else { 0 }),
            ..g
        };

        if dot >= 4 && dot <= 259 && self.timing.scanline >= 0 {
            self.output_pixel(dot);
        }
        self.fetch_cycle(dot);
    }

    fn fetch_cycle(&mut self, dot: u16)
        requires
            dot >= 1,
        ensures
            *final(self) == old(self).fetch_stepped(dot),
    {
        proof { use_type_invariant(&*self); }
        let step = (dot - 1) % 8;
        if step == 0 {
            let nt = self.fetch_nametable_byte();
            self.bg = Background { nt_latch: nt, ..self.bg };
        } else if step == 2 {
            let at = self.fetch_attribute_byte();
            self.bg = Background { at_latch: at, ..self.bg };
        } else if step == 4 {
            let lo = self.fetch_pattern_low();
            self.bg = Background { lo_latch: lo, ..self.bg };
        } else if step == 6 {
            let hi = self.fetch_pattern_high();
            self.bg = Background { hi_latch: hi, ..self.bg };
        } else if step == 7 {
            let quadrant = self.attribute_quadrant_bits();
            let d = self.bg;
            self.bg = Background {
                shift_lo: (d.shift_lo & 0xFF00) | d.lo_latch as u16,
                shift_hi: (d.shift_hi & 0xFF00) | d.hi_latch as u16,
                attr_latch_lo: quadrant & 1 != 0,
                attr_latch_hi: quadrant & 2 != 0,
                ..d
            };
            self.increment_coarse_x();
        }
    }
}

/// Sprite priority over the background, for a sprite whose attribute byte is
/// `attr` (priority in bit 5): a transparent layer never hides the other; where
/// both are opaque the sprite is drawn, with its palette, exactly when bit 5 is
/// clear, and the background otherwise. A disabled layer counts as transparent.
/// Sprite 0 hits only where both layers are opaque.
pub proof fn lemma_mux_priority(
    show_bg_left: bool,
    show_sprites_left: bool,
    bg_pixel: u8,
    bg_palette: u8,
    sprite_pixel: u8,
    sprite_palette: u8,
    attr: u8,
    sprite_is_zero: bool,
    bg_enabled: bool,
    sprite_enabled: bool,
    screen_x: u16,
)
    ensures
        ({
            let (pixel, is_sprite, palette, hit) = mux(
                show_bg_left,
                show_sprites_left,
                bg_pixel,
                bg_palette,
                sprite_pixel,
                sprite_palette,
                (attr >> 5u8) & 1,
                sprite_is_zero,
                bg_enabled,
                sprite_enabled,
                screen_x,
            );
            let bg_opaque = bg_enabled && bg_pixel != 0;
            let sprite_opaque = sprite_enabled && sprite_pixel != 0;
            &&& bg_opaque && sprite_opaque ==> (is_sprite == (attr & 0x20 == 0))
            &&& is_sprite ==> sprite_opaque && pixel == sprite_pixel && palette == sprite_palette
            &&& !is_sprite && bg_opaque ==> pixel == bg_pixel && palette == bg_palette
            &&& sprite_opaque && !bg_opaque ==> is_sprite
            &&& !sprite_opaque && !bg_opaque ==> pixel == 0
            &&& hit ==> bg_opaque && sprite_opaque && sprite_is_zero && screen_x != 255
        }),
{
    assert(((attr >> 5u8) & 1 == 0) == (attr & 0x20 == 0)) by (bit_vector);
}

proof fn lemma_pixel_keeps_timing(p: PPU, dot: u16)
    ensures
        p.pixel_output(dot).timing == p.timing,
{
}

proof fn lemma_fetch_keeps_timing(p: PPU, dot: u16)
    ensures
        p.fetch_stepped(dot).timing == p.timing,
        p.fetch_stepped(dot).status == p.status,
{
    let d = p.bg;
    let quadrant = p.quadrant_bits();
    lemma_scroll_keeps_timing(PPU {
        bg: Background {
            shift_lo: (d.shift_lo & 0xFF00) | d.lo_latch as u16,
            shift_hi: (d.shift_hi & 0xFF00) | d.hi_latch as u16,
            attr_latch_lo: quadrant & 1 != 0,
            attr_latch_hi: quadrant & 2 != 0,
            ..d
        },
        ..p
    });
}

proof fn lemma_background_keeps_timing(p: PPU)
    ensures
        p.background_stepped().timing == p.timing,
        p.timing.scanline < 0 ==> p.background_stepped().status == p.status,
{
    let dot = p.timing.dot;
    let g = p.bg;
    let shifted = PPU {
        bg: Background {
            shift_lo: g.shift_lo << 1u16,
            shift_hi: g.shift_hi << 1u16,
            attr_shift_lo: (g.attr_shift_lo << 1u8) | (if g.attr_latch_lo { 1u8 } else { 0 }),
            attr_shift_hi: (g.attr_shift_hi << 1u8) | (if g.attr_latch_hi { 1u8 } else { 0 }),
            ..g
        },
        ..p
    };
    lemma_pixel_keeps_timing(shifted, dot);
    let drawn = if dot >= 4 && dot <= 259 && p.timing.scanline >= 0 {
        shifted.pixel_output(dot)
    } else {
        shifted
    };
    lemma_fetch_keeps_timing(drawn, dot);
}

/// The render pipeline draws, fetches and scrolls; the beam stays where it is,
/// and off the visible lines, where nothing is drawn, so do the status flags.
pub(in crate::ppu) proof fn lemma_render_keeps_timing(p: PPU)
    ensures
        p.render_cycle().timing == p.timing,
        p.timing.scanline < 0 ==> p.render_cycle().status == p.status,
{
    let dot = p.timing.dot;
    if (p.mask.bg_rendering || p.mask.sprite_rendering) && dot != 0 {
        lemma_background_keeps_timing(p);
        let a = if (dot >= 1 && dot <= 256) || (dot >= 321 && dot <= 336) {
            p.background_stepped()
        } else {
            p
        };
        lemma_scroll_keeps_timing(a);
        let b = if dot == 256 { a.vertical_incremented() } else { a };
        lemma_scroll_keeps_timing(b);
        let c = if dot == 257 { b.horizontal_copied() } else { b };
        lemma_sprite_fetch_keeps_timing(c, dot);
        let e = if dot >= 257 && dot <= 320 { c.sprite_fetched(dot) } else { c };
        lemma_scroll_keeps_timing(e);
    }
}

/// With rendering off, or on dot 0, the render pipeline leaves the PPU alone.
pub(in crate::ppu) proof fn lemma_render_idle(p: PPU)
    requires
        !(p.mask.bg_rendering || p.mask.sprite_rendering) || p.timing.dot == 0,
    ensures
        p.render_cycle() == p,
{
}

} // verus!
