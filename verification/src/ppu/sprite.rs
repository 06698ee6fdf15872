use vstd::prelude::*;
use super::{PPU, SpriteLine};

verus! {

/// The byte with its bits in reverse order, for horizontally flipped sprites.
pub open spec fn reversed(b: u8) -> u8 {
    ((b & 0x01) << 7u8) | ((b & 0x02) << 5u8) | ((b & 0x04) << 3u8) | ((b & 0x08) << 1u8) | ((b & 0x10)
        >> 1u8) | ((b & 0x20) >> 3u8) | ((b & 0x40) >> 5u8) | ((b & 0x80) >> 7u8)
}

fn reverse_bits(b: u8) -> (r: u8)
    ensures
        r == reversed(b),
{
    ((b & 0x01) << 7u8) | ((b & 0x02) << 5u8) | ((b & 0x04) << 3u8) | ((b & 0x08) << 1u8) | ((b & 0x10)
        >> 1u8) | ((b & 0x20) >> 3u8) | ((b & 0x40) >> 5u8) | ((b & 0x80) >> 7u8)
}

impl PPU {
    /// The sprite row to fetch: the next line minus the sprite's Y, wrapping, and
    /// counted from the bottom when flipped vertically.
    pub open spec fn sprite_row(target_line: u16, y: u8, height: u16, flip_v: bool) -> u16 {
        let row = target_line.wrapping_sub(y as u16);
        if flip_v { height.wrapping_sub(1).wrapping_sub(row) } else { row }
    }

    /// The PPU after slot `n` of secondary OAM is loaded into the sprite pipeline
    /// for the next line; an empty slot (Y = 0xFF) loads a transparent sprite.
    pub closed spec fn sprite_loaded(self, n: int) -> Self {
        let base = n * 4;
        let y = self.oam2@[base];
        let tile = self.oam2@[base + 1];
        let attr = self.oam2@[base + 2];
        let x = self.oam2@[base + 3];
        let s = self.sprites;
        let (lo, hi) = if y == 0xFF {
            (0u8, 0u8)
        } else {
            let height: u16 = if self.ctrl.sprites_8x16 { 16 } else { 8 };
            let row = Self::sprite_row((self.timing.scanline + 1) as u16, y, height, attr & 0b1000_0000 != 0);
            let (table_base, tile_index) = if self.ctrl.sprites_8x16 {
                (
                    if tile & 1 != 0 { 0x1000u16 } else { 0x0000u16 },
                    if row >= 8 { ((tile & 0xFE) + 1) as u8 } else { tile & 0xFE },
                )
            } else {
                (self.ctrl.sprite_pattern_table_addr, tile)
            };
            let tile_addr = (table_base + tile_index * 16) as u16;
            let lo = self.vram_value((tile_addr + row % 8) as u16);
            let hi = self.vram_value((tile_addr + row % 8 + 8) as u16);
            if attr & 0b0100_0000 != 0 { (reversed(lo), reversed(hi)) } else { (lo, hi) }
        };
        PPU {
            sprites: SpriteLine {
                x: vstd::array::spec_array_update(s.x, n, x),
                attr: vstd::array::spec_array_update(s.attr, n, attr),
                pattern_lo: vstd::array::spec_array_update(s.pattern_lo, n, lo),
                pattern_hi: vstd::array::spec_array_update(s.pattern_hi, n, hi),
                ..s
            },
            ..self
        }
    }

    /// The sprite fetch on `dot` of 257..=320: each sprite loads at the end of its
    /// 8-dot window.
    pub closed spec fn sprite_fetched(self, dot: u16) -> Self {
        let offset = dot - 257;
        let sprite_num = offset / 8;
        if offset % 8 == 7 && sprite_num < 8 { self.sprite_loaded(sprite_num) } else { self }
    }

    /// The first sprite from `i` on that covers `screen_x` with an opaque pixel:
    /// its pixel, palette, priority, and whether it is sprite 0 on a line where
    /// sprite 0 was found.
    /// The attribute byte of sprite unit `i` on this line.
    pub closed spec fn sprite_attribute(self, i: int) -> u8 {
        self.sprites.attr@[i]
    }

    /// The X position of sprite unit `i` on this line.
    pub closed spec fn sprite_x(self, i: int) -> u8 {
        self.sprites.x@[i]
    }

    pub closed spec fn sprite_pixel_from(self, i: int, screen_x: u16) -> (u8, u8, u8, bool)
        decreases 8 - i,
    {
        if i < 0 || i >= 8 {
            (0, 0, 0, false)
        } else {
            let sx = self.sprites.x@[i] as u16;
            if screen_x >= sx && screen_x < sx + 8 {
                let bit = (7 - (screen_x - sx)) as u8;
                let lo = (self.sprites.pattern_lo@[i] >> bit) & 1;
                let hi = (self.sprites.pattern_hi@[i] >> bit) & 1;
                let pixel = (hi << 1u8) | lo;
                if pixel != 0 {
                    let attr = self.sprites.attr@[i];
                    (pixel, attr & 0b11, (attr >> 5u8) & 1, i == 0 && self.sprites.zero_current)
                } else {
                    self.sprite_pixel_from(i + 1, screen_x)
                }
            } else {
                self.sprite_pixel_from(i + 1, screen_x)
            }
        }
    }

    // takes one of the sprites from oam2 and prepares it for the next line
    fn load_sprite_from_secondary_oam(&mut self, sprite_num: usize)
        requires
            sprite_num < 8,
        ensures
            *final(self) == old(self).sprite_loaded(sprite_num as int),
    {
        proof { use_type_invariant(&*self); }
        let base = sprite_num * 4;
        let y = self.oam2[base];
        let tile = self.oam2[base + 1];
        let attr = self.oam2[base + 2];
        let x = self.oam2[base + 3];

        let mut s = self.sprites;
        s.x[sprite_num] = x;
        s.attr[sprite_num] = attr;

        if y == 0xFF {
            // unused slot, transparent
            s.pattern_lo[sprite_num] = 0;
            s.pattern_hi[sprite_num] = 0;
            self.sprites = s;
            return;
        }

        let sprite_height: u16 = if self.ctrl.sprites_8x16 { 16 } else { 8 };
        let flip_v = attr & 0b1000_0000 != 0;
        let flip_h = attr & 0b0100_0000 != 0;

        let target_scanline = (self.timing.scanline + 1) as u16;
        let mut row = target_scanline.wrapping_sub(y as u16);
        if flip_v {
            row = sprite_height.wrapping_sub(1).wrapping_sub(row);
        }

        let (table_base, tile_index) = if self.ctrl.sprites_8x16 {
            let table: u16 = if tile & 1 != 0 { 0x1000 } else { 0x0000 };
            let base_index = tile & 0xFE;
            proof { assert(tile & 0xFE <= 254) by (bit_vector); }
            let index = if row >= 8 { base_index + 1 } else { base_index };
            (table, index)
        } else {
            (self.ctrl.sprite_pattern_table_addr, tile)
        };

        let row_in_tile = row % 8;
        let tile_addr = table_base + (tile_index as u16 * 16);
        let mut lo = self.read_vram(tile_addr + row_in_tile);
        let mut hi = self.read_vram(tile_addr + row_in_tile + 8);

        if flip_h {
            lo = reverse_bits(lo);
            hi = reverse_bits(hi);
        }

        s.pattern_lo[sprite_num] = lo;
        s.pattern_hi[sprite_num] = hi;
        self.sprites = s;
    }

    // on dots 257-320, loads one sprite per 8-dot window
    pub fn sprite_fetch_cycle(&mut self, dot: u16)
        requires
            dot >= 257,
        ensures
            *final(self) == old(self).sprite_fetched(dot),
    {
        let offset = dot - 257;
        let sprite_num = (offset / 8) as usize;

        // Load once per sprite, at the end of its 8-dot window (when the pattern
        // high byte would be ready in the 2-dot-per-fetch schedule).
        if offset % 8 == 7 && sprite_num < 8 {
            self.load_sprite_from_secondary_oam(sprite_num);
        }
    }

    // finds the highest priority sprite covering the current dot
    pub fn current_sprite_pixel(&self, dot: u16) -> (r: (u8, u8, u8, bool))
        requires
            dot >= 1,
        ensures
            r == self.sprite_pixel_from(0, (dot - 1) as u16),
    {
        let screen_x = dot - 1;

        let mut i: usize = 0;
        while i < 8
            invariant
                i <= 8,
                screen_x == dot - 1,
                self.sprite_pixel_from(0, screen_x) == self.sprite_pixel_from(i as int, screen_x),
            decreases 8 - i,
        {
            let sx = self.sprites.x[i] as u16;
            if screen_x >= sx && screen_x < sx + 8 {
                let col = (screen_x - sx) as u8;
                let bit = 7 - col;

                let lo = (self.sprites.pattern_lo[i] >> bit) & 1;
                let hi = (self.sprites.pattern_hi[i] >> bit) & 1;
                let pixel = (hi << 1u8) | lo;

                if pixel != 0 {
                    let attr = self.sprites.attr[i];
                    let palette = attr & 0b11;
                    let priority = (attr >> 5u8) & 1;
                    let is_zero = i == 0 && self.sprites.zero_current;
                    return (pixel, palette, priority, is_zero);
                }
            }
            i = i + 1;
        }

        (0, 0, 0, false)
    }
}

/// Reversing a byte's bits twice gives the byte back.
pub proof fn lemma_reverse_twice(b: u8)
    ensures
        reversed(reversed(b)) == b,
{
    let r = reversed(b);
    assert(reversed(r) == b) by (bit_vector)
        requires
            r == ((b & 0x01) << 7u8) | ((b & 0x02) << 5u8) | ((b & 0x04) << 3u8) | ((b & 0x08) << 1u8)
                | ((b & 0x10) >> 1u8) | ((b & 0x20) >> 3u8) | ((b & 0x40) >> 5u8) | ((b & 0x80) >> 7u8),
    ;
}

/// Sprite fetches load the sprite units only; the beam and the status flags stay
/// as they are.
pub(in crate::ppu) proof fn lemma_sprite_fetch_keeps_timing(p: PPU, dot: u16)
    ensures
        p.sprite_fetched(dot).timing == p.timing,
        p.sprite_fetched(dot).status == p.status,
{
}

/// A sprite pixel comes from one sprite unit that covers the column: its
/// palette is the low two bits of that sprite's attribute byte and its priority
/// is bit 5 of it. Where no unit gives an opaque pixel the result is transparent.
pub proof fn lemma_sprite_pixel_source(p: PPU, i: int, screen_x: u16)
    ensures
        ({
            let (pixel, palette, priority, _) = p.sprite_pixel_from(i, screen_x);
            pixel != 0 ==> exists|j: int|
                #![trigger p.sprite_attribute(j)]
                0 <= i <= j < 8 && p.sprite_x(j) <= screen_x < p.sprite_x(j) + 8 && palette
                    == p.sprite_attribute(j) & 0b11 && priority == (p.sprite_attribute(j) >> 5u8) & 1
        }),
    decreases 8 - i,
{
    if 0 <= i < 8 {
        lemma_sprite_pixel_source(p, i + 1, screen_x);
        let (pixel, palette, priority, _) = p.sprite_pixel_from(i, screen_x);
        if pixel != 0 && p.sprite_pixel_from(i, screen_x) != p.sprite_pixel_from(i + 1, screen_x) {
            assert(p.sprite_attribute(i) == p.sprites.attr@[i]);
        }
    }
}

} // verus!
