use vstd::prelude::*;
use super::{PPU, SpriteLine, Status};

verus! {

impl PPU {
    /// Secondary OAM with the four bytes of primary sprite `i` copied into slot `slot`.
    pub closed spec fn sprite_copied(self, i: int, slot: int) -> Self {
        let o = self.oam@;
        let a0 = vstd::array::spec_array_update(self.oam2, slot * 4, o[i * 4]);
        let a1 = vstd::array::spec_array_update(a0, slot * 4 + 1, o[i * 4 + 1]);
        let a2 = vstd::array::spec_array_update(a1, slot * 4 + 2, o[i * 4 + 2]);
        let a3 = vstd::array::spec_array_update(a2, slot * 4 + 3, o[i * 4 + 3]);
        PPU { oam2: a3, ..self }
    }

    /// Sprite evaluation from primary sprite `i` on, with `found` sprites already in
    /// secondary OAM: each sprite whose rows cover the next line is copied, up to
    /// eight; a ninth sets the overflow flag and ends the search.
    pub closed spec fn evaluated_from(self, i: int, found: int) -> Self
        decreases 64 - i,
    {
        if i < 0 || i >= 64 {
            self
        } else {
            let y = self.oam@[i * 4] as int;
            let target = self.timing.scanline + 1;
            let height: int = if self.ctrl.sprites_8x16 { 16 } else { 8 };
            if target >= y && target < y + height {
                if found < 8 {
                    let copied = self.sprite_copied(i, found);
                    let marked = if i == 0 {
                        PPU { sprites: SpriteLine { zero_next: true, ..copied.sprites }, ..copied }
                    } else {
                        copied
                    };
                    marked.evaluated_from(i + 1, found + 1)
                } else {
                    PPU { status: Status { sprite_overflow: true, ..self.status }, ..self }
                }
            } else {
                self.evaluated_from(i + 1, found)
            }
        }
    }

    /// The PPU after sprite evaluation for the next line.
    pub closed spec fn sprites_evaluated(self) -> Self {
        PPU { sprites: SpriteLine { zero_next: false, ..self.sprites }, ..self }.evaluated_from(0, 0)
    }

    // finds the sprites within range of the next line and copies them to oam2
    pub fn evaluate_sprites(&mut self)
        ensures
            *final(self) == old(self).sprites_evaluated(),
            final(self).scanline() == old(self).scanline(),
            final(self).dot() == old(self).dot(),
    {
        proof { use_type_invariant(&*self); }
        let sprite_height: i16 = if self.ctrl.sprites_8x16 { 16 } else { 8 };
        let target_scanline = self.timing.scanline + 1;

        self.sprites = SpriteLine { zero_next: false, ..self.sprites };  // reset before scanning
        let ghost target = self.evaluated_from(0, 0);
        let ghost timing = self.timing;

        let mut found: usize = 0;
        let mut i: usize = 0;
        while i < 64
            invariant_except_break
                i <= 64,
                found <= 8,
                self.evaluated_from(i as int, found as int) == target,
            invariant
                target_scanline == self.timing.scanline + 1,
                sprite_height == if self.ctrl.sprites_8x16 { 16i16 } else { 8i16 },
                -1 <= self.timing.scanline <= 260,
                self.timing == timing,
            ensures
                *self == target,
            decreases 64 - i,
        {
            proof { use_type_invariant(&*self); }
            let y = self.oam[i * 4] as i16;
            if target_scanline >= y && target_scanline < y + sprite_height {
                if found < 8 {
                    let base = found * 4;
                    self.oam2[base] = self.oam[i * 4];
                    self.oam2[base + 1] = self.oam[i * 4 + 1];
                    self.oam2[base + 2] = self.oam[i * 4 + 2];
                    self.oam2[base + 3] = self.oam[i * 4 + 3];

                    if i == 0 {
                        self.sprites = SpriteLine { zero_next: true, ..self.sprites };
                    }
                } else {
                    self.status = Status { sprite_overflow: true, ..self.status };
                    break;
                }
                found = found + 1;
            }
            i = i + 1;
        }
    }
}

/// Sprite evaluation fills secondary OAM and the sprite flags only; the beam
/// stays where it is.
pub(in crate::ppu) proof fn lemma_evaluation_keeps_timing(p: PPU)
    ensures
        p.sprites_evaluated().timing == p.timing,
{
    lemma_evaluated_from_keeps_timing(PPU { sprites: SpriteLine { zero_next: false, ..p.sprites }, ..p }, 0, 0);
}

proof fn lemma_evaluated_from_keeps_timing(p: PPU, i: int, found: int)
    ensures
        p.evaluated_from(i, found).timing == p.timing,
    decreases 64 - i,
{
    if 0 <= i < 64 {
        lemma_evaluated_from_keeps_timing(p, i + 1, found);
        let copied = p.sprite_copied(i, found);
        let marked = if i == 0 {
            PPU { sprites: SpriteLine { zero_next: true, ..copied.sprites }, ..copied }
        } else {
            copied
        };
        lemma_evaluated_from_keeps_timing(marked, i + 1, found + 1);
    }
}

} // verus!
