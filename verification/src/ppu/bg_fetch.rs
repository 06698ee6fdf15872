use vstd::prelude::*;
use super::PPU;

verus! {

impl PPU {
    /// The nametable address of the tile under v.
    pub open spec fn tile_address(v: u16) -> u16 {
        0x2000 | (v & 0x0FFF)
    }

    /// The attribute-table address covering the tile under v.
    pub open spec fn attribute_address(v: u16) -> u16 {
        0x23C0 | (v & 0x0C00) | ((v >> 4u16) & 0x38) | ((v >> 2u16) & 0x07)
    }

    /// The shift that picks the tile's 2-bit quadrant out of its attribute byte.
    pub open spec fn quadrant_shift(v: u16) -> u16 {
        ((v >> 4u16) & 0b100) | (v & 0b010)
    }

    /// Which tile to draw: the nametable byte under v.
    pub closed spec fn nametable_byte(self) -> u8 {
        self.vram_value(Self::tile_address(self.regs.v))
    }

    /// Which of the four background palettes the tile uses: its attribute byte.
    pub closed spec fn attribute_byte(self) -> u8 {
        self.vram_value(Self::attribute_address(self.regs.v))
    }

    /// The tile's two palette bits, taken from the latched attribute byte.
    pub closed spec fn quadrant_bits(self) -> u8 {
        (self.bg.at_latch >> Self::quadrant_shift(self.regs.v)) & 0b11
    }

    /// The low / high bit plane of the latched tile's current row.
    pub closed spec fn pattern_byte(self, high: bool) -> u8 {
        let fine_y = (self.regs.v >> 12u16) & 0x07;
        let addr = (self.ctrl.bg_pattern_table_addr + self.bg.nt_latch * 16 + fine_y + if high { 8int } else { 0 }) as u16;
        self.vram_value(addr)
    }

    // which tile should be drawn
    pub(super) fn fetch_nametable_byte(&self) -> (r: u8)
        ensures
            r == self.nametable_byte(),
    {
        let addr = 0x2000 | (self.regs.v & 0x0FFF);
        self.read_vram(addr)
    }

    // which of the 4 background palettes should be used
    pub(super) fn fetch_attribute_byte(&self) -> (r: u8)
        ensures
            r == self.attribute_byte(),
    {
        let v = self.regs.v;
        let addr = 0x23C0 | (v & 0x0C00) | ((v >> 4u16) & 0x38) | ((v >> 2u16) & 0x07);
        self.read_vram(addr)
    }

    // given the attribute byte, the 2 bits that apply to the tile
    pub(super) fn attribute_quadrant_bits(&self) -> (r: u8)
        ensures
            r == self.quadrant_bits(),
    {
        let v = self.regs.v;
        let shift = ((v >> 4u16) & 0b100) | (v & 0b010);
        proof { crate::bits::lemma_word_fields(v); }
        (self.bg.at_latch >> shift) & 0b11
    }

    // the pixel shapes for the tile's current row
    pub(super) fn fetch_pattern_low(&self) -> (r: u8)
        ensures
            r == self.pattern_byte(false),
    {
        proof { use_type_invariant(self); }
        let v = self.regs.v;
        let fine_y = (v >> 12u16) & 0x07;
        proof { crate::bits::lemma_word_fields(v); }
        let addr = self.ctrl.bg_pattern_table_addr + (self.bg.nt_latch as u16 * 16) + fine_y;
        self.read_vram(addr)
    }

    pub(super) fn fetch_pattern_high(&self) -> (r: u8)
        ensures
            r == self.pattern_byte(true),
    {
        proof { use_type_invariant(self); }
        let v = self.regs.v;
        let fine_y = (v >> 12u16) & 0x07;
        proof { crate::bits::lemma_word_fields(v); }
        let addr = self.ctrl.bg_pattern_table_addr + (self.bg.nt_latch as u16 * 16) + fine_y + 8;
        self.read_vram(addr)
    }
}

} // verus!
