use vstd::prelude::*;

verus! {

/// Ranges of the bit fields that register writes pick out of a byte.
pub proof fn lemma_byte_fields(b: u8)
    by (bit_vector)
    ensures
        b & 0x01 <= 1,
        b & 0x03 < 4,
        b & 0x07 < 8,
        b & 0x0F < 16,
        b & 0x1F < 32,
        b & 0x3F < 64,
        b & 0x7F < 128,
        (b >> 6u8) & 0x03 < 4,
        (b >> 4u8) & 0x07 < 8,
        b >> 3u8 < 32,
        b >> 4u8 < 16,
{
}

/// The address fields the bus and the PPU pick out of a 16-bit word: the RAM
/// offset and register index of a CPU address, and fine Y, the attribute
/// quadrant shift and the coarse steps of a VRAM address.
pub proof fn lemma_word_fields(v: u16)
    by (bit_vector)
    ensures
        v & 0x07FF < 0x0800,
        v & 0x07FF == v % 0x800,
        v & 0x0007 == v % 8,
        (v >> 12u16) & 0x07 < 8,
        ((v >> 4u16) & 0b100) | (v & 0b010) < 8,
        v & 0x001F != 31 ==> v < 0xFFFF,
        v & 0x7000 != 0x7000 ==> v < 0xF000,
        ((v & !0x7000u16) & 0x03E0) >> 5u16 < 32,
{
}

} // verus!
