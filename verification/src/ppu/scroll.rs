use vstd::prelude::*;
use super::{PPU, Internal};

verus! {

/// The loopy address register v: coarse X in bits 0-4, coarse Y in bits 5-9,
/// nametable select in bits 10-11, fine Y in bits 12-14.
pub open spec fn coarse_x_step(v: u16) -> u16 {
    if v & 0x001F == 31 {
        (v & !0x001Fu16) ^ 0x0400
    } else {
        (v + 1) as u16
    }
}

/// Fine Y steps; past 7 it wraps into coarse Y, which wraps at 29 (switching the
/// vertical nametable) or, from the attribute rows 30-31, to 0 without switching.
pub open spec fn vertical_step(v: u16) -> u16 {
    if v & 0x7000 != 0x7000 {
        (v + 0x1000) as u16
    } else {
        let v1 = v & !0x7000u16;
        let coarse_y = (v1 & 0x03E0) >> 5u16;
        let (coarse, v2) = if coarse_y == 29 {
            (0u16, v1 ^ 0x0800)
        } else if coarse_y == 31 {
            (0u16, v1)
        } else {
            ((coarse_y + 1) as u16, v1)
        };
        (v2 & !0x03E0u16) | (coarse << 5u16)
    }
}

proof fn lemma_steps_fit(v: u16)
    ensures
        v & 0x001F != 31 ==> v < 0xFFFF,
        v & 0x7000 != 0x7000 ==> v < 0xF000,
        ((v & !0x7000u16) & 0x03E0) >> 5u16 < 32,
{
    crate::bits::lemma_word_fields(v);
}

impl PPU {
    pub closed spec fn coarse_x_incremented(self) -> Self {
        PPU { regs: Internal { v: coarse_x_step(self.regs.v), ..self.regs }, ..self }
    }

    pub closed spec fn vertical_incremented(self) -> Self {
        PPU { regs: Internal { v: vertical_step(self.regs.v), ..self.regs }, ..self }
    }

    /// v takes coarse X and the horizontal nametable bit from t.
    pub closed spec fn horizontal_copied(self) -> Self {
        PPU { regs: Internal { v: (self.regs.v & !0x041Fu16) | (self.regs.t & 0x041F), ..self.regs }, ..self }
    }

    /// v takes fine Y, coarse Y and the vertical nametable bit from t.
    pub closed spec fn vertical_copied(self) -> Self {
        PPU { regs: Internal { v: (self.regs.v & !0x7BE0u16) | (self.regs.t & 0x7BE0), ..self.regs }, ..self }
    }

    pub fn increment_coarse_x(&mut self)
        ensures
            *final(self) == old(self).coarse_x_incremented(),
    {
        proof {
            use_type_invariant(&*self);
            lemma_steps_fit(self.regs.v);
        }
        let mut v = self.regs.v;
        if v & 0x001F == 31 {
            v = v & !0x001Fu16;
            v = v ^ 0x0400;
        } else {
            v = v + 1;
        }
        self.regs = Internal { v, ..self.regs };
    }

    pub fn increment_vert_v(&mut self)
        ensures
            *final(self) == old(self).vertical_incremented(),
    {
        proof {
            use_type_invariant(&*self);
            lemma_steps_fit(self.regs.v);
        }
        let mut v = self.regs.v;
        if v & 0x7000 != 0x7000 {
            v = v + 0x1000;
        } else {
            v = v & !0x7000u16;
            let mut coarse_y = (v & 0x03E0) >> 5u16;
            if coarse_y == 29 {
                coarse_y = 0;
                v = v ^ 0x0800;
            } else if coarse_y == 31 {
                coarse_y = 0;
            } else {
                coarse_y = coarse_y + 1;
            }
            v = (v & !0x03E0u16) | (coarse_y << 5u16);
        }
        self.regs = Internal { v, ..self.regs };
    }

    pub fn copy_horizontal_bits(&mut self)
        ensures
            *final(self) == old(self).horizontal_copied(),
    {
        proof { use_type_invariant(&*self); }
        let v = self.regs.v;
        let t = self.regs.t;
        self.regs = Internal { v: (v & !0x041Fu16) | (t & 0x041F), ..self.regs };
    }

    pub fn copy_vertical_bits(&mut self)
        ensures
            *final(self) == old(self).vertical_copied(),
    {
        proof { use_type_invariant(&*self); }
        let v = self.regs.v;
        let t = self.regs.t;
        self.regs = Internal { v: (v & !0x7BE0u16) | (t & 0x7BE0), ..self.regs };
    }
}

/// A coarse X step from the last column (31) wraps to column 0 of the
/// horizontally adjacent nametable, leaving the other scroll bits alone.
pub proof fn lemma_coarse_x_wraps_into_next_nametable(v: u16)
    requires
        v & 0x001F == 31,
    ensures
        coarse_x_step(v) & 0x001F == 0,
        coarse_x_step(v) & 0x0400 != v & 0x0400,
        coarse_x_step(v) & 0x7BE0 == v & 0x7BE0,
{
    assert(((v & !0x001Fu16) ^ 0x0400) & 0x001F == 0) by (bit_vector);
    assert(((v & !0x001Fu16) ^ 0x0400) & 0x0400 != v & 0x0400) by (bit_vector);
    assert(((v & !0x001Fu16) ^ 0x0400) & 0x7BE0 == v & 0x7BE0) by (bit_vector);
}

/// The scroll steps move v only; the beam and the status flags stay as they are.
pub(in crate::ppu) proof fn lemma_scroll_keeps_timing(p: PPU)
    ensures
        p.coarse_x_incremented().timing == p.timing,
        p.vertical_incremented().timing == p.timing,
        p.horizontal_copied().timing == p.timing,
        p.vertical_copied().timing == p.timing,
        p.coarse_x_incremented().status == p.status,
        p.vertical_incremented().status == p.status,
        p.horizontal_copied().status == p.status,
        p.vertical_copied().status == p.status,
{
}

/// The vertical step of v, field by field (fine Y in bits 12-14, coarse Y in
/// bits 5-9, the vertical nametable in bit 11): fine Y counts up; from 7 it goes
/// back to 0 and coarse Y counts up instead, except that row 29 goes to row 0 of
/// the other vertical nametable and row 31 to row 0 of the same one. Coarse X and
/// the horizontal nametable never change.
pub proof fn lemma_vertical_step_fields(v: u16)
    ensures
        ({
            let w = vertical_step(v);
            let (fine, coarse) = ((v >> 12u16) & 7, (v >> 5u16) & 31);
            &&& w & 0x041F == v & 0x041F
            &&& fine < 7 ==> (w >> 12u16) & 7 == fine + 1 && (w >> 5u16) & 31 == coarse && w & 0x0800 == v & 0x0800
            &&& fine == 7 ==> (w >> 12u16) & 7 == 0
            &&& fine == 7 && coarse == 29 ==> (w >> 5u16) & 31 == 0 && w & 0x0800 != v & 0x0800
            &&& fine == 7 && coarse == 31 ==> (w >> 5u16) & 31 == 0 && w & 0x0800 == v & 0x0800
            &&& fine == 7 && coarse != 29 && coarse != 31 ==> (w >> 5u16) & 31 == coarse + 1 && w & 0x0800
                == v & 0x0800
        }),
{
    lemma_steps_fit(v);
    let fine = (v >> 12u16) & 7;
    let cy = (v >> 5u16) & 31;
    let v1 = v & !0x7000u16;
    let coarse_y = (v1 & 0x03E0) >> 5u16;
    let up: u16 = (v + 0x1000) as u16;
    let cp: u16 = (coarse_y + 1) as u16;
    let a: u16 = ((v1 ^ 0x0800) & !0x03E0u16) | (0u16 << 5u16);
    let b: u16 = (v1 & !0x03E0u16) | (0u16 << 5u16);
    let c: u16 = (v1 & !0x03E0u16) | (cp << 5u16);
    assert({
        &&& v & 0x7000 != 0x7000 ==> (up & 0x041F == v & 0x041F && (up >> 12u16) & 7 == fine + 1 && (up >> 5u16) & 31
            == cy && up & 0x0800 == v & 0x0800 && fine < 7)
        &&& v & 0x7000 == 0x7000 ==> fine == 7 && coarse_y == cy && a & 0x041F == v & 0x041F && (a >> 12u16) & 7 == 0
            && (a >> 5u16) & 31 == 0 && a & 0x0800 != v & 0x0800 && b & 0x041F == v & 0x041F && (b >> 12u16) & 7
            == 0 && (b >> 5u16) & 31 == 0 && b & 0x0800 == v & 0x0800 && (coarse_y < 31 ==> c & 0x041F == v
            & 0x041F && (c >> 12u16) & 7 == 0 && (c >> 5u16) & 31 == coarse_y + 1 && c & 0x0800 == v & 0x0800)
    }) by (bit_vector)
        requires
            fine == (v >> 12u16) & 7,
            cy == (v >> 5u16) & 31,
            v1 == v & !0x7000u16,
            coarse_y == (v1 & 0x03E0) >> 5u16,
            v & 0x7000 != 0x7000 ==> up == v + 0x1000,
            coarse_y < 31 ==> cp == coarse_y + 1,
            a == ((v1 ^ 0x0800) & !0x03E0u16) | (0u16 << 5u16),
            b == (v1 & !0x03E0u16) | (0u16 << 5u16),
            c == (v1 & !0x03E0u16) | (cp << 5u16),
    ;
}

} // verus!
