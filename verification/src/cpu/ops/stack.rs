use vstd::prelude::*;
use crate::cpu::{Bus, CPU, Flag, lemma_sign_bit};

verus! {

/// PLA: A takes the pulled byte; zero and negative follow it.
pub open spec fn pla_spec<B: Bus>(cpu: CPU<B>) -> CPU<B> {
    let (value, c) = cpu.pulled();
    (CPU { a: value, ..c }).with_zn(value)
}

/// PLP: the status takes the pulled byte with bit 4 cleared and bit 5 set.
pub open spec fn plp_spec<B: Bus>(cpu: CPU<B>) -> CPU<B> {
    let (value, c) = cpu.pulled();
    CPU { p: (value & 0b1110_1111) | 0b0010_0000, ..c }
}

/// Pushes A.
pub fn pha<B: Bus>(cpu: &mut CPU<B>) -> (extra: u8)
    ensures
        extra == 0,
        *final(cpu) == old(cpu).pushed(old(cpu).a),
{
    let value = cpu.a;
    cpu.write(0x0100 + cpu.s as u16, value);
    cpu.s = cpu.s.wrapping_sub(1);

    0
}

/// Pushes the status register with bits 4 and 5 set.
pub fn php<B: Bus>(cpu: &mut CPU<B>) -> (extra: u8)
    ensures
        extra == 0,
        *final(cpu) == old(cpu).pushed(old(cpu).p | 0b0011_0000),
{
    let pushed = cpu.p | 0b0011_0000;
    cpu.write(0x0100 + cpu.s as u16, pushed);
    cpu.s = cpu.s.wrapping_sub(1);

    0
}

/// Pulls A; zero and negative follow it.
pub fn pla<B: Bus>(cpu: &mut CPU<B>) -> (extra: u8)
    ensures
        extra == 0,
        *final(cpu) == pla_spec(*old(cpu)),
{
    cpu.s = cpu.s.wrapping_add(1);
    let value = cpu.read(0x0100 + cpu.s as u16);
    proof { lemma_sign_bit(value); }

    cpu.set_flag(Flag::Zero, value == 0);
    cpu.set_flag(Flag::Negative, value & 0b1000_0000 != 0);

    cpu.a = value;

    0
}

/// Pulls the status register, ignoring bit 4 and forcing bit 5.
pub fn plp<B: Bus>(cpu: &mut CPU<B>) -> (extra: u8)
    ensures
        extra == 0,
        *final(cpu) == plp_spec(*old(cpu)),
{
    cpu.s = cpu.s.wrapping_add(1);
    let pulled = cpu.read(0x0100 + cpu.s as u16);

    cpu.p = (pulled & 0b1110_1111) | 0b0010_0000;

    0
}

} // verus!
