use vstd::prelude::*;
use crate::cpu::{Bus, CPU, Flag, lemma_sign_bit};

verus! {

pub fn tax<B: Bus>(cpu: &mut CPU<B>) -> (extra: u8)
    ensures
        extra == 0,
        *final(cpu) == (CPU { x: old(cpu).a, ..*old(cpu) }).with_zn(old(cpu).a),
{
    cpu.x = cpu.a;
    proof { lemma_sign_bit(cpu.x); }

    cpu.set_flag(Flag::Zero, cpu.x == 0);
    cpu.set_flag(Flag::Negative, cpu.x & 0x80 != 0);

    0
}

pub fn tay<B: Bus>(cpu: &mut CPU<B>) -> (extra: u8)
    ensures
        extra == 0,
        *final(cpu) == (CPU { y: old(cpu).a, ..*old(cpu) }).with_zn(old(cpu).a),
{
    cpu.y = cpu.a;
    proof { lemma_sign_bit(cpu.y); }

    cpu.set_flag(Flag::Zero, cpu.y == 0);
    cpu.set_flag(Flag::Negative, cpu.y & 0x80 != 0);

    0
}

pub fn txa<B: Bus>(cpu: &mut CPU<B>) -> (extra: u8)
    ensures
        extra == 0,
        *final(cpu) == (CPU { a: old(cpu).x, ..*old(cpu) }).with_zn(old(cpu).x),
{
    cpu.a = cpu.x;
    proof { lemma_sign_bit(cpu.a); }

    cpu.set_flag(Flag::Zero, cpu.a == 0);
    cpu.set_flag(Flag::Negative, cpu.a & 0x80 != 0);

    0
}

pub fn tya<B: Bus>(cpu: &mut CPU<B>) -> (extra: u8)
    ensures
        extra == 0,
        *final(cpu) == (CPU { a: old(cpu).y, ..*old(cpu) }).with_zn(old(cpu).y),
{
    cpu.a = cpu.y;
    proof { lemma_sign_bit(cpu.a); }

    cpu.set_flag(Flag::Zero, cpu.a == 0);
    cpu.set_flag(Flag::Negative, cpu.a & 0x80 != 0);

    0
}

pub fn tsx<B: Bus>(cpu: &mut CPU<B>) -> (extra: u8)
    ensures
        extra == 0,
        *final(cpu) == (CPU { x: old(cpu).s, ..*old(cpu) }).with_zn(old(cpu).s),
{
    cpu.x = cpu.s;
    proof { lemma_sign_bit(cpu.x); }

    cpu.set_flag(Flag::Zero, cpu.x == 0);
    cpu.set_flag(Flag::Negative, cpu.x & 0x80 != 0);

    0
}

pub fn txs<B: Bus>(cpu: &mut CPU<B>) -> (extra: u8)
    ensures
        extra == 0,
        *final(cpu) == (CPU { s: old(cpu).x, ..*old(cpu) }),
{
    cpu.s = cpu.x;

    0
}

} // verus!
