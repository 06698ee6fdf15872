use vstd::prelude::*;
use crate::cpu::{Bus, CPU, Flag};

verus! {

pub fn clc<B: Bus>(cpu: &mut CPU<B>) -> (extra: u8)
    ensures
        extra == 0,
        *final(cpu) == old(cpu).with_flag(Flag::Carry, false),
{
    cpu.set_flag(Flag::Carry, false);

    0
}

pub fn cld<B: Bus>(cpu: &mut CPU<B>) -> (extra: u8)
    ensures
        extra == 0,
        *final(cpu) == old(cpu).with_flag(Flag::Decimal, false),
{
    cpu.set_flag(Flag::Decimal, false);

    0
}

pub fn cli<B: Bus>(cpu: &mut CPU<B>) -> (extra: u8)
    ensures
        extra == 0,
        *final(cpu) == old(cpu).with_flag(Flag::InterruptDisable, false),
{
    cpu.set_flag(Flag::InterruptDisable, false);

    0
}

pub fn clv<B: Bus>(cpu: &mut CPU<B>) -> (extra: u8)
    ensures
        extra == 0,
        *final(cpu) == old(cpu).with_flag(Flag::Overflow, false),
{
    cpu.set_flag(Flag::Overflow, false);

    0
}

pub fn sec<B: Bus>(cpu: &mut CPU<B>) -> (extra: u8)
    ensures
        extra == 0,
        *final(cpu) == old(cpu).with_flag(Flag::Carry, true),
{
    cpu.set_flag(Flag::Carry, true);

    0
}

pub fn sed<B: Bus>(cpu: &mut CPU<B>) -> (extra: u8)
    ensures
        extra == 0,
        *final(cpu) == old(cpu).with_flag(Flag::Decimal, true),
{
    cpu.set_flag(Flag::Decimal, true);

    0
}

pub fn sei<B: Bus>(cpu: &mut CPU<B>) -> (extra: u8)
    ensures
        extra == 0,
        *final(cpu) == old(cpu).with_flag(Flag::InterruptDisable, true),
{
    cpu.set_flag(Flag::InterruptDisable, true);

    0
}

} // verus!
