use vstd::prelude::*;
use crate::cpu::{Bus, CPU};
use crate::cpu::opcodes::{
    Mode, operand_fits, operand_of, page_penalty, immediate, zeropage, zeropagex, absolute,
    absolutex,
};

verus! {

/// A NOP that reads its operand in `mode` and discards it, paying the
/// page-crossing penalty.
pub open spec fn skip_with<B: Bus>(cpu: CPU<B>, mode: Mode) -> (u8, CPU<B>) {
    let (_, crossed, c) = operand_of(cpu, mode);
    (page_penalty(crossed), c)
}

pub fn nop<B: Bus>(_cpu: &mut CPU<B>) -> (extra: u8)
    ensures
        extra == 0,
        *final(_cpu) == *old(_cpu),
{
    0
}

pub fn nop_implied<B: Bus>(cpu: &mut CPU<B>) -> (extra: u8)
    ensures
        extra == 0,
        *final(cpu) == *old(cpu),
{
    0
}


pub fn nop_immediate<B: Bus>(cpu: &mut CPU<B>) -> (extra: u8)
    requires
        operand_fits(*old(cpu), Mode::Immediate),
    ensures
        (extra, *final(cpu)) == skip_with(*old(cpu), Mode::Immediate),
{
    let _ = immediate(cpu);

    0
}

pub fn nop_zeropage<B: Bus>(cpu: &mut CPU<B>) -> (extra: u8)
    requires
        operand_fits(*old(cpu), Mode::ZeroPage),
    ensures
        (extra, *final(cpu)) == skip_with(*old(cpu), Mode::ZeroPage),
{
    let addr = zeropage(cpu);
    let _ = cpu.read(addr);

    0
}

pub fn nop_zeropagex<B: Bus>(cpu: &mut CPU<B>) -> (extra: u8)
    requires
        operand_fits(*old(cpu), Mode::ZeroPageX),
    ensures
        (extra, *final(cpu)) == skip_with(*old(cpu), Mode::ZeroPageX),
{
    let addr = zeropagex(cpu);
    let _ = cpu.read(addr);

    0
}

pub fn nop_absolute<B: Bus>(cpu: &mut CPU<B>) -> (extra: u8)
    requires
        operand_fits(*old(cpu), Mode::Absolute),
    ensures
        (extra, *final(cpu)) == skip_with(*old(cpu), Mode::Absolute),
{
    let addr = absolute(cpu);
    let _ = cpu.read(addr);

    0
}

pub fn nop_absolutex<B: Bus>(cpu: &mut CPU<B>) -> (extra: u8)
    requires
        operand_fits(*old(cpu), Mode::AbsoluteX),
    ensures
        (extra, *final(cpu)) == skip_with(*old(cpu), Mode::AbsoluteX),
{
    let (addr, page_crossed) = absolutex(cpu);
    let _ = cpu.read(addr);

    if page_crossed { 1 } else { 0 }
}

} // verus!
