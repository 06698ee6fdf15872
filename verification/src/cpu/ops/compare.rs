use vstd::prelude::*;
use crate::cpu::{Bus, CPU, Flag, lemma_sign_bit, lemma_flag_set_get};
use crate::cpu::opcodes::{
    Mode, operand_fits, operand_of, address_of, page_penalty, immediate, zeropage, zeropagex,
    absolute, absolutex, absolutey, indirectx, indirecty,
};
use crate::cpu::ops::arithmetic::{dec, dec_spec};

verus! {

/// Compare `register` with `value`: carry when register >= value, zero when they
/// are equal, negative from bit 7 of register - value (wrapping).
pub open spec fn compare_spec<B: Bus>(cpu: CPU<B>, register: u8, value: u8) -> CPU<B> {
    cpu.with_flag(Flag::Carry, register >= value).with_flag(Flag::Zero, register == value).with_flag(
        Flag::Negative,
        register.wrapping_sub(value) >= 0x80,
    )
}

pub open spec fn cmp_with<B: Bus>(cpu: CPU<B>, mode: Mode) -> (u8, CPU<B>) {
    let (value, crossed, c) = operand_of(cpu, mode);
    (page_penalty(crossed), compare_spec(c, c.a, value))
}

pub open spec fn cpx_with<B: Bus>(cpu: CPU<B>, mode: Mode) -> (u8, CPU<B>) {
    let (value, crossed, c) = operand_of(cpu, mode);
    (page_penalty(crossed), compare_spec(c, c.x, value))
}

pub open spec fn cpy_with<B: Bus>(cpu: CPU<B>, mode: Mode) -> (u8, CPU<B>) {
    let (value, crossed, c) = operand_of(cpu, mode);
    (page_penalty(crossed), compare_spec(c, c.y, value))
}

/// DCP: decrement the memory operand, then compare A with the result.
pub open spec fn dcp_at<B: Bus>(cpu: CPU<B>, mode: Mode) -> (u8, CPU<B>) {
    let (address, _, c) = address_of(cpu, mode);
    let (result, c2) = dec_spec(c.after_read(address), c.value_at(address));
    let c3 = c2.after_write(address, result);
    (0, compare_spec(c3, c3.a, result))
}

fn compare<B: Bus>(cpu: &mut CPU<B>, register: u8, value: u8)
    ensures
        *final(cpu) == compare_spec(*old(cpu), register, value),
{
    let result = register.wrapping_sub(value);
    proof { lemma_sign_bit(result); }
    cpu.set_flag(Flag::Carry, register >= value);
    cpu.set_flag(Flag::Zero, register == value);
    cpu.set_flag(Flag::Negative, result & 0b1000_0000 != 0);
}

pub fn cmp<B: Bus>(cpu: &mut CPU<B>, value: u8)
    ensures
        *final(cpu) == compare_spec(*old(cpu), old(cpu).a, value),
{
    let a = cpu.a;
    compare(cpu, a, value);
}

pub fn cpx<B: Bus>(cpu: &mut CPU<B>, value: u8)
    ensures
        *final(cpu) == compare_spec(*old(cpu), old(cpu).x, value),
{
    let x = cpu.x;
    compare(cpu, x, value);
}

pub fn cpy<B: Bus>(cpu: &mut CPU<B>, value: u8)
    ensures
        *final(cpu) == compare_spec(*old(cpu), old(cpu).y, value),
{
    let y = cpu.y;
    compare(cpu, y, value);
}

fn dcp<B: Bus>(cpu: &mut CPU<B>, addr: u16)
    ensures
        *final(cpu) == ({
            let (result, c) = dec_spec(old(cpu).after_read(addr), old(cpu).value_at(addr));
            let c2 = c.after_write(addr, result);
            compare_spec(c2, c2.a, result)
        }),
{
    let value = cpu.read(addr);
    let result = dec(cpu, value);
    cpu.write(addr, result);

    cmp(cpu, result);
}


pub fn cmp_immediate<B: Bus>(cpu: &mut CPU<B>) -> (extra: u8)
    requires
        operand_fits(*old(cpu), Mode::Immediate),
    ensures
        (extra, *final(cpu)) == cmp_with(*old(cpu), Mode::Immediate),
{
    let value = immediate(cpu);
    cmp(cpu, value);

    0
}

pub fn cmp_zeropage<B: Bus>(cpu: &mut CPU<B>) -> (extra: u8)
    requires
        operand_fits(*old(cpu), Mode::ZeroPage),
    ensures
        (extra, *final(cpu)) == cmp_with(*old(cpu), Mode::ZeroPage),
{
    let addr = zeropage(cpu);
    let value = cpu.read(addr);
    cmp(cpu, value);

    0
}

pub fn cmp_zeropagex<B: Bus>(cpu: &mut CPU<B>) -> (extra: u8)
    requires
        operand_fits(*old(cpu), Mode::ZeroPageX),
    ensures
        (extra, *final(cpu)) == cmp_with(*old(cpu), Mode::ZeroPageX),
{
    let addr = zeropagex(cpu);
    let value = cpu.read(addr);
    cmp(cpu, value);

    0
}

pub fn cmp_absolute<B: Bus>(cpu: &mut CPU<B>) -> (extra: u8)
    requires
        operand_fits(*old(cpu), Mode::Absolute),
    ensures
        (extra, *final(cpu)) == cmp_with(*old(cpu), Mode::Absolute),
{
    let addr = absolute(cpu);
    let value = cpu.read(addr);
    cmp(cpu, value);

    0
}

pub fn cmp_absolutex<B: Bus>(cpu: &mut CPU<B>) -> (extra: u8)
    requires
        operand_fits(*old(cpu), Mode::AbsoluteX),
    ensures
        (extra, *final(cpu)) == cmp_with(*old(cpu), Mode::AbsoluteX),
{
    let (addr, page_crossed) = absolutex(cpu);
    let value = cpu.read(addr);
    cmp(cpu, value);

    if page_crossed { 1 } else { 0 }
}

pub fn cmp_absolutey<B: Bus>(cpu: &mut CPU<B>) -> (extra: u8)
    requires
        operand_fits(*old(cpu), Mode::AbsoluteY),
    ensures
        (extra, *final(cpu)) == cmp_with(*old(cpu), Mode::AbsoluteY),
{
    let (addr, page_crossed) = absolutey(cpu);
    let value = cpu.read(addr);
    cmp(cpu, value);

    if page_crossed { 1 } else { 0 }
}

pub fn cmp_indirectx<B: Bus>(cpu: &mut CPU<B>) -> (extra: u8)
    requires
        operand_fits(*old(cpu), Mode::IndirectX),
    ensures
        (extra, *final(cpu)) == cmp_with(*old(cpu), Mode::IndirectX),
{
    let addr = indirectx(cpu);
    let value = cpu.read(addr);
    cmp(cpu, value);

    0
}

pub fn cmp_indirecty<B: Bus>(cpu: &mut CPU<B>) -> (extra: u8)
    requires
        operand_fits(*old(cpu), Mode::IndirectY),
    ensures
        (extra, *final(cpu)) == cmp_with(*old(cpu), Mode::IndirectY),
{
    let (addr, page_crossed) = indirecty(cpu);
    let value = cpu.read(addr);
    cmp(cpu, value);

    if page_crossed { 1 } else { 0 }
}

pub fn cpx_immediate<B: Bus>(cpu: &mut CPU<B>) -> (extra: u8)
    requires
        operand_fits(*old(cpu), Mode::Immediate),
    ensures
        (extra, *final(cpu)) == cpx_with(*old(cpu), Mode::Immediate),
{
    let value = immediate(cpu);
    cpx(cpu, value);

    0
}

pub fn cpx_zeropage<B: Bus>(cpu: &mut CPU<B>) -> (extra: u8)
    requires
        operand_fits(*old(cpu), Mode::ZeroPage),
    ensures
        (extra, *final(cpu)) == cpx_with(*old(cpu), Mode::ZeroPage),
{
    let addr = zeropage(cpu);
    let value = cpu.read(addr);
    cpx(cpu, value);

    0
}

pub fn cpx_absolute<B: Bus>(cpu: &mut CPU<B>) -> (extra: u8)
    requires
        operand_fits(*old(cpu), Mode::Absolute),
    ensures
        (extra, *final(cpu)) == cpx_with(*old(cpu), Mode::Absolute),
{
    let addr = absolute(cpu);
    let value = cpu.read(addr);
    cpx(cpu, value);

    0
}

pub fn cpy_immediate<B: Bus>(cpu: &mut CPU<B>) -> (extra: u8)
    requires
        operand_fits(*old(cpu), Mode::Immediate),
    ensures
        (extra, *final(cpu)) == cpy_with(*old(cpu), Mode::Immediate),
{
    let value = immediate(cpu);
    cpy(cpu, value);

    0
}

pub fn cpy_zeropage<B: Bus>(cpu: &mut CPU<B>) -> (extra: u8)
    requires
        operand_fits(*old(cpu), Mode::ZeroPage),
    ensures
        (extra, *final(cpu)) == cpy_with(*old(cpu), Mode::ZeroPage),
{
    let addr = zeropage(cpu);
    let value = cpu.read(addr);
    cpy(cpu, value);

    0
}

pub fn cpy_absolute<B: Bus>(cpu: &mut CPU<B>) -> (extra: u8)
    requires
        operand_fits(*old(cpu), Mode::Absolute),
    ensures
        (extra, *final(cpu)) == cpy_with(*old(cpu), Mode::Absolute),
{
    let addr = absolute(cpu);
    let value = cpu.read(addr);
    cpy(cpu, value);

    0
}

pub fn dcp_zeropage<B: Bus>(cpu: &mut CPU<B>) -> (extra: u8)
    requires
        operand_fits(*old(cpu), Mode::ZeroPage),
    ensures
        (extra, *final(cpu)) == dcp_at(*old(cpu), Mode::ZeroPage),
{
    let addr = zeropage(cpu);
    dcp(cpu, addr);

    0
}

pub fn dcp_zeropagex<B: Bus>(cpu: &mut CPU<B>) -> (extra: u8)
    requires
        operand_fits(*old(cpu), Mode::ZeroPageX),
    ensures
        (extra, *final(cpu)) == dcp_at(*old(cpu), Mode::ZeroPageX),
{
    let addr = zeropagex(cpu);
    dcp(cpu, addr);

    0
}

pub fn dcp_absolute<B: Bus>(cpu: &mut CPU<B>) -> (extra: u8)
    requires
        operand_fits(*old(cpu), Mode::Absolute),
    ensures
        (extra, *final(cpu)) == dcp_at(*old(cpu), Mode::Absolute),
{
    let addr = absolute(cpu);
    dcp(cpu, addr);

    0
}

pub fn dcp_absolutex<B: Bus>(cpu: &mut CPU<B>) -> (extra: u8)
    requires
        operand_fits(*old(cpu), Mode::AbsoluteX),
    ensures
        (extra, *final(cpu)) == dcp_at(*old(cpu), Mode::AbsoluteX),
{
    let (addr, _page_crossed) = absolutex(cpu);
    dcp(cpu, addr);

    0
}

pub fn dcp_absolutey<B: Bus>(cpu: &mut CPU<B>) -> (extra: u8)
    requires
        operand_fits(*old(cpu), Mode::AbsoluteY),
    ensures
        (extra, *final(cpu)) == dcp_at(*old(cpu), Mode::AbsoluteY),
{
    let (addr, _page_crossed) = absolutey(cpu);
    dcp(cpu, addr);

    0
}

pub fn dcp_indirectx<B: Bus>(cpu: &mut CPU<B>) -> (extra: u8)
    requires
        operand_fits(*old(cpu), Mode::IndirectX),
    ensures
        (extra, *final(cpu)) == dcp_at(*old(cpu), Mode::IndirectX),
{
    let addr = indirectx(cpu);
    dcp(cpu, addr);

    0
}

pub fn dcp_indirecty<B: Bus>(cpu: &mut CPU<B>) -> (extra: u8)
    requires
        operand_fits(*old(cpu), Mode::IndirectY),
    ensures
        (extra, *final(cpu)) == dcp_at(*old(cpu), Mode::IndirectY),
{
    let (addr, _page_crossed) = indirecty(cpu);
    dcp(cpu, addr);

    0
}

/// A comparison is a subtraction whose result is dropped: carry tells that no
/// borrow was needed (register >= value), zero that they are equal, negative is
/// bit 7 of the wrapped difference; the registers are untouched.
pub proof fn lemma_compare_subtracts<B: Bus>(cpu: CPU<B>, register: u8, value: u8)
    ensures
        ({
            let r = compare_spec(cpu, register, value);
            &&& r.flag(Flag::Carry) == (register >= value)
            &&& r.flag(Flag::Zero) == (register == value)
            &&& r.flag(Flag::Negative) == ((register - value + 256) % 256 >= 128)
            &&& r.flag(Flag::Overflow) == cpu.flag(Flag::Overflow)
            &&& r.a == cpu.a && r.x == cpu.x && r.y == cpu.y && r.pc == cpu.pc
        }),
{
    let c1 = cpu.with_flag(Flag::Carry, register >= value);
    let c2 = c1.with_flag(Flag::Zero, register == value);
    lemma_flag_set_get(cpu, Flag::Carry, register >= value, Flag::Overflow);
    lemma_flag_set_get(c1, Flag::Zero, register == value, Flag::Carry);
    lemma_flag_set_get(c1, Flag::Zero, register == value, Flag::Overflow);
    lemma_flag_set_get(c2, Flag::Negative, register.wrapping_sub(value) >= 0x80, Flag::Carry);
    lemma_flag_set_get(c2, Flag::Negative, register.wrapping_sub(value) >= 0x80, Flag::Zero);
    lemma_flag_set_get(c2, Flag::Negative, register.wrapping_sub(value) >= 0x80, Flag::Overflow);
}

} // verus!
