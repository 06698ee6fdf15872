use vstd::prelude::*;
use crate::cpu::{Bus, CPU, Flag, lemma_sign_bit, lemma_flag_set_get, lemma_zn_flags};
use crate::cpu::opcodes::{
    Mode, operand_fits, operand_of, page_penalty, immediate, zeropage, zeropagex, absolute,
    absolutex, absolutey, indirectx, indirecty,
};

verus! {

/// A = A & value, with zero and negative set from the result.
pub open spec fn and_spec<B: Bus>(cpu: CPU<B>, value: u8) -> CPU<B> {
    (CPU { a: cpu.a & value, ..cpu }).with_zn(cpu.a & value)
}

/// A = A ^ value, with zero and negative set from the result.
pub open spec fn eor_spec<B: Bus>(cpu: CPU<B>, value: u8) -> CPU<B> {
    (CPU { a: cpu.a ^ value, ..cpu }).with_zn(cpu.a ^ value)
}

/// A = A | value, with zero and negative set from the result.
pub open spec fn ora_spec<B: Bus>(cpu: CPU<B>, value: u8) -> CPU<B> {
    (CPU { a: cpu.a | value, ..cpu }).with_zn(cpu.a | value)
}

/// BIT: zero is set exactly when A & value is zero, overflow
/// takes bit 6 of the value and negative takes bit 7.
pub open spec fn bit_spec<B: Bus>(cpu: CPU<B>, value: u8) -> CPU<B> {
    cpu.with_flag(Flag::Zero, cpu.a & value == 0).with_flag(Flag::Overflow, value & 0x40 != 0).with_flag(Flag::Negative, value >= 0x80)
}

pub open spec fn and_with<B: Bus>(cpu: CPU<B>, mode: Mode) -> (u8, CPU<B>) {
    let (value, crossed, c) = operand_of(cpu, mode);
    (page_penalty(crossed), and_spec(c, value))
}

pub open spec fn eor_with<B: Bus>(cpu: CPU<B>, mode: Mode) -> (u8, CPU<B>) {
    let (value, crossed, c) = operand_of(cpu, mode);
    (page_penalty(crossed), eor_spec(c, value))
}

pub open spec fn ora_with<B: Bus>(cpu: CPU<B>, mode: Mode) -> (u8, CPU<B>) {
    let (value, crossed, c) = operand_of(cpu, mode);
    (page_penalty(crossed), ora_spec(c, value))
}

pub open spec fn bit_with<B: Bus>(cpu: CPU<B>, mode: Mode) -> (u8, CPU<B>) {
    let (value, _, c) = operand_of(cpu, mode);
    (0, bit_spec(c, value))
}

pub(crate) fn and<B: Bus>(cpu: &mut CPU<B>, value: u8)
    ensures
        *final(cpu) == and_spec(*old(cpu), value),
{
    let result = cpu.a & value;
    cpu.a = result;
    proof { lemma_sign_bit(result); }

    cpu.set_flag(Flag::Zero, result == 0);

    cpu.set_flag(Flag::Negative, result & 0x80 != 0);
}

pub fn bit<B: Bus>(cpu: &mut CPU<B>, value: u8)
    ensures
        *final(cpu) == bit_spec(*old(cpu), value),
{
    let result = cpu.a & value;
    proof { lemma_sign_bit(value); }

    cpu.set_flag(Flag::Zero, result == 0);

    cpu.set_flag(Flag::Overflow, value & 0b01000000 != 0);

    cpu.set_flag(Flag::Negative, value & 0b10000000 != 0);
}

pub fn bit_absolute<B: Bus>(cpu: &mut CPU<B>) -> (extra: u8)
    requires
        operand_fits(*old(cpu), Mode::Absolute),
    ensures
        (extra, *final(cpu)) == bit_with(*old(cpu), Mode::Absolute),
{
    let addr = absolute(cpu);
    let value = cpu.read(addr);
    bit(cpu, value);

    0
}

pub fn bit_zeropage<B: Bus>(cpu: &mut CPU<B>) -> (extra: u8)
    requires
        operand_fits(*old(cpu), Mode::ZeroPage),
    ensures
        (extra, *final(cpu)) == bit_with(*old(cpu), Mode::ZeroPage),
{
    let addr = zeropage(cpu);
    let value = cpu.read(addr);
    bit(cpu, value);

    0
}

pub fn eor<B: Bus>(cpu: &mut CPU<B>, value: u8)
    ensures
        *final(cpu) == eor_spec(*old(cpu), value),
{
    let result = cpu.a ^ value;

    cpu.a = result;
    proof { lemma_sign_bit(result); }

    cpu.set_flag(Flag::Zero, result == 0);
    cpu.set_flag(Flag::Negative, result & 0b1000_0000 != 0);
}

pub fn ora<B: Bus>(cpu: &mut CPU<B>, value: u8)
    ensures
        *final(cpu) == ora_spec(*old(cpu), value),
{
    let result = cpu.a | value;

    cpu.a = result;
    proof { lemma_sign_bit(result); }

    cpu.set_flag(Flag::Zero, result == 0);
    cpu.set_flag(Flag::Negative, result & 0b1000_0000 != 0);
}


pub fn and_immediate<B: Bus>(cpu: &mut CPU<B>) -> (extra: u8)
    requires
        operand_fits(*old(cpu), Mode::Immediate),
    ensures
        (extra, *final(cpu)) == and_with(*old(cpu), Mode::Immediate),
{
    let value = immediate(cpu);
    and(cpu, value);

    0
}

pub fn and_zeropage<B: Bus>(cpu: &mut CPU<B>) -> (extra: u8)
    requires
        operand_fits(*old(cpu), Mode::ZeroPage),
    ensures
        (extra, *final(cpu)) == and_with(*old(cpu), Mode::ZeroPage),
{
    let addr = zeropage(cpu);
    let value = cpu.read(addr);
    and(cpu, value);

    0
}

pub fn and_zeropagex<B: Bus>(cpu: &mut CPU<B>) -> (extra: u8)
    requires
        operand_fits(*old(cpu), Mode::ZeroPageX),
    ensures
        (extra, *final(cpu)) == and_with(*old(cpu), Mode::ZeroPageX),
{
    let addr = zeropagex(cpu);
    let value = cpu.read(addr);
    and(cpu, value);

    0
}

pub fn and_absolute<B: Bus>(cpu: &mut CPU<B>) -> (extra: u8)
    requires
        operand_fits(*old(cpu), Mode::Absolute),
    ensures
        (extra, *final(cpu)) == and_with(*old(cpu), Mode::Absolute),
{
    let addr = absolute(cpu);
    let value = cpu.read(addr);
    and(cpu, value);

    0
}

pub fn and_absolutex<B: Bus>(cpu: &mut CPU<B>) -> (extra: u8)
    requires
        operand_fits(*old(cpu), Mode::AbsoluteX),
    ensures
        (extra, *final(cpu)) == and_with(*old(cpu), Mode::AbsoluteX),
{
    let (addr, page_crossed) = absolutex(cpu);
    let value = cpu.read(addr);
    and(cpu, value);

    if page_crossed { 1 } else { 0 }
}

pub fn and_absolutey<B: Bus>(cpu: &mut CPU<B>) -> (extra: u8)
    requires
        operand_fits(*old(cpu), Mode::AbsoluteY),
    ensures
        (extra, *final(cpu)) == and_with(*old(cpu), Mode::AbsoluteY),
{
    let (addr, page_crossed) = absolutey(cpu);
    let value = cpu.read(addr);
    and(cpu, value);

    if page_crossed { 1 } else { 0 }
}

pub fn and_indirectx<B: Bus>(cpu: &mut CPU<B>) -> (extra: u8)
    requires
        operand_fits(*old(cpu), Mode::IndirectX),
    ensures
        (extra, *final(cpu)) == and_with(*old(cpu), Mode::IndirectX),
{
    let addr = indirectx(cpu);
    let value = cpu.read(addr);
    and(cpu, value);

    0
}

pub fn and_indirecty<B: Bus>(cpu: &mut CPU<B>) -> (extra: u8)
    requires
        operand_fits(*old(cpu), Mode::IndirectY),
    ensures
        (extra, *final(cpu)) == and_with(*old(cpu), Mode::IndirectY),
{
    let (addr, page_crossed) = indirecty(cpu);
    let value = cpu.read(addr);
    and(cpu, value);

    if page_crossed { 1 } else { 0 }
}

pub fn eor_immediate<B: Bus>(cpu: &mut CPU<B>) -> (extra: u8)
    requires
        operand_fits(*old(cpu), Mode::Immediate),
    ensures
        (extra, *final(cpu)) == eor_with(*old(cpu), Mode::Immediate),
{
    let value = immediate(cpu);
    eor(cpu, value);

    0
}

pub fn eor_zeropage<B: Bus>(cpu: &mut CPU<B>) -> (extra: u8)
    requires
        operand_fits(*old(cpu), Mode::ZeroPage),
    ensures
        (extra, *final(cpu)) == eor_with(*old(cpu), Mode::ZeroPage),
{
    let addr = zeropage(cpu);
    let value = cpu.read(addr);
    eor(cpu, value);

    0
}

pub fn eor_zeropagex<B: Bus>(cpu: &mut CPU<B>) -> (extra: u8)
    requires
        operand_fits(*old(cpu), Mode::ZeroPageX),
    ensures
        (extra, *final(cpu)) == eor_with(*old(cpu), Mode::ZeroPageX),
{
    let addr = zeropagex(cpu);
    let value = cpu.read(addr);
    eor(cpu, value);

    0
}

pub fn eor_absolute<B: Bus>(cpu: &mut CPU<B>) -> (extra: u8)
    requires
        operand_fits(*old(cpu), Mode::Absolute),
    ensures
        (extra, *final(cpu)) == eor_with(*old(cpu), Mode::Absolute),
{
    let addr = absolute(cpu);
    let value = cpu.read(addr);
    eor(cpu, value);

    0
}

pub fn eor_absolutex<B: Bus>(cpu: &mut CPU<B>) -> (extra: u8)
    requires
        operand_fits(*old(cpu), Mode::AbsoluteX),
    ensures
        (extra, *final(cpu)) == eor_with(*old(cpu), Mode::AbsoluteX),
{
    let (addr, page_crossed) = absolutex(cpu);
    let value = cpu.read(addr);
    eor(cpu, value);

    if page_crossed { 1 } else { 0 }
}

pub fn eor_absolutey<B: Bus>(cpu: &mut CPU<B>) -> (extra: u8)
    requires
        operand_fits(*old(cpu), Mode::AbsoluteY),
    ensures
        (extra, *final(cpu)) == eor_with(*old(cpu), Mode::AbsoluteY),
{
    let (addr, page_crossed) = absolutey(cpu);
    let value = cpu.read(addr);
    eor(cpu, value);

    if page_crossed { 1 } else { 0 }
}

pub fn eor_indirectx<B: Bus>(cpu: &mut CPU<B>) -> (extra: u8)
    requires
        operand_fits(*old(cpu), Mode::IndirectX),
    ensures
        (extra, *final(cpu)) == eor_with(*old(cpu), Mode::IndirectX),
{
    let addr = indirectx(cpu);
    let value = cpu.read(addr);
    eor(cpu, value);

    0
}

pub fn eor_indirecty<B: Bus>(cpu: &mut CPU<B>) -> (extra: u8)
    requires
        operand_fits(*old(cpu), Mode::IndirectY),
    ensures
        (extra, *final(cpu)) == eor_with(*old(cpu), Mode::IndirectY),
{
    let (addr, page_crossed) = indirecty(cpu);
    let value = cpu.read(addr);
    eor(cpu, value);

    if page_crossed { 1 } else { 0 }
}

pub fn ora_immediate<B: Bus>(cpu: &mut CPU<B>) -> (extra: u8)
    requires
        operand_fits(*old(cpu), Mode::Immediate),
    ensures
        (extra, *final(cpu)) == ora_with(*old(cpu), Mode::Immediate),
{
    let value = immediate(cpu);
    ora(cpu, value);

    0
}

pub fn ora_zeropage<B: Bus>(cpu: &mut CPU<B>) -> (extra: u8)
    requires
        operand_fits(*old(cpu), Mode::ZeroPage),
    ensures
        (extra, *final(cpu)) == ora_with(*old(cpu), Mode::ZeroPage),
{
    let addr = zeropage(cpu);
    let value = cpu.read(addr);
    ora(cpu, value);

    0
}

pub fn ora_zeropagex<B: Bus>(cpu: &mut CPU<B>) -> (extra: u8)
    requires
        operand_fits(*old(cpu), Mode::ZeroPageX),
    ensures
        (extra, *final(cpu)) == ora_with(*old(cpu), Mode::ZeroPageX),
{
    let addr = zeropagex(cpu);
    let value = cpu.read(addr);
    ora(cpu, value);

    0
}

pub fn ora_absolute<B: Bus>(cpu: &mut CPU<B>) -> (extra: u8)
    requires
        operand_fits(*old(cpu), Mode::Absolute),
    ensures
        (extra, *final(cpu)) == ora_with(*old(cpu), Mode::Absolute),
{
    let addr = absolute(cpu);
    let value = cpu.read(addr);
    ora(cpu, value);

    0
}

pub fn ora_absolutex<B: Bus>(cpu: &mut CPU<B>) -> (extra: u8)
    requires
        operand_fits(*old(cpu), Mode::AbsoluteX),
    ensures
        (extra, *final(cpu)) == ora_with(*old(cpu), Mode::AbsoluteX),
{
    let (addr, page_crossed) = absolutex(cpu);
    let value = cpu.read(addr);
    ora(cpu, value);

    if page_crossed { 1 } else { 0 }
}

pub fn ora_absolutey<B: Bus>(cpu: &mut CPU<B>) -> (extra: u8)
    requires
        operand_fits(*old(cpu), Mode::AbsoluteY),
    ensures
        (extra, *final(cpu)) == ora_with(*old(cpu), Mode::AbsoluteY),
{
    let (addr, page_crossed) = absolutey(cpu);
    let value = cpu.read(addr);
    ora(cpu, value);

    if page_crossed { 1 } else { 0 }
}

pub fn ora_indirectx<B: Bus>(cpu: &mut CPU<B>) -> (extra: u8)
    requires
        operand_fits(*old(cpu), Mode::IndirectX),
    ensures
        (extra, *final(cpu)) == ora_with(*old(cpu), Mode::IndirectX),
{
    let addr = indirectx(cpu);
    let value = cpu.read(addr);
    ora(cpu, value);

    0
}

pub fn ora_indirecty<B: Bus>(cpu: &mut CPU<B>) -> (extra: u8)
    requires
        operand_fits(*old(cpu), Mode::IndirectY),
    ensures
        (extra, *final(cpu)) == ora_with(*old(cpu), Mode::IndirectY),
{
    let (addr, page_crossed) = indirecty(cpu);
    let value = cpu.read(addr);
    ora(cpu, value);

    if page_crossed { 1 } else { 0 }
}

/// BIT tests A against a byte without changing A: zero tells that they share no
/// set bit, overflow and negative copy bits 6 and 7 of the byte; carry stays.
pub proof fn lemma_bit_tests<B: Bus>(cpu: CPU<B>, value: u8)
    ensures
        ({
            let r = bit_spec(cpu, value);
            &&& r.flag(Flag::Zero) == (cpu.a & value == 0)
            &&& r.flag(Flag::Overflow) == (value & 0x40 != 0)
            &&& r.flag(Flag::Negative) == (value >= 0x80)
            &&& r.flag(Flag::Carry) == cpu.flag(Flag::Carry)
            &&& r.a == cpu.a
        }),
{
    let c1 = cpu.with_flag(Flag::Zero, cpu.a & value == 0);
    let c2 = c1.with_flag(Flag::Overflow, value & 0x40 != 0);
    lemma_flag_set_get(cpu, Flag::Zero, cpu.a & value == 0, Flag::Carry);
    lemma_flag_set_get(c1, Flag::Overflow, value & 0x40 != 0, Flag::Zero);
    lemma_flag_set_get(c1, Flag::Overflow, value & 0x40 != 0, Flag::Carry);
    lemma_flag_set_get(c2, Flag::Negative, value >= 0x80, Flag::Zero);
    lemma_flag_set_get(c2, Flag::Negative, value >= 0x80, Flag::Overflow);
    lemma_flag_set_get(c2, Flag::Negative, value >= 0x80, Flag::Carry);
}

/// AND, ORA and EOR combine A with the byte bit by bit (and, or, exclusive or),
/// set zero and negative from the new A, and leave carry and overflow.
pub proof fn lemma_logic_ops<B: Bus>(cpu: CPU<B>, v: u8)
    ensures
        and_spec(cpu, v).a == cpu.a & v,
        ora_spec(cpu, v).a == cpu.a | v,
        eor_spec(cpu, v).a == cpu.a ^ v,
        and_spec(cpu, v).flag(Flag::Zero) == (cpu.a & v == 0),
        ora_spec(cpu, v).flag(Flag::Zero) == (cpu.a | v == 0),
        eor_spec(cpu, v).flag(Flag::Zero) == (cpu.a == v),
        and_spec(cpu, v).flag(Flag::Negative) == (cpu.a & v >= 0x80),
        ora_spec(cpu, v).flag(Flag::Negative) == (cpu.a | v >= 0x80),
        eor_spec(cpu, v).flag(Flag::Negative) == (cpu.a ^ v >= 0x80),
        and_spec(cpu, v).flag(Flag::Carry) == cpu.flag(Flag::Carry),
        ora_spec(cpu, v).flag(Flag::Overflow) == cpu.flag(Flag::Overflow),
        and_spec(cpu, v).x == cpu.x && ora_spec(cpu, v).x == cpu.x && eor_spec(cpu, v).x == cpu.x,
{
    lemma_zn_flags(CPU { a: cpu.a & v, ..cpu }, cpu.a & v);
    lemma_zn_flags(CPU { a: cpu.a | v, ..cpu }, cpu.a | v);
    lemma_zn_flags(CPU { a: cpu.a ^ v, ..cpu }, cpu.a ^ v);
    let a = cpu.a;
    assert((a ^ v == 0) == (a == v)) by (bit_vector);
}

} // verus!
