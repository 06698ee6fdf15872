use vstd::prelude::*;
use crate::cpu::{Bus, CPU, Flag, lemma_sign_bit, lemma_low_bit, lemma_shift_one, lemma_flag_set_get};
use crate::cpu::opcodes::{
    Mode, operand_fits, address_of, zeropage, zeropagex, absolute, absolutex, absolutey, indirectx,
    indirecty,
};
use crate::cpu::ops::bitwise::{ora, and, eor, ora_spec, and_spec, eor_spec};

verus! {

/// Shift left: the result doubles the value, dropping bit 7 into carry.
pub open spec fn asl_spec<B: Bus>(cpu: CPU<B>, value: u8) -> (u8, CPU<B>) {
    let result = (value * 2 % 256) as u8;
    (result, cpu.with_flag(Flag::Carry, value >= 0x80).with_zn(result))
}

/// Shift right: the result halves the value, dropping bit 0 into carry; the
/// negative flag is cleared.
pub open spec fn lsr_spec<B: Bus>(cpu: CPU<B>, value: u8) -> (u8, CPU<B>) {
    let result = value / 2;
    (
        result,
        cpu.with_flag(Flag::Carry, value % 2 == 1).with_flag(Flag::Negative, false).with_flag(
            Flag::Zero,
            result == 0,
        ),
    )
}

/// Rotate left through carry: the old carry enters bit 0 and bit 7 leaves into carry.
pub open spec fn rol_spec<B: Bus>(cpu: CPU<B>, value: u8) -> (u8, CPU<B>) {
    let carry_in: int = if cpu.flag(Flag::Carry) { 1 } else { 0 };
    let result = (value * 2 % 256 + carry_in) as u8;
    (result, cpu.with_flag(Flag::Carry, value >= 0x80).with_zn(result))
}

/// Rotate right through carry: the old carry enters bit 7 and bit 0 leaves into carry.
pub open spec fn ror_spec<B: Bus>(cpu: CPU<B>, value: u8) -> (u8, CPU<B>) {
    let carry_in: int = if cpu.flag(Flag::Carry) { 0x80 } else { 0 };
    let result = (value / 2 + carry_in) as u8;
    (result, cpu.with_flag(Flag::Carry, value % 2 == 1).with_zn(result))
}

pub open spec fn asl_accumulator_spec<B: Bus>(cpu: CPU<B>) -> (u8, CPU<B>) {
    let (result, c) = asl_spec(cpu, cpu.a);
    (0, CPU { a: result, ..c })
}

pub open spec fn lsr_accumulator_spec<B: Bus>(cpu: CPU<B>) -> (u8, CPU<B>) {
    let (result, c) = lsr_spec(cpu, cpu.a);
    (0, CPU { a: result, ..c })
}

pub open spec fn rol_accumulator_spec<B: Bus>(cpu: CPU<B>) -> (u8, CPU<B>) {
    let (result, c) = rol_spec(cpu, cpu.a);
    (0, CPU { a: result, ..c })
}

pub open spec fn ror_accumulator_spec<B: Bus>(cpu: CPU<B>) -> (u8, CPU<B>) {
    let (result, c) = ror_spec(cpu, cpu.a);
    (0, CPU { a: result, ..c })
}

/// The four shifts and rotates.
pub enum ShiftKind {
    Asl,
    Lsr,
    Rol,
    Ror,
}

/// The result of a shift or rotate of the memory operand in `mode`, and the
/// machine after the result was written back.
pub open spec fn shifted_at<B: Bus>(cpu: CPU<B>, mode: Mode, kind: ShiftKind) -> (u8, CPU<B>) {
    let (address, _, c) = address_of(cpu, mode);
    let value = c.value_at(address);
    let c1 = c.after_read(address);
    let (result, c2) = match kind {
        ShiftKind::Asl => asl_spec(c1, value),
        ShiftKind::Lsr => lsr_spec(c1, value),
        ShiftKind::Rol => rol_spec(c1, value),
        ShiftKind::Ror => ror_spec(c1, value),
    };
    (result, c2.after_write(address, result))
}

pub open spec fn asl_at<B: Bus>(cpu: CPU<B>, mode: Mode) -> (u8, CPU<B>) {
    (0, shifted_at(cpu, mode, ShiftKind::Asl).1)
}

pub open spec fn lsr_at<B: Bus>(cpu: CPU<B>, mode: Mode) -> (u8, CPU<B>) {
    (0, shifted_at(cpu, mode, ShiftKind::Lsr).1)
}

pub open spec fn rol_at<B: Bus>(cpu: CPU<B>, mode: Mode) -> (u8, CPU<B>) {
    (0, shifted_at(cpu, mode, ShiftKind::Rol).1)
}

pub open spec fn ror_at<B: Bus>(cpu: CPU<B>, mode: Mode) -> (u8, CPU<B>) {
    (0, shifted_at(cpu, mode, ShiftKind::Ror).1)
}

/// SLO: shift the memory operand left, then OR the result into A.
pub open spec fn slo_at<B: Bus>(cpu: CPU<B>, mode: Mode) -> (u8, CPU<B>) {
    let (result, c) = shifted_at(cpu, mode, ShiftKind::Asl);
    (0, ora_spec(c, result))
}

/// RLA: rotate the memory operand left, then AND the result into A.
pub open spec fn rla_at<B: Bus>(cpu: CPU<B>, mode: Mode) -> (u8, CPU<B>) {
    let (result, c) = shifted_at(cpu, mode, ShiftKind::Rol);
    (0, and_spec(c, result))
}

/// SRE: shift the memory operand right, then XOR the result into A.
pub open spec fn sre_at<B: Bus>(cpu: CPU<B>, mode: Mode) -> (u8, CPU<B>) {
    let (result, c) = shifted_at(cpu, mode, ShiftKind::Lsr);
    (0, eor_spec(c, result))
}

fn asl<B: Bus>(cpu: &mut CPU<B>, value: u8) -> (result: u8)
    ensures
        (result, *final(cpu)) == asl_spec(*old(cpu), value),
{
    proof { lemma_sign_bit(value); lemma_shift_one(value); }
    cpu.set_flag(Flag::Carry, (value & 0x80) != 0);

    let result = value << 1u8;
    proof { lemma_sign_bit(result); }
    cpu.set_flag(Flag::Zero, result == 0);
    cpu.set_flag(Flag::Negative, result & 0b1000_0000 != 0);

    result
}

fn lsr<B: Bus>(cpu: &mut CPU<B>, value: u8) -> (result: u8)
    ensures
        (result, *final(cpu)) == lsr_spec(*old(cpu), value),
{
    proof { lemma_low_bit(value); lemma_shift_one(value); }
    cpu.set_flag(Flag::Carry, value & 0b0000_0001 == 0b0000_0001);

    let result = value >> 1u8;

    cpu.set_flag(Flag::Negative, false);
    cpu.set_flag(Flag::Zero, result == 0);

    result
}

fn rol<B: Bus>(cpu: &mut CPU<B>, value: u8) -> (result: u8)
    ensures
        (result, *final(cpu)) == rol_spec(*old(cpu), value),
{
    let old_carry = cpu.get_flag(Flag::Carry);
    proof { lemma_sign_bit(value); lemma_shift_one(value); }

    cpu.set_flag(Flag::Carry, value & 0b1000_0000 != 0);

    let mut result = value << 1u8;
    if old_carry {
        result = result | 0b0000_0001;
    }
    proof { lemma_sign_bit(result); }

    cpu.set_flag(Flag::Zero, result == 0);
    cpu.set_flag(Flag::Negative, result & 0b1000_0000 != 0);

    result
}

pub(crate) fn ror<B: Bus>(cpu: &mut CPU<B>, value: u8) -> (result: u8)
    ensures
        (result, *final(cpu)) == ror_spec(*old(cpu), value),
{
    let old_carry = cpu.get_flag(Flag::Carry);
    proof { lemma_low_bit(value); lemma_shift_one(value); }

    cpu.set_flag(Flag::Carry, value & 0b0000_0001 != 0);

    let mut result = value >> 1u8;
    if old_carry {
        result = result | 0b1000_0000;
    }
    proof { lemma_sign_bit(result); }

    cpu.set_flag(Flag::Zero, result == 0);
    cpu.set_flag(Flag::Negative, result & 0b1000_0000 != 0);

    result
}

fn slo<B: Bus>(cpu: &mut CPU<B>, addr: u16)
    ensures
        *final(cpu) == ({
            let value = old(cpu).value_at(addr);
            let (result, c) = asl_spec(old(cpu).after_read(addr), value);
            ora_spec(c.after_write(addr, result), result)
        }),
{
    let value = cpu.read(addr);
    let result = asl(cpu, value);
    cpu.write(addr, result);

    ora(cpu, result);
}

fn rla<B: Bus>(cpu: &mut CPU<B>, addr: u16)
    ensures
        *final(cpu) == ({
            let value = old(cpu).value_at(addr);
            let (result, c) = rol_spec(old(cpu).after_read(addr), value);
            and_spec(c.after_write(addr, result), result)
        }),
{
    let value = cpu.read(addr);
    let result = rol(cpu, value);
    cpu.write(addr, result);

    and(cpu, result);
}

fn sre<B: Bus>(cpu: &mut CPU<B>, addr: u16)
    ensures
        *final(cpu) == ({
            let value = old(cpu).value_at(addr);
            let (result, c) = lsr_spec(old(cpu).after_read(addr), value);
            eor_spec(c.after_write(addr, result), result)
        }),
{
    let value = cpu.read(addr);
    let result = lsr(cpu, value);
    cpu.write(addr, result);

    eor(cpu, result);
}


pub fn asl_accumulator<B: Bus>(cpu: &mut CPU<B>) -> (extra: u8)
    ensures
        (extra, *final(cpu)) == asl_accumulator_spec(*old(cpu)),
{
    let value = cpu.a;
    let result = asl(cpu, value);
    cpu.a = result;

    0
}

pub fn asl_zeropage<B: Bus>(cpu: &mut CPU<B>) -> (extra: u8)
    requires
        operand_fits(*old(cpu), Mode::ZeroPage),
    ensures
        (extra, *final(cpu)) == asl_at(*old(cpu), Mode::ZeroPage),
{
    let addr = zeropage(cpu);
    let value = cpu.read(addr);
    let result = asl(cpu, value);
    cpu.write(addr, result);

    0
}

pub fn asl_zeropagex<B: Bus>(cpu: &mut CPU<B>) -> (extra: u8)
    requires
        operand_fits(*old(cpu), Mode::ZeroPageX),
    ensures
        (extra, *final(cpu)) == asl_at(*old(cpu), Mode::ZeroPageX),
{
    let addr = zeropagex(cpu);
    let value = cpu.read(addr);
    let result = asl(cpu, value);
    cpu.write(addr, result);

    0
}

pub fn asl_absolute<B: Bus>(cpu: &mut CPU<B>) -> (extra: u8)
    requires
        operand_fits(*old(cpu), Mode::Absolute),
    ensures
        (extra, *final(cpu)) == asl_at(*old(cpu), Mode::Absolute),
{
    let addr = absolute(cpu);
    let value = cpu.read(addr);
    let result = asl(cpu, value);
    cpu.write(addr, result);

    0
}

pub fn asl_absolutex<B: Bus>(cpu: &mut CPU<B>) -> (extra: u8)
    requires
        operand_fits(*old(cpu), Mode::AbsoluteX),
    ensures
        (extra, *final(cpu)) == asl_at(*old(cpu), Mode::AbsoluteX),
{
    let (addr, _page_crossed) = absolutex(cpu);
    let value = cpu.read(addr);
    let result = asl(cpu, value);
    cpu.write(addr, result);

    0
}

pub fn lsr_accumulator<B: Bus>(cpu: &mut CPU<B>) -> (extra: u8)
    ensures
        (extra, *final(cpu)) == lsr_accumulator_spec(*old(cpu)),
{
    let value = cpu.a;
    let result = lsr(cpu, value);
    cpu.a = result;

    0
}

pub fn lsr_zeropage<B: Bus>(cpu: &mut CPU<B>) -> (extra: u8)
    requires
        operand_fits(*old(cpu), Mode::ZeroPage),
    ensures
        (extra, *final(cpu)) == lsr_at(*old(cpu), Mode::ZeroPage),
{
    let addr = zeropage(cpu);
    let value = cpu.read(addr);
    let result = lsr(cpu, value);
    cpu.write(addr, result);

    0
}

pub fn lsr_zeropagex<B: Bus>(cpu: &mut CPU<B>) -> (extra: u8)
    requires
        operand_fits(*old(cpu), Mode::ZeroPageX),
    ensures
        (extra, *final(cpu)) == lsr_at(*old(cpu), Mode::ZeroPageX),
{
    let addr = zeropagex(cpu);
    let value = cpu.read(addr);
    let result = lsr(cpu, value);
    cpu.write(addr, result);

    0
}

pub fn lsr_absolute<B: Bus>(cpu: &mut CPU<B>) -> (extra: u8)
    requires
        operand_fits(*old(cpu), Mode::Absolute),
    ensures
        (extra, *final(cpu)) == lsr_at(*old(cpu), Mode::Absolute),
{
    let addr = absolute(cpu);
    let value = cpu.read(addr);
    let result = lsr(cpu, value);
    cpu.write(addr, result);

    0
}

pub fn lsr_absolutex<B: Bus>(cpu: &mut CPU<B>) -> (extra: u8)
    requires
        operand_fits(*old(cpu), Mode::AbsoluteX),
    ensures
        (extra, *final(cpu)) == lsr_at(*old(cpu), Mode::AbsoluteX),
{
    let (addr, _page_crossed) = absolutex(cpu);
    let value = cpu.read(addr);
    let result = lsr(cpu, value);
    cpu.write(addr, result);

    0
}

pub fn rol_accumulator<B: Bus>(cpu: &mut CPU<B>) -> (extra: u8)
    ensures
        (extra, *final(cpu)) == rol_accumulator_spec(*old(cpu)),
{
    let value = cpu.a;
    let result = rol(cpu, value);
    cpu.a = result;

    0
}

pub fn rol_zeropage<B: Bus>(cpu: &mut CPU<B>) -> (extra: u8)
    requires
        operand_fits(*old(cpu), Mode::ZeroPage),
    ensures
        (extra, *final(cpu)) == rol_at(*old(cpu), Mode::ZeroPage),
{
    let addr = zeropage(cpu);
    let value = cpu.read(addr);
    let result = rol(cpu, value);
    cpu.write(addr, result);

    0
}

pub fn rol_zeropagex<B: Bus>(cpu: &mut CPU<B>) -> (extra: u8)
    requires
        operand_fits(*old(cpu), Mode::ZeroPageX),
    ensures
        (extra, *final(cpu)) == rol_at(*old(cpu), Mode::ZeroPageX),
{
    let addr = zeropagex(cpu);
    let value = cpu.read(addr);
    let result = rol(cpu, value);
    cpu.write(addr, result);

    0
}

pub fn rol_absolute<B: Bus>(cpu: &mut CPU<B>) -> (extra: u8)
    requires
        operand_fits(*old(cpu), Mode::Absolute),
    ensures
        (extra, *final(cpu)) == rol_at(*old(cpu), Mode::Absolute),
{
    let addr = absolute(cpu);
    let value = cpu.read(addr);
    let result = rol(cpu, value);
    cpu.write(addr, result);

    0
}

pub fn rol_absolutex<B: Bus>(cpu: &mut CPU<B>) -> (extra: u8)
    requires
        operand_fits(*old(cpu), Mode::AbsoluteX),
    ensures
        (extra, *final(cpu)) == rol_at(*old(cpu), Mode::AbsoluteX),
{
    let (addr, _page_crossed) = absolutex(cpu);
    let value = cpu.read(addr);
    let result = rol(cpu, value);
    cpu.write(addr, result);

    0
}

pub fn ror_accumulator<B: Bus>(cpu: &mut CPU<B>) -> (extra: u8)
    ensures
        (extra, *final(cpu)) == ror_accumulator_spec(*old(cpu)),
{
    let value = cpu.a;
    let result = ror(cpu, value);
    cpu.a = result;

    0
}

pub fn ror_zeropage<B: Bus>(cpu: &mut CPU<B>) -> (extra: u8)
    requires
        operand_fits(*old(cpu), Mode::ZeroPage),
    ensures
        (extra, *final(cpu)) == ror_at(*old(cpu), Mode::ZeroPage),
{
    let addr = zeropage(cpu);
    let value = cpu.read(addr);
    let result = ror(cpu, value);
    cpu.write(addr, result);

    0
}

pub fn ror_zeropagex<B: Bus>(cpu: &mut CPU<B>) -> (extra: u8)
    requires
        operand_fits(*old(cpu), Mode::ZeroPageX),
    ensures
        (extra, *final(cpu)) == ror_at(*old(cpu), Mode::ZeroPageX),
{
    let addr = zeropagex(cpu);
    let value = cpu.read(addr);
    let result = ror(cpu, value);
    cpu.write(addr, result);

    0
}

pub fn ror_absolute<B: Bus>(cpu: &mut CPU<B>) -> (extra: u8)
    requires
        operand_fits(*old(cpu), Mode::Absolute),
    ensures
        (extra, *final(cpu)) == ror_at(*old(cpu), Mode::Absolute),
{
    let addr = absolute(cpu);
    let value = cpu.read(addr);
    let result = ror(cpu, value);
    cpu.write(addr, result);

    0
}

pub fn ror_absolutex<B: Bus>(cpu: &mut CPU<B>) -> (extra: u8)
    requires
        operand_fits(*old(cpu), Mode::AbsoluteX),
    ensures
        (extra, *final(cpu)) == ror_at(*old(cpu), Mode::AbsoluteX),
{
    let (addr, _page_crossed) = absolutex(cpu);
    let value = cpu.read(addr);
    let result = ror(cpu, value);
    cpu.write(addr, result);

    0
}

pub fn slo_zeropage<B: Bus>(cpu: &mut CPU<B>) -> (extra: u8)
    requires
        operand_fits(*old(cpu), Mode::ZeroPage),
    ensures
        (extra, *final(cpu)) == slo_at(*old(cpu), Mode::ZeroPage),
{
    let addr = zeropage(cpu);
    slo(cpu, addr);

    0
}

pub fn slo_zeropagex<B: Bus>(cpu: &mut CPU<B>) -> (extra: u8)
    requires
        operand_fits(*old(cpu), Mode::ZeroPageX),
    ensures
        (extra, *final(cpu)) == slo_at(*old(cpu), Mode::ZeroPageX),
{
    let addr = zeropagex(cpu);
    slo(cpu, addr);

    0
}

pub fn slo_absolute<B: Bus>(cpu: &mut CPU<B>) -> (extra: u8)
    requires
        operand_fits(*old(cpu), Mode::Absolute),
    ensures
        (extra, *final(cpu)) == slo_at(*old(cpu), Mode::Absolute),
{
    let addr = absolute(cpu);
    slo(cpu, addr);

    0
}

pub fn slo_absolutex<B: Bus>(cpu: &mut CPU<B>) -> (extra: u8)
    requires
        operand_fits(*old(cpu), Mode::AbsoluteX),
    ensures
        (extra, *final(cpu)) == slo_at(*old(cpu), Mode::AbsoluteX),
{
    let (addr, _page_crossed) = absolutex(cpu);
    slo(cpu, addr);

    0
}

pub fn slo_absolutey<B: Bus>(cpu: &mut CPU<B>) -> (extra: u8)
    requires
        operand_fits(*old(cpu), Mode::AbsoluteY),
    ensures
        (extra, *final(cpu)) == slo_at(*old(cpu), Mode::AbsoluteY),
{
    let (addr, _page_crossed) = absolutey(cpu);
    slo(cpu, addr);

    0
}

pub fn slo_indirectx<B: Bus>(cpu: &mut CPU<B>) -> (extra: u8)
    requires
        operand_fits(*old(cpu), Mode::IndirectX),
    ensures
        (extra, *final(cpu)) == slo_at(*old(cpu), Mode::IndirectX),
{
    let addr = indirectx(cpu);
    slo(cpu, addr);

    0
}

pub fn slo_indirecty<B: Bus>(cpu: &mut CPU<B>) -> (extra: u8)
    requires
        operand_fits(*old(cpu), Mode::IndirectY),
    ensures
        (extra, *final(cpu)) == slo_at(*old(cpu), Mode::IndirectY),
{
    let (addr, _page_crossed) = indirecty(cpu);
    slo(cpu, addr);

    0
}

pub fn rla_zeropage<B: Bus>(cpu: &mut CPU<B>) -> (extra: u8)
    requires
        operand_fits(*old(cpu), Mode::ZeroPage),
    ensures
        (extra, *final(cpu)) == rla_at(*old(cpu), Mode::ZeroPage),
{
    let addr = zeropage(cpu);
    rla(cpu, addr);

    0
}

pub fn rla_zeropagex<B: Bus>(cpu: &mut CPU<B>) -> (extra: u8)
    requires
        operand_fits(*old(cpu), Mode::ZeroPageX),
    ensures
        (extra, *final(cpu)) == rla_at(*old(cpu), Mode::ZeroPageX),
{
    let addr = zeropagex(cpu);
    rla(cpu, addr);

    0
}

pub fn rla_absolute<B: Bus>(cpu: &mut CPU<B>) -> (extra: u8)
    requires
        operand_fits(*old(cpu), Mode::Absolute),
    ensures
        (extra, *final(cpu)) == rla_at(*old(cpu), Mode::Absolute),
{
    let addr = absolute(cpu);
    rla(cpu, addr);

    0
}

pub fn rla_absolutex<B: Bus>(cpu: &mut CPU<B>) -> (extra: u8)
    requires
        operand_fits(*old(cpu), Mode::AbsoluteX),
    ensures
        (extra, *final(cpu)) == rla_at(*old(cpu), Mode::AbsoluteX),
{
    let (addr, _page_crossed) = absolutex(cpu);
    rla(cpu, addr);

    0
}

pub fn rla_absolutey<B: Bus>(cpu: &mut CPU<B>) -> (extra: u8)
    requires
        operand_fits(*old(cpu), Mode::AbsoluteY),
    ensures
        (extra, *final(cpu)) == rla_at(*old(cpu), Mode::AbsoluteY),
{
    let (addr, _page_crossed) = absolutey(cpu);
    rla(cpu, addr);

    0
}

pub fn rla_indirectx<B: Bus>(cpu: &mut CPU<B>) -> (extra: u8)
    requires
        operand_fits(*old(cpu), Mode::IndirectX),
    ensures
        (extra, *final(cpu)) == rla_at(*old(cpu), Mode::IndirectX),
{
    let addr = indirectx(cpu);
    rla(cpu, addr);

    0
}

pub fn rla_indirecty<B: Bus>(cpu: &mut CPU<B>) -> (extra: u8)
    requires
        operand_fits(*old(cpu), Mode::IndirectY),
    ensures
        (extra, *final(cpu)) == rla_at(*old(cpu), Mode::IndirectY),
{
    let (addr, _page_crossed) = indirecty(cpu);
    rla(cpu, addr);

    0
}

pub fn sre_zeropage<B: Bus>(cpu: &mut CPU<B>) -> (extra: u8)
    requires
        operand_fits(*old(cpu), Mode::ZeroPage),
    ensures
        (extra, *final(cpu)) == sre_at(*old(cpu), Mode::ZeroPage),
{
    let addr = zeropage(cpu);
    sre(cpu, addr);

    0
}

pub fn sre_zeropagex<B: Bus>(cpu: &mut CPU<B>) -> (extra: u8)
    requires
        operand_fits(*old(cpu), Mode::ZeroPageX),
    ensures
        (extra, *final(cpu)) == sre_at(*old(cpu), Mode::ZeroPageX),
{
    let addr = zeropagex(cpu);
    sre(cpu, addr);

    0
}

pub fn sre_absolute<B: Bus>(cpu: &mut CPU<B>) -> (extra: u8)
    requires
        operand_fits(*old(cpu), Mode::Absolute),
    ensures
        (extra, *final(cpu)) == sre_at(*old(cpu), Mode::Absolute),
{
    let addr = absolute(cpu);
    sre(cpu, addr);

    0
}

pub fn sre_absolutex<B: Bus>(cpu: &mut CPU<B>) -> (extra: u8)
    requires
        operand_fits(*old(cpu), Mode::AbsoluteX),
    ensures
        (extra, *final(cpu)) == sre_at(*old(cpu), Mode::AbsoluteX),
{
    let (addr, _page_crossed) = absolutex(cpu);
    sre(cpu, addr);

    0
}

pub fn sre_absolutey<B: Bus>(cpu: &mut CPU<B>) -> (extra: u8)
    requires
        operand_fits(*old(cpu), Mode::AbsoluteY),
    ensures
        (extra, *final(cpu)) == sre_at(*old(cpu), Mode::AbsoluteY),
{
    let (addr, _page_crossed) = absolutey(cpu);
    sre(cpu, addr);

    0
}

pub fn sre_indirectx<B: Bus>(cpu: &mut CPU<B>) -> (extra: u8)
    requires
        operand_fits(*old(cpu), Mode::IndirectX),
    ensures
        (extra, *final(cpu)) == sre_at(*old(cpu), Mode::IndirectX),
{
    let addr = indirectx(cpu);
    sre(cpu, addr);

    0
}

pub fn sre_indirecty<B: Bus>(cpu: &mut CPU<B>) -> (extra: u8)
    requires
        operand_fits(*old(cpu), Mode::IndirectY),
    ensures
        (extra, *final(cpu)) == sre_at(*old(cpu), Mode::IndirectY),
{
    let (addr, _page_crossed) = indirecty(cpu);
    sre(cpu, addr);

    0
}

/// The flag updates of a shift: carry as set, then zero and negative.
proof fn lemma_shift_flags<B: Bus>(cpu: CPU<B>, carry: bool, result: u8)
    ensures
        cpu.with_flag(Flag::Carry, carry).with_zn(result).flag(Flag::Carry) == carry,
        cpu.with_flag(Flag::Carry, carry).with_zn(result).flag(Flag::Zero) == (result == 0),
        cpu.with_flag(Flag::Carry, carry).with_zn(result).flag(Flag::Negative) == (result >= 0x80),
        cpu.with_flag(Flag::Carry, carry).with_zn(result).flag(Flag::Overflow) == cpu.flag(Flag::Overflow),
{
    let c1 = cpu.with_flag(Flag::Carry, carry);
    let c2 = c1.with_flag(Flag::Zero, result == 0);
    lemma_flag_set_get(cpu, Flag::Carry, carry, Flag::Overflow);
    lemma_flag_set_get(c1, Flag::Zero, result == 0, Flag::Carry);
    lemma_flag_set_get(c1, Flag::Zero, result == 0, Flag::Overflow);
    lemma_flag_set_get(c2, Flag::Negative, result >= 0x80, Flag::Carry);
    lemma_flag_set_get(c2, Flag::Negative, result >= 0x80, Flag::Zero);
    lemma_flag_set_get(c2, Flag::Negative, result >= 0x80, Flag::Overflow);
}

/// The shifts move a byte one place through the carry. ASL doubles it, the bit
/// that falls off the top landing in carry; LSR halves it, the bottom bit landing
/// in carry; ROL and ROR bring the old carry in at the other end, so a ROL undone
/// by a ROR gives back both the byte and the carry.
pub proof fn lemma_shifts_move_bits<B: Bus>(cpu: CPU<B>, v: u8)
    ensures
        ({
            let c: int = if cpu.flag(Flag::Carry) { 1 } else { 0 };
            let (asl, a1) = asl_spec(cpu, v);
            let (lsr, l1) = lsr_spec(cpu, v);
            let (rol, r1) = rol_spec(cpu, v);
            let (ror, r2) = ror_spec(cpu, v);
            &&& asl as int + (if a1.flag(Flag::Carry) { 256int } else { 0 }) == 2 * v
            &&& a1.flag(Flag::Zero) == (asl == 0) && a1.flag(Flag::Negative) == (asl >= 0x80)
            &&& 2 * lsr + (if l1.flag(Flag::Carry) { 1int } else { 0 }) == v
            &&& l1.flag(Flag::Zero) == (lsr == 0) && !l1.flag(Flag::Negative)
            &&& rol as int + (if r1.flag(Flag::Carry) { 256int } else { 0 }) == 2 * v + c
            &&& 2 * ror + (if r2.flag(Flag::Carry) { 1int } else { 0 }) == v + 256 * c
            &&& ror_spec(r1, rol).0 == v && ror_spec(r1, rol).1.flag(Flag::Carry) == cpu.flag(Flag::Carry)
        }),
{
    let c: int = if cpu.flag(Flag::Carry) { 1 } else { 0 };
    let asl = (v * 2 % 256) as u8;
    let rol = (v * 2 % 256 + c) as u8;
    let ror = (v / 2 + if cpu.flag(Flag::Carry) { 0x80int } else { 0 }) as u8;
    lemma_shift_flags(cpu, v >= 0x80, asl);
    lemma_shift_flags(cpu, v >= 0x80, rol);
    lemma_shift_flags(cpu, v % 2 == 1, ror);
    let r1 = cpu.with_flag(Flag::Carry, v >= 0x80).with_zn(rol);
    let back = (rol / 2 + if r1.flag(Flag::Carry) { 0x80int } else { 0 }) as u8;
    lemma_shift_flags(r1, rol % 2 == 1, back);
    let l1 = cpu.with_flag(Flag::Carry, v % 2 == 1);
    let l2 = l1.with_flag(Flag::Negative, false);
    lemma_flag_set_get(l1, Flag::Negative, false, Flag::Carry);
    lemma_flag_set_get(l2, Flag::Zero, v / 2 == 0, Flag::Carry);
    lemma_flag_set_get(l2, Flag::Zero, v / 2 == 0, Flag::Negative);
    lemma_flag_set_get(cpu, Flag::Carry, v % 2 == 1, Flag::Carry);
}

} // verus!
