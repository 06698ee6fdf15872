use vstd::prelude::*;
use crate::cpu::{Bus, CPU, Flag, lemma_sign_bit, lemma_zn_flags};
use crate::cpu::opcodes::{
    Mode, operand_fits, operand_of, address_of, store_at, page_penalty, immediate, zeropage,
    zeropagex, zeropagey, absolute, absolutex, absolutey, indirectx, indirecty,
};

verus! {

/// A takes the value; zero and negative follow it.
pub open spec fn lda_spec<B: Bus>(cpu: CPU<B>, value: u8) -> CPU<B> {
    (CPU { a: value, ..cpu }).with_zn(value)
}

/// X takes the value; zero and negative follow it.
pub open spec fn ldx_spec<B: Bus>(cpu: CPU<B>, value: u8) -> CPU<B> {
    (CPU { x: value, ..cpu }).with_zn(value)
}

/// Y takes the value; zero and negative follow it.
pub open spec fn ldy_spec<B: Bus>(cpu: CPU<B>, value: u8) -> CPU<B> {
    (CPU { y: value, ..cpu }).with_zn(value)
}

/// A and X both take the value; zero and negative follow it.
pub open spec fn lax_spec<B: Bus>(cpu: CPU<B>, value: u8) -> CPU<B> {
    (CPU { a: value, x: value, ..cpu }).with_zn(value)
}

pub open spec fn lda_with<B: Bus>(cpu: CPU<B>, mode: Mode) -> (u8, CPU<B>) {
    let (value, crossed, c) = operand_of(cpu, mode);
    (page_penalty(crossed), lda_spec(c, value))
}

pub open spec fn ldx_with<B: Bus>(cpu: CPU<B>, mode: Mode) -> (u8, CPU<B>) {
    let (value, crossed, c) = operand_of(cpu, mode);
    (page_penalty(crossed), ldx_spec(c, value))
}

pub open spec fn ldy_with<B: Bus>(cpu: CPU<B>, mode: Mode) -> (u8, CPU<B>) {
    let (value, crossed, c) = operand_of(cpu, mode);
    (page_penalty(crossed), ldy_spec(c, value))
}

pub open spec fn lax_with<B: Bus>(cpu: CPU<B>, mode: Mode) -> (u8, CPU<B>) {
    let (value, crossed, c) = operand_of(cpu, mode);
    (page_penalty(crossed), lax_spec(c, value))
}

/// The unstable stores SHY, SHX and AHX: `register` ANDed with one more than the
/// high byte of the target address is stored there.
pub open spec fn store_high_and<B: Bus>(cpu: CPU<B>, mode: Mode, register: u8) -> (u8, CPU<B>) {
    let (address, _, c) = address_of(cpu, mode);
    let high = (address / 256) as u8;
    (0, c.after_write(address, register & high.wrapping_add(1)))
}

/// LAS: the operand ANDed with S goes to A, X and S.
pub open spec fn las_with<B: Bus>(cpu: CPU<B>, mode: Mode) -> (u8, CPU<B>) {
    let (value, crossed, c) = operand_of(cpu, mode);
    let result = value & c.s;
    (page_penalty(crossed), (CPU { a: result, x: result, s: result, ..c }).with_zn(result))
}

/// LXA: (A | 0xEE) & operand goes to A and X.
pub open spec fn lxa_with<B: Bus>(cpu: CPU<B>, mode: Mode) -> (u8, CPU<B>) {
    let (value, _, c) = operand_of(cpu, mode);
    let result = (c.a | 0xEE) & value;
    (0, (CPU { a: result, x: result, ..c }).with_zn(result))
}

fn lda<B: Bus>(cpu: &mut CPU<B>, value: u8)
    ensures
        *final(cpu) == lda_spec(*old(cpu), value),
{
    cpu.a = value;
    proof { lemma_sign_bit(value); }

    cpu.set_flag(Flag::Zero, value == 0);
    cpu.set_flag(Flag::Negative, value & 0x80 != 0);
}

fn ldx<B: Bus>(cpu: &mut CPU<B>, value: u8)
    ensures
        *final(cpu) == ldx_spec(*old(cpu), value),
{
    cpu.x = value;
    proof { lemma_sign_bit(value); }

    cpu.set_flag(Flag::Zero, value == 0);
    cpu.set_flag(Flag::Negative, value & 0x80 != 0);
}

fn ldy<B: Bus>(cpu: &mut CPU<B>, value: u8)
    ensures
        *final(cpu) == ldy_spec(*old(cpu), value),
{
    cpu.y = value;
    proof { lemma_sign_bit(value); }

    cpu.set_flag(Flag::Zero, value == 0);
    cpu.set_flag(Flag::Negative, value & 0x80 != 0);
}

fn lax<B: Bus>(cpu: &mut CPU<B>, value: u8)
    ensures
        *final(cpu) == lax_spec(*old(cpu), value),
{
    cpu.a = value;
    cpu.x = value;
    proof { lemma_sign_bit(value); }

    cpu.set_flag(Flag::Zero, value == 0);
    cpu.set_flag(Flag::Negative, value & 0x80 != 0);
}

pub fn shy_absolutex<B: Bus>(cpu: &mut CPU<B>) -> (extra: u8)
    requires
        operand_fits(*old(cpu), Mode::AbsoluteX),
    ensures
        (extra, *final(cpu)) == store_high_and(*old(cpu), Mode::AbsoluteX, old(cpu).y),
{
    let (addr, _page_crossed) = absolutex(cpu);
    let hi = (addr / 256) as u8;
    let value = cpu.y & hi.wrapping_add(1);
    cpu.write(addr, value);

    0
}

pub fn shx_absolutey<B: Bus>(cpu: &mut CPU<B>) -> (extra: u8)
    requires
        operand_fits(*old(cpu), Mode::AbsoluteY),
    ensures
        (extra, *final(cpu)) == store_high_and(*old(cpu), Mode::AbsoluteY, old(cpu).x),
{
    let (addr, _page_crossed) = absolutey(cpu);
    let hi = (addr / 256) as u8;
    let value = cpu.x & hi.wrapping_add(1);
    cpu.write(addr, value);

    0
}

pub fn ahx_indirecty<B: Bus>(cpu: &mut CPU<B>) -> (extra: u8)
    requires
        operand_fits(*old(cpu), Mode::IndirectY),
    ensures
        (extra, *final(cpu)) == store_high_and(*old(cpu), Mode::IndirectY, old(cpu).a & old(cpu).x),
{
    let (addr, _page_crossed) = indirecty(cpu);
    let hi = (addr / 256) as u8;
    let value = cpu.a & cpu.x & hi.wrapping_add(1);
    proof {
        let (a, x) = (old(cpu).a, old(cpu).x);
        assert(a & x & hi.wrapping_add(1) == (a & x) & hi.wrapping_add(1)) by (bit_vector);
    }
    cpu.write(addr, value);

    0
}

pub fn ahx_absolutey<B: Bus>(cpu: &mut CPU<B>) -> (extra: u8)
    requires
        operand_fits(*old(cpu), Mode::AbsoluteY),
    ensures
        (extra, *final(cpu)) == store_high_and(*old(cpu), Mode::AbsoluteY, old(cpu).a & old(cpu).x),
{
    let (addr, _page_crossed) = absolutey(cpu);
    let hi = (addr / 256) as u8;
    let value = cpu.a & cpu.x & hi.wrapping_add(1);
    cpu.write(addr, value);

    0
}

pub fn las_absolutey<B: Bus>(cpu: &mut CPU<B>) -> (extra: u8)
    requires
        operand_fits(*old(cpu), Mode::AbsoluteY),
    ensures
        (extra, *final(cpu)) == las_with(*old(cpu), Mode::AbsoluteY),
{
    let (addr, page_crossed) = absolutey(cpu);
    let value = cpu.read(addr) & cpu.s;

    cpu.a = value;
    cpu.x = value;
    cpu.s = value;
    proof { lemma_sign_bit(value); }

    cpu.set_flag(Flag::Zero, value == 0);
    cpu.set_flag(Flag::Negative, value & 0x80 != 0);

    if page_crossed { 1 } else { 0 }
}

pub fn lxa_immediate<B: Bus>(cpu: &mut CPU<B>) -> (extra: u8)
    requires
        operand_fits(*old(cpu), Mode::Immediate),
    ensures
        (extra, *final(cpu)) == lxa_with(*old(cpu), Mode::Immediate),
{
    let value = immediate(cpu);
    let result = (cpu.a | 0xEE) & value;

    cpu.a = result;
    cpu.x = result;
    proof { lemma_sign_bit(result); }

    cpu.set_flag(Flag::Zero, result == 0);
    cpu.set_flag(Flag::Negative, result & 0x80 != 0);

    0
}


pub fn lda_immediate<B: Bus>(cpu: &mut CPU<B>) -> (extra: u8)
    requires
        operand_fits(*old(cpu), Mode::Immediate),
    ensures
        (extra, *final(cpu)) == lda_with(*old(cpu), Mode::Immediate),
{
    let value = immediate(cpu);
    lda(cpu, value);

    0
}

pub fn lda_zeropage<B: Bus>(cpu: &mut CPU<B>) -> (extra: u8)
    requires
        operand_fits(*old(cpu), Mode::ZeroPage),
    ensures
        (extra, *final(cpu)) == lda_with(*old(cpu), Mode::ZeroPage),
{
    let addr = zeropage(cpu);
    let value = cpu.read(addr);
    lda(cpu, value);

    0
}

pub fn lda_zeropagex<B: Bus>(cpu: &mut CPU<B>) -> (extra: u8)
    requires
        operand_fits(*old(cpu), Mode::ZeroPageX),
    ensures
        (extra, *final(cpu)) == lda_with(*old(cpu), Mode::ZeroPageX),
{
    let addr = zeropagex(cpu);
    let value = cpu.read(addr);
    lda(cpu, value);

    0
}

pub fn lda_absolute<B: Bus>(cpu: &mut CPU<B>) -> (extra: u8)
    requires
        operand_fits(*old(cpu), Mode::Absolute),
    ensures
        (extra, *final(cpu)) == lda_with(*old(cpu), Mode::Absolute),
{
    let addr = absolute(cpu);
    let value = cpu.read(addr);
    lda(cpu, value);

    0
}

pub fn lda_absolutex<B: Bus>(cpu: &mut CPU<B>) -> (extra: u8)
    requires
        operand_fits(*old(cpu), Mode::AbsoluteX),
    ensures
        (extra, *final(cpu)) == lda_with(*old(cpu), Mode::AbsoluteX),
{
    let (addr, page_crossed) = absolutex(cpu);
    let value = cpu.read(addr);
    lda(cpu, value);

    if page_crossed { 1 } else { 0 }
}

pub fn lda_absolutey<B: Bus>(cpu: &mut CPU<B>) -> (extra: u8)
    requires
        operand_fits(*old(cpu), Mode::AbsoluteY),
    ensures
        (extra, *final(cpu)) == lda_with(*old(cpu), Mode::AbsoluteY),
{
    let (addr, page_crossed) = absolutey(cpu);
    let value = cpu.read(addr);
    lda(cpu, value);

    if page_crossed { 1 } else { 0 }
}

pub fn lda_indirectx<B: Bus>(cpu: &mut CPU<B>) -> (extra: u8)
    requires
        operand_fits(*old(cpu), Mode::IndirectX),
    ensures
        (extra, *final(cpu)) == lda_with(*old(cpu), Mode::IndirectX),
{
    let addr = indirectx(cpu);
    let value = cpu.read(addr);
    lda(cpu, value);

    0
}

pub fn lda_indirecty<B: Bus>(cpu: &mut CPU<B>) -> (extra: u8)
    requires
        operand_fits(*old(cpu), Mode::IndirectY),
    ensures
        (extra, *final(cpu)) == lda_with(*old(cpu), Mode::IndirectY),
{
    let (addr, page_crossed) = indirecty(cpu);
    let value = cpu.read(addr);
    lda(cpu, value);

    if page_crossed { 1 } else { 0 }
}

pub fn ldx_immediate<B: Bus>(cpu: &mut CPU<B>) -> (extra: u8)
    requires
        operand_fits(*old(cpu), Mode::Immediate),
    ensures
        (extra, *final(cpu)) == ldx_with(*old(cpu), Mode::Immediate),
{
    let value = immediate(cpu);
    ldx(cpu, value);

    0
}

pub fn ldx_zeropage<B: Bus>(cpu: &mut CPU<B>) -> (extra: u8)
    requires
        operand_fits(*old(cpu), Mode::ZeroPage),
    ensures
        (extra, *final(cpu)) == ldx_with(*old(cpu), Mode::ZeroPage),
{
    let addr = zeropage(cpu);
    let value = cpu.read(addr);
    ldx(cpu, value);

    0
}

pub fn ldx_zeropagey<B: Bus>(cpu: &mut CPU<B>) -> (extra: u8)
    requires
        operand_fits(*old(cpu), Mode::ZeroPageY),
    ensures
        (extra, *final(cpu)) == ldx_with(*old(cpu), Mode::ZeroPageY),
{
    let addr = zeropagey(cpu);
    let value = cpu.read(addr);
    ldx(cpu, value);

    0
}

pub fn ldx_absolute<B: Bus>(cpu: &mut CPU<B>) -> (extra: u8)
    requires
        operand_fits(*old(cpu), Mode::Absolute),
    ensures
        (extra, *final(cpu)) == ldx_with(*old(cpu), Mode::Absolute),
{
    let addr = absolute(cpu);
    let value = cpu.read(addr);
    ldx(cpu, value);

    0
}

pub fn ldx_absolutey<B: Bus>(cpu: &mut CPU<B>) -> (extra: u8)
    requires
        operand_fits(*old(cpu), Mode::AbsoluteY),
    ensures
        (extra, *final(cpu)) == ldx_with(*old(cpu), Mode::AbsoluteY),
{
    let (addr, page_crossed) = absolutey(cpu);
    let value = cpu.read(addr);
    ldx(cpu, value);

    if page_crossed { 1 } else { 0 }
}

pub fn ldy_immediate<B: Bus>(cpu: &mut CPU<B>) -> (extra: u8)
    requires
        operand_fits(*old(cpu), Mode::Immediate),
    ensures
        (extra, *final(cpu)) == ldy_with(*old(cpu), Mode::Immediate),
{
    let value = immediate(cpu);
    ldy(cpu, value);

    0
}

pub fn ldy_zeropage<B: Bus>(cpu: &mut CPU<B>) -> (extra: u8)
    requires
        operand_fits(*old(cpu), Mode::ZeroPage),
    ensures
        (extra, *final(cpu)) == ldy_with(*old(cpu), Mode::ZeroPage),
{
    let addr = zeropage(cpu);
    let value = cpu.read(addr);
    ldy(cpu, value);

    0
}

pub fn ldy_zeropagex<B: Bus>(cpu: &mut CPU<B>) -> (extra: u8)
    requires
        operand_fits(*old(cpu), Mode::ZeroPageX),
    ensures
        (extra, *final(cpu)) == ldy_with(*old(cpu), Mode::ZeroPageX),
{
    let addr = zeropagex(cpu);
    let value = cpu.read(addr);
    ldy(cpu, value);

    0
}

pub fn ldy_absolute<B: Bus>(cpu: &mut CPU<B>) -> (extra: u8)
    requires
        operand_fits(*old(cpu), Mode::Absolute),
    ensures
        (extra, *final(cpu)) == ldy_with(*old(cpu), Mode::Absolute),
{
    let addr = absolute(cpu);
    let value = cpu.read(addr);
    ldy(cpu, value);

    0
}

pub fn ldy_absolutex<B: Bus>(cpu: &mut CPU<B>) -> (extra: u8)
    requires
        operand_fits(*old(cpu), Mode::AbsoluteX),
    ensures
        (extra, *final(cpu)) == ldy_with(*old(cpu), Mode::AbsoluteX),
{
    let (addr, page_crossed) = absolutex(cpu);
    let value = cpu.read(addr);
    ldy(cpu, value);

    if page_crossed { 1 } else { 0 }
}

pub fn sta_zeropage<B: Bus>(cpu: &mut CPU<B>) -> (extra: u8)
    requires
        operand_fits(*old(cpu), Mode::ZeroPage),
    ensures
        (extra, *final(cpu)) == store_at(*old(cpu), Mode::ZeroPage, old(cpu).a),
{
    let addr = zeropage(cpu);
    let value = cpu.a;
    cpu.write(addr, value);

    0
}

pub fn sta_zeropagex<B: Bus>(cpu: &mut CPU<B>) -> (extra: u8)
    requires
        operand_fits(*old(cpu), Mode::ZeroPageX),
    ensures
        (extra, *final(cpu)) == store_at(*old(cpu), Mode::ZeroPageX, old(cpu).a),
{
    let addr = zeropagex(cpu);
    let value = cpu.a;
    cpu.write(addr, value);

    0
}

pub fn sta_absolute<B: Bus>(cpu: &mut CPU<B>) -> (extra: u8)
    requires
        operand_fits(*old(cpu), Mode::Absolute),
    ensures
        (extra, *final(cpu)) == store_at(*old(cpu), Mode::Absolute, old(cpu).a),
{
    let addr = absolute(cpu);
    let value = cpu.a;
    cpu.write(addr, value);

    0
}

pub fn sta_absolutex<B: Bus>(cpu: &mut CPU<B>) -> (extra: u8)
    requires
        operand_fits(*old(cpu), Mode::AbsoluteX),
    ensures
        (extra, *final(cpu)) == store_at(*old(cpu), Mode::AbsoluteX, old(cpu).a),
{
    let (addr, _page_crossed) = absolutex(cpu);
    let value = cpu.a;
    cpu.write(addr, value);

    0
}

pub fn sta_absolutey<B: Bus>(cpu: &mut CPU<B>) -> (extra: u8)
    requires
        operand_fits(*old(cpu), Mode::AbsoluteY),
    ensures
        (extra, *final(cpu)) == store_at(*old(cpu), Mode::AbsoluteY, old(cpu).a),
{
    let (addr, _page_crossed) = absolutey(cpu);
    let value = cpu.a;
    cpu.write(addr, value);

    0
}

pub fn sta_indirectx<B: Bus>(cpu: &mut CPU<B>) -> (extra: u8)
    requires
        operand_fits(*old(cpu), Mode::IndirectX),
    ensures
        (extra, *final(cpu)) == store_at(*old(cpu), Mode::IndirectX, old(cpu).a),
{
    let addr = indirectx(cpu);
    let value = cpu.a;
    cpu.write(addr, value);

    0
}

pub fn sta_indirecty<B: Bus>(cpu: &mut CPU<B>) -> (extra: u8)
    requires
        operand_fits(*old(cpu), Mode::IndirectY),
    ensures
        (extra, *final(cpu)) == store_at(*old(cpu), Mode::IndirectY, old(cpu).a),
{
    let (addr, _page_crossed) = indirecty(cpu);
    let value = cpu.a;
    cpu.write(addr, value);

    0
}

pub fn stx_zeropage<B: Bus>(cpu: &mut CPU<B>) -> (extra: u8)
    requires
        operand_fits(*old(cpu), Mode::ZeroPage),
    ensures
        (extra, *final(cpu)) == store_at(*old(cpu), Mode::ZeroPage, old(cpu).x),
{
    let addr = zeropage(cpu);
    let value = cpu.x;
    cpu.write(addr, value);

    0
}

pub fn stx_zeropagey<B: Bus>(cpu: &mut CPU<B>) -> (extra: u8)
    requires
        operand_fits(*old(cpu), Mode::ZeroPageY),
    ensures
        (extra, *final(cpu)) == store_at(*old(cpu), Mode::ZeroPageY, old(cpu).x),
{
    let addr = zeropagey(cpu);
    let value = cpu.x;
    cpu.write(addr, value);

    0
}

pub fn stx_absolute<B: Bus>(cpu: &mut CPU<B>) -> (extra: u8)
    requires
        operand_fits(*old(cpu), Mode::Absolute),
    ensures
        (extra, *final(cpu)) == store_at(*old(cpu), Mode::Absolute, old(cpu).x),
{
    let addr = absolute(cpu);
    let value = cpu.x;
    cpu.write(addr, value);

    0
}

pub fn sty_zeropage<B: Bus>(cpu: &mut CPU<B>) -> (extra: u8)
    requires
        operand_fits(*old(cpu), Mode::ZeroPage),
    ensures
        (extra, *final(cpu)) == store_at(*old(cpu), Mode::ZeroPage, old(cpu).y),
{
    let addr = zeropage(cpu);
    let value = cpu.y;
    cpu.write(addr, value);

    0
}

pub fn sty_zeropagex<B: Bus>(cpu: &mut CPU<B>) -> (extra: u8)
    requires
        operand_fits(*old(cpu), Mode::ZeroPageX),
    ensures
        (extra, *final(cpu)) == store_at(*old(cpu), Mode::ZeroPageX, old(cpu).y),
{
    let addr = zeropagex(cpu);
    let value = cpu.y;
    cpu.write(addr, value);

    0
}

pub fn sty_absolute<B: Bus>(cpu: &mut CPU<B>) -> (extra: u8)
    requires
        operand_fits(*old(cpu), Mode::Absolute),
    ensures
        (extra, *final(cpu)) == store_at(*old(cpu), Mode::Absolute, old(cpu).y),
{
    let addr = absolute(cpu);
    let value = cpu.y;
    cpu.write(addr, value);

    0
}

pub fn lax_zeropage<B: Bus>(cpu: &mut CPU<B>) -> (extra: u8)
    requires
        operand_fits(*old(cpu), Mode::ZeroPage),
    ensures
        (extra, *final(cpu)) == lax_with(*old(cpu), Mode::ZeroPage),
{
    let addr = zeropage(cpu);
    let value = cpu.read(addr);
    lax(cpu, value);

    0
}

pub fn lax_zeropagey<B: Bus>(cpu: &mut CPU<B>) -> (extra: u8)
    requires
        operand_fits(*old(cpu), Mode::ZeroPageY),
    ensures
        (extra, *final(cpu)) == lax_with(*old(cpu), Mode::ZeroPageY),
{
    let addr = zeropagey(cpu);
    let value = cpu.read(addr);
    lax(cpu, value);

    0
}

pub fn lax_absolute<B: Bus>(cpu: &mut CPU<B>) -> (extra: u8)
    requires
        operand_fits(*old(cpu), Mode::Absolute),
    ensures
        (extra, *final(cpu)) == lax_with(*old(cpu), Mode::Absolute),
{
    let addr = absolute(cpu);
    let value = cpu.read(addr);
    lax(cpu, value);

    0
}

pub fn lax_absolutey<B: Bus>(cpu: &mut CPU<B>) -> (extra: u8)
    requires
        operand_fits(*old(cpu), Mode::AbsoluteY),
    ensures
        (extra, *final(cpu)) == lax_with(*old(cpu), Mode::AbsoluteY),
{
    let (addr, page_crossed) = absolutey(cpu);
    let value = cpu.read(addr);
    lax(cpu, value);

    if page_crossed { 1 } else { 0 }
}

pub fn lax_indirectx<B: Bus>(cpu: &mut CPU<B>) -> (extra: u8)
    requires
        operand_fits(*old(cpu), Mode::IndirectX),
    ensures
        (extra, *final(cpu)) == lax_with(*old(cpu), Mode::IndirectX),
{
    let addr = indirectx(cpu);
    let value = cpu.read(addr);
    lax(cpu, value);

    0
}

pub fn lax_indirecty<B: Bus>(cpu: &mut CPU<B>) -> (extra: u8)
    requires
        operand_fits(*old(cpu), Mode::IndirectY),
    ensures
        (extra, *final(cpu)) == lax_with(*old(cpu), Mode::IndirectY),
{
    let (addr, page_crossed) = indirecty(cpu);
    let value = cpu.read(addr);
    lax(cpu, value);

    if page_crossed { 1 } else { 0 }
}

pub fn sax_zeropage<B: Bus>(cpu: &mut CPU<B>) -> (extra: u8)
    requires
        operand_fits(*old(cpu), Mode::ZeroPage),
    ensures
        (extra, *final(cpu)) == store_at(*old(cpu), Mode::ZeroPage, old(cpu).a & old(cpu).x),
{
    let addr = zeropage(cpu);
    let value = cpu.a & cpu.x;
    cpu.write(addr, value);

    0
}

pub fn sax_zeropagey<B: Bus>(cpu: &mut CPU<B>) -> (extra: u8)
    requires
        operand_fits(*old(cpu), Mode::ZeroPageY),
    ensures
        (extra, *final(cpu)) == store_at(*old(cpu), Mode::ZeroPageY, old(cpu).a & old(cpu).x),
{
    let addr = zeropagey(cpu);
    let value = cpu.a & cpu.x;
    cpu.write(addr, value);

    0
}

pub fn sax_absolute<B: Bus>(cpu: &mut CPU<B>) -> (extra: u8)
    requires
        operand_fits(*old(cpu), Mode::Absolute),
    ensures
        (extra, *final(cpu)) == store_at(*old(cpu), Mode::Absolute, old(cpu).a & old(cpu).x),
{
    let addr = absolute(cpu);
    let value = cpu.a & cpu.x;
    cpu.write(addr, value);

    0
}

pub fn sax_indirectx<B: Bus>(cpu: &mut CPU<B>) -> (extra: u8)
    requires
        operand_fits(*old(cpu), Mode::IndirectX),
    ensures
        (extra, *final(cpu)) == store_at(*old(cpu), Mode::IndirectX, old(cpu).a & old(cpu).x),
{
    let addr = indirectx(cpu);
    let value = cpu.a & cpu.x;
    cpu.write(addr, value);

    0
}

/// The loads put the byte in their register (LAX in both A and X), leave the
/// other registers, and set zero and negative from it.
pub proof fn lemma_loads<B: Bus>(cpu: CPU<B>, v: u8)
    ensures
        lda_spec(cpu, v).a == v && lda_spec(cpu, v).x == cpu.x && lda_spec(cpu, v).y == cpu.y,
        ldx_spec(cpu, v).x == v && ldx_spec(cpu, v).a == cpu.a && ldx_spec(cpu, v).y == cpu.y,
        ldy_spec(cpu, v).y == v && ldy_spec(cpu, v).a == cpu.a && ldy_spec(cpu, v).x == cpu.x,
        lax_spec(cpu, v).a == v && lax_spec(cpu, v).x == v && lax_spec(cpu, v).y == cpu.y,
        lda_spec(cpu, v).flag(Flag::Zero) == (v == 0) && lda_spec(cpu, v).flag(Flag::Negative) == (v >= 0x80),
        ldx_spec(cpu, v).flag(Flag::Zero) == (v == 0) && ldx_spec(cpu, v).flag(Flag::Negative) == (v >= 0x80),
        ldy_spec(cpu, v).flag(Flag::Zero) == (v == 0) && ldy_spec(cpu, v).flag(Flag::Negative) == (v >= 0x80),
        lda_spec(cpu, v).flag(Flag::Carry) == cpu.flag(Flag::Carry),
{
    lemma_zn_flags(CPU { a: v, ..cpu }, v);
    lemma_zn_flags(CPU { x: v, ..cpu }, v);
    lemma_zn_flags(CPU { y: v, ..cpu }, v);
}

} // verus!
