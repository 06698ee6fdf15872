use vstd::prelude::*;
use crate::cpu::{Bus, CPU, Flag, lemma_sign_bit, lemma_low_bit, lemma_flag_set_get};
use crate::cpu::opcodes::{
    Mode, operand_fits, operand_of, lemma_operand_keeps_registers, address_of, page_penalty, immediate, zeropage, zeropagex,
    absolute, absolutex, absolutey, indirectx, indirecty,
};

verus! {

/// Add with carry: A + value + C. Carry is set when the sum exceeds 0xFF;
/// overflow when both operands have the same sign and the result's sign differs.
pub open spec fn adc_spec<B: Bus>(cpu: CPU<B>, value: u8) -> CPU<B> {
    let carry_in: int = if cpu.flag(Flag::Carry) { 1 } else { 0 };
    let sum = cpu.a + value + carry_in;
    let result = (sum % 256) as u8;
    let overflow = (cpu.a < 0x80) == (value < 0x80) && (result < 0x80) != (cpu.a < 0x80);
    CPU {
        a: result,
        ..cpu.with_flag(Flag::Carry, sum > 0xFF).with_flag(Flag::Zero, result == 0).with_flag(
            Flag::Overflow,
            overflow,
        ).with_flag(Flag::Negative, result >= 0x80)
    }
}

/// ADC on the operand in `mode`, with the page-crossing penalty.
pub open spec fn adc_with<B: Bus>(cpu: CPU<B>, mode: Mode) -> (u8, CPU<B>) {
    let (value, crossed, c) = operand_of(cpu, mode);
    (page_penalty(crossed), adc_spec(c, value))
}

/// Subtract with borrow, A - value - (1 - C): on this CPU it is ADC of the
/// operand's complement (there is no decimal mode).
pub open spec fn sbc_with<B: Bus>(cpu: CPU<B>, mode: Mode) -> (u8, CPU<B>) {
    let (value, crossed, c) = operand_of(cpu, mode);
    (page_penalty(crossed), adc_spec(c, value ^ 0xFF))
}

/// `value - 1`, wrapping, with zero and negative set from it.
pub open spec fn dec_spec<B: Bus>(cpu: CPU<B>, value: u8) -> (u8, CPU<B>) {
    let result = value.wrapping_sub(1);
    (result, cpu.with_zn(result))
}

/// `value + 1`, wrapping, with zero and negative set from it.
pub open spec fn inc_spec<B: Bus>(cpu: CPU<B>, value: u8) -> (u8, CPU<B>) {
    let result = value.wrapping_add(1);
    (result, cpu.with_zn(result))
}

/// DEC on the memory operand in `mode`: read, decrement, write back.
pub open spec fn dec_at<B: Bus>(cpu: CPU<B>, mode: Mode) -> (u8, CPU<B>) {
    let (address, _, c) = address_of(cpu, mode);
    let (result, c2) = dec_spec(c.after_read(address), c.value_at(address));
    (0, c2.after_write(address, result))
}

/// INC on the memory operand in `mode`: read, increment, write back.
pub open spec fn inc_at<B: Bus>(cpu: CPU<B>, mode: Mode) -> (u8, CPU<B>) {
    let (address, _, c) = address_of(cpu, mode);
    let (result, c2) = inc_spec(c.after_read(address), c.value_at(address));
    (0, c2.after_write(address, result))
}

fn adc<B: Bus>(cpu: &mut CPU<B>, value: u8)
    ensures
        *final(cpu) == adc_spec(*old(cpu), value),
{
    let carry_in = cpu.p & 0x01;

    let sum: u16 = cpu.a as u16 + value as u16 + carry_in as u16;
    let result: u8 = (sum % 256) as u8;

    cpu.set_flag(Flag::Carry, sum > 0xFF);

    cpu.set_flag(Flag::Zero, result == 0);

    let a = cpu.a;
    let overflow = (result ^ a) & (result ^ value) & 0x80;
    proof {
        lemma_low_bit(old(cpu).p);
        lemma_sign_bit(result);
        assert((overflow != 0) == ((a < 0x80) == (value < 0x80) && (result < 0x80) != (a < 0x80)))
            by (bit_vector)
            requires
                overflow == (result ^ a) & (result ^ value) & 0x80,
        ;
    }
    cpu.set_flag(Flag::Overflow, overflow != 0);

    cpu.set_flag(Flag::Negative, result & 0x80 != 0);

    cpu.a = result;
}

pub(crate) fn dec<B: Bus>(cpu: &mut CPU<B>, value: u8) -> (result: u8)
    ensures
        (result, *final(cpu)) == dec_spec(*old(cpu), value),
{
    let result = value.wrapping_sub(1);
    proof { lemma_sign_bit(result); }

    cpu.set_flag(Flag::Zero, result == 0);
    cpu.set_flag(Flag::Negative, result & 0b1000_0000 != 0);

    result
}

fn inc<B: Bus>(cpu: &mut CPU<B>, value: u8) -> (result: u8)
    ensures
        (result, *final(cpu)) == inc_spec(*old(cpu), value),
{
    let result = value.wrapping_add(1);
    proof { lemma_sign_bit(result); }

    cpu.set_flag(Flag::Zero, result == 0);
    cpu.set_flag(Flag::Negative, result & 0b1000_0000 != 0);

    result
}

pub fn dex<B: Bus>(cpu: &mut CPU<B>) -> (extra: u8)
    ensures
        extra == 0,
        *final(cpu) == (CPU { x: old(cpu).x.wrapping_sub(1), ..*old(cpu) }).with_zn(
            old(cpu).x.wrapping_sub(1),
        ),
{
    let result = cpu.x.wrapping_sub(1);
    cpu.x = result;
    proof { lemma_sign_bit(result); }

    cpu.set_flag(Flag::Zero, result == 0);
    cpu.set_flag(Flag::Negative, result & 0b1000_0000 != 0);

    0
}

pub fn dey<B: Bus>(cpu: &mut CPU<B>) -> (extra: u8)
    ensures
        extra == 0,
        *final(cpu) == (CPU { y: old(cpu).y.wrapping_sub(1), ..*old(cpu) }).with_zn(
            old(cpu).y.wrapping_sub(1),
        ),
{
    let result = cpu.y.wrapping_sub(1);
    cpu.y = result;
    proof { lemma_sign_bit(result); }

    cpu.set_flag(Flag::Zero, result == 0);
    cpu.set_flag(Flag::Negative, result & 0b1000_0000 != 0);

    0
}

pub fn inx<B: Bus>(cpu: &mut CPU<B>) -> (extra: u8)
    ensures
        extra == 0,
        *final(cpu) == (CPU { x: old(cpu).x.wrapping_add(1), ..*old(cpu) }).with_zn(
            old(cpu).x.wrapping_add(1),
        ),
{
    let result = cpu.x.wrapping_add(1);
    cpu.x = result;
    proof { lemma_sign_bit(result); }

    cpu.set_flag(Flag::Zero, result == 0);
    cpu.set_flag(Flag::Negative, result & 0b1000_0000 != 0);

    0
}

pub fn iny<B: Bus>(cpu: &mut CPU<B>) -> (extra: u8)
    ensures
        extra == 0,
        *final(cpu) == (CPU { y: old(cpu).y.wrapping_add(1), ..*old(cpu) }).with_zn(
            old(cpu).y.wrapping_add(1),
        ),
{
    let result = cpu.y.wrapping_add(1);
    cpu.y = result;
    proof { lemma_sign_bit(result); }

    cpu.set_flag(Flag::Zero, result == 0);
    cpu.set_flag(Flag::Negative, result & 0b1000_0000 != 0);

    0
}


pub fn adc_immediate<B: Bus>(cpu: &mut CPU<B>) -> (extra: u8)
    requires
        operand_fits(*old(cpu), Mode::Immediate),
    ensures
        (extra, *final(cpu)) == adc_with(*old(cpu), Mode::Immediate),
{
    let value = immediate(cpu);
    adc(cpu, value);

    0
}

pub fn adc_zeropage<B: Bus>(cpu: &mut CPU<B>) -> (extra: u8)
    requires
        operand_fits(*old(cpu), Mode::ZeroPage),
    ensures
        (extra, *final(cpu)) == adc_with(*old(cpu), Mode::ZeroPage),
{
    let addr = zeropage(cpu);
    let value = cpu.read(addr);
    adc(cpu, value);

    0
}

pub fn adc_zeropagex<B: Bus>(cpu: &mut CPU<B>) -> (extra: u8)
    requires
        operand_fits(*old(cpu), Mode::ZeroPageX),
    ensures
        (extra, *final(cpu)) == adc_with(*old(cpu), Mode::ZeroPageX),
{
    let addr = zeropagex(cpu);
    let value = cpu.read(addr);
    adc(cpu, value);

    0
}

pub fn adc_absolute<B: Bus>(cpu: &mut CPU<B>) -> (extra: u8)
    requires
        operand_fits(*old(cpu), Mode::Absolute),
    ensures
        (extra, *final(cpu)) == adc_with(*old(cpu), Mode::Absolute),
{
    let addr = absolute(cpu);
    let value = cpu.read(addr);
    adc(cpu, value);

    0
}

pub fn adc_absolutex<B: Bus>(cpu: &mut CPU<B>) -> (extra: u8)
    requires
        operand_fits(*old(cpu), Mode::AbsoluteX),
    ensures
        (extra, *final(cpu)) == adc_with(*old(cpu), Mode::AbsoluteX),
{
    let (addr, page_crossed) = absolutex(cpu);
    let value = cpu.read(addr);
    adc(cpu, value);

    if page_crossed { 1 } else { 0 }
}

pub fn adc_absolutey<B: Bus>(cpu: &mut CPU<B>) -> (extra: u8)
    requires
        operand_fits(*old(cpu), Mode::AbsoluteY),
    ensures
        (extra, *final(cpu)) == adc_with(*old(cpu), Mode::AbsoluteY),
{
    let (addr, page_crossed) = absolutey(cpu);
    let value = cpu.read(addr);
    adc(cpu, value);

    if page_crossed { 1 } else { 0 }
}

pub fn adc_indirectx<B: Bus>(cpu: &mut CPU<B>) -> (extra: u8)
    requires
        operand_fits(*old(cpu), Mode::IndirectX),
    ensures
        (extra, *final(cpu)) == adc_with(*old(cpu), Mode::IndirectX),
{
    let addr = indirectx(cpu);
    let value = cpu.read(addr);
    adc(cpu, value);

    0
}

pub fn adc_indirecty<B: Bus>(cpu: &mut CPU<B>) -> (extra: u8)
    requires
        operand_fits(*old(cpu), Mode::IndirectY),
    ensures
        (extra, *final(cpu)) == adc_with(*old(cpu), Mode::IndirectY),
{
    let (addr, page_crossed) = indirecty(cpu);
    let value = cpu.read(addr);
    adc(cpu, value);

    if page_crossed { 1 } else { 0 }
}

pub fn dec_zeropage<B: Bus>(cpu: &mut CPU<B>) -> (extra: u8)
    requires
        operand_fits(*old(cpu), Mode::ZeroPage),
    ensures
        (extra, *final(cpu)) == dec_at(*old(cpu), Mode::ZeroPage),
{
    let addr = zeropage(cpu);
    let value = cpu.read(addr);
    let result = dec(cpu, value);
    cpu.write(addr, result);

    0
}

pub fn dec_zeropagex<B: Bus>(cpu: &mut CPU<B>) -> (extra: u8)
    requires
        operand_fits(*old(cpu), Mode::ZeroPageX),
    ensures
        (extra, *final(cpu)) == dec_at(*old(cpu), Mode::ZeroPageX),
{
    let addr = zeropagex(cpu);
    let value = cpu.read(addr);
    let result = dec(cpu, value);
    cpu.write(addr, result);

    0
}

pub fn dec_absolute<B: Bus>(cpu: &mut CPU<B>) -> (extra: u8)
    requires
        operand_fits(*old(cpu), Mode::Absolute),
    ensures
        (extra, *final(cpu)) == dec_at(*old(cpu), Mode::Absolute),
{
    let addr = absolute(cpu);
    let value = cpu.read(addr);
    let result = dec(cpu, value);
    cpu.write(addr, result);

    0
}

pub fn dec_absolutex<B: Bus>(cpu: &mut CPU<B>) -> (extra: u8)
    requires
        operand_fits(*old(cpu), Mode::AbsoluteX),
    ensures
        (extra, *final(cpu)) == dec_at(*old(cpu), Mode::AbsoluteX),
{
    let (addr, _page_crossed) = absolutex(cpu);
    let value = cpu.read(addr);
    let result = dec(cpu, value);
    cpu.write(addr, result);

    0
}

pub fn inc_zeropage<B: Bus>(cpu: &mut CPU<B>) -> (extra: u8)
    requires
        operand_fits(*old(cpu), Mode::ZeroPage),
    ensures
        (extra, *final(cpu)) == inc_at(*old(cpu), Mode::ZeroPage),
{
    let addr = zeropage(cpu);
    let value = cpu.read(addr);
    let result = inc(cpu, value);
    cpu.write(addr, result);

    0
}

pub fn inc_zeropagex<B: Bus>(cpu: &mut CPU<B>) -> (extra: u8)
    requires
        operand_fits(*old(cpu), Mode::ZeroPageX),
    ensures
        (extra, *final(cpu)) == inc_at(*old(cpu), Mode::ZeroPageX),
{
    let addr = zeropagex(cpu);
    let value = cpu.read(addr);
    let result = inc(cpu, value);
    cpu.write(addr, result);

    0
}

pub fn inc_absolute<B: Bus>(cpu: &mut CPU<B>) -> (extra: u8)
    requires
        operand_fits(*old(cpu), Mode::Absolute),
    ensures
        (extra, *final(cpu)) == inc_at(*old(cpu), Mode::Absolute),
{
    let addr = absolute(cpu);
    let value = cpu.read(addr);
    let result = inc(cpu, value);
    cpu.write(addr, result);

    0
}

pub fn inc_absolutex<B: Bus>(cpu: &mut CPU<B>) -> (extra: u8)
    requires
        operand_fits(*old(cpu), Mode::AbsoluteX),
    ensures
        (extra, *final(cpu)) == inc_at(*old(cpu), Mode::AbsoluteX),
{
    let (addr, _page_crossed) = absolutex(cpu);
    let value = cpu.read(addr);
    let result = inc(cpu, value);
    cpu.write(addr, result);

    0
}

pub fn sbc_immediate<B: Bus>(cpu: &mut CPU<B>) -> (extra: u8)
    requires
        operand_fits(*old(cpu), Mode::Immediate),
    ensures
        (extra, *final(cpu)) == sbc_with(*old(cpu), Mode::Immediate),
{
    let value = immediate(cpu);
    adc(cpu, value ^ 0xFF);

    0
}

pub fn sbc_zeropage<B: Bus>(cpu: &mut CPU<B>) -> (extra: u8)
    requires
        operand_fits(*old(cpu), Mode::ZeroPage),
    ensures
        (extra, *final(cpu)) == sbc_with(*old(cpu), Mode::ZeroPage),
{
    let addr = zeropage(cpu);
    let value = cpu.read(addr);
    adc(cpu, value ^ 0xFF);

    0
}

pub fn sbc_zeropagex<B: Bus>(cpu: &mut CPU<B>) -> (extra: u8)
    requires
        operand_fits(*old(cpu), Mode::ZeroPageX),
    ensures
        (extra, *final(cpu)) == sbc_with(*old(cpu), Mode::ZeroPageX),
{
    let addr = zeropagex(cpu);
    let value = cpu.read(addr);
    adc(cpu, value ^ 0xFF);

    0
}

pub fn sbc_absolute<B: Bus>(cpu: &mut CPU<B>) -> (extra: u8)
    requires
        operand_fits(*old(cpu), Mode::Absolute),
    ensures
        (extra, *final(cpu)) == sbc_with(*old(cpu), Mode::Absolute),
{
    let addr = absolute(cpu);
    let value = cpu.read(addr);
    adc(cpu, value ^ 0xFF);

    0
}

pub fn sbc_absolutex<B: Bus>(cpu: &mut CPU<B>) -> (extra: u8)
    requires
        operand_fits(*old(cpu), Mode::AbsoluteX),
    ensures
        (extra, *final(cpu)) == sbc_with(*old(cpu), Mode::AbsoluteX),
{
    let (addr, page_crossed) = absolutex(cpu);
    let value = cpu.read(addr);
    adc(cpu, value ^ 0xFF);

    if page_crossed { 1 } else { 0 }
}

pub fn sbc_absolutey<B: Bus>(cpu: &mut CPU<B>) -> (extra: u8)
    requires
        operand_fits(*old(cpu), Mode::AbsoluteY),
    ensures
        (extra, *final(cpu)) == sbc_with(*old(cpu), Mode::AbsoluteY),
{
    let (addr, page_crossed) = absolutey(cpu);
    let value = cpu.read(addr);
    adc(cpu, value ^ 0xFF);

    if page_crossed { 1 } else { 0 }
}

pub fn sbc_indirectx<B: Bus>(cpu: &mut CPU<B>) -> (extra: u8)
    requires
        operand_fits(*old(cpu), Mode::IndirectX),
    ensures
        (extra, *final(cpu)) == sbc_with(*old(cpu), Mode::IndirectX),
{
    let addr = indirectx(cpu);
    let value = cpu.read(addr);
    adc(cpu, value ^ 0xFF);

    0
}

pub fn sbc_indirecty<B: Bus>(cpu: &mut CPU<B>) -> (extra: u8)
    requires
        operand_fits(*old(cpu), Mode::IndirectY),
    ensures
        (extra, *final(cpu)) == sbc_with(*old(cpu), Mode::IndirectY),
{
    let (addr, page_crossed) = indirecty(cpu);
    let value = cpu.read(addr);
    adc(cpu, value ^ 0xFF);

    if page_crossed { 1 } else { 0 }
}

/// A byte read as a two's-complement number.
pub open spec fn signed(b: u8) -> int {
    if b < 0x80 { b as int } else { b - 256 }
}

/// Setting carry, zero, overflow and negative in turn leaves each as set and the
/// other flags alone.
proof fn lemma_czvn<B: Bus>(cpu: CPU<B>, c: bool, z: bool, v: bool, n: bool)
    ensures
        ({
            let q = cpu.with_flag(Flag::Carry, c).with_flag(Flag::Zero, z).with_flag(Flag::Overflow, v).with_flag(
                Flag::Negative,
                n,
            );
            &&& q.flag(Flag::Carry) == c
            &&& q.flag(Flag::Zero) == z
            &&& q.flag(Flag::Overflow) == v
            &&& q.flag(Flag::Negative) == n
            &&& q.flag(Flag::InterruptDisable) == cpu.flag(Flag::InterruptDisable)
            &&& q.flag(Flag::Decimal) == cpu.flag(Flag::Decimal)
        }),
{
    let c1 = cpu.with_flag(Flag::Carry, c);
    let c2 = c1.with_flag(Flag::Zero, z);
    let c3 = c2.with_flag(Flag::Overflow, v);
    lemma_flag_set_get(cpu, Flag::Carry, c, Flag::InterruptDisable);
    lemma_flag_set_get(cpu, Flag::Carry, c, Flag::Decimal);
    lemma_flag_set_get(c1, Flag::Zero, z, Flag::Carry);
    lemma_flag_set_get(c1, Flag::Zero, z, Flag::InterruptDisable);
    lemma_flag_set_get(c1, Flag::Zero, z, Flag::Decimal);
    lemma_flag_set_get(c2, Flag::Overflow, v, Flag::Carry);
    lemma_flag_set_get(c2, Flag::Overflow, v, Flag::Zero);
    lemma_flag_set_get(c2, Flag::Overflow, v, Flag::InterruptDisable);
    lemma_flag_set_get(c2, Flag::Overflow, v, Flag::Decimal);
    lemma_flag_set_get(c3, Flag::Negative, n, Flag::Carry);
    lemma_flag_set_get(c3, Flag::Negative, n, Flag::Zero);
    lemma_flag_set_get(c3, Flag::Negative, n, Flag::Overflow);
    lemma_flag_set_get(c3, Flag::Negative, n, Flag::InterruptDisable);
    lemma_flag_set_get(c3, Flag::Negative, n, Flag::Decimal);
}

/// ADC is binary addition with carry: A becomes the low byte of A + M + C, carry
/// is the ninth bit, zero and negative follow the result, and overflow is set
/// exactly when the signed sum leaves -128..=127, that is when A and M share a
/// sign the result does not have. Nothing but A and those four flags changes.
pub proof fn lemma_adc_adds<B: Bus>(cpu: CPU<B>, m: u8)
    ensures
        ({
            let r = adc_spec(cpu, m);
            let c: int = if cpu.flag(Flag::Carry) { 1 } else { 0 };
            &&& r.a == (cpu.a + m + c) % 256
            &&& r.flag(Flag::Carry) == (cpu.a + m + c > 255)
            &&& r.flag(Flag::Zero) == (r.a == 0)
            &&& r.flag(Flag::Negative) == (r.a >= 0x80)
            &&& r.flag(Flag::Overflow) == !(-128 <= signed(cpu.a) + signed(m) + c <= 127)
            &&& r.flag(Flag::Overflow) == ((cpu.a ^ r.a) & (m ^ r.a) & 0x80 != 0)
            &&& r.flag(Flag::InterruptDisable) == cpu.flag(Flag::InterruptDisable)
            &&& r.flag(Flag::Decimal) == cpu.flag(Flag::Decimal)
            &&& r.x == cpu.x && r.y == cpu.y && r.s == cpu.s && r.pc == cpu.pc && r.bus == cpu.bus
        }),
{
    let c: int = if cpu.flag(Flag::Carry) { 1 } else { 0 };
    let sum = cpu.a + m + c;
    let result = (sum % 256) as u8;
    let overflow = (cpu.a < 0x80) == (m < 0x80) && (result < 0x80) != (cpu.a < 0x80);
    lemma_czvn(cpu, sum > 0xFF, result == 0, overflow, result >= 0x80);
    let a = cpu.a;
    assert(((a ^ result) & (m ^ result) & 0x80 != 0) == ((a < 0x80) == (m < 0x80) && (result < 0x80) != (a
        < 0x80))) by (bit_vector);
}

/// SBC is binary subtraction with borrow: A becomes the low byte of
/// A - M - (1 - C), carry is set exactly when no borrow was needed, and overflow
/// exactly when the signed difference leaves -128..=127.
pub proof fn lemma_sbc_subtracts<B: Bus>(cpu: CPU<B>, mode: Mode)
    ensures
        ({
            let (m, _, c0) = operand_of(cpu, mode);
            let r = sbc_with(cpu, mode).1;
            let borrow: int = if cpu.flag(Flag::Carry) { 0 } else { 1 };
            &&& r.a == (c0.a - m - borrow) % 256
            &&& r.flag(Flag::Carry) == (c0.a - m - borrow >= 0)
            &&& r.flag(Flag::Zero) == (r.a == 0)
            &&& r.flag(Flag::Negative) == (r.a >= 0x80)
            &&& r.flag(Flag::Overflow) == !(-128 <= signed(c0.a) - signed(m) - borrow <= 127)
        }),
{
    let (m, _, c0) = operand_of(cpu, mode);
    lemma_operand_keeps_registers(cpu, mode);
    lemma_adc_adds(c0, m ^ 0xFF);
    assert(m ^ 0xFF == 255 - m) by (bit_vector);
}

/// ADC on the operand in any mode adds that operand as `lemma_adc_adds` says.
pub proof fn lemma_adc_with_adds<B: Bus>(cpu: CPU<B>, mode: Mode)
    ensures
        ({
            let (m, _, c0) = operand_of(cpu, mode);
            adc_with(cpu, mode).1 == adc_spec(c0, m)
                && c0.a == cpu.a && c0.flag(Flag::Carry) == cpu.flag(Flag::Carry)
        }),
{
    lemma_operand_keeps_registers(cpu, mode);
}

/// INC and DEC move a byte one up or down, wrapping between 0xFF and 0x00, and
/// set zero and negative from the new byte; carry and overflow stay.
pub proof fn lemma_inc_dec_step<B: Bus>(cpu: CPU<B>, v: u8)
    ensures
        inc_spec(cpu, v).0 == (v + 1) % 256,
        dec_spec(cpu, v).0 == (v + 255) % 256,
        inc_spec(cpu, v).1.flag(Flag::Zero) == (v == 0xFF),
        dec_spec(cpu, v).1.flag(Flag::Zero) == (v == 1),
        inc_spec(cpu, v).1.flag(Flag::Negative) == ((v + 1) % 256 >= 0x80),
        dec_spec(cpu, v).1.flag(Flag::Negative) == ((v + 255) % 256 >= 0x80),
        inc_spec(cpu, v).1.flag(Flag::Carry) == cpu.flag(Flag::Carry),
        dec_spec(cpu, v).1.flag(Flag::Carry) == cpu.flag(Flag::Carry),
        inc_spec(cpu, v).1.a == cpu.a && dec_spec(cpu, v).1.a == cpu.a,
{
    let up = v.wrapping_add(1);
    let down = v.wrapping_sub(1);
    let u1 = cpu.with_flag(Flag::Zero, up == 0);
    let d1 = cpu.with_flag(Flag::Zero, down == 0);
    lemma_flag_set_get(cpu, Flag::Zero, up == 0, Flag::Carry);
    lemma_flag_set_get(u1, Flag::Negative, up >= 0x80, Flag::Zero);
    lemma_flag_set_get(u1, Flag::Negative, up >= 0x80, Flag::Carry);
    lemma_flag_set_get(cpu, Flag::Zero, down == 0, Flag::Carry);
    lemma_flag_set_get(d1, Flag::Negative, down >= 0x80, Flag::Zero);
    lemma_flag_set_get(d1, Flag::Negative, down >= 0x80, Flag::Carry);
}

} // verus!
