use vstd::prelude::*;
use crate::cpu::{Bus, CPU, Flag, FlatBus, word, stack_address, with_mask};
use crate::cpu::opcodes::{Mode, operand_fits, address_of, absolute};

verus! {

/// BRK: skips the padding byte, pushes the return address (high byte first) and
/// the status with bits 4 and 5 set, disables interrupts and jumps through 0xFFFE.
pub open spec fn brk_spec<B: Bus>(cpu: CPU<B>) -> CPU<B> {
    let pc = (cpu.pc + 1) as u16;
    let c0 = CPU { pc, ..cpu };
    let c1 = c0.pushed((pc / 256) as u8);
    let c2 = c1.pushed((pc % 256) as u8);
    let c3 = c2.pushed(cpu.p | 0b0011_0000);
    let c4 = c3.with_flag(Flag::InterruptDisable, true);
    let (target, c5) = c4.word_at(0xFFFE);
    CPU { pc: target, ..c5 }
}

/// JMP absolute: the program counter takes the operand address.
pub open spec fn jmp_absolute_spec<B: Bus>(cpu: CPU<B>) -> CPU<B> {
    let (target, _, c) = address_of(cpu, Mode::Absolute);
    CPU { pc: target, ..c }
}

/// JMP (indirect): the target is read from the pointer, except that the high byte
/// comes from the start of the same page when the pointer sits on a page's last byte.
pub open spec fn jmp_indirect_spec<B: Bus>(cpu: CPU<B>) -> CPU<B> {
    let (pointer, _, c) = address_of(cpu, Mode::Absolute);
    let lo = c.value_at(pointer);
    let c1 = c.after_read(pointer);
    let high_address: u16 = if pointer % 256 == 0xFF {
        (pointer - 0xFF) as u16
    } else {
        (pointer + 1) as u16
    };
    let hi = c1.value_at(high_address);
    CPU { pc: word(lo, hi), ..c1.after_read(high_address) }
}

/// JSR: pushes the address of the last operand byte (high byte first) and jumps.
pub open spec fn jsr_spec<B: Bus>(cpu: CPU<B>) -> CPU<B> {
    let (target, _, c) = address_of(cpu, Mode::Absolute);
    let return_addr = c.pc.wrapping_sub(1);
    let c1 = c.pushed((return_addr / 256) as u8);
    let c2 = c1.pushed((return_addr % 256) as u8);
    CPU { pc: target, ..c2 }
}

/// RTI: pulls the status (bit 4 cleared, bit 5 set), then the program counter.
pub open spec fn rti_spec<B: Bus>(cpu: CPU<B>) -> CPU<B> {
    let (status, c1) = cpu.pulled();
    let c2 = CPU { p: (status & 0b1110_1111) | 0b0010_0000, ..c1 };
    let (lo, c3) = c2.pulled();
    let (hi, c4) = c3.pulled();
    CPU { pc: word(lo, hi), ..c4 }
}

/// RTS: pulls the program counter and steps past the byte it designates.
pub open spec fn rts_spec<B: Bus>(cpu: CPU<B>) -> CPU<B> {
    let (lo, c1) = cpu.pulled();
    let (hi, c2) = c1.pulled();
    CPU { pc: word(lo, hi).wrapping_add(1), ..c2 }
}

pub fn brk<B: Bus>(cpu: &mut CPU<B>) -> (extra: u8)
    requires
        old(cpu).pc < 0xFFFF,
    ensures
        extra == 0,
        *final(cpu) == brk_spec(*old(cpu)),
{
    cpu.pc = cpu.pc + 1;

    let high = (cpu.pc / 256) as u8;
    cpu.write(0x0100 + cpu.s as u16, high);
    cpu.s = cpu.s.wrapping_sub(1);
    let low = (cpu.pc % 256) as u8;
    cpu.write(0x0100 + cpu.s as u16, low);
    cpu.s = cpu.s.wrapping_sub(1);

    let pushed_flags = cpu.p | 0b0011_0000;
    cpu.write(0x0100 + cpu.s as u16, pushed_flags);
    cpu.s = cpu.s.wrapping_sub(1);

    cpu.set_flag(Flag::InterruptDisable, true);

    let lo = cpu.read(0xFFFE) as u16;
    let hi = cpu.read(0xFFFF) as u16;
    cpu.pc = hi * 256 + lo;

    0
}

pub fn jmp_absolute<B: Bus>(cpu: &mut CPU<B>) -> (extra: u8)
    requires
        operand_fits(*old(cpu), Mode::Absolute),
    ensures
        extra == 0,
        *final(cpu) == jmp_absolute_spec(*old(cpu)),
{
    let addr = absolute(cpu);
    cpu.pc = addr;

    0
}

/// Reproduces the 6502's page-wrap quirk when the pointer ends a page.
pub fn jmp_indirect<B: Bus>(cpu: &mut CPU<B>) -> (extra: u8)
    requires
        operand_fits(*old(cpu), Mode::Absolute),
    ensures
        extra == 0,
        *final(cpu) == jmp_indirect_spec(*old(cpu)),
{
    let addr = absolute(cpu);

    let lo = cpu.read(addr);

    let hi = if addr % 256 == 0x00FF {
        cpu.read(addr - 0x00FF)
    } else {
        cpu.read(addr + 1)
    };

    let target: u16 = (hi as u16) * 256 + (lo as u16);

    cpu.pc = target;

    0
}

pub fn jsr<B: Bus>(cpu: &mut CPU<B>) -> (extra: u8)
    requires
        operand_fits(*old(cpu), Mode::Absolute),
    ensures
        extra == 0,
        *final(cpu) == jsr_spec(*old(cpu)),
{
    let target = absolute(cpu);

    let return_addr = cpu.pc.wrapping_sub(1);
    cpu.write(0x0100 + cpu.s as u16, (return_addr / 256) as u8);
    cpu.s = cpu.s.wrapping_sub(1);
    cpu.write(0x0100 + cpu.s as u16, (return_addr % 256) as u8);
    cpu.s = cpu.s.wrapping_sub(1);

    cpu.pc = target;
    0
}

pub fn rti<B: Bus>(cpu: &mut CPU<B>) -> (extra: u8)
    ensures
        extra == 0,
        *final(cpu) == rti_spec(*old(cpu)),
{
    cpu.s = cpu.s.wrapping_add(1);
    cpu.p = (cpu.read(0x0100 + cpu.s as u16) & 0b1110_1111) | 0b0010_0000;

    cpu.s = cpu.s.wrapping_add(1);
    let lo = cpu.read(0x0100 + cpu.s as u16) as u16;

    cpu.s = cpu.s.wrapping_add(1);
    let hi = cpu.read(0x0100 + cpu.s as u16) as u16;

    cpu.pc = hi * 256 + lo;

    0
}

pub fn rts<B: Bus>(cpu: &mut CPU<B>) -> (extra: u8)
    ensures
        extra == 0,
        *final(cpu) == rts_spec(*old(cpu)),
{
    cpu.s = cpu.s.wrapping_add(1);
    let lo = cpu.read(0x0100 + cpu.s as u16) as u16;

    cpu.s = cpu.s.wrapping_add(1);
    let hi = cpu.read(0x0100 + cpu.s as u16) as u16;

    cpu.pc = (hi * 256 + lo).wrapping_add(1);

    0
}

/// An interrupt followed by RTI returns to where the program was, with the stack
/// pointer back in place and the status restored (B clear, bit 5 set).
pub proof fn lemma_interrupt_then_rti(cpu: CPU<FlatBus>, vector: u16)
    requires
        vector < 0xFFFF,
    ensures
        rti_spec(cpu.interrupted(vector, false)).pc == cpu.pc,
        rti_spec(cpu.interrupted(vector, false)).s == cpu.s,
        rti_spec(cpu.interrupted(vector, false)).p == (cpu.p & 0b1110_1111) | 0b0010_0000,
{
    broadcast use FlatBus::lemma_write, FlatBus::lemma_len;
    let p = cpu.p;
    assert(((with_mask(p | 0b0010_0000, 0b0001_0000, false) & 0b1110_1111) | 0b0010_0000) == (p & 0b1110_1111)
        | 0b0010_0000) by (bit_vector);
    let s = cpu.s;
    assert(stack_address(s) != stack_address(s.wrapping_sub(1)));
    assert(stack_address(s) != stack_address(s.wrapping_sub(1).wrapping_sub(1)));
    assert(stack_address(s.wrapping_sub(1)) != stack_address(s.wrapping_sub(1).wrapping_sub(1)));
}

/// JSR followed by RTS comes back to the instruction after the JSR: the program
/// counter ends past the JSR's two operand bytes, and the stack pointer is back.
pub proof fn lemma_jsr_then_rts(cpu: CPU<FlatBus>)
    requires
        cpu.pc + 2 <= 0xFFFF,
    ensures
        rts_spec(jsr_spec(cpu)).pc == cpu.pc + 2,
        rts_spec(jsr_spec(cpu)).s == cpu.s,
{
    broadcast use FlatBus::lemma_write, FlatBus::lemma_len;
    let s = cpu.s;
    assert(stack_address(s) != stack_address(s.wrapping_sub(1)));
}

} // verus!
