use vstd::prelude::*;
use crate::cpu::{Bus, CPU, Flag};
use crate::cpu::opcodes::{relative, relative_target};

verus! {

/// A relative branch: the offset byte is always consumed; when `taken`, the
/// program counter moves to the target at a cost of one extra cycle, or two when
/// the target lies in another page.
pub open spec fn branch_spec<B: Bus>(cpu: CPU<B>, taken: bool) -> (u8, CPU<B>) {
    let (target, crossed, c) = relative_target(cpu);
    if taken {
        (if crossed { 2 } else { 1 }, CPU { pc: target, ..c })
    } else {
        (0, c)
    }
}

/// Branches when the carry flag is clear.
pub fn bcc<B: Bus>(cpu: &mut CPU<B>) -> (extra: u8)
    requires
        old(cpu).pc < 0xFFFF,
    ensures
        (extra, *final(cpu)) == branch_spec(*old(cpu), !old(cpu).flag(Flag::Carry)),
{
    let value = relative(cpu);
    if cpu.get_flag(Flag::Carry) {
        0
    } else {
        cpu.pc = value.0;
        if value.1 { 2 } else { 1 }
    }
}

/// Branches when the carry flag is set.
pub fn bcs<B: Bus>(cpu: &mut CPU<B>) -> (extra: u8)
    requires
        old(cpu).pc < 0xFFFF,
    ensures
        (extra, *final(cpu)) == branch_spec(*old(cpu), old(cpu).flag(Flag::Carry)),
{
    let value = relative(cpu);
    if !cpu.get_flag(Flag::Carry) {
        0
    } else {
        cpu.pc = value.0;
        if value.1 { 2 } else { 1 }
    }
}

/// Branches when the zero flag is set.
pub fn beq<B: Bus>(cpu: &mut CPU<B>) -> (extra: u8)
    requires
        old(cpu).pc < 0xFFFF,
    ensures
        (extra, *final(cpu)) == branch_spec(*old(cpu), old(cpu).flag(Flag::Zero)),
{
    let value = relative(cpu);
    if !cpu.get_flag(Flag::Zero) {
        0
    } else {
        cpu.pc = value.0;
        if value.1 { 2 } else { 1 }
    }
}

/// Branches when the overflow flag is clear.
pub fn bvc<B: Bus>(cpu: &mut CPU<B>) -> (extra: u8)
    requires
        old(cpu).pc < 0xFFFF,
    ensures
        (extra, *final(cpu)) == branch_spec(*old(cpu), !old(cpu).flag(Flag::Overflow)),
{
    let value = relative(cpu);
    if cpu.get_flag(Flag::Overflow) {
        0
    } else {
        cpu.pc = value.0;
        if value.1 { 2 } else { 1 }
    }
}

/// Branches when the overflow flag is set.
pub fn bvs<B: Bus>(cpu: &mut CPU<B>) -> (extra: u8)
    requires
        old(cpu).pc < 0xFFFF,
    ensures
        (extra, *final(cpu)) == branch_spec(*old(cpu), old(cpu).flag(Flag::Overflow)),
{
    let value = relative(cpu);
    if !cpu.get_flag(Flag::Overflow) {
        0
    } else {
        cpu.pc = value.0;
        if value.1 { 2 } else { 1 }
    }
}

/// Branches when the negative flag is set.
pub fn bmi<B: Bus>(cpu: &mut CPU<B>) -> (extra: u8)
    requires
        old(cpu).pc < 0xFFFF,
    ensures
        (extra, *final(cpu)) == branch_spec(*old(cpu), old(cpu).flag(Flag::Negative)),
{
    let value = relative(cpu);
    if !cpu.get_flag(Flag::Negative) {
        0
    } else {
        cpu.pc = value.0;
        if value.1 { 2 } else { 1 }
    }
}

/// Branches when the zero flag is clear.
pub fn bne<B: Bus>(cpu: &mut CPU<B>) -> (extra: u8)
    requires
        old(cpu).pc < 0xFFFF,
    ensures
        (extra, *final(cpu)) == branch_spec(*old(cpu), !old(cpu).flag(Flag::Zero)),
{
    let value = relative(cpu);
    if cpu.get_flag(Flag::Zero) {
        0
    } else {
        cpu.pc = value.0;
        if value.1 { 2 } else { 1 }
    }
}

/// Branches when the negative flag is clear.
pub fn bpl<B: Bus>(cpu: &mut CPU<B>) -> (extra: u8)
    requires
        old(cpu).pc < 0xFFFF,
    ensures
        (extra, *final(cpu)) == branch_spec(*old(cpu), !old(cpu).flag(Flag::Negative)),
{
    let value = relative(cpu);
    if cpu.get_flag(Flag::Negative) {
        0
    } else {
        cpu.pc = value.0;
        if value.1 { 2 } else { 1 }
    }
}

/// A branch reads its offset byte and steps past it; taken, it adds the offset
/// as a signed number to the address after it, wrapping within 16 bits, for one
/// extra cycle, or two when the target is in another page; not taken, it costs
/// nothing more. Nothing but the program counter (and the bus read) changes.
pub proof fn lemma_branch_moves_pc<B: Bus>(cpu: CPU<B>, taken: bool)
    requires
        cpu.pc < 0xFFFF,
    ensures
        ({
            let offset = cpu.value_at(cpu.pc);
            let next = cpu.pc + 1;
            let signed_offset: int = if offset < 0x80 { offset as int } else { offset - 256 };
            let (extra, r) = branch_spec(cpu, taken);
            &&& taken ==> r.pc == (next + signed_offset + 0x10000) % 0x10000
            &&& taken ==> (extra == 1 || extra == 2)
            &&& !taken ==> r.pc == next && extra == 0
            &&& r.a == cpu.a && r.x == cpu.x && r.y == cpu.y && r.s == cpu.s && r.p == cpu.p
        }),
{
}

} // verus!
