use vstd::prelude::*;
use crate::cpu::{Bus, CPU, Flag, word};
use crate::cpu::ops::access::{lax_absolute, lax_absolutey, lax_indirectx, lax_indirecty, lax_with, lax_zeropage, lax_zeropagey, lda_absolute, lda_absolutex, lda_absolutey, lda_immediate, lda_indirectx, lda_indirecty, lda_with, lda_zeropage, lda_zeropagex, ldx_absolute, ldx_absolutey, ldx_immediate, ldx_with, ldx_zeropage, ldx_zeropagey, ldy_absolute, ldy_absolutex, ldy_immediate, ldy_with, ldy_zeropage, ldy_zeropagex, sax_absolute, sax_indirectx, sax_zeropage, sax_zeropagey, sta_absolute, sta_absolutex, sta_absolutey, sta_indirectx, sta_indirecty, sta_zeropage, sta_zeropagex, stx_absolute, stx_zeropage, stx_zeropagey, sty_absolute, sty_zeropage, sty_zeropagex};
use crate::cpu::ops::arithmetic::{adc_absolute, adc_absolutex, adc_absolutey, adc_immediate, adc_indirectx, adc_indirecty, adc_with, adc_zeropage, adc_zeropagex, dec_absolute, dec_absolutex, dec_at, dec_zeropage, dec_zeropagex, dex, dey, inc_absolute, inc_absolutex, inc_at, inc_zeropage, inc_zeropagex, inx, iny, sbc_absolute, sbc_absolutex, sbc_absolutey, sbc_immediate, sbc_indirectx, sbc_indirecty, sbc_with, sbc_zeropage, sbc_zeropagex};
use crate::cpu::ops::bitwise::{and_absolute, and_absolutex, and_absolutey, and_immediate, and_indirectx, and_indirecty, and_with, and_zeropage, and_zeropagex, bit_absolute, bit_with, bit_zeropage, eor_absolute, eor_absolutex, eor_absolutey, eor_immediate, eor_indirectx, eor_indirecty, eor_with, eor_zeropage, eor_zeropagex, ora_absolute, ora_absolutex, ora_absolutey, ora_immediate, ora_indirectx, ora_indirecty, ora_with, ora_zeropage, ora_zeropagex};
use crate::cpu::ops::branch::{bcc, bcs, beq, bmi, bne, bpl, branch_spec, bvc, bvs};
use crate::cpu::ops::compare::{cmp_absolute, cmp_absolutex, cmp_absolutey, cmp_immediate, cmp_indirectx, cmp_indirecty, cmp_with, cmp_zeropage, cmp_zeropagex, cpx_absolute, cpx_immediate, cpx_with, cpx_zeropage, cpy_absolute, cpy_immediate, cpy_with, cpy_zeropage, dcp_absolute, dcp_absolutex, dcp_absolutey, dcp_at, dcp_indirectx, dcp_indirecty, dcp_zeropage, dcp_zeropagex};
use crate::cpu::ops::flags::{clc, cld, cli, clv, sec, sed, sei};
use crate::cpu::ops::jump::{brk, brk_spec, jmp_absolute, jmp_absolute_spec, jmp_indirect, jmp_indirect_spec, jsr, jsr_spec, rti, rti_spec, rts, rts_spec};
use crate::cpu::ops::other::{nop, nop_absolute, nop_absolutex, nop_immediate, nop_implied, nop_zeropage, nop_zeropagex, skip_with};
use crate::cpu::ops::shift::{asl_absolute, asl_absolutex, asl_accumulator, asl_accumulator_spec, asl_at, asl_zeropage, asl_zeropagex, lsr_absolute, lsr_absolutex, lsr_accumulator, lsr_accumulator_spec, lsr_at, lsr_zeropage, lsr_zeropagex, rla_absolute, rla_absolutex, rla_absolutey, rla_at, rla_indirectx, rla_indirecty, rla_zeropage, rla_zeropagex, rol_absolute, rol_absolutex, rol_accumulator, rol_accumulator_spec, rol_at, rol_zeropage, rol_zeropagex, ror_absolute, ror_absolutex, ror_accumulator, ror_accumulator_spec, ror_at, ror_zeropage, ror_zeropagex, slo_absolute, slo_absolutex, slo_absolutey, slo_at, slo_indirectx, slo_indirecty, slo_zeropage, slo_zeropagex, sre_absolute, sre_absolutex, sre_absolutey, sre_at, sre_indirectx, sre_indirecty, sre_zeropage, sre_zeropagex};
use crate::cpu::ops::stack::{pha, php, pla, pla_spec, plp, plp_spec};
use crate::cpu::ops::transfer::{tax, tay, tsx, txa, txs, tya};

verus! {

/// The ways an instruction names its operand.
pub enum Mode {
    Immediate,
    ZeroPage,
    ZeroPageX,
    ZeroPageY,
    Absolute,
    AbsoluteX,
    AbsoluteY,
    IndirectX,
    IndirectY,
}

/// How many operand bytes follow the opcode in `mode`.
pub open spec fn operand_len(mode: Mode) -> nat {
    match mode {
        Mode::Absolute | Mode::AbsoluteX | Mode::AbsoluteY => 2,
        _ => 1,
    }
}

/// The operand bytes lie below the top of the address space, so fetching them
/// never carries the program counter past 0xFFFF.
pub open spec fn operand_fits<B: Bus>(cpu: CPU<B>, mode: Mode) -> bool {
    cpu.pc + operand_len(mode) <= 0xFFFF
}

/// The high byte of a 16-bit address: the page it lies in.
pub open spec fn page(address: u16) -> int {
    address as int / 256
}

/// The extra cycle an indexed read pays when it crosses into the next page.
pub open spec fn page_penalty(crossed: bool) -> u8 {
    if crossed { 1 } else { 0 }
}

/// The address an operand in `mode` designates, whether indexing crossed a page
/// boundary, and the machine after the operand bytes (and any pointer) were read
/// and the program counter moved past them. In immediate mode the address is that
/// of the operand byte itself, which has not been read yet.
pub open spec fn address_of<B: Bus>(cpu: CPU<B>, mode: Mode) -> (u16, bool, CPU<B>) {
    let pc = cpu.pc;
    let b0 = cpu.value_at(pc);
    let c1 = cpu.after_read(pc);
    match mode {
        Mode::Immediate => (pc, false, CPU { pc: (pc + 1) as u16, ..cpu }),
        Mode::ZeroPage => (b0 as u16, false, CPU { pc: (pc + 1) as u16, ..c1 }),
        Mode::ZeroPageX => (b0.wrapping_add(cpu.x) as u16, false, CPU { pc: (pc + 1) as u16, ..c1 }),
        Mode::ZeroPageY => (b0.wrapping_add(cpu.y) as u16, false, CPU { pc: (pc + 1) as u16, ..c1 }),
        Mode::Absolute | Mode::AbsoluteX | Mode::AbsoluteY => {
            let b1 = c1.value_at((pc + 1) as u16);
            let c2 = CPU { pc: (pc + 2) as u16, ..c1.after_read((pc + 1) as u16) };
            let base = word(b0, b1);
            let index: u16 = match mode {
                Mode::AbsoluteX => cpu.x as u16,
                Mode::AbsoluteY => cpu.y as u16,
                _ => 0,
            };
            let address = base.wrapping_add(index);
            (address, page(address) != page(base), c2)
        },
        Mode::IndirectX => {
            let zp = b0.wrapping_add(cpu.x);
            let c2 = CPU { pc: (pc + 1) as u16, ..c1 };
            let lo = c2.value_at(zp as u16);
            let c3 = c2.after_read(zp as u16);
            let hi = c3.value_at(zp.wrapping_add(1) as u16);
            (word(lo, hi), false, c3.after_read(zp.wrapping_add(1) as u16))
        },
        Mode::IndirectY => {
            let c2 = CPU { pc: (pc + 1) as u16, ..c1 };
            let lo = c2.value_at(b0 as u16);
            let c3 = c2.after_read(b0 as u16);
            let hi = c3.value_at(b0.wrapping_add(1) as u16);
            let c4 = c3.after_read(b0.wrapping_add(1) as u16);
            let base = word(lo, hi);
            let address = base.wrapping_add(cpu.y as u16);
            (address, page(address) != page(base), c4)
        },
    }
}

/// The operand value in `mode`, whether a page was crossed, and the machine after
/// the operand was read.
pub open spec fn operand_of<B: Bus>(cpu: CPU<B>, mode: Mode) -> (u8, bool, CPU<B>) {
    let (address, crossed, c) = address_of(cpu, mode);
    (c.value_at(address), crossed, c.after_read(address))
}

/// Fetching an operand reads memory and moves the program counter only: the
/// registers and the status stay as they were.
pub proof fn lemma_operand_keeps_registers<B: Bus>(cpu: CPU<B>, mode: Mode)
    ensures
        ({
            let c = operand_of(cpu, mode).2;
            c.a == cpu.a && c.x == cpu.x && c.y == cpu.y && c.s == cpu.s && c.p == cpu.p
                && c.cycle_count == cpu.cycle_count
        }),
        ({
            let c = address_of(cpu, mode).2;
            c.a == cpu.a && c.x == cpu.x && c.y == cpu.y && c.s == cpu.s && c.p == cpu.p
                && c.cycle_count == cpu.cycle_count
        }),
{
}

/// The target of a relative branch and the machine after its offset byte was
/// read: the signed offset is added to the address of the next instruction,
/// wrapping within 16 bits, and `crossed` tells whether the target lies in
/// another page than that address.
pub open spec fn relative_target<B: Bus>(cpu: CPU<B>) -> (u16, bool, CPU<B>) {
    let offset = cpu.value_at(cpu.pc);
    let next = (cpu.pc + 1) as u16;
    let target: u16 = if offset < 0x80 {
        next.wrapping_add(offset as u16)
    } else {
        next.wrapping_sub((256 - offset) as u16)
    };
    (target, page(target) != page(next), CPU { pc: next, ..cpu.after_read(cpu.pc) })
}

/// The machine after a store of `value` to the operand address in `mode`.
pub open spec fn store_at<B: Bus>(cpu: CPU<B>, mode: Mode, value: u8) -> (u8, CPU<B>) {
    let (address, _, c) = address_of(cpu, mode);
    (0, c.after_write(address, value))
}

pub fn immediate<B: Bus>(cpu: &mut CPU<B>) -> (value: u8)
    requires
        operand_fits(*old(cpu), Mode::Immediate),
    ensures
        ({
            let (v, _, c) = operand_of(*old(cpu), Mode::Immediate);
            value == v && *final(cpu) == c
        }),
{
    let value = cpu.read(cpu.pc);
    cpu.pc = cpu.pc + 1;

    value
}

pub fn zeropage<B: Bus>(cpu: &mut CPU<B>) -> (address: u16)
    requires
        operand_fits(*old(cpu), Mode::ZeroPage),
    ensures
        ({
            let (a, _, c) = address_of(*old(cpu), Mode::ZeroPage);
            address == a && *final(cpu) == c
        }),
{
    let byte: u8 = cpu.read(cpu.pc);
    cpu.pc = cpu.pc + 1;

    byte as u16
}

pub fn zeropagex<B: Bus>(cpu: &mut CPU<B>) -> (address: u16)
    requires
        operand_fits(*old(cpu), Mode::ZeroPageX),
    ensures
        ({
            let (a, _, c) = address_of(*old(cpu), Mode::ZeroPageX);
            address == a && *final(cpu) == c
        }),
{
    let byte: u8 = cpu.read(cpu.pc);
    cpu.pc = cpu.pc + 1;

    let addr: u8 = byte.wrapping_add(cpu.x);

    addr as u16
}

pub fn zeropagey<B: Bus>(cpu: &mut CPU<B>) -> (address: u16)
    requires
        operand_fits(*old(cpu), Mode::ZeroPageY),
    ensures
        ({
            let (a, _, c) = address_of(*old(cpu), Mode::ZeroPageY);
            address == a && *final(cpu) == c
        }),
{
    let byte: u8 = cpu.read(cpu.pc);
    cpu.pc = cpu.pc + 1;

    let addr: u8 = byte.wrapping_add(cpu.y);

    addr as u16
}

pub fn absolute<B: Bus>(cpu: &mut CPU<B>) -> (address: u16)
    requires
        operand_fits(*old(cpu), Mode::Absolute),
    ensures
        ({
            let (a, _, c) = address_of(*old(cpu), Mode::Absolute);
            address == a && *final(cpu) == c
        }),
{
    let low = cpu.read(cpu.pc);
    cpu.pc = cpu.pc + 1;
    let high = cpu.read(cpu.pc);
    cpu.pc = cpu.pc + 1;
    let addr: u16 = (high as u16) * 256 + (low as u16);

    addr
}

/// Fetches a 16-bit base from the operand bytes and adds `index` to it,
/// reporting whether the sum lies in another page than the base.
fn indexed_absolute<B: Bus>(cpu: &mut CPU<B>, index: u8) -> (r: (u16, bool))
    requires
        old(cpu).pc <= 0xFFFD,
    ensures
        ({
            let pc = old(cpu).pc;
            let lo = old(cpu).value_at(pc);
            let c1 = old(cpu).after_read(pc);
            let hi = c1.value_at((pc + 1) as u16);
            let base = word(lo, hi);
            let address = base.wrapping_add(index as u16);
            &&& r.0 == address
            &&& r.1 == (page(address) != page(base))
            &&& *final(cpu) == (CPU { pc: (pc + 2) as u16, ..c1.after_read((pc + 1) as u16) })
        }),
{
    let lo = cpu.read(cpu.pc) as u16;
    let hi = cpu.read(cpu.pc + 1) as u16;
    cpu.pc = cpu.pc + 2;
    let base: u16 = hi * 256 + lo;

    let addr: u16 = base.wrapping_add(index as u16);

    let page_crossed = addr / 256 != base / 256;

    (addr, page_crossed)
}

pub fn absolutex<B: Bus>(cpu: &mut CPU<B>) -> (r: (u16, bool))
    requires
        operand_fits(*old(cpu), Mode::AbsoluteX),
    ensures
        ({
            let (a, crossed, c) = address_of(*old(cpu), Mode::AbsoluteX);
            r.0 == a && r.1 == crossed && *final(cpu) == c
        }),
{
    let x = cpu.x;
    indexed_absolute(cpu, x)
}

pub fn absolutey<B: Bus>(cpu: &mut CPU<B>) -> (r: (u16, bool))
    requires
        operand_fits(*old(cpu), Mode::AbsoluteY),
    ensures
        ({
            let (a, crossed, c) = address_of(*old(cpu), Mode::AbsoluteY);
            r.0 == a && r.1 == crossed && *final(cpu) == c
        }),
{
    let y = cpu.y;
    indexed_absolute(cpu, y)
}

pub fn indirectx<B: Bus>(cpu: &mut CPU<B>) -> (address: u16)
    requires
        operand_fits(*old(cpu), Mode::IndirectX),
    ensures
        ({
            let (a, _, c) = address_of(*old(cpu), Mode::IndirectX);
            address == a && *final(cpu) == c
        }),
{
    let byte: u8 = cpu.read(cpu.pc);
    cpu.pc = cpu.pc + 1;

    let zp_addr = byte.wrapping_add(cpu.x);

    let lo = cpu.read(zp_addr as u16);
    let hi = cpu.read(zp_addr.wrapping_add(1) as u16);

    let addr: u16 = (hi as u16) * 256 + (lo as u16);

    addr
}

pub fn indirecty<B: Bus>(cpu: &mut CPU<B>) -> (r: (u16, bool))
    requires
        operand_fits(*old(cpu), Mode::IndirectY),
    ensures
        ({
            let (a, crossed, c) = address_of(*old(cpu), Mode::IndirectY);
            r.0 == a && r.1 == crossed && *final(cpu) == c
        }),
{
    let byte = cpu.read(cpu.pc);
    cpu.pc = cpu.pc + 1;

    let lo = cpu.read(byte as u16);
    let hi = cpu.read(byte.wrapping_add(1) as u16);

    let base: u16 = (hi as u16) * 256 + (lo as u16);

    let addr: u16 = base.wrapping_add(cpu.y as u16);

    let page_crossed = addr / 256 != base / 256;

    (addr, page_crossed)
}

pub fn relative<B: Bus>(cpu: &mut CPU<B>) -> (r: (u16, bool))
    requires
        old(cpu).pc < 0xFFFF,
    ensures
        ({
            let (target, crossed, c) = relative_target(*old(cpu));
            r.0 == target && r.1 == crossed && *final(cpu) == c
        }),
{
    let byte: u8 = cpu.read(cpu.pc);
    cpu.pc = cpu.pc + 1;

    let base = cpu.pc;
    let target = if byte < 0x80 {
        base.wrapping_add(byte as u16)
    } else {
        base.wrapping_sub(256 - byte as u16)
    };

    let page_crossed = target / 256 != base / 256;

    (target, page_crossed)
}

/// The instructions the decoder knows: the documented set and the stable
/// undocumented ones (SLO, RLA, SRE, DCP, LAX, SAX and the NOPs that read).
#[derive(Clone, Copy)]
pub enum Instruction {
    AdcImmediate,
    AdcZeropage,
    AdcZeropagex,
    AdcAbsolute,
    AdcAbsolutex,
    AdcAbsolutey,
    AdcIndirectx,
    AdcIndirecty,
    AndImmediate,
    AndZeropage,
    AndZeropagex,
    AndAbsolute,
    AndAbsolutex,
    AndAbsolutey,
    AndIndirectx,
    AndIndirecty,
    AslAccumulator,
    AslZeropage,
    AslZeropagex,
    AslAbsolute,
    AslAbsolutex,
    Bcc,
    Bcs,
    Beq,
    BitZeropage,
    BitAbsolute,
    Bmi,
    Bne,
    Bpl,
    Brk,
    Bvc,
    Bvs,
    Clc,
    Cld,
    Cli,
    Clv,
    CmpImmediate,
    CmpZeropage,
    CmpZeropagex,
    CmpAbsolute,
    CmpAbsolutex,
    CmpAbsolutey,
    CmpIndirectx,
    CmpIndirecty,
    CpxImmediate,
    CpxZeropage,
    CpxAbsolute,
    CpyImmediate,
    CpyZeropage,
    CpyAbsolute,
    DecZeropage,
    DecZeropagex,
    DecAbsolute,
    DecAbsolutex,
    Dex,
    Dey,
    EorImmediate,
    EorZeropage,
    EorZeropagex,
    EorAbsolute,
    EorAbsolutex,
    EorAbsolutey,
    EorIndirectx,
    EorIndirecty,
    IncZeropage,
    IncZeropagex,
    IncAbsolute,
    IncAbsolutex,
    Inx,
    Iny,
    JmpAbsolute,
    JmpIndirect,
    Jsr,
    LdaImmediate,
    LdaZeropage,
    LdaZeropagex,
    LdaAbsolute,
    LdaAbsolutex,
    LdaAbsolutey,
    LdaIndirectx,
    LdaIndirecty,
    LdxImmediate,
    LdxZeropage,
    LdxZeropagey,
    LdxAbsolute,
    LdxAbsolutey,
    LdyImmediate,
    LdyZeropage,
    LdyZeropagex,
    LdyAbsolute,
    LdyAbsolutex,
    LsrAccumulator,
    LsrZeropage,
    LsrZeropagex,
    LsrAbsolute,
    LsrAbsolutex,
    Nop,
    OraImmediate,
    OraZeropage,
    OraZeropagex,
    OraAbsolute,
    OraAbsolutex,
    OraAbsolutey,
    OraIndirectx,
    OraIndirecty,
    Pha,
    Php,
    Pla,
    Plp,
    RolAccumulator,
    RolZeropage,
    RolZeropagex,
    RolAbsolute,
    RolAbsolutex,
    RorAccumulator,
    RorZeropage,
    RorZeropagex,
    RorAbsolute,
    RorAbsolutex,
    SbcImmediate,
    SbcZeropage,
    SbcZeropagex,
    SbcAbsolute,
    SbcAbsolutex,
    SbcAbsolutey,
    SbcIndirectx,
    SbcIndirecty,
    Sec,
    Sed,
    Sei,
    StaZeropage,
    StaZeropagex,
    StaAbsolute,
    StaAbsolutex,
    StaAbsolutey,
    StaIndirectx,
    StaIndirecty,
    StxZeropage,
    StxZeropagey,
    StxAbsolute,
    StyZeropage,
    StyZeropagex,
    StyAbsolute,
    Tax,
    Tay,
    Tsx,
    Txa,
    Txs,
    Tya,
    Rti,
    Rts,
    SloZeropage,
    SloZeropagex,
    SloAbsolute,
    SloAbsolutex,
    SloAbsolutey,
    SloIndirectx,
    SloIndirecty,
    RlaZeropage,
    RlaZeropagex,
    RlaAbsolute,
    RlaAbsolutex,
    RlaAbsolutey,
    RlaIndirectx,
    RlaIndirecty,
    SreZeropage,
    SreZeropagex,
    SreAbsolute,
    SreAbsolutex,
    SreAbsolutey,
    SreIndirectx,
    SreIndirecty,
    DcpZeropage,
    DcpZeropagex,
    DcpAbsolute,
    DcpAbsolutex,
    DcpAbsolutey,
    DcpIndirectx,
    DcpIndirecty,
    LaxZeropage,
    LaxZeropagey,
    LaxAbsolute,
    LaxAbsolutey,
    LaxIndirectx,
    LaxIndirecty,
    SaxZeropage,
    SaxZeropagey,
    SaxAbsolute,
    SaxIndirectx,
    NopImmediate,
    NopZeropage,
    NopZeropagex,
    NopAbsolute,
    NopAbsolutex,
    NopImplied,
}

/// The instruction an opcode stands for and its base cycle count, or `None`
/// for an opcode the decoder does not know.
pub open spec fn decoded(opcode: u8) -> Option<(Instruction, u8)> {
    match opcode {
        0x69 => Some((Instruction::AdcImmediate, 2)),
        0x65 => Some((Instruction::AdcZeropage, 3)),
        0x75 => Some((Instruction::AdcZeropagex, 4)),
        0x6D => Some((Instruction::AdcAbsolute, 4)),
        0x7D => Some((Instruction::AdcAbsolutex, 4)),
        0x79 => Some((Instruction::AdcAbsolutey, 4)),
        0x61 => Some((Instruction::AdcIndirectx, 6)),
        0x71 => Some((Instruction::AdcIndirecty, 5)),
        0x29 => Some((Instruction::AndImmediate, 2)),
        0x25 => Some((Instruction::AndZeropage, 3)),
        0x35 => Some((Instruction::AndZeropagex, 4)),
        0x2D => Some((Instruction::AndAbsolute, 4)),
        0x3D => Some((Instruction::AndAbsolutex, 4)),
        0x39 => Some((Instruction::AndAbsolutey, 4)),
        0x21 => Some((Instruction::AndIndirectx, 6)),
        0x31 => Some((Instruction::AndIndirecty, 5)),
        0x0A => Some((Instruction::AslAccumulator, 2)),
        0x06 => Some((Instruction::AslZeropage, 5)),
        0x16 => Some((Instruction::AslZeropagex, 6)),
        0x0E => Some((Instruction::AslAbsolute, 6)),
        0x1E => Some((Instruction::AslAbsolutex, 7)),
        0x90 => Some((Instruction::Bcc, 2)),
        0xB0 => Some((Instruction::Bcs, 2)),
        0xF0 => Some((Instruction::Beq, 2)),
        0x24 => Some((Instruction::BitZeropage, 3)),
        0x2C => Some((Instruction::BitAbsolute, 4)),
        0x30 => Some((Instruction::Bmi, 2)),
        0xD0 => Some((Instruction::Bne, 2)),
        0x10 => Some((Instruction::Bpl, 2)),
        0x00 => Some((Instruction::Brk, 7)),
        0x50 => Some((Instruction::Bvc, 2)),
        0x70 => Some((Instruction::Bvs, 2)),
        0x18 => Some((Instruction::Clc, 2)),
        0xD8 => Some((Instruction::Cld, 2)),
        0x58 => Some((Instruction::Cli, 2)),
        0xB8 => Some((Instruction::Clv, 2)),
        0xC9 => Some((Instruction::CmpImmediate, 2)),
        0xC5 => Some((Instruction::CmpZeropage, 3)),
        0xD5 => Some((Instruction::CmpZeropagex, 4)),
        0xCD => Some((Instruction::CmpAbsolute, 4)),
        0xDD => Some((Instruction::CmpAbsolutex, 4)),
        0xD9 => Some((Instruction::CmpAbsolutey, 4)),
        0xC1 => Some((Instruction::CmpIndirectx, 6)),
        0xD1 => Some((Instruction::CmpIndirecty, 5)),
        0xE0 => Some((Instruction::CpxImmediate, 2)),
        0xE4 => Some((Instruction::CpxZeropage, 3)),
        0xEC => Some((Instruction::CpxAbsolute, 4)),
        0xC0 => Some((Instruction::CpyImmediate, 2)),
        0xC4 => Some((Instruction::CpyZeropage, 3)),
        0xCC => Some((Instruction::CpyAbsolute, 4)),
        0xC6 => Some((Instruction::DecZeropage, 5)),
        0xD6 => Some((Instruction::DecZeropagex, 6)),
        0xCE => Some((Instruction::DecAbsolute, 6)),
        0xDE => Some((Instruction::DecAbsolutex, 7)),
        0xCA => Some((Instruction::Dex, 2)),
        0x88 => Some((Instruction::Dey, 2)),
        0x49 => Some((Instruction::EorImmediate, 2)),
        0x45 => Some((Instruction::EorZeropage, 3)),
        0x55 => Some((Instruction::EorZeropagex, 4)),
        0x4D => Some((Instruction::EorAbsolute, 4)),
        0x5D => Some((Instruction::EorAbsolutex, 4)),
        0x59 => Some((Instruction::EorAbsolutey, 4)),
        0x41 => Some((Instruction::EorIndirectx, 6)),
        0x51 => Some((Instruction::EorIndirecty, 5)),
        0xE6 => Some((Instruction::IncZeropage, 5)),
        0xF6 => Some((Instruction::IncZeropagex, 6)),
        0xEE => Some((Instruction::IncAbsolute, 6)),
        0xFE => Some((Instruction::IncAbsolutex, 7)),
        0xE8 => Some((Instruction::Inx, 2)),
        0xC8 => Some((Instruction::Iny, 2)),
        0x4C => Some((Instruction::JmpAbsolute, 3)),
        0x6C => Some((Instruction::JmpIndirect, 5)),
        0x20 => Some((Instruction::Jsr, 6)),
        0xA9 => Some((Instruction::LdaImmediate, 2)),
        0xA5 => Some((Instruction::LdaZeropage, 3)),
        0xB5 => Some((Instruction::LdaZeropagex, 4)),
        0xAD => Some((Instruction::LdaAbsolute, 4)),
        0xBD => Some((Instruction::LdaAbsolutex, 4)),
        0xB9 => Some((Instruction::LdaAbsolutey, 4)),
        0xA1 => Some((Instruction::LdaIndirectx, 6)),
        0xB1 => Some((Instruction::LdaIndirecty, 5)),
        0xA2 => Some((Instruction::LdxImmediate, 2)),
        0xA6 => Some((Instruction::LdxZeropage, 3)),
        0xB6 => Some((Instruction::LdxZeropagey, 4)),
        0xAE => Some((Instruction::LdxAbsolute, 4)),
        0xBE => Some((Instruction::LdxAbsolutey, 4)),
        0xA0 => Some((Instruction::LdyImmediate, 2)),
        0xA4 => Some((Instruction::LdyZeropage, 3)),
        0xB4 => Some((Instruction::LdyZeropagex, 4)),
        0xAC => Some((Instruction::LdyAbsolute, 4)),
        0xBC => Some((Instruction::LdyAbsolutex, 4)),
        0x4A => Some((Instruction::LsrAccumulator, 2)),
        0x46 => Some((Instruction::LsrZeropage, 5)),
        0x56 => Some((Instruction::LsrZeropagex, 6)),
        0x4E => Some((Instruction::LsrAbsolute, 6)),
        0x5E => Some((Instruction::LsrAbsolutex, 7)),
        0xEA => Some((Instruction::Nop, 2)),
        0x09 => Some((Instruction::OraImmediate, 2)),
        0x05 => Some((Instruction::OraZeropage, 3)),
        0x15 => Some((Instruction::OraZeropagex, 4)),
        0x0D => Some((Instruction::OraAbsolute, 4)),
        0x1D => Some((Instruction::OraAbsolutex, 4)),
        0x19 => Some((Instruction::OraAbsolutey, 4)),
        0x01 => Some((Instruction::OraIndirectx, 6)),
        0x11 => Some((Instruction::OraIndirecty, 5)),
        0x48 => Some((Instruction::Pha, 3)),
        0x08 => Some((Instruction::Php, 3)),
        0x68 => Some((Instruction::Pla, 4)),
        0x28 => Some((Instruction::Plp, 4)),
        0x2A => Some((Instruction::RolAccumulator, 2)),
        0x26 => Some((Instruction::RolZeropage, 5)),
        0x36 => Some((Instruction::RolZeropagex, 6)),
        0x2E => Some((Instruction::RolAbsolute, 6)),
        0x3E => Some((Instruction::RolAbsolutex, 7)),
        0x6A => Some((Instruction::RorAccumulator, 2)),
        0x66 => Some((Instruction::RorZeropage, 5)),
        0x76 => Some((Instruction::RorZeropagex, 6)),
        0x6E => Some((Instruction::RorAbsolute, 6)),
        0x7E => Some((Instruction::RorAbsolutex, 7)),
        0xE9 => Some((Instruction::SbcImmediate, 2)),
        0xE5 => Some((Instruction::SbcZeropage, 3)),
        0xF5 => Some((Instruction::SbcZeropagex, 4)),
        0xED => Some((Instruction::SbcAbsolute, 4)),
        0xFD => Some((Instruction::SbcAbsolutex, 4)),
        0xF9 => Some((Instruction::SbcAbsolutey, 4)),
        0xE1 => Some((Instruction::SbcIndirectx, 6)),
        0xF1 => Some((Instruction::SbcIndirecty, 5)),
        0x38 => Some((Instruction::Sec, 2)),
        0xF8 => Some((Instruction::Sed, 2)),
        0x78 => Some((Instruction::Sei, 2)),
        0x85 => Some((Instruction::StaZeropage, 3)),
        0x95 => Some((Instruction::StaZeropagex, 4)),
        0x8D => Some((Instruction::StaAbsolute, 4)),
        0x9D => Some((Instruction::StaAbsolutex, 5)),
        0x99 => Some((Instruction::StaAbsolutey, 5)),
        0x81 => Some((Instruction::StaIndirectx, 6)),
        0x91 => Some((Instruction::StaIndirecty, 6)),
        0x86 => Some((Instruction::StxZeropage, 3)),
        0x96 => Some((Instruction::StxZeropagey, 4)),
        0x8E => Some((Instruction::StxAbsolute, 4)),
        0x84 => Some((Instruction::StyZeropage, 3)),
        0x94 => Some((Instruction::StyZeropagex, 4)),
        0x8C => Some((Instruction::StyAbsolute, 4)),
        0xAA => Some((Instruction::Tax, 2)),
        0xA8 => Some((Instruction::Tay, 2)),
        0xBA => Some((Instruction::Tsx, 2)),
        0x8A => Some((Instruction::Txa, 2)),
        0x9A => Some((Instruction::Txs, 2)),
        0x98 => Some((Instruction::Tya, 2)),
        0x40 => Some((Instruction::Rti, 6)),
        0x60 => Some((Instruction::Rts, 6)),
        0x07 => Some((Instruction::SloZeropage, 5)),
        0x17 => Some((Instruction::SloZeropagex, 6)),
        0x0F => Some((Instruction::SloAbsolute, 6)),
        0x1F => Some((Instruction::SloAbsolutex, 7)),
        0x1B => Some((Instruction::SloAbsolutey, 7)),
        0x03 => Some((Instruction::SloIndirectx, 8)),
        0x13 => Some((Instruction::SloIndirecty, 8)),
        0x27 => Some((Instruction::RlaZeropage, 5)),
        0x37 => Some((Instruction::RlaZeropagex, 6)),
        0x2F => Some((Instruction::RlaAbsolute, 6)),
        0x3F => Some((Instruction::RlaAbsolutex, 7)),
        0x3B => Some((Instruction::RlaAbsolutey, 7)),
        0x23 => Some((Instruction::RlaIndirectx, 8)),
        0x33 => Some((Instruction::RlaIndirecty, 8)),
        0x47 => Some((Instruction::SreZeropage, 5)),
        0x57 => Some((Instruction::SreZeropagex, 6)),
        0x4F => Some((Instruction::SreAbsolute, 6)),
        0x5F => Some((Instruction::SreAbsolutex, 7)),
        0x5B => Some((Instruction::SreAbsolutey, 7)),
        0x43 => Some((Instruction::SreIndirectx, 8)),
        0x53 => Some((Instruction::SreIndirecty, 8)),
        0xC7 => Some((Instruction::DcpZeropage, 5)),
        0xD7 => Some((Instruction::DcpZeropagex, 6)),
        0xCF => Some((Instruction::DcpAbsolute, 6)),
        0xDF => Some((Instruction::DcpAbsolutex, 7)),
        0xDB => Some((Instruction::DcpAbsolutey, 7)),
        0xC3 => Some((Instruction::DcpIndirectx, 8)),
        0xD3 => Some((Instruction::DcpIndirecty, 8)),
        0xA7 => Some((Instruction::LaxZeropage, 3)),
        0xB7 => Some((Instruction::LaxZeropagey, 4)),
        0xAF => Some((Instruction::LaxAbsolute, 4)),
        0xBF => Some((Instruction::LaxAbsolutey, 4)),
        0xA3 => Some((Instruction::LaxIndirectx, 6)),
        0xB3 => Some((Instruction::LaxIndirecty, 5)),
        0x87 => Some((Instruction::SaxZeropage, 3)),
        0x97 => Some((Instruction::SaxZeropagey, 4)),
        0x8F => Some((Instruction::SaxAbsolute, 4)),
        0x83 => Some((Instruction::SaxIndirectx, 6)),
        0x80 => Some((Instruction::NopImmediate, 2)),
        0x82 => Some((Instruction::NopImmediate, 2)),
        0x89 => Some((Instruction::NopImmediate, 2)),
        0xC2 => Some((Instruction::NopImmediate, 2)),
        0xE2 => Some((Instruction::NopImmediate, 2)),
        0x04 => Some((Instruction::NopZeropage, 3)),
        0x44 => Some((Instruction::NopZeropage, 3)),
        0x64 => Some((Instruction::NopZeropage, 3)),
        0x14 => Some((Instruction::NopZeropagex, 4)),
        0x34 => Some((Instruction::NopZeropagex, 4)),
        0x54 => Some((Instruction::NopZeropagex, 4)),
        0x74 => Some((Instruction::NopZeropagex, 4)),
        0xD4 => Some((Instruction::NopZeropagex, 4)),
        0xF4 => Some((Instruction::NopZeropagex, 4)),
        0x0C => Some((Instruction::NopAbsolute, 4)),
        0x1C => Some((Instruction::NopAbsolutex, 4)),
        0x3C => Some((Instruction::NopAbsolutex, 4)),
        0x5C => Some((Instruction::NopAbsolutex, 4)),
        0x7C => Some((Instruction::NopAbsolutex, 4)),
        0xDC => Some((Instruction::NopAbsolutex, 4)),
        0xFC => Some((Instruction::NopAbsolutex, 4)),
        0x1A => Some((Instruction::NopImplied, 2)),
        0x3A => Some((Instruction::NopImplied, 2)),
        0x5A => Some((Instruction::NopImplied, 2)),
        0x7A => Some((Instruction::NopImplied, 2)),
        0xDA => Some((Instruction::NopImplied, 2)),
        0xFA => Some((Instruction::NopImplied, 2)),
        0xEB => Some((Instruction::SbcImmediate, 2)),
        _ => None,
    }
}

/// How many operand bytes an instruction fetches after its opcode.
pub open spec fn operand_bytes(instruction: Instruction) -> nat {
    match instruction {
        Instruction::AdcImmediate => 1,
        Instruction::AdcZeropage => 1,
        Instruction::AdcZeropagex => 1,
        Instruction::AdcAbsolute => 2,
        Instruction::AdcAbsolutex => 2,
        Instruction::AdcAbsolutey => 2,
        Instruction::AdcIndirectx => 1,
        Instruction::AdcIndirecty => 1,
        Instruction::AndImmediate => 1,
        Instruction::AndZeropage => 1,
        Instruction::AndZeropagex => 1,
        Instruction::AndAbsolute => 2,
        Instruction::AndAbsolutex => 2,
        Instruction::AndAbsolutey => 2,
        Instruction::AndIndirectx => 1,
        Instruction::AndIndirecty => 1,
        Instruction::AslAccumulator => 0,
        Instruction::AslZeropage => 1,
        Instruction::AslZeropagex => 1,
        Instruction::AslAbsolute => 2,
        Instruction::AslAbsolutex => 2,
        Instruction::Bcc => 1,
        Instruction::Bcs => 1,
        Instruction::Beq => 1,
        Instruction::BitZeropage => 1,
        Instruction::BitAbsolute => 2,
        Instruction::Bmi => 1,
        Instruction::Bne => 1,
        Instruction::Bpl => 1,
        Instruction::Brk => 1,
        Instruction::Bvc => 1,
        Instruction::Bvs => 1,
        Instruction::Clc => 0,
        Instruction::Cld => 0,
        Instruction::Cli => 0,
        Instruction::Clv => 0,
        Instruction::CmpImmediate => 1,
        Instruction::CmpZeropage => 1,
        Instruction::CmpZeropagex => 1,
        Instruction::CmpAbsolute => 2,
        Instruction::CmpAbsolutex => 2,
        Instruction::CmpAbsolutey => 2,
        Instruction::CmpIndirectx => 1,
        Instruction::CmpIndirecty => 1,
        Instruction::CpxImmediate => 1,
        Instruction::CpxZeropage => 1,
        Instruction::CpxAbsolute => 2,
        Instruction::CpyImmediate => 1,
        Instruction::CpyZeropage => 1,
        Instruction::CpyAbsolute => 2,
        Instruction::DecZeropage => 1,
        Instruction::DecZeropagex => 1,
        Instruction::DecAbsolute => 2,
        Instruction::DecAbsolutex => 2,
        Instruction::Dex => 0,
        Instruction::Dey => 0,
        Instruction::EorImmediate => 1,
        Instruction::EorZeropage => 1,
        Instruction::EorZeropagex => 1,
        Instruction::EorAbsolute => 2,
        Instruction::EorAbsolutex => 2,
        Instruction::EorAbsolutey => 2,
        Instruction::EorIndirectx => 1,
        Instruction::EorIndirecty => 1,
        Instruction::IncZeropage => 1,
        Instruction::IncZeropagex => 1,
        Instruction::IncAbsolute => 2,
        Instruction::IncAbsolutex => 2,
        Instruction::Inx => 0,
        Instruction::Iny => 0,
        Instruction::JmpAbsolute => 2,
        Instruction::JmpIndirect => 2,
        Instruction::Jsr => 2,
        Instruction::LdaImmediate => 1,
        Instruction::LdaZeropage => 1,
        Instruction::LdaZeropagex => 1,
        Instruction::LdaAbsolute => 2,
        Instruction::LdaAbsolutex => 2,
        Instruction::LdaAbsolutey => 2,
        Instruction::LdaIndirectx => 1,
        Instruction::LdaIndirecty => 1,
        Instruction::LdxImmediate => 1,
        Instruction::LdxZeropage => 1,
        Instruction::LdxZeropagey => 1,
        Instruction::LdxAbsolute => 2,
        Instruction::LdxAbsolutey => 2,
        Instruction::LdyImmediate => 1,
        Instruction::LdyZeropage => 1,
        Instruction::LdyZeropagex => 1,
        Instruction::LdyAbsolute => 2,
        Instruction::LdyAbsolutex => 2,
        Instruction::LsrAccumulator => 0,
        Instruction::LsrZeropage => 1,
        Instruction::LsrZeropagex => 1,
        Instruction::LsrAbsolute => 2,
        Instruction::LsrAbsolutex => 2,
        Instruction::Nop => 0,
        Instruction::OraImmediate => 1,
        Instruction::OraZeropage => 1,
        Instruction::OraZeropagex => 1,
        Instruction::OraAbsolute => 2,
        Instruction::OraAbsolutex => 2,
        Instruction::OraAbsolutey => 2,
        Instruction::OraIndirectx => 1,
        Instruction::OraIndirecty => 1,
        Instruction::Pha => 0,
        Instruction::Php => 0,
        Instruction::Pla => 0,
        Instruction::Plp => 0,
        Instruction::RolAccumulator => 0,
        Instruction::RolZeropage => 1,
        Instruction::RolZeropagex => 1,
        Instruction::RolAbsolute => 2,
        Instruction::RolAbsolutex => 2,
        Instruction::RorAccumulator => 0,
        Instruction::RorZeropage => 1,
        Instruction::RorZeropagex => 1,
        Instruction::RorAbsolute => 2,
        Instruction::RorAbsolutex => 2,
        Instruction::SbcImmediate => 1,
        Instruction::SbcZeropage => 1,
        Instruction::SbcZeropagex => 1,
        Instruction::SbcAbsolute => 2,
        Instruction::SbcAbsolutex => 2,
        Instruction::SbcAbsolutey => 2,
        Instruction::SbcIndirectx => 1,
        Instruction::SbcIndirecty => 1,
        Instruction::Sec => 0,
        Instruction::Sed => 0,
        Instruction::Sei => 0,
        Instruction::StaZeropage => 1,
        Instruction::StaZeropagex => 1,
        Instruction::StaAbsolute => 2,
        Instruction::StaAbsolutex => 2,
        Instruction::StaAbsolutey => 2,
        Instruction::StaIndirectx => 1,
        Instruction::StaIndirecty => 1,
        Instruction::StxZeropage => 1,
        Instruction::StxZeropagey => 1,
        Instruction::StxAbsolute => 2,
        Instruction::StyZeropage => 1,
        Instruction::StyZeropagex => 1,
        Instruction::StyAbsolute => 2,
        Instruction::Tax => 0,
        Instruction::Tay => 0,
        Instruction::Tsx => 0,
        Instruction::Txa => 0,
        Instruction::Txs => 0,
        Instruction::Tya => 0,
        Instruction::Rti => 0,
        Instruction::Rts => 0,
        Instruction::SloZeropage => 1,
        Instruction::SloZeropagex => 1,
        Instruction::SloAbsolute => 2,
        Instruction::SloAbsolutex => 2,
        Instruction::SloAbsolutey => 2,
        Instruction::SloIndirectx => 1,
        Instruction::SloIndirecty => 1,
        Instruction::RlaZeropage => 1,
        Instruction::RlaZeropagex => 1,
        Instruction::RlaAbsolute => 2,
        Instruction::RlaAbsolutex => 2,
        Instruction::RlaAbsolutey => 2,
        Instruction::RlaIndirectx => 1,
        Instruction::RlaIndirecty => 1,
        Instruction::SreZeropage => 1,
        Instruction::SreZeropagex => 1,
        Instruction::SreAbsolute => 2,
        Instruction::SreAbsolutex => 2,
        Instruction::SreAbsolutey => 2,
        Instruction::SreIndirectx => 1,
        Instruction::SreIndirecty => 1,
        Instruction::DcpZeropage => 1,
        Instruction::DcpZeropagex => 1,
        Instruction::DcpAbsolute => 2,
        Instruction::DcpAbsolutex => 2,
        Instruction::DcpAbsolutey => 2,
        Instruction::DcpIndirectx => 1,
        Instruction::DcpIndirecty => 1,
        Instruction::LaxZeropage => 1,
        Instruction::LaxZeropagey => 1,
        Instruction::LaxAbsolute => 2,
        Instruction::LaxAbsolutey => 2,
        Instruction::LaxIndirectx => 1,
        Instruction::LaxIndirecty => 1,
        Instruction::SaxZeropage => 1,
        Instruction::SaxZeropagey => 1,
        Instruction::SaxAbsolute => 2,
        Instruction::SaxIndirectx => 1,
        Instruction::NopImmediate => 1,
        Instruction::NopZeropage => 1,
        Instruction::NopZeropagex => 1,
        Instruction::NopAbsolute => 2,
        Instruction::NopAbsolutex => 2,
        Instruction::NopImplied => 0,
    }
}

/// What executing `instruction` returns (its extra cycles) and leaves behind.
pub open spec fn execute_spec<B: Bus>(cpu: CPU<B>, instruction: Instruction) -> (u8, CPU<B>) {
    match instruction {
        Instruction::AdcImmediate => adc_with(cpu, Mode::Immediate),
        Instruction::AdcZeropage => adc_with(cpu, Mode::ZeroPage),
        Instruction::AdcZeropagex => adc_with(cpu, Mode::ZeroPageX),
        Instruction::AdcAbsolute => adc_with(cpu, Mode::Absolute),
        Instruction::AdcAbsolutex => adc_with(cpu, Mode::AbsoluteX),
        Instruction::AdcAbsolutey => adc_with(cpu, Mode::AbsoluteY),
        Instruction::AdcIndirectx => adc_with(cpu, Mode::IndirectX),
        Instruction::AdcIndirecty => adc_with(cpu, Mode::IndirectY),
        Instruction::AndImmediate => and_with(cpu, Mode::Immediate),
        Instruction::AndZeropage => and_with(cpu, Mode::ZeroPage),
        Instruction::AndZeropagex => and_with(cpu, Mode::ZeroPageX),
        Instruction::AndAbsolute => and_with(cpu, Mode::Absolute),
        Instruction::AndAbsolutex => and_with(cpu, Mode::AbsoluteX),
        Instruction::AndAbsolutey => and_with(cpu, Mode::AbsoluteY),
        Instruction::AndIndirectx => and_with(cpu, Mode::IndirectX),
        Instruction::AndIndirecty => and_with(cpu, Mode::IndirectY),
        Instruction::AslAccumulator => asl_accumulator_spec(cpu),
        Instruction::AslZeropage => asl_at(cpu, Mode::ZeroPage),
        Instruction::AslZeropagex => asl_at(cpu, Mode::ZeroPageX),
        Instruction::AslAbsolute => asl_at(cpu, Mode::Absolute),
        Instruction::AslAbsolutex => asl_at(cpu, Mode::AbsoluteX),
        Instruction::Bcc => branch_spec(cpu, !cpu.flag(Flag::Carry)),
        Instruction::Bcs => branch_spec(cpu, cpu.flag(Flag::Carry)),
        Instruction::Beq => branch_spec(cpu, cpu.flag(Flag::Zero)),
        Instruction::BitZeropage => bit_with(cpu, Mode::ZeroPage),
        Instruction::BitAbsolute => bit_with(cpu, Mode::Absolute),
        Instruction::Bmi => branch_spec(cpu, cpu.flag(Flag::Negative)),
        Instruction::Bne => branch_spec(cpu, !cpu.flag(Flag::Zero)),
        Instruction::Bpl => branch_spec(cpu, !cpu.flag(Flag::Negative)),
        Instruction::Brk => (0, brk_spec(cpu)),
        Instruction::Bvc => branch_spec(cpu, !cpu.flag(Flag::Overflow)),
        Instruction::Bvs => branch_spec(cpu, cpu.flag(Flag::Overflow)),
        Instruction::Clc => (0, cpu.with_flag(Flag::Carry, false)),
        Instruction::Cld => (0, cpu.with_flag(Flag::Decimal, false)),
        Instruction::Cli => (0, cpu.with_flag(Flag::InterruptDisable, false)),
        Instruction::Clv => (0, cpu.with_flag(Flag::Overflow, false)),
        Instruction::CmpImmediate => cmp_with(cpu, Mode::Immediate),
        Instruction::CmpZeropage => cmp_with(cpu, Mode::ZeroPage),
        Instruction::CmpZeropagex => cmp_with(cpu, Mode::ZeroPageX),
        Instruction::CmpAbsolute => cmp_with(cpu, Mode::Absolute),
        Instruction::CmpAbsolutex => cmp_with(cpu, Mode::AbsoluteX),
        Instruction::CmpAbsolutey => cmp_with(cpu, Mode::AbsoluteY),
        Instruction::CmpIndirectx => cmp_with(cpu, Mode::IndirectX),
        Instruction::CmpIndirecty => cmp_with(cpu, Mode::IndirectY),
        Instruction::CpxImmediate => cpx_with(cpu, Mode::Immediate),
        Instruction::CpxZeropage => cpx_with(cpu, Mode::ZeroPage),
        Instruction::CpxAbsolute => cpx_with(cpu, Mode::Absolute),
        Instruction::CpyImmediate => cpy_with(cpu, Mode::Immediate),
        Instruction::CpyZeropage => cpy_with(cpu, Mode::ZeroPage),
        Instruction::CpyAbsolute => cpy_with(cpu, Mode::Absolute),
        Instruction::DecZeropage => dec_at(cpu, Mode::ZeroPage),
        Instruction::DecZeropagex => dec_at(cpu, Mode::ZeroPageX),
        Instruction::DecAbsolute => dec_at(cpu, Mode::Absolute),
        Instruction::DecAbsolutex => dec_at(cpu, Mode::AbsoluteX),
        Instruction::Dex => (0, (CPU { x: cpu.x.wrapping_sub(1), ..cpu }).with_zn(cpu.x.wrapping_sub(1))),
        Instruction::Dey => (0, (CPU { y: cpu.y.wrapping_sub(1), ..cpu }).with_zn(cpu.y.wrapping_sub(1))),
        Instruction::EorImmediate => eor_with(cpu, Mode::Immediate),
        Instruction::EorZeropage => eor_with(cpu, Mode::ZeroPage),
        Instruction::EorZeropagex => eor_with(cpu, Mode::ZeroPageX),
        Instruction::EorAbsolute => eor_with(cpu, Mode::Absolute),
        Instruction::EorAbsolutex => eor_with(cpu, Mode::AbsoluteX),
        Instruction::EorAbsolutey => eor_with(cpu, Mode::AbsoluteY),
        Instruction::EorIndirectx => eor_with(cpu, Mode::IndirectX),
        Instruction::EorIndirecty => eor_with(cpu, Mode::IndirectY),
        Instruction::IncZeropage => inc_at(cpu, Mode::ZeroPage),
        Instruction::IncZeropagex => inc_at(cpu, Mode::ZeroPageX),
        Instruction::IncAbsolute => inc_at(cpu, Mode::Absolute),
        Instruction::IncAbsolutex => inc_at(cpu, Mode::AbsoluteX),
        Instruction::Inx => (0, (CPU { x: cpu.x.wrapping_add(1), ..cpu }).with_zn(cpu.x.wrapping_add(1))),
        Instruction::Iny => (0, (CPU { y: cpu.y.wrapping_add(1), ..cpu }).with_zn(cpu.y.wrapping_add(1))),
        Instruction::JmpAbsolute => (0, jmp_absolute_spec(cpu)),
        Instruction::JmpIndirect => (0, jmp_indirect_spec(cpu)),
        Instruction::Jsr => (0, jsr_spec(cpu)),
        Instruction::LdaImmediate => lda_with(cpu, Mode::Immediate),
        Instruction::LdaZeropage => lda_with(cpu, Mode::ZeroPage),
        Instruction::LdaZeropagex => lda_with(cpu, Mode::ZeroPageX),
        Instruction::LdaAbsolute => lda_with(cpu, Mode::Absolute),
        Instruction::LdaAbsolutex => lda_with(cpu, Mode::AbsoluteX),
        Instruction::LdaAbsolutey => lda_with(cpu, Mode::AbsoluteY),
        Instruction::LdaIndirectx => lda_with(cpu, Mode::IndirectX),
        Instruction::LdaIndirecty => lda_with(cpu, Mode::IndirectY),
        Instruction::LdxImmediate => ldx_with(cpu, Mode::Immediate),
        Instruction::LdxZeropage => ldx_with(cpu, Mode::ZeroPage),
        Instruction::LdxZeropagey => ldx_with(cpu, Mode::ZeroPageY),
        Instruction::LdxAbsolute => ldx_with(cpu, Mode::Absolute),
        Instruction::LdxAbsolutey => ldx_with(cpu, Mode::AbsoluteY),
        Instruction::LdyImmediate => ldy_with(cpu, Mode::Immediate),
        Instruction::LdyZeropage => ldy_with(cpu, Mode::ZeroPage),
        Instruction::LdyZeropagex => ldy_with(cpu, Mode::ZeroPageX),
        Instruction::LdyAbsolute => ldy_with(cpu, Mode::Absolute),
        Instruction::LdyAbsolutex => ldy_with(cpu, Mode::AbsoluteX),
        Instruction::LsrAccumulator => lsr_accumulator_spec(cpu),
        Instruction::LsrZeropage => lsr_at(cpu, Mode::ZeroPage),
        Instruction::LsrZeropagex => lsr_at(cpu, Mode::ZeroPageX),
        Instruction::LsrAbsolute => lsr_at(cpu, Mode::Absolute),
        Instruction::LsrAbsolutex => lsr_at(cpu, Mode::AbsoluteX),
        Instruction::Nop => (0, cpu),
        Instruction::OraImmediate => ora_with(cpu, Mode::Immediate),
        Instruction::OraZeropage => ora_with(cpu, Mode::ZeroPage),
        Instruction::OraZeropagex => ora_with(cpu, Mode::ZeroPageX),
        Instruction::OraAbsolute => ora_with(cpu, Mode::Absolute),
        Instruction::OraAbsolutex => ora_with(cpu, Mode::AbsoluteX),
        Instruction::OraAbsolutey => ora_with(cpu, Mode::AbsoluteY),
        Instruction::OraIndirectx => ora_with(cpu, Mode::IndirectX),
        Instruction::OraIndirecty => ora_with(cpu, Mode::IndirectY),
        Instruction::Pha => (0, cpu.pushed(cpu.a)),
        Instruction::Php => (0, cpu.pushed(cpu.p | 0b0011_0000)),
        Instruction::Pla => (0, pla_spec(cpu)),
        Instruction::Plp => (0, plp_spec(cpu)),
        Instruction::RolAccumulator => rol_accumulator_spec(cpu),
        Instruction::RolZeropage => rol_at(cpu, Mode::ZeroPage),
        Instruction::RolZeropagex => rol_at(cpu, Mode::ZeroPageX),
        Instruction::RolAbsolute => rol_at(cpu, Mode::Absolute),
        Instruction::RolAbsolutex => rol_at(cpu, Mode::AbsoluteX),
        Instruction::RorAccumulator => ror_accumulator_spec(cpu),
        Instruction::RorZeropage => ror_at(cpu, Mode::ZeroPage),
        Instruction::RorZeropagex => ror_at(cpu, Mode::ZeroPageX),
        Instruction::RorAbsolute => ror_at(cpu, Mode::Absolute),
        Instruction::RorAbsolutex => ror_at(cpu, Mode::AbsoluteX),
        Instruction::SbcImmediate => sbc_with(cpu, Mode::Immediate),
        Instruction::SbcZeropage => sbc_with(cpu, Mode::ZeroPage),
        Instruction::SbcZeropagex => sbc_with(cpu, Mode::ZeroPageX),
        Instruction::SbcAbsolute => sbc_with(cpu, Mode::Absolute),
        Instruction::SbcAbsolutex => sbc_with(cpu, Mode::AbsoluteX),
        Instruction::SbcAbsolutey => sbc_with(cpu, Mode::AbsoluteY),
        Instruction::SbcIndirectx => sbc_with(cpu, Mode::IndirectX),
        Instruction::SbcIndirecty => sbc_with(cpu, Mode::IndirectY),
        Instruction::Sec => (0, cpu.with_flag(Flag::Carry, true)),
        Instruction::Sed => (0, cpu.with_flag(Flag::Decimal, true)),
        Instruction::Sei => (0, cpu.with_flag(Flag::InterruptDisable, true)),
        Instruction::StaZeropage => store_at(cpu, Mode::ZeroPage, cpu.a),
        Instruction::StaZeropagex => store_at(cpu, Mode::ZeroPageX, cpu.a),
        Instruction::StaAbsolute => store_at(cpu, Mode::Absolute, cpu.a),
        Instruction::StaAbsolutex => store_at(cpu, Mode::AbsoluteX, cpu.a),
        Instruction::StaAbsolutey => store_at(cpu, Mode::AbsoluteY, cpu.a),
        Instruction::StaIndirectx => store_at(cpu, Mode::IndirectX, cpu.a),
        Instruction::StaIndirecty => store_at(cpu, Mode::IndirectY, cpu.a),
        Instruction::StxZeropage => store_at(cpu, Mode::ZeroPage, cpu.x),
        Instruction::StxZeropagey => store_at(cpu, Mode::ZeroPageY, cpu.x),
        Instruction::StxAbsolute => store_at(cpu, Mode::Absolute, cpu.x),
        Instruction::StyZeropage => store_at(cpu, Mode::ZeroPage, cpu.y),
        Instruction::StyZeropagex => store_at(cpu, Mode::ZeroPageX, cpu.y),
        Instruction::StyAbsolute => store_at(cpu, Mode::Absolute, cpu.y),
        Instruction::Tax => (0, (CPU { x: cpu.a, ..cpu }).with_zn(cpu.a)),
        Instruction::Tay => (0, (CPU { y: cpu.a, ..cpu }).with_zn(cpu.a)),
        Instruction::Tsx => (0, (CPU { x: cpu.s, ..cpu }).with_zn(cpu.s)),
        Instruction::Txa => (0, (CPU { a: cpu.x, ..cpu }).with_zn(cpu.x)),
        Instruction::Txs => (0, CPU { s: cpu.x, ..cpu }),
        Instruction::Tya => (0, (CPU { a: cpu.y, ..cpu }).with_zn(cpu.y)),
        Instruction::Rti => (0, rti_spec(cpu)),
        Instruction::Rts => (0, rts_spec(cpu)),
        Instruction::SloZeropage => slo_at(cpu, Mode::ZeroPage),
        Instruction::SloZeropagex => slo_at(cpu, Mode::ZeroPageX),
        Instruction::SloAbsolute => slo_at(cpu, Mode::Absolute),
        Instruction::SloAbsolutex => slo_at(cpu, Mode::AbsoluteX),
        Instruction::SloAbsolutey => slo_at(cpu, Mode::AbsoluteY),
        Instruction::SloIndirectx => slo_at(cpu, Mode::IndirectX),
        Instruction::SloIndirecty => slo_at(cpu, Mode::IndirectY),
        Instruction::RlaZeropage => rla_at(cpu, Mode::ZeroPage),
        Instruction::RlaZeropagex => rla_at(cpu, Mode::ZeroPageX),
        Instruction::RlaAbsolute => rla_at(cpu, Mode::Absolute),
        Instruction::RlaAbsolutex => rla_at(cpu, Mode::AbsoluteX),
        Instruction::RlaAbsolutey => rla_at(cpu, Mode::AbsoluteY),
        Instruction::RlaIndirectx => rla_at(cpu, Mode::IndirectX),
        Instruction::RlaIndirecty => rla_at(cpu, Mode::IndirectY),
        Instruction::SreZeropage => sre_at(cpu, Mode::ZeroPage),
        Instruction::SreZeropagex => sre_at(cpu, Mode::ZeroPageX),
        Instruction::SreAbsolute => sre_at(cpu, Mode::Absolute),
        Instruction::SreAbsolutex => sre_at(cpu, Mode::AbsoluteX),
        Instruction::SreAbsolutey => sre_at(cpu, Mode::AbsoluteY),
        Instruction::SreIndirectx => sre_at(cpu, Mode::IndirectX),
        Instruction::SreIndirecty => sre_at(cpu, Mode::IndirectY),
        Instruction::DcpZeropage => dcp_at(cpu, Mode::ZeroPage),
        Instruction::DcpZeropagex => dcp_at(cpu, Mode::ZeroPageX),
        Instruction::DcpAbsolute => dcp_at(cpu, Mode::Absolute),
        Instruction::DcpAbsolutex => dcp_at(cpu, Mode::AbsoluteX),
        Instruction::DcpAbsolutey => dcp_at(cpu, Mode::AbsoluteY),
        Instruction::DcpIndirectx => dcp_at(cpu, Mode::IndirectX),
        Instruction::DcpIndirecty => dcp_at(cpu, Mode::IndirectY),
        Instruction::LaxZeropage => lax_with(cpu, Mode::ZeroPage),
        Instruction::LaxZeropagey => lax_with(cpu, Mode::ZeroPageY),
        Instruction::LaxAbsolute => lax_with(cpu, Mode::Absolute),
        Instruction::LaxAbsolutey => lax_with(cpu, Mode::AbsoluteY),
        Instruction::LaxIndirectx => lax_with(cpu, Mode::IndirectX),
        Instruction::LaxIndirecty => lax_with(cpu, Mode::IndirectY),
        Instruction::SaxZeropage => store_at(cpu, Mode::ZeroPage, cpu.a & cpu.x),
        Instruction::SaxZeropagey => store_at(cpu, Mode::ZeroPageY, cpu.a & cpu.x),
        Instruction::SaxAbsolute => store_at(cpu, Mode::Absolute, cpu.a & cpu.x),
        Instruction::SaxIndirectx => store_at(cpu, Mode::IndirectX, cpu.a & cpu.x),
        Instruction::NopImmediate => skip_with(cpu, Mode::Immediate),
        Instruction::NopZeropage => skip_with(cpu, Mode::ZeroPage),
        Instruction::NopZeropagex => skip_with(cpu, Mode::ZeroPageX),
        Instruction::NopAbsolute => skip_with(cpu, Mode::Absolute),
        Instruction::NopAbsolutex => skip_with(cpu, Mode::AbsoluteX),
        Instruction::NopImplied => (0, cpu),
    }
}

/// Whether the decoder knows `opcode`.
pub fn is_known_opcode(opcode: u8) -> (known: bool)
    ensures
        known == (decoded(opcode) is Some),
{
    matches!(opcode, 0x69 | 0x65 | 0x75 | 0x6D | 0x7D | 0x79 | 0x61 | 0x71 | 0x29 | 0x25 | 0x35 | 0x2D | 0x3D | 0x39 | 0x21 | 0x31 | 0x0A | 0x06 | 0x16 | 0x0E | 0x1E | 0x90 | 0xB0 | 0xF0 | 0x24 | 0x2C | 0x30 | 0xD0 | 0x10 | 0x00 | 0x50 | 0x70 | 0x18 | 0xD8 | 0x58 | 0xB8 | 0xC9 | 0xC5 | 0xD5 | 0xCD | 0xDD | 0xD9 | 0xC1 | 0xD1 | 0xE0 | 0xE4 | 0xEC | 0xC0 | 0xC4 | 0xCC | 0xC6 | 0xD6 | 0xCE | 0xDE | 0xCA | 0x88 | 0x49 | 0x45 | 0x55 | 0x4D | 0x5D | 0x59 | 0x41 | 0x51 | 0xE6 | 0xF6 | 0xEE | 0xFE | 0xE8 | 0xC8 | 0x4C | 0x6C | 0x20 | 0xA9 | 0xA5 | 0xB5 | 0xAD | 0xBD | 0xB9 | 0xA1 | 0xB1 | 0xA2 | 0xA6 | 0xB6 | 0xAE | 0xBE | 0xA0 | 0xA4 | 0xB4 | 0xAC | 0xBC | 0x4A | 0x46 | 0x56 | 0x4E | 0x5E | 0xEA | 0x09 | 0x05 | 0x15 | 0x0D | 0x1D | 0x19 | 0x01 | 0x11 | 0x48 | 0x08 | 0x68 | 0x28 | 0x2A | 0x26 | 0x36 | 0x2E | 0x3E | 0x6A | 0x66 | 0x76 | 0x6E | 0x7E | 0xE9 | 0xE5 | 0xF5 | 0xED | 0xFD | 0xF9 | 0xE1 | 0xF1 | 0x38 | 0xF8 | 0x78 | 0x85 | 0x95 | 0x8D | 0x9D | 0x99 | 0x81 | 0x91 | 0x86 | 0x96 | 0x8E | 0x84 | 0x94 | 0x8C | 0xAA | 0xA8 | 0xBA | 0x8A | 0x9A | 0x98 | 0x40 | 0x60 | 0x07 | 0x17 | 0x0F | 0x1F | 0x1B | 0x03 | 0x13 | 0x27 | 0x37 | 0x2F | 0x3F | 0x3B | 0x23 | 0x33 | 0x47 | 0x57 | 0x4F | 0x5F | 0x5B | 0x43 | 0x53 | 0xC7 | 0xD7 | 0xCF | 0xDF | 0xDB | 0xC3 | 0xD3 | 0xA7 | 0xB7 | 0xAF | 0xBF | 0xA3 | 0xB3 | 0x87 | 0x97 | 0x8F | 0x83 | 0x80 | 0x82 | 0x89 | 0xC2 | 0xE2 | 0x04 | 0x44 | 0x64 | 0x14 | 0x34 | 0x54 | 0x74 | 0xD4 | 0xF4 | 0x0C | 0x1C | 0x3C | 0x5C | 0x7C | 0xDC | 0xFC | 0x1A | 0x3A | 0x5A | 0x7A | 0xDA | 0xFA | 0xEB)
}

/// How many operand bytes `instruction` fetches after its opcode.
pub fn operand_count(instruction: Instruction) -> (count: u16)
    ensures
        count == operand_bytes(instruction),
{
    match instruction {
        Instruction::AdcImmediate => 1,
        Instruction::AdcZeropage => 1,
        Instruction::AdcZeropagex => 1,
        Instruction::AdcAbsolute => 2,
        Instruction::AdcAbsolutex => 2,
        Instruction::AdcAbsolutey => 2,
        Instruction::AdcIndirectx => 1,
        Instruction::AdcIndirecty => 1,
        Instruction::AndImmediate => 1,
        Instruction::AndZeropage => 1,
        Instruction::AndZeropagex => 1,
        Instruction::AndAbsolute => 2,
        Instruction::AndAbsolutex => 2,
        Instruction::AndAbsolutey => 2,
        Instruction::AndIndirectx => 1,
        Instruction::AndIndirecty => 1,
        Instruction::AslAccumulator => 0,
        Instruction::AslZeropage => 1,
        Instruction::AslZeropagex => 1,
        Instruction::AslAbsolute => 2,
        Instruction::AslAbsolutex => 2,
        Instruction::Bcc => 1,
        Instruction::Bcs => 1,
        Instruction::Beq => 1,
        Instruction::BitZeropage => 1,
        Instruction::BitAbsolute => 2,
        Instruction::Bmi => 1,
        Instruction::Bne => 1,
        Instruction::Bpl => 1,
        Instruction::Brk => 1,
        Instruction::Bvc => 1,
        Instruction::Bvs => 1,
        Instruction::Clc => 0,
        Instruction::Cld => 0,
        Instruction::Cli => 0,
        Instruction::Clv => 0,
        Instruction::CmpImmediate => 1,
        Instruction::CmpZeropage => 1,
        Instruction::CmpZeropagex => 1,
        Instruction::CmpAbsolute => 2,
        Instruction::CmpAbsolutex => 2,
        Instruction::CmpAbsolutey => 2,
        Instruction::CmpIndirectx => 1,
        Instruction::CmpIndirecty => 1,
        Instruction::CpxImmediate => 1,
        Instruction::CpxZeropage => 1,
        Instruction::CpxAbsolute => 2,
        Instruction::CpyImmediate => 1,
        Instruction::CpyZeropage => 1,
        Instruction::CpyAbsolute => 2,
        Instruction::DecZeropage => 1,
        Instruction::DecZeropagex => 1,
        Instruction::DecAbsolute => 2,
        Instruction::DecAbsolutex => 2,
        Instruction::Dex => 0,
        Instruction::Dey => 0,
        Instruction::EorImmediate => 1,
        Instruction::EorZeropage => 1,
        Instruction::EorZeropagex => 1,
        Instruction::EorAbsolute => 2,
        Instruction::EorAbsolutex => 2,
        Instruction::EorAbsolutey => 2,
        Instruction::EorIndirectx => 1,
        Instruction::EorIndirecty => 1,
        Instruction::IncZeropage => 1,
        Instruction::IncZeropagex => 1,
        Instruction::IncAbsolute => 2,
        Instruction::IncAbsolutex => 2,
        Instruction::Inx => 0,
        Instruction::Iny => 0,
        Instruction::JmpAbsolute => 2,
        Instruction::JmpIndirect => 2,
        Instruction::Jsr => 2,
        Instruction::LdaImmediate => 1,
        Instruction::LdaZeropage => 1,
        Instruction::LdaZeropagex => 1,
        Instruction::LdaAbsolute => 2,
        Instruction::LdaAbsolutex => 2,
        Instruction::LdaAbsolutey => 2,
        Instruction::LdaIndirectx => 1,
        Instruction::LdaIndirecty => 1,
        Instruction::LdxImmediate => 1,
        Instruction::LdxZeropage => 1,
        Instruction::LdxZeropagey => 1,
        Instruction::LdxAbsolute => 2,
        Instruction::LdxAbsolutey => 2,
        Instruction::LdyImmediate => 1,
        Instruction::LdyZeropage => 1,
        Instruction::LdyZeropagex => 1,
        Instruction::LdyAbsolute => 2,
        Instruction::LdyAbsolutex => 2,
        Instruction::LsrAccumulator => 0,
        Instruction::LsrZeropage => 1,
        Instruction::LsrZeropagex => 1,
        Instruction::LsrAbsolute => 2,
        Instruction::LsrAbsolutex => 2,
        Instruction::Nop => 0,
        Instruction::OraImmediate => 1,
        Instruction::OraZeropage => 1,
        Instruction::OraZeropagex => 1,
        Instruction::OraAbsolute => 2,
        Instruction::OraAbsolutex => 2,
        Instruction::OraAbsolutey => 2,
        Instruction::OraIndirectx => 1,
        Instruction::OraIndirecty => 1,
        Instruction::Pha => 0,
        Instruction::Php => 0,
        Instruction::Pla => 0,
        Instruction::Plp => 0,
        Instruction::RolAccumulator => 0,
        Instruction::RolZeropage => 1,
        Instruction::RolZeropagex => 1,
        Instruction::RolAbsolute => 2,
        Instruction::RolAbsolutex => 2,
        Instruction::RorAccumulator => 0,
        Instruction::RorZeropage => 1,
        Instruction::RorZeropagex => 1,
        Instruction::RorAbsolute => 2,
        Instruction::RorAbsolutex => 2,
        Instruction::SbcImmediate => 1,
        Instruction::SbcZeropage => 1,
        Instruction::SbcZeropagex => 1,
        Instruction::SbcAbsolute => 2,
        Instruction::SbcAbsolutex => 2,
        Instruction::SbcAbsolutey => 2,
        Instruction::SbcIndirectx => 1,
        Instruction::SbcIndirecty => 1,
        Instruction::Sec => 0,
        Instruction::Sed => 0,
        Instruction::Sei => 0,
        Instruction::StaZeropage => 1,
        Instruction::StaZeropagex => 1,
        Instruction::StaAbsolute => 2,
        Instruction::StaAbsolutex => 2,
        Instruction::StaAbsolutey => 2,
        Instruction::StaIndirectx => 1,
        Instruction::StaIndirecty => 1,
        Instruction::StxZeropage => 1,
        Instruction::StxZeropagey => 1,
        Instruction::StxAbsolute => 2,
        Instruction::StyZeropage => 1,
        Instruction::StyZeropagex => 1,
        Instruction::StyAbsolute => 2,
        Instruction::Tax => 0,
        Instruction::Tay => 0,
        Instruction::Tsx => 0,
        Instruction::Txa => 0,
        Instruction::Txs => 0,
        Instruction::Tya => 0,
        Instruction::Rti => 0,
        Instruction::Rts => 0,
        Instruction::SloZeropage => 1,
        Instruction::SloZeropagex => 1,
        Instruction::SloAbsolute => 2,
        Instruction::SloAbsolutex => 2,
        Instruction::SloAbsolutey => 2,
        Instruction::SloIndirectx => 1,
        Instruction::SloIndirecty => 1,
        Instruction::RlaZeropage => 1,
        Instruction::RlaZeropagex => 1,
        Instruction::RlaAbsolute => 2,
        Instruction::RlaAbsolutex => 2,
        Instruction::RlaAbsolutey => 2,
        Instruction::RlaIndirectx => 1,
        Instruction::RlaIndirecty => 1,
        Instruction::SreZeropage => 1,
        Instruction::SreZeropagex => 1,
        Instruction::SreAbsolute => 2,
        Instruction::SreAbsolutex => 2,
        Instruction::SreAbsolutey => 2,
        Instruction::SreIndirectx => 1,
        Instruction::SreIndirecty => 1,
        Instruction::DcpZeropage => 1,
        Instruction::DcpZeropagex => 1,
        Instruction::DcpAbsolute => 2,
        Instruction::DcpAbsolutex => 2,
        Instruction::DcpAbsolutey => 2,
        Instruction::DcpIndirectx => 1,
        Instruction::DcpIndirecty => 1,
        Instruction::LaxZeropage => 1,
        Instruction::LaxZeropagey => 1,
        Instruction::LaxAbsolute => 2,
        Instruction::LaxAbsolutey => 2,
        Instruction::LaxIndirectx => 1,
        Instruction::LaxIndirecty => 1,
        Instruction::SaxZeropage => 1,
        Instruction::SaxZeropagey => 1,
        Instruction::SaxAbsolute => 2,
        Instruction::SaxIndirectx => 1,
        Instruction::NopImmediate => 1,
        Instruction::NopZeropage => 1,
        Instruction::NopZeropagex => 1,
        Instruction::NopAbsolute => 2,
        Instruction::NopAbsolutex => 2,
        Instruction::NopImplied => 0,
    }
}

/// https://www.nesdev.org/wiki/Instruction_reference
pub fn decode(opcode: u8) -> (r: (Instruction, u8))
    requires
        decoded(opcode) is Some,
    ensures
        decoded(opcode) == Some(r),
{
    match opcode {
        0x69 => (Instruction::AdcImmediate, 2),
        0x65 => (Instruction::AdcZeropage, 3),
        0x75 => (Instruction::AdcZeropagex, 4),
        0x6D => (Instruction::AdcAbsolute, 4),
        0x7D => (Instruction::AdcAbsolutex, 4),
        0x79 => (Instruction::AdcAbsolutey, 4),
        0x61 => (Instruction::AdcIndirectx, 6),
        0x71 => (Instruction::AdcIndirecty, 5),
        0x29 => (Instruction::AndImmediate, 2),
        0x25 => (Instruction::AndZeropage, 3),
        0x35 => (Instruction::AndZeropagex, 4),
        0x2D => (Instruction::AndAbsolute, 4),
        0x3D => (Instruction::AndAbsolutex, 4),
        0x39 => (Instruction::AndAbsolutey, 4),
        0x21 => (Instruction::AndIndirectx, 6),
        0x31 => (Instruction::AndIndirecty, 5),
        0x0A => (Instruction::AslAccumulator, 2),
        0x06 => (Instruction::AslZeropage, 5),
        0x16 => (Instruction::AslZeropagex, 6),
        0x0E => (Instruction::AslAbsolute, 6),
        0x1E => (Instruction::AslAbsolutex, 7),
        0x90 => (Instruction::Bcc, 2),
        0xB0 => (Instruction::Bcs, 2),
        0xF0 => (Instruction::Beq, 2),
        0x24 => (Instruction::BitZeropage, 3),
        0x2C => (Instruction::BitAbsolute, 4),
        0x30 => (Instruction::Bmi, 2),
        0xD0 => (Instruction::Bne, 2),
        0x10 => (Instruction::Bpl, 2),
        0x00 => (Instruction::Brk, 7),
        0x50 => (Instruction::Bvc, 2),
        0x70 => (Instruction::Bvs, 2),
        0x18 => (Instruction::Clc, 2),
        0xD8 => (Instruction::Cld, 2),
        0x58 => (Instruction::Cli, 2),
        0xB8 => (Instruction::Clv, 2),
        0xC9 => (Instruction::CmpImmediate, 2),
        0xC5 => (Instruction::CmpZeropage, 3),
        0xD5 => (Instruction::CmpZeropagex, 4),
        0xCD => (Instruction::CmpAbsolute, 4),
        0xDD => (Instruction::CmpAbsolutex, 4),
        0xD9 => (Instruction::CmpAbsolutey, 4),
        0xC1 => (Instruction::CmpIndirectx, 6),
        0xD1 => (Instruction::CmpIndirecty, 5),
        0xE0 => (Instruction::CpxImmediate, 2),
        0xE4 => (Instruction::CpxZeropage, 3),
        0xEC => (Instruction::CpxAbsolute, 4),
        0xC0 => (Instruction::CpyImmediate, 2),
        0xC4 => (Instruction::CpyZeropage, 3),
        0xCC => (Instruction::CpyAbsolute, 4),
        0xC6 => (Instruction::DecZeropage, 5),
        0xD6 => (Instruction::DecZeropagex, 6),
        0xCE => (Instruction::DecAbsolute, 6),
        0xDE => (Instruction::DecAbsolutex, 7),
        0xCA => (Instruction::Dex, 2),
        0x88 => (Instruction::Dey, 2),
        0x49 => (Instruction::EorImmediate, 2),
        0x45 => (Instruction::EorZeropage, 3),
        0x55 => (Instruction::EorZeropagex, 4),
        0x4D => (Instruction::EorAbsolute, 4),
        0x5D => (Instruction::EorAbsolutex, 4),
        0x59 => (Instruction::EorAbsolutey, 4),
        0x41 => (Instruction::EorIndirectx, 6),
        0x51 => (Instruction::EorIndirecty, 5),
        0xE6 => (Instruction::IncZeropage, 5),
        0xF6 => (Instruction::IncZeropagex, 6),
        0xEE => (Instruction::IncAbsolute, 6),
        0xFE => (Instruction::IncAbsolutex, 7),
        0xE8 => (Instruction::Inx, 2),
        0xC8 => (Instruction::Iny, 2),
        0x4C => (Instruction::JmpAbsolute, 3),
        0x6C => (Instruction::JmpIndirect, 5),
        0x20 => (Instruction::Jsr, 6),
        0xA9 => (Instruction::LdaImmediate, 2),
        0xA5 => (Instruction::LdaZeropage, 3),
        0xB5 => (Instruction::LdaZeropagex, 4),
        0xAD => (Instruction::LdaAbsolute, 4),
        0xBD => (Instruction::LdaAbsolutex, 4),
        0xB9 => (Instruction::LdaAbsolutey, 4),
        0xA1 => (Instruction::LdaIndirectx, 6),
        0xB1 => (Instruction::LdaIndirecty, 5),
        0xA2 => (Instruction::LdxImmediate, 2),
        0xA6 => (Instruction::LdxZeropage, 3),
        0xB6 => (Instruction::LdxZeropagey, 4),
        0xAE => (Instruction::LdxAbsolute, 4),
        0xBE => (Instruction::LdxAbsolutey, 4),
        0xA0 => (Instruction::LdyImmediate, 2),
        0xA4 => (Instruction::LdyZeropage, 3),
        0xB4 => (Instruction::LdyZeropagex, 4),
        0xAC => (Instruction::LdyAbsolute, 4),
        0xBC => (Instruction::LdyAbsolutex, 4),
        0x4A => (Instruction::LsrAccumulator, 2),
        0x46 => (Instruction::LsrZeropage, 5),
        0x56 => (Instruction::LsrZeropagex, 6),
        0x4E => (Instruction::LsrAbsolute, 6),
        0x5E => (Instruction::LsrAbsolutex, 7),
        0xEA => (Instruction::Nop, 2),
        0x09 => (Instruction::OraImmediate, 2),
        0x05 => (Instruction::OraZeropage, 3),
        0x15 => (Instruction::OraZeropagex, 4),
        0x0D => (Instruction::OraAbsolute, 4),
        0x1D => (Instruction::OraAbsolutex, 4),
        0x19 => (Instruction::OraAbsolutey, 4),
        0x01 => (Instruction::OraIndirectx, 6),
        0x11 => (Instruction::OraIndirecty, 5),
        0x48 => (Instruction::Pha, 3),
        0x08 => (Instruction::Php, 3),
        0x68 => (Instruction::Pla, 4),
        0x28 => (Instruction::Plp, 4),
        0x2A => (Instruction::RolAccumulator, 2),
        0x26 => (Instruction::RolZeropage, 5),
        0x36 => (Instruction::RolZeropagex, 6),
        0x2E => (Instruction::RolAbsolute, 6),
        0x3E => (Instruction::RolAbsolutex, 7),
        0x6A => (Instruction::RorAccumulator, 2),
        0x66 => (Instruction::RorZeropage, 5),
        0x76 => (Instruction::RorZeropagex, 6),
        0x6E => (Instruction::RorAbsolute, 6),
        0x7E => (Instruction::RorAbsolutex, 7),
        0xE9 => (Instruction::SbcImmediate, 2),
        0xE5 => (Instruction::SbcZeropage, 3),
        0xF5 => (Instruction::SbcZeropagex, 4),
        0xED => (Instruction::SbcAbsolute, 4),
        0xFD => (Instruction::SbcAbsolutex, 4),
        0xF9 => (Instruction::SbcAbsolutey, 4),
        0xE1 => (Instruction::SbcIndirectx, 6),
        0xF1 => (Instruction::SbcIndirecty, 5),
        0x38 => (Instruction::Sec, 2),
        0xF8 => (Instruction::Sed, 2),
        0x78 => (Instruction::Sei, 2),
        0x85 => (Instruction::StaZeropage, 3),
        0x95 => (Instruction::StaZeropagex, 4),
        0x8D => (Instruction::StaAbsolute, 4),
        0x9D => (Instruction::StaAbsolutex, 5),
        0x99 => (Instruction::StaAbsolutey, 5),
        0x81 => (Instruction::StaIndirectx, 6),
        0x91 => (Instruction::StaIndirecty, 6),
        0x86 => (Instruction::StxZeropage, 3),
        0x96 => (Instruction::StxZeropagey, 4),
        0x8E => (Instruction::StxAbsolute, 4),
        0x84 => (Instruction::StyZeropage, 3),
        0x94 => (Instruction::StyZeropagex, 4),
        0x8C => (Instruction::StyAbsolute, 4),
        0xAA => (Instruction::Tax, 2),
        0xA8 => (Instruction::Tay, 2),
        0xBA => (Instruction::Tsx, 2),
        0x8A => (Instruction::Txa, 2),
        0x9A => (Instruction::Txs, 2),
        0x98 => (Instruction::Tya, 2),
        0x40 => (Instruction::Rti, 6),
        0x60 => (Instruction::Rts, 6),
        0x07 => (Instruction::SloZeropage, 5),
        0x17 => (Instruction::SloZeropagex, 6),
        0x0F => (Instruction::SloAbsolute, 6),
        0x1F => (Instruction::SloAbsolutex, 7),
        0x1B => (Instruction::SloAbsolutey, 7),
        0x03 => (Instruction::SloIndirectx, 8),
        0x13 => (Instruction::SloIndirecty, 8),
        0x27 => (Instruction::RlaZeropage, 5),
        0x37 => (Instruction::RlaZeropagex, 6),
        0x2F => (Instruction::RlaAbsolute, 6),
        0x3F => (Instruction::RlaAbsolutex, 7),
        0x3B => (Instruction::RlaAbsolutey, 7),
        0x23 => (Instruction::RlaIndirectx, 8),
        0x33 => (Instruction::RlaIndirecty, 8),
        0x47 => (Instruction::SreZeropage, 5),
        0x57 => (Instruction::SreZeropagex, 6),
        0x4F => (Instruction::SreAbsolute, 6),
        0x5F => (Instruction::SreAbsolutex, 7),
        0x5B => (Instruction::SreAbsolutey, 7),
        0x43 => (Instruction::SreIndirectx, 8),
        0x53 => (Instruction::SreIndirecty, 8),
        0xC7 => (Instruction::DcpZeropage, 5),
        0xD7 => (Instruction::DcpZeropagex, 6),
        0xCF => (Instruction::DcpAbsolute, 6),
        0xDF => (Instruction::DcpAbsolutex, 7),
        0xDB => (Instruction::DcpAbsolutey, 7),
        0xC3 => (Instruction::DcpIndirectx, 8),
        0xD3 => (Instruction::DcpIndirecty, 8),
        0xA7 => (Instruction::LaxZeropage, 3),
        0xB7 => (Instruction::LaxZeropagey, 4),
        0xAF => (Instruction::LaxAbsolute, 4),
        0xBF => (Instruction::LaxAbsolutey, 4),
        0xA3 => (Instruction::LaxIndirectx, 6),
        0xB3 => (Instruction::LaxIndirecty, 5),
        0x87 => (Instruction::SaxZeropage, 3),
        0x97 => (Instruction::SaxZeropagey, 4),
        0x8F => (Instruction::SaxAbsolute, 4),
        0x83 => (Instruction::SaxIndirectx, 6),
        0x80 => (Instruction::NopImmediate, 2),
        0x82 => (Instruction::NopImmediate, 2),
        0x89 => (Instruction::NopImmediate, 2),
        0xC2 => (Instruction::NopImmediate, 2),
        0xE2 => (Instruction::NopImmediate, 2),
        0x04 => (Instruction::NopZeropage, 3),
        0x44 => (Instruction::NopZeropage, 3),
        0x64 => (Instruction::NopZeropage, 3),
        0x14 => (Instruction::NopZeropagex, 4),
        0x34 => (Instruction::NopZeropagex, 4),
        0x54 => (Instruction::NopZeropagex, 4),
        0x74 => (Instruction::NopZeropagex, 4),
        0xD4 => (Instruction::NopZeropagex, 4),
        0xF4 => (Instruction::NopZeropagex, 4),
        0x0C => (Instruction::NopAbsolute, 4),
        0x1C => (Instruction::NopAbsolutex, 4),
        0x3C => (Instruction::NopAbsolutex, 4),
        0x5C => (Instruction::NopAbsolutex, 4),
        0x7C => (Instruction::NopAbsolutex, 4),
        0xDC => (Instruction::NopAbsolutex, 4),
        0xFC => (Instruction::NopAbsolutex, 4),
        0x1A => (Instruction::NopImplied, 2),
        0x3A => (Instruction::NopImplied, 2),
        0x5A => (Instruction::NopImplied, 2),
        0x7A => (Instruction::NopImplied, 2),
        0xDA => (Instruction::NopImplied, 2),
        0xFA => (Instruction::NopImplied, 2),
        0xEB => (Instruction::SbcImmediate, 2),
        _ => (Instruction::Nop, 2),
    }
}

/// Runs one decoded instruction, returning its extra cycles.
pub fn execute<B: Bus>(cpu: &mut CPU<B>, instruction: Instruction) -> (extra: u8)
    requires
        old(cpu).pc + operand_bytes(instruction) <= 0xFFFF,
    ensures
        (extra, *final(cpu)) == execute_spec(*old(cpu), instruction),
{
    match instruction {
        Instruction::AdcImmediate => adc_immediate(cpu),
        Instruction::AdcZeropage => adc_zeropage(cpu),
        Instruction::AdcZeropagex => adc_zeropagex(cpu),
        Instruction::AdcAbsolute => adc_absolute(cpu),
        Instruction::AdcAbsolutex => adc_absolutex(cpu),
        Instruction::AdcAbsolutey => adc_absolutey(cpu),
        Instruction::AdcIndirectx => adc_indirectx(cpu),
        Instruction::AdcIndirecty => adc_indirecty(cpu),
        Instruction::AndImmediate => and_immediate(cpu),
        Instruction::AndZeropage => and_zeropage(cpu),
        Instruction::AndZeropagex => and_zeropagex(cpu),
        Instruction::AndAbsolute => and_absolute(cpu),
        Instruction::AndAbsolutex => and_absolutex(cpu),
        Instruction::AndAbsolutey => and_absolutey(cpu),
        Instruction::AndIndirectx => and_indirectx(cpu),
        Instruction::AndIndirecty => and_indirecty(cpu),
        Instruction::AslAccumulator => asl_accumulator(cpu),
        Instruction::AslZeropage => asl_zeropage(cpu),
        Instruction::AslZeropagex => asl_zeropagex(cpu),
        Instruction::AslAbsolute => asl_absolute(cpu),
        Instruction::AslAbsolutex => asl_absolutex(cpu),
        Instruction::Bcc => bcc(cpu),
        Instruction::Bcs => bcs(cpu),
        Instruction::Beq => beq(cpu),
        Instruction::BitZeropage => bit_zeropage(cpu),
        Instruction::BitAbsolute => bit_absolute(cpu),
        Instruction::Bmi => bmi(cpu),
        Instruction::Bne => bne(cpu),
        Instruction::Bpl => bpl(cpu),
        Instruction::Brk => brk(cpu),
        Instruction::Bvc => bvc(cpu),
        Instruction::Bvs => bvs(cpu),
        Instruction::Clc => clc(cpu),
        Instruction::Cld => cld(cpu),
        Instruction::Cli => cli(cpu),
        Instruction::Clv => clv(cpu),
        Instruction::CmpImmediate => cmp_immediate(cpu),
        Instruction::CmpZeropage => cmp_zeropage(cpu),
        Instruction::CmpZeropagex => cmp_zeropagex(cpu),
        Instruction::CmpAbsolute => cmp_absolute(cpu),
        Instruction::CmpAbsolutex => cmp_absolutex(cpu),
        Instruction::CmpAbsolutey => cmp_absolutey(cpu),
        Instruction::CmpIndirectx => cmp_indirectx(cpu),
        Instruction::CmpIndirecty => cmp_indirecty(cpu),
        Instruction::CpxImmediate => cpx_immediate(cpu),
        Instruction::CpxZeropage => cpx_zeropage(cpu),
        Instruction::CpxAbsolute => cpx_absolute(cpu),
        Instruction::CpyImmediate => cpy_immediate(cpu),
        Instruction::CpyZeropage => cpy_zeropage(cpu),
        Instruction::CpyAbsolute => cpy_absolute(cpu),
        Instruction::DecZeropage => dec_zeropage(cpu),
        Instruction::DecZeropagex => dec_zeropagex(cpu),
        Instruction::DecAbsolute => dec_absolute(cpu),
        Instruction::DecAbsolutex => dec_absolutex(cpu),
        Instruction::Dex => dex(cpu),
        Instruction::Dey => dey(cpu),
        Instruction::EorImmediate => eor_immediate(cpu),
        Instruction::EorZeropage => eor_zeropage(cpu),
        Instruction::EorZeropagex => eor_zeropagex(cpu),
        Instruction::EorAbsolute => eor_absolute(cpu),
        Instruction::EorAbsolutex => eor_absolutex(cpu),
        Instruction::EorAbsolutey => eor_absolutey(cpu),
        Instruction::EorIndirectx => eor_indirectx(cpu),
        Instruction::EorIndirecty => eor_indirecty(cpu),
        Instruction::IncZeropage => inc_zeropage(cpu),
        Instruction::IncZeropagex => inc_zeropagex(cpu),
        Instruction::IncAbsolute => inc_absolute(cpu),
        Instruction::IncAbsolutex => inc_absolutex(cpu),
        Instruction::Inx => inx(cpu),
        Instruction::Iny => iny(cpu),
        Instruction::JmpAbsolute => jmp_absolute(cpu),
        Instruction::JmpIndirect => jmp_indirect(cpu),
        Instruction::Jsr => jsr(cpu),
        Instruction::LdaImmediate => lda_immediate(cpu),
        Instruction::LdaZeropage => lda_zeropage(cpu),
        Instruction::LdaZeropagex => lda_zeropagex(cpu),
        Instruction::LdaAbsolute => lda_absolute(cpu),
        Instruction::LdaAbsolutex => lda_absolutex(cpu),
        Instruction::LdaAbsolutey => lda_absolutey(cpu),
        Instruction::LdaIndirectx => lda_indirectx(cpu),
        Instruction::LdaIndirecty => lda_indirecty(cpu),
        Instruction::LdxImmediate => ldx_immediate(cpu),
        Instruction::LdxZeropage => ldx_zeropage(cpu),
        Instruction::LdxZeropagey => ldx_zeropagey(cpu),
        Instruction::LdxAbsolute => ldx_absolute(cpu),
        Instruction::LdxAbsolutey => ldx_absolutey(cpu),
        Instruction::LdyImmediate => ldy_immediate(cpu),
        Instruction::LdyZeropage => ldy_zeropage(cpu),
        Instruction::LdyZeropagex => ldy_zeropagex(cpu),
        Instruction::LdyAbsolute => ldy_absolute(cpu),
        Instruction::LdyAbsolutex => ldy_absolutex(cpu),
        Instruction::LsrAccumulator => lsr_accumulator(cpu),
        Instruction::LsrZeropage => lsr_zeropage(cpu),
        Instruction::LsrZeropagex => lsr_zeropagex(cpu),
        Instruction::LsrAbsolute => lsr_absolute(cpu),
        Instruction::LsrAbsolutex => lsr_absolutex(cpu),
        Instruction::Nop => nop(cpu),
        Instruction::OraImmediate => ora_immediate(cpu),
        Instruction::OraZeropage => ora_zeropage(cpu),
        Instruction::OraZeropagex => ora_zeropagex(cpu),
        Instruction::OraAbsolute => ora_absolute(cpu),
        Instruction::OraAbsolutex => ora_absolutex(cpu),
        Instruction::OraAbsolutey => ora_absolutey(cpu),
        Instruction::OraIndirectx => ora_indirectx(cpu),
        Instruction::OraIndirecty => ora_indirecty(cpu),
        Instruction::Pha => pha(cpu),
        Instruction::Php => php(cpu),
        Instruction::Pla => pla(cpu),
        Instruction::Plp => plp(cpu),
        Instruction::RolAccumulator => rol_accumulator(cpu),
        Instruction::RolZeropage => rol_zeropage(cpu),
        Instruction::RolZeropagex => rol_zeropagex(cpu),
        Instruction::RolAbsolute => rol_absolute(cpu),
        Instruction::RolAbsolutex => rol_absolutex(cpu),
        Instruction::RorAccumulator => ror_accumulator(cpu),
        Instruction::RorZeropage => ror_zeropage(cpu),
        Instruction::RorZeropagex => ror_zeropagex(cpu),
        Instruction::RorAbsolute => ror_absolute(cpu),
        Instruction::RorAbsolutex => ror_absolutex(cpu),
        Instruction::SbcImmediate => sbc_immediate(cpu),
        Instruction::SbcZeropage => sbc_zeropage(cpu),
        Instruction::SbcZeropagex => sbc_zeropagex(cpu),
        Instruction::SbcAbsolute => sbc_absolute(cpu),
        Instruction::SbcAbsolutex => sbc_absolutex(cpu),
        Instruction::SbcAbsolutey => sbc_absolutey(cpu),
        Instruction::SbcIndirectx => sbc_indirectx(cpu),
        Instruction::SbcIndirecty => sbc_indirecty(cpu),
        Instruction::Sec => sec(cpu),
        Instruction::Sed => sed(cpu),
        Instruction::Sei => sei(cpu),
        Instruction::StaZeropage => sta_zeropage(cpu),
        Instruction::StaZeropagex => sta_zeropagex(cpu),
        Instruction::StaAbsolute => sta_absolute(cpu),
        Instruction::StaAbsolutex => sta_absolutex(cpu),
        Instruction::StaAbsolutey => sta_absolutey(cpu),
        Instruction::StaIndirectx => sta_indirectx(cpu),
        Instruction::StaIndirecty => sta_indirecty(cpu),
        Instruction::StxZeropage => stx_zeropage(cpu),
        Instruction::StxZeropagey => stx_zeropagey(cpu),
        Instruction::StxAbsolute => stx_absolute(cpu),
        Instruction::StyZeropage => sty_zeropage(cpu),
        Instruction::StyZeropagex => sty_zeropagex(cpu),
        Instruction::StyAbsolute => sty_absolute(cpu),
        Instruction::Tax => tax(cpu),
        Instruction::Tay => tay(cpu),
        Instruction::Tsx => tsx(cpu),
        Instruction::Txa => txa(cpu),
        Instruction::Txs => txs(cpu),
        Instruction::Tya => tya(cpu),
        Instruction::Rti => rti(cpu),
        Instruction::Rts => rts(cpu),
        Instruction::SloZeropage => slo_zeropage(cpu),
        Instruction::SloZeropagex => slo_zeropagex(cpu),
        Instruction::SloAbsolute => slo_absolute(cpu),
        Instruction::SloAbsolutex => slo_absolutex(cpu),
        Instruction::SloAbsolutey => slo_absolutey(cpu),
        Instruction::SloIndirectx => slo_indirectx(cpu),
        Instruction::SloIndirecty => slo_indirecty(cpu),
        Instruction::RlaZeropage => rla_zeropage(cpu),
        Instruction::RlaZeropagex => rla_zeropagex(cpu),
        Instruction::RlaAbsolute => rla_absolute(cpu),
        Instruction::RlaAbsolutex => rla_absolutex(cpu),
        Instruction::RlaAbsolutey => rla_absolutey(cpu),
        Instruction::RlaIndirectx => rla_indirectx(cpu),
        Instruction::RlaIndirecty => rla_indirecty(cpu),
        Instruction::SreZeropage => sre_zeropage(cpu),
        Instruction::SreZeropagex => sre_zeropagex(cpu),
        Instruction::SreAbsolute => sre_absolute(cpu),
        Instruction::SreAbsolutex => sre_absolutex(cpu),
        Instruction::SreAbsolutey => sre_absolutey(cpu),
        Instruction::SreIndirectx => sre_indirectx(cpu),
        Instruction::SreIndirecty => sre_indirecty(cpu),
        Instruction::DcpZeropage => dcp_zeropage(cpu),
        Instruction::DcpZeropagex => dcp_zeropagex(cpu),
        Instruction::DcpAbsolute => dcp_absolute(cpu),
        Instruction::DcpAbsolutex => dcp_absolutex(cpu),
        Instruction::DcpAbsolutey => dcp_absolutey(cpu),
        Instruction::DcpIndirectx => dcp_indirectx(cpu),
        Instruction::DcpIndirecty => dcp_indirecty(cpu),
        Instruction::LaxZeropage => lax_zeropage(cpu),
        Instruction::LaxZeropagey => lax_zeropagey(cpu),
        Instruction::LaxAbsolute => lax_absolute(cpu),
        Instruction::LaxAbsolutey => lax_absolutey(cpu),
        Instruction::LaxIndirectx => lax_indirectx(cpu),
        Instruction::LaxIndirecty => lax_indirecty(cpu),
        Instruction::SaxZeropage => sax_zeropage(cpu),
        Instruction::SaxZeropagey => sax_zeropagey(cpu),
        Instruction::SaxAbsolute => sax_absolute(cpu),
        Instruction::SaxIndirectx => sax_indirectx(cpu),
        Instruction::NopImmediate => nop_immediate(cpu),
        Instruction::NopZeropage => nop_zeropage(cpu),
        Instruction::NopZeropagex => nop_zeropagex(cpu),
        Instruction::NopAbsolute => nop_absolute(cpu),
        Instruction::NopAbsolutex => nop_absolutex(cpu),
        Instruction::NopImplied => nop_implied(cpu),
    }
}

} // verus!
