pub mod opcodes;
pub mod ops;
pub mod mapper;
pub mod nes_bus;

use vstd::prelude::*;
use crate::cpu::opcodes::{Instruction, decoded, operand_bytes, execute_spec};
pub use nes_bus::NesBus;
use crate::savestate::CpuState;

verus! {

/// One of the seven flags held in the status register `p`.
pub enum Flag {
    Carry,
    Zero,
    InterruptDisable,
    Decimal,
    B,
    Overflow,
    Negative,
}

/// The bit of the status register that holds `flag`.
pub open spec fn flag_mask(flag: Flag) -> u8 {
    match flag {
        Flag::Carry => 0b0000_0001,
        Flag::Zero => 0b0000_0010,
        Flag::InterruptDisable => 0b0000_0100,
        Flag::Decimal => 0b0000_1000,
        Flag::B => 0b0001_0000,
        Flag::Overflow => 0b0100_0000,
        Flag::Negative => 0b1000_0000,
    }
}

/// `p` with the bits of `mask` set when `on` holds and cleared otherwise.
pub open spec fn with_mask(p: u8, mask: u8, on: bool) -> u8 {
    if on { p | mask } else { p & !mask }
}

/// The 16-bit value whose low byte is `lo` and whose high byte is `hi`.
pub open spec fn word(lo: u8, hi: u8) -> u16 {
    (hi * 256 + lo) as u16
}

/// The address of the stack slot that the stack pointer `s` designates.
pub open spec fn stack_address(s: u8) -> u16 {
    (0x0100 + s) as u16
}

/// Bit 7 of a byte is set exactly when the byte is at least 0x80.
pub proof fn lemma_sign_bit(v: u8)
    ensures
        (v & 0x80 != 0) == (v >= 0x80),
{
    assert((v & 0x80 != 0) == (v >= 0x80)) by (bit_vector);
}

/// Bit 0 of a byte is set exactly when the byte is odd.
pub proof fn lemma_low_bit(v: u8)
    ensures
        (v & 1 != 0) == (v % 2 == 1),
        (v & 1 == 1) == (v % 2 == 1),
        v & 1 <= 1,
{
    assert((v & 1 != 0) == (v % 2 == 1)) by (bit_vector);
    assert((v & 1 == 1) == (v % 2 == 1)) by (bit_vector);
    assert(v & 1 <= 1) by (bit_vector);
}

/// Shifting a byte by one place is doubling (dropping the carry) or halving.
pub proof fn lemma_shift_one(v: u8)
    ensures
        v << 1u8 == (v * 2 % 256) as u8,
        v >> 1u8 == v / 2,
        ((v << 1u8) | 1u8) == (v * 2 % 256 + 1) as u8,
        ((v >> 1u8) | 0x80u8) == (v / 2 + 0x80) as u8,
{
    assert(v << 1u8 == (v * 2 % 256) as u8) by (bit_vector);
    assert(v >> 1u8 == v / 2) by (bit_vector);
    assert(((v << 1u8) | 1u8) == (v * 2 % 256 + 1) as u8) by (bit_vector);
    assert(((v >> 1u8) | 0x80u8) == (v / 2 + 0x80) as u8) by (bit_vector);
}

/// Setting or clearing one bit of a byte leaves every bit outside the mask as it
/// was, and leaves the mask's bits all set or all clear.
pub proof fn lemma_mask_bits(p: u8, m: u8, other: u8)
    by (bit_vector)
    ensures
        m & other == 0 ==> (p | m) & other == p & other,
        m & other == 0 ==> (p & !m) & other == p & other,
        (p | m) & m == m,
        (p & !m) & m == 0,
{
}

/// A flag reads back as it was last set, and setting it touches no other flag.
pub proof fn lemma_flag_set_get<B: Bus>(cpu: CPU<B>, flag: Flag, on: bool, other: Flag)
    ensures
        cpu.with_flag(flag, on).flag(flag) == on,
        flag != other ==> cpu.with_flag(flag, on).flag(other) == cpu.flag(other),
{
    let m = flag_mask(flag);
    let o = flag_mask(other);
    if flag != other {
        assert(m & o == 0) by {
            assert(forall|a: u8, b: u8| #![auto] (a == 1 || a == 2 || a == 4 || a == 8 || a == 16 || a == 64 || a == 128) && (b == 1 || b == 2 || b == 4 || b == 8 || b == 16 || b == 64 || b == 128) && a != b ==> a & b == 0) by (bit_vector);
        }
    }
    lemma_mask_bits(cpu.p, m, o);
}

/// Setting zero and negative from a byte: zero when it is 0, negative when its
/// bit 7 is set; carry, overflow, interrupt-disable and decimal stay.
pub proof fn lemma_zn_flags<B: Bus>(cpu: CPU<B>, value: u8)
    ensures
        cpu.with_zn(value).flag(Flag::Zero) == (value == 0),
        cpu.with_zn(value).flag(Flag::Negative) == (value >= 0x80),
        cpu.with_zn(value).flag(Flag::Carry) == cpu.flag(Flag::Carry),
        cpu.with_zn(value).flag(Flag::Overflow) == cpu.flag(Flag::Overflow),
        cpu.with_zn(value).flag(Flag::InterruptDisable) == cpu.flag(Flag::InterruptDisable),
        cpu.with_zn(value).flag(Flag::Decimal) == cpu.flag(Flag::Decimal),
{
    let c1 = cpu.with_flag(Flag::Zero, value == 0);
    lemma_flag_set_get(cpu, Flag::Zero, value == 0, Flag::Carry);
    lemma_flag_set_get(cpu, Flag::Zero, value == 0, Flag::Overflow);
    lemma_flag_set_get(cpu, Flag::Zero, value == 0, Flag::InterruptDisable);
    lemma_flag_set_get(cpu, Flag::Zero, value == 0, Flag::Decimal);
    lemma_flag_set_get(c1, Flag::Negative, value >= 0x80, Flag::Zero);
    lemma_flag_set_get(c1, Flag::Negative, value >= 0x80, Flag::Carry);
    lemma_flag_set_get(c1, Flag::Negative, value >= 0x80, Flag::Overflow);
    lemma_flag_set_get(c1, Flag::Negative, value >= 0x80, Flag::InterruptDisable);
    lemma_flag_set_get(c1, Flag::Negative, value >= 0x80, Flag::Decimal);
}

/// What is pushed is what the next pull returns, and the pull puts the stack
/// pointer back where it was.
pub proof fn lemma_push_pull(cpu: CPU<FlatBus>, value: u8)
    ensures
        cpu.pushed(value).pulled().0 == value,
        cpu.pushed(value).pulled().1.s == cpu.s,
        cpu.pushed(value).pulled().1.bus@ == cpu.bus@.update(stack_address(cpu.s) as int, value),
{
    broadcast use FlatBus::lemma_write;
    let pushed = cpu.pushed(value);
    assert(pushed.s.wrapping_add(1) == cpu.s);
}

/// What the CPU sees of the machine around it: memory reads and writes, and the
/// clocked devices that hang off the bus.
///
/// Reading may change the bus (a status register that clears on read, a serial
/// port that shifts), so a read is described by the value it returns (`peek`)
/// and by the bus it leaves behind (`read_effect`).
pub trait Bus: Sized {
    /// The byte that a read of `address` returns.
    spec fn peek(&self, address: u16) -> u8;

    /// The bus after a read of `address`.
    spec fn read_effect(&self, address: u16) -> Self;

    /// The bus after `data` is written to `address`.
    spec fn write_effect(&self, address: u16, data: u8) -> Self;

    /// What one PPU clock returns (whether an NMI is raised) and the bus it leaves.
    spec fn ppu_tick_effect(&self) -> (bool, Self);

    /// The picture the bus currently shows.
    spec fn framebuffer_view(&self) -> Seq<(u8, u8, u8)>;

    /// The CPU cycles stolen by a pending DMA transfer, and the bus after it.
    spec fn dma_effect(&self) -> (u16, Self);

    /// Whether a frame has just been finished, and the bus after asking.
    spec fn frame_complete_effect(&self) -> (bool, Self);

    fn read(&mut self, address: u16) -> (r: u8)
        ensures
            r == old(self).peek(address),
            *final(self) == old(self).read_effect(address),
    ;

    /// The byte a read of `address` would return, without reading it.
    fn peek_byte(&self, address: u16) -> (r: u8)
        ensures
            r == self.peek(address),
    ;

    fn write(&mut self, address: u16, data: u8)
        ensures
            *final(self) == old(self).write_effect(address, data),
    ;

    fn tick_ppu(&mut self) -> (nmi: bool)
        ensures
            (nmi, *final(self)) == old(self).ppu_tick_effect(),
    ;

    fn get_framebuffer(&self) -> (frame: &[(u8, u8, u8)])
        ensures
            frame@ == self.framebuffer_view(),
    ;

    fn take_dma_cycles(&mut self) -> (cycles: u16)
        ensures
            (cycles, *final(self)) == old(self).dma_effect(),
    ;

    fn frame_complete(&mut self) -> (done: bool)
        ensures
            (done, *final(self)) == old(self).frame_complete_effect(),
    ;
}

/// 64 KiB of plain memory with no mirroring and no devices.
pub struct FlatBus {
    memory: [u8; 65536],
}

impl FlatBus {
    /// The contents of memory, one byte per address.
    pub closed spec fn view(&self) -> Seq<u8> {
        self.memory@
    }

    pub fn new() -> (bus: Self)
        ensures
            bus@ == Seq::new(65536, |_i: int| 0u8),
    {
        let bus = Self { memory: [0; 65536] };
        assert(bus@ =~= Seq::new(65536, |_i: int| 0u8));
        bus
    }

    /// The memory always spans the whole 16-bit address space.
    pub broadcast proof fn lemma_len(bus: FlatBus)
        ensures
            #[trigger] bus@.len() == 65536,
    {
    }

    /// A write stores its byte at its address and touches nothing else.
    pub broadcast proof fn lemma_write(bus: FlatBus, address: u16, data: u8)
        ensures
            #[trigger] bus.write_effect(address, data)@ == bus@.update(address as int, data),
    {
        assert(bus.write_effect(address, data)@ =~= bus@.update(address as int, data));
    }
}

impl Bus for FlatBus {
    open spec fn peek(&self, address: u16) -> u8 {
        self@[address as int]
    }

    open spec fn read_effect(&self, address: u16) -> Self {
        *self
    }

    closed spec fn write_effect(&self, address: u16, data: u8) -> Self {
        FlatBus { memory: vstd::array::spec_array_update(self.memory, address as int, data) }
    }

    open spec fn ppu_tick_effect(&self) -> (bool, Self) {
        (false, *self)
    }

    open spec fn framebuffer_view(&self) -> Seq<(u8, u8, u8)> {
        Seq::empty()
    }

    open spec fn dma_effect(&self) -> (u16, Self) {
        (0, *self)
    }

    open spec fn frame_complete_effect(&self) -> (bool, Self) {
        (false, *self)
    }

    fn read(&mut self, address: u16) -> (r: u8) {
        self.memory[address as usize]
    }

    fn peek_byte(&self, address: u16) -> (r: u8) {
        self.memory[address as usize]
    }

    fn write(&mut self, address: u16, data: u8) {
        self.memory[address as usize] = data;
        assert(self.memory@ =~= old(self).memory@.update(address as int, data));
    }

    fn tick_ppu(&mut self) -> (nmi: bool) {
        false
    }

    fn get_framebuffer(&self) -> (frame: &[(u8, u8, u8)]) {
        &[]
    }

    fn take_dma_cycles(&mut self) -> (cycles: u16) {
        0
    }

    fn frame_complete(&mut self) -> (done: bool) {
        false
    }
}


/// The 6502 core: registers, a cycle counter, and the bus it talks through.
pub struct CPU<B: Bus> {
    pub bus: B,
    pub a: u8,
    pub x: u8,
    pub y: u8,
    /// Program counter.
    pub pc: u16,
    /// Stack pointer; the stack lives at 0x0100 + s.
    pub s: u8,
    /// Status register: N V 1 B D I Z C from bit 7 down to bit 0.
    pub p: u8,
    /// Cycles executed since reset, used to keep the other chips in step.
    pub cycle_count: u64,
}

impl<B: Bus> CPU<B> {
    /// The byte that a read of `address` would return now.
    pub open spec fn value_at(self, address: u16) -> u8 {
        self.bus.peek(address)
    }

    /// The machine after a read of `address`.
    pub open spec fn after_read(self, address: u16) -> Self {
        CPU { bus: self.bus.read_effect(address), ..self }
    }

    /// The machine after `data` is written to `address`.
    pub open spec fn after_write(self, address: u16, data: u8) -> Self {
        CPU { bus: self.bus.write_effect(address, data), ..self }
    }

    /// Whether `flag` is set in the status register.
    pub open spec fn flag(self, flag: Flag) -> bool {
        self.p & flag_mask(flag) != 0
    }

    /// The machine with `flag` set to `on` and everything else unchanged.
    pub open spec fn with_flag(self, flag: Flag, on: bool) -> Self {
        CPU { p: with_mask(self.p, flag_mask(flag), on), ..self }
    }

    /// The zero and negative flags set from `value`, as most instructions leave them.
    pub open spec fn with_zn(self, value: u8) -> Self {
        self.with_flag(Flag::Zero, value == 0).with_flag(Flag::Negative, value >= 0x80)
    }

    /// The machine after `value` is pushed: it is stored at the stack slot and the
    /// stack pointer moves down by one, wrapping within the page.
    pub open spec fn pushed(self, value: u8) -> Self {
        CPU { s: self.s.wrapping_sub(1), ..self.after_write(stack_address(self.s), value) }
    }

    /// The byte pulled from the stack and the machine after the pull: the stack
    /// pointer moves up by one, wrapping within the page, and the slot it then
    /// designates is read.
    pub open spec fn pulled(self) -> (u8, Self) {
        let s = self.s.wrapping_add(1);
        let moved = CPU { s, ..self };
        (moved.value_at(stack_address(s)), moved.after_read(stack_address(s)))
    }

    /// A little-endian word read from `address` and `address + 1`, low byte first.
    pub open spec fn word_at(self, address: u16) -> (u16, Self)
        recommends
            address < 0xFFFF,
    {
        let lo = self.value_at(address);
        let c = self.after_read(address);
        let hi = c.value_at((address + 1) as u16);
        (word(lo, hi), c.after_read((address + 1) as u16))
    }

    /// The machine after an interrupt through `vector`: the program counter (high
    /// byte first) and the status byte (bit 5 set, B as `set_b`) are pushed,
    /// interrupts are disabled and the program counter is loaded from the vector.
    pub open spec fn interrupted(self, vector: u16, set_b: bool) -> Self
        recommends
            vector < 0xFFFF,
    {
        let c1 = self.pushed((self.pc / 256) as u8);
        let c2 = c1.pushed((self.pc % 256) as u8);
        let c3 = c2.pushed(with_mask(self.p | 0b0010_0000, 0b0001_0000, set_b));
        let c4 = c3.with_flag(Flag::InterruptDisable, true);
        let (target, c5) = c4.word_at(vector);
        CPU { pc: target, ..c5 }
    }

    /// The machine after a reset: registers cleared, stack pointer 0xFD, status
    /// 0x20, the program counter loaded from the reset vector at 0xFFFC.
    pub open spec fn reset_state(self) -> Self {
        let c = CPU { a: 0, x: 0, y: 0, ..self };
        let (target, c2) = c.word_at(0xFFFC);
        CPU { pc: target, s: 0xFD, p: 0b0010_0000, cycle_count: 0, ..c2 }
    }

    /// The instruction at the program counter can run: the decoder knows its
    /// opcode and its operand bytes do not carry the program counter past 0xFFFF.
    pub open spec fn can_execute(self) -> bool {
        match decoded(self.value_at(self.pc)) {
            Some((instruction, _)) => self.pc.wrapping_add(1) + operand_bytes(instruction) <= 0xFFFF,
            None => false,
        }
    }

    /// The instruction at the program counter with its base cycles, and the machine
    /// after its opcode was fetched.
    pub open spec fn fetched(self) -> (Instruction, u8, Self) {
        let (instruction, base) = match decoded(self.value_at(self.pc)) {
            Some(d) => d,
            None => (Instruction::Nop, 0),
        };
        (instruction, base, CPU { pc: self.pc.wrapping_add(1), ..self.after_read(self.pc) })
    }

    /// The cycles one step takes: base cycles, the instruction's extra cycles and
    /// the cycles of any DMA transfer the instruction started.
    pub open spec fn step_cycles(self) -> int {
        let (instruction, base, c0) = self.fetched();
        let (extra, c1) = execute_spec(c0, instruction);
        base + extra + c1.bus.dma_effect().0
    }

    /// The machine after one step: fetch, decode, execute, then any DMA transfer,
    /// with the cycle counter advanced by the step's cycles.
    pub open spec fn stepped(self) -> Self {
        let (instruction, base, c0) = self.fetched();
        let (extra, c1) = execute_spec(c0, instruction);
        let bus = c1.bus.dma_effect().1;
        CPU { bus, cycle_count: (c1.cycle_count + self.step_cycles()) as u64, ..c1 }
    }

    /// The registers and cycle counter as a savestate holds them.
    pub open spec fn registers(self) -> CpuState {
        CpuState { a: self.a, x: self.x, y: self.y, pc: self.pc, s: self.s, p: self.p, cycle_count: self.cycle_count }
    }

    pub fn save_state(&self) -> (state: CpuState)
        ensures
            state == self.registers(),
    {
        CpuState { a: self.a, x: self.x, y: self.y, pc: self.pc, s: self.s, p: self.p, cycle_count: self.cycle_count }
    }

    pub fn load_state(&mut self, state: &CpuState)
        ensures
            final(self).registers() == *state,
            final(self).bus == old(self).bus,
    {
        self.a = state.a;
        self.x = state.x;
        self.y = state.y;
        self.pc = state.pc;
        self.s = state.s;
        self.p = state.p;
        self.cycle_count = state.cycle_count;
    }

    pub fn new(bus: Box<B>) -> (cpu: Self)
        ensures
            cpu.bus == *bus,
            cpu.a == 0,
            cpu.x == 0,
            cpu.y == 0,
            cpu.pc == 0xFFFC,
            cpu.s == 0b1111_1101,
            cpu.p == 0b0010_0000,
            cpu.cycle_count == 0,
    {
        Self {
            bus: *bus,
            a: 0,
            x: 0,
            y: 0,
            pc: 0xFFFC,
            s: 0b1111_1101,
            p: 0b0010_0000,
            cycle_count: 0,
        }
    }

    pub fn read(&mut self, address: u16) -> (r: u8)
        ensures
            r == old(self).value_at(address),
            *final(self) == old(self).after_read(address),
    {
        self.bus.read(address)
    }

    pub fn write(&mut self, address: u16, data: u8)
        ensures
            *final(self) == old(self).after_write(address, data),
    {
        self.bus.write(address, data)
    }

    /// Reads a little-endian word, low byte first.
    fn read_word(&mut self, address: u16) -> (r: u16)
        requires
            address < 0xFFFF,
        ensures
            (r, *final(self)) == old(self).word_at(address),
    {
        let lo = self.read(address) as u16;
        let hi = self.read(address + 1) as u16;
        hi * 256 + lo
    }

    pub fn reset(&mut self)
        ensures
            *final(self) == old(self).reset_state(),
    {
        self.a = 0;
        self.x = 0;
        self.y = 0;
        self.pc = self.read_word(0xFFFC);
        self.s = 0xFD;
        self.p = 0b0010_0000;
        self.cycle_count = 0;
    }

    /// Whether the instruction at the program counter can run.
    pub fn can_execute_now(&self) -> (r: bool)
        ensures
            r == self.can_execute(),
    {
        let opcode = self.bus.peek_byte(self.pc);
        if !opcodes::is_known_opcode(opcode) {
            return false;
        }
        let (instruction, _) = opcodes::decode(opcode);
        let next = self.pc.wrapping_add(1);
        (next as u32) + (opcodes::operand_count(instruction) as u32) <= 0xFFFF
    }

    /// Runs one instruction and returns the cycles it took.
    #[verifier::rlimit(40)]
    pub fn tick(&mut self) -> (cycles: u16)
        requires
            old(self).can_execute(),
            old(self).step_cycles() <= 0xFFFF,
            old(self).cycle_count + old(self).step_cycles() <= u64::MAX,
        ensures
            cycles == old(self).step_cycles(),
            *final(self) == old(self).stepped(),
    {
        let opcode: u8 = self.read(self.pc);
        self.pc = self.pc.wrapping_add(1);
        let (instruction, base_cycles) = opcodes::decode(opcode);
        let extra_cycles = opcodes::execute(self, instruction);
        let dma_cycles = self.bus.take_dma_cycles();
        let total_cycles = base_cycles as u16 + extra_cycles as u16 + dma_cycles;
        self.cycle_count = self.cycle_count + total_cycles as u64;

        total_cycles
    }

    pub fn cycle(&mut self, cycles: u64)
        requires
            old(self).cycle_count + cycles <= u64::MAX,
        ensures
            *final(self) == (CPU { cycle_count: (old(self).cycle_count + cycles) as u64, ..*old(self) }),
    {
        self.cycle_count += cycles;
    }

    pub fn set_flag(&mut self, flag: Flag, on: bool)
        ensures
            *final(self) == old(self).with_flag(flag, on),
    {
        let mask: u8 = match flag {
            Flag::Carry => 0b0000_0001,
            Flag::Zero => 0b0000_0010,
            Flag::InterruptDisable => 0b0000_0100,
            Flag::Decimal => 0b0000_1000,
            Flag::B => 0b0001_0000,
            Flag::Overflow => 0b0100_0000,
            Flag::Negative => 0b1000_0000,
        };

        if on {
            self.p = self.p | mask;
        } else {
            self.p = self.p & !mask;
        }
    }

    pub fn get_flag(&self, flag: Flag) -> (on: bool)
        ensures
            on == self.flag(flag),
    {
        let mask: u8 = match flag {
            Flag::Carry => 0b0000_0001,
            Flag::Zero => 0b0000_0010,
            Flag::InterruptDisable => 0b0000_0100,
            Flag::Decimal => 0b0000_1000,
            Flag::B => 0b0001_0000,
            Flag::Overflow => 0b0100_0000,
            Flag::Negative => 0b1000_0000,
        };

        (self.p & mask) != 0
    }

    pub fn push(&mut self, value: u8)
        ensures
            *final(self) == old(self).pushed(value),
    {
        self.write(0x0100 + self.s as u16, value);
        self.s = self.s.wrapping_sub(1);
    }

    pub fn pull(&mut self) -> (value: u8)
        ensures
            (value, *final(self)) == old(self).pulled(),
    {
        self.s = self.s.wrapping_add(1);
        self.read(0x0100 + self.s as u16)
    }

    fn interrupt(&mut self, vector_addr: u16, set_b: bool)
        requires
            vector_addr < 0xFFFF,
        ensures
            *final(self) == old(self).interrupted(vector_addr, set_b),
    {
        let pc_high = (self.pc / 256) as u8;
        let pc_low = (self.pc % 256) as u8;

        self.push(pc_high);
        self.push(pc_low);

        let mut status = self.p | 0b0010_0000;
        if set_b {
            status = status | 0b0001_0000;
        } else {
            status = status & !0b0001_0000;
        }
        self.push(status);

        self.set_flag(Flag::InterruptDisable, true);
        self.pc = self.read_word(vector_addr);
    }

    /// Non-maskable interrupt through the vector at 0xFFFA.
    pub fn nmi(&mut self)
        ensures
            *final(self) == old(self).interrupted(0xFFFA, false),
    {
        self.interrupt(0xFFFA, false);
    }

    /// Maskable interrupt through the vector at 0xFFFE; ignored while the
    /// interrupt-disable flag is set.
    pub fn irq(&mut self)
        ensures
            *final(self) == if old(self).flag(Flag::InterruptDisable) {
                *old(self)
            } else {
                old(self).interrupted(0xFFFE, false)
            },
    {
        if !self.get_flag(Flag::InterruptDisable) {
            self.interrupt(0xFFFE, false);
        }
    }

    pub fn tick_ppu(&mut self) -> (nmi: bool)
        ensures
            ({
                let (n, bus) = old(self).bus.ppu_tick_effect();
                nmi == n && *final(self) == (CPU { bus, ..*old(self) })
            }),
    {
        self.bus.tick_ppu()
    }

    pub fn framebuffer(&self) -> (frame: &[(u8, u8, u8)])
        ensures
            frame@ == self.bus.framebuffer_view(),
    {
        self.bus.get_framebuffer()
    }

    pub fn frame_complete(&mut self) -> (done: bool)
        ensures
            ({
                let (d, bus) = old(self).bus.frame_complete_effect();
                done == d && *final(self) == (CPU { bus, ..*old(self) })
            }),
    {
        self.bus.frame_complete()
    }
}

impl<M: mapper::Mapper> CPU<NesBus<M>> {
    pub fn set_controller1(&mut self, buttons: u8)
        ensures
            *final(self) == (CPU { bus: old(self).bus.buttons_set(1, buttons), ..*old(self) }),
    {
        self.bus.set_controller1(buttons);
    }

    pub fn set_controller2(&mut self, buttons: u8)
        ensures
            *final(self) == (CPU { bus: old(self).bus.buttons_set(2, buttons), ..*old(self) }),
    {
        self.bus.set_controller2(buttons);
    }

    /// Runs the APU for `cycles` CPU cycles.
    pub fn tick_apu(&mut self, cycles: u32)
        ensures
            *final(self) == (CPU { bus: old(self).bus.apu_ticked(cycles), ..*old(self) }),
    {
        self.bus.tick_apu(cycles);
    }

    /// Whether the APU is asking for an interrupt.
    pub fn irq_pending(&self) -> (pending: bool)
        ensures
            pending == self.bus.irq_line(),
    {
        self.bus.irq_pending()
    }

    pub fn reset_ppu(&mut self)
        ensures
            *final(self) == (CPU { bus: old(self).bus.ppu_reset(), ..*old(self) }),
    {
        self.bus.reset_ppu();
    }

    pub fn reset_apu(&mut self)
        ensures
            *final(self) == (CPU { bus: old(self).bus.apu_reset(), ..*old(self) }),
    {
        self.bus.reset_apu();
    }
}

} // verus!
