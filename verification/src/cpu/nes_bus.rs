use vstd::prelude::*;
use crate::apu::APU;
use crate::cartridge::Mirroring;
use crate::input::{ControllerState, ControllerView};
use crate::ppu::PPU;
use super::Bus;
use super::mapper::Mapper;
use crate::savestate::{BusState, SaveError, PpuState, ppu_states_agree, ppu_power_on, apu_power_on};
use crate::ppu::{lemma_saved_states_agree, lemma_oam_data_write};

verus! {

/*
CPU memory map
0x0000 - 0x07FF 2 KiB of internal RAM
0x0800 - 0x1FFF three mirrors of that RAM
0x2000 - 0x2007 PPU registers
0x2008 - 0x3FFF mirrors of the PPU registers, repeating every 8 bytes
0x4000 - 0x4015 APU registers; 0x4014 starts an OAM DMA
0x4016 - 0x4017 controller ports (writes to 0x4017 go to the APU frame counter)
0x4018 - 0x401F APU and I/O test registers, read as 0
0x4020 - 0xFFFF cartridge: PRG RAM usually at 0x6000, PRG ROM at 0x8000
*/

/// The CPU cycles an OAM DMA transfer takes.
pub const DMA_CYCLES: u16 = 514;

/// The NES main bus: internal RAM, the PPU and APU registers, both controller
/// ports, the OAM DMA latch and the cartridge.
pub struct NesBus<M: Mapper> {
    cpu_ram: [u8; 0x0800],
    pub ppu: PPU,
    apu: APU,
    controller1: ControllerState,
    controller2: ControllerState,
    cartridge: M,
    dma_pending: Option<u8>,
}

/// The internal RAM byte that an address below 0x2000 selects.
pub open spec fn ram_index(address: u16) -> int {
    (address & 0x07FF) as int
}

/// The PPU register that an address in 0x2000..=0x3FFF selects.
pub open spec fn ppu_register_index(address: u16) -> u8 {
    (address & 0x0007) as u8
}

impl<M: Mapper> NesBus<M> {
    pub closed spec fn ram(&self) -> Seq<u8> {
        self.cpu_ram@
    }

    pub closed spec fn ppu_state(&self) -> PPU {
        self.ppu
    }

    pub closed spec fn apu_state(&self) -> APU {
        self.apu
    }

    pub closed spec fn cartridge_state(&self) -> M {
        self.cartridge
    }

    pub closed spec fn controller(&self, port: int) -> ControllerState {
        if port == 1 { self.controller1 } else { self.controller2 }
    }

    pub closed spec fn pending_dma(&self) -> Option<u8> {
        self.dma_pending
    }

    /// The bus after a read of `address` during a DMA copy, and the byte read.
    pub closed spec fn dma_from(self, base: u16, i: nat) -> Self
        decreases 256 - i,
    {
        if i >= 256 {
            self
        } else {
            let address = (base + i) as u16;
            let byte = self.peek(address);
            let after = self.read_effect(address);
            NesBus { ppu: after.ppu.register_written(4, byte), ..after }.dma_from(base, i + 1)
        }
    }

    /// The bus after `cycles` CPU cycles of the APU, and the DMC's sample fetch
    /// from the cartridge when it wants one.
    pub closed spec fn apu_ticked(self, cycles: u32) -> Self {
        let apu = self.apu.ticked(cycles);
        match apu.dmc().wanted_address() {
            Some(address) => NesBus {
                apu: apu.dmc_byte_provided(self.cartridge.cpu_value(address)),
                ..self
            },
            None => NesBus { apu, ..self },
        }
    }

    /// The bus with `buttons` pressed on controller `port` (1 or 2).
    pub closed spec fn buttons_set(self, port: int, buttons: u8) -> Self {
        if port == 1 {
            NesBus { controller1: self.controller1.with_buttons(buttons), ..self }
        } else {
            NesBus { controller2: self.controller2.with_buttons(buttons), ..self }
        }
    }

    /// The bus with the PPU reset.
    pub closed spec fn ppu_reset(self) -> Self {
        NesBus { ppu: self.ppu.reset_state(), ..self }
    }

    /// The bus with the APU reset.
    pub closed spec fn apu_reset(self) -> Self {
        NesBus { apu: self.apu.reset_state(), ..self }
    }

    /// Whether the APU holds an interrupt request: the frame IRQ or the DMC's.
    pub closed spec fn irq_line(self) -> bool {
        self.apu.frame_irq() || self.apu.dmc().irq_flag()
    }

    pub fn new(cartridge: Box<M>, mirroring: Mirroring, chr_rom: Vec<u8>) -> (bus: Self)
        requires
            chr_rom@.len() >= 0x2000,
        ensures
            bus.ram() == Seq::new(0x0800, |_i: int| 0u8),
            bus.cartridge_state() == *cartridge,
            bus.pending_dma() is None,
            bus.ppu_state().scanline() == -1,
            bus.ppu_state().dot() == 0,
            !bus.ppu_state().nmi_pending(),
            !bus.ppu_state().frame_done(),
            bus.controller(1)@.button_state == 0,
            bus.controller(2)@.button_state == 0,
            bus.controller(1)@ == (ControllerView { button_state: 0, shift_reg: 0, strobe: false }),
            bus.controller(2)@ == (ControllerView { button_state: 0, shift_reg: 0, strobe: false }),
            bus.ppu_state().mirroring_of() == mirroring,
            bus.ppu_state().pattern_tables() == chr_rom@,
            forall|state: PpuState| #[trigger] bus.ppu_state().saved_as(state) ==> ppu_power_on(state),
            bus.apu_state().snapshot() == apu_power_on(),
    {
        let bus = Self {
            cpu_ram: [0; 0x0800],
            ppu: PPU::new(mirroring, chr_rom),
            apu: APU::new(),
            controller1: ControllerState::new(),
            controller2: ControllerState::new(),
            cartridge: *cartridge,
            dma_pending: None,
        };
        assert(bus.cpu_ram@ =~= Seq::new(0x0800, |_i: int| 0u8));
        bus
    }

    /// `state` records this bus: its RAM, its pending DMA and every device.
    pub closed spec fn saved_as(&self, state: BusState) -> bool {
        &&& state.cpu_ram == self.cpu_ram
        &&& state.dma_pending == self.dma_pending
        &&& self.ppu.saved_as(state.ppu)
        &&& state.apu == self.apu.snapshot()
        &&& self.cartridge.saved_as(state.mapper)
        &&& state.controller1 == self.controller1.snapshot()
        &&& state.controller2 == self.controller2.snapshot()
    }

    /// `after` is this bus with `state` loaded: every part recorded in `state`, the
    /// cartridge loaded as its board loads, the pattern tables and mirroring kept.
    pub closed spec fn loaded_from(&self, state: BusState, after: Self) -> bool {
        &&& after.cpu_ram == state.cpu_ram
        &&& after.dma_pending == state.dma_pending
        &&& after.ppu.saved_as(state.ppu)
        &&& after.ppu.pattern_tables() == self.ppu.pattern_tables()
        &&& after.ppu.mirroring_of() == self.ppu.mirroring_of()
        &&& after.apu.snapshot() == state.apu
        &&& self.cartridge.loaded_from(state.mapper, after.cartridge)
        &&& after.controller1.snapshot() == state.controller1
        &&& after.controller2.snapshot() == state.controller2
    }

    pub fn save_bus_state(&self) -> (r: Result<BusState, SaveError>)
        ensures
            r matches Ok(state) && self.saved_as(state),
    {
        let mapper = match self.cartridge.save_state() {
            Ok(mapper) => mapper,
            Err(e) => {
                return Err(e);
            },
        };
        Ok(BusState {
            cpu_ram: self.cpu_ram,
            dma_pending: self.dma_pending,
            ppu: self.ppu.save_state(),
            apu: self.apu.save_state(),
            mapper,
            controller1: self.controller1.save_state(),
            controller2: self.controller2.save_state(),
        })
    }

    /// Loads a bus state; the cartridge goes first, and when it refuses the state
    /// the bus is left as it was.
    pub fn load_bus_state(&mut self, state: &BusState) -> (r: Result<(), SaveError>)
        requires
            PPU::loadable(state.ppu),
            APU::loadable(state.apu),
        ensures
            match old(self).cartridge_state().load_error(state.mapper) {
                Some(msg) => (r matches Err(e) && e@ == msg) && *final(self) == *old(self),
                None => r is Ok && old(self).loaded_from(*state, *final(self)),
            },
    {
        match self.cartridge.load_state(&state.mapper) {
            Ok(()) => {},
            Err(e) => {
                return Err(e);
            },
        }
        self.cpu_ram = state.cpu_ram;
        self.dma_pending = state.dma_pending;
        self.ppu.load_state(&state.ppu);
        self.apu.load_state(&state.apu);
        self.controller1.load_state(&state.controller1);
        self.controller2.load_state(&state.controller2);
        Ok(())
    }

    pub fn set_controller1(&mut self, buttons: u8)
        ensures
            *final(self) == old(self).buttons_set(1, buttons),
    {
        self.controller1.set_buttons(buttons);
    }

    pub fn set_controller2(&mut self, buttons: u8)
        ensures
            *final(self) == old(self).buttons_set(2, buttons),
    {
        self.controller2.set_buttons(buttons);
    }

    pub fn tick_apu(&mut self, cycles: u32)
        ensures
            *final(self) == old(self).apu_ticked(cycles),
    {
        self.apu.tick(cycles);
        if let Some(address) = self.apu.dmc_fetch_request() {
            let byte = self.cartridge.read(address);
            self.apu.dmc_provide_byte(byte);
        }
    }

    /// The five APU channels' current outputs, for the mixer: pulse 1, pulse 2,
    /// triangle, noise, DMC.
    pub fn channel_outputs(&self) -> (outputs: (u8, u8, u8, u8, u8))
        ensures
            outputs == (
                self.apu_state().pulse1().output_value(),
                self.apu_state().pulse2().output_value(),
                self.apu_state().triangle().output_value(),
                self.apu_state().noise().output_value(),
                self.apu_state().dmc().level(),
            ),
    {
        self.apu.channel_outputs()
    }

    pub fn irq_pending(&self) -> (pending: bool)
        ensures
            pending == self.irq_line(),
    {
        self.apu.frame_irq_pending() || self.apu.dmc_irq_pending()
    }

    pub fn reset_ppu(&mut self)
        ensures
            *final(self) == old(self).ppu_reset(),
    {
        self.ppu.reset();
    }

    pub fn reset_apu(&mut self)
        ensures
            *final(self) == old(self).apu_reset(),
    {
        self.apu.reset();
    }
}

impl<M: Mapper> Bus for NesBus<M> {
    closed spec fn peek(&self, address: u16) -> u8 {
        if address <= 0x1FFF {
            self.cpu_ram@[ram_index(address)]
        } else if address <= 0x3FFF {
            self.ppu.register_value(ppu_register_index(address))
        } else if address == 0x4016 {
            self.controller1.read_value()
        } else if address == 0x4017 {
            self.controller2.read_value()
        } else if address <= 0x4015 {
            self.apu.register_value(address)
        } else if address <= 0x401F {
            0
        } else {
            self.cartridge.cpu_value(address)
        }
    }

    closed spec fn read_effect(&self, address: u16) -> Self {
        if address <= 0x1FFF {
            *self
        } else if address <= 0x3FFF {
            NesBus { ppu: self.ppu.after_register_read(ppu_register_index(address)), ..*self }
        } else if address == 0x4016 {
            NesBus { controller1: self.controller1.after_read(), ..*self }
        } else if address == 0x4017 {
            NesBus { controller2: self.controller2.after_read(), ..*self }
        } else if address <= 0x4015 {
            NesBus { apu: self.apu.after_register_read(address), ..*self }
        } else {
            *self
        }
    }

    closed spec fn write_effect(&self, address: u16, data: u8) -> Self {
        if address <= 0x1FFF {
            NesBus { cpu_ram: vstd::array::spec_array_update(self.cpu_ram, ram_index(address), data), ..*self }
        } else if address <= 0x3FFF {
            NesBus { ppu: self.ppu.register_written(ppu_register_index(address), data), ..*self }
        } else if address == 0x4014 {
            NesBus { dma_pending: Some(data), ..*self }
        } else if address == 0x4016 {
            NesBus {
                controller1: self.controller1.after_strobe(data),
                controller2: self.controller2.after_strobe(data),
                ..*self
            }
        } else if address <= 0x4017 {
            NesBus { apu: self.apu.register_written(address, data), ..*self }
        } else if address <= 0x401F {
            *self
        } else {
            NesBus { cartridge: self.cartridge.cpu_written(address, data), ..*self }
        }
    }

    closed spec fn ppu_tick_effect(&self) -> (bool, Self) {
        let ticked = self.ppu.ticked();
        (ticked.nmi_pending(), NesBus { ppu: ticked.nmi_taken(), ..*self })
    }

    closed spec fn framebuffer_view(&self) -> Seq<(u8, u8, u8)> {
        self.ppu.framebuffer_view()
    }

    closed spec fn dma_effect(&self) -> (u16, Self) {
        match self.dma_pending {
            None => (0, *self),
            Some(page) => (DMA_CYCLES, NesBus { dma_pending: None, ..*self }.dma_from(((page as u16) * 256) as u16, 0)),
        }
    }

    closed spec fn frame_complete_effect(&self) -> (bool, Self) {
        (self.ppu.frame_done(), NesBus { ppu: self.ppu.frame_taken(), ..*self })
    }

    fn read(&mut self, address: u16) -> (r: u8) {
        proof { crate::bits::lemma_word_fields(address); }
        if address <= 0x1FFF {
            self.cpu_ram[(address & 0x07FF) as usize]
        } else if address <= 0x3FFF {
            self.ppu.read_register((address & 0x0007) as u8)
        } else if address == 0x4016 {
            self.controller1.read()
        } else if address == 0x4017 {
            self.controller2.read()
        } else if address <= 0x4015 {
            self.apu.read_register(address)
        } else if address <= 0x401F {
            0
        } else {
            self.cartridge.read(address)
        }
    }

    fn peek_byte(&self, address: u16) -> (r: u8) {
        proof { crate::bits::lemma_word_fields(address); }
        if address <= 0x1FFF {
            self.cpu_ram[(address & 0x07FF) as usize]
        } else if address <= 0x3FFF {
            self.ppu.peek_register((address & 0x0007) as u8)
        } else if address == 0x4016 {
            self.controller1.peek()
        } else if address == 0x4017 {
            self.controller2.peek()
        } else if address <= 0x4015 {
            self.apu.peek_register(address)
        } else if address <= 0x401F {
            0
        } else {
            self.cartridge.read(address)
        }
    }

    fn write(&mut self, address: u16, data: u8) {
        proof { crate::bits::lemma_word_fields(address); }
        if address <= 0x1FFF {
            self.cpu_ram[(address & 0x07FF) as usize] = data;
        } else if address <= 0x3FFF {
            self.ppu.write_register((address & 0x0007) as u8, data);
        } else if address == 0x4014 {
            self.dma_pending = Some(data);
        } else if address == 0x4016 {
            self.controller1.write_strobe(data);
            self.controller2.write_strobe(data);
        } else if address <= 0x4017 {
            self.apu.write_register(address, data);
        } else if address <= 0x401F {
        } else {
            self.cartridge.write(address, data);
        }
    }

    fn tick_ppu(&mut self) -> (nmi: bool) {
        self.ppu.tick();
        self.ppu.take_nmi()
    }

    fn get_framebuffer(&self) -> (frame: &[(u8, u8, u8)]) {
        self.ppu.get_framebuffer()
    }

    fn take_dma_cycles(&mut self) -> (cycles: u16) {
        let page = match self.dma_pending {
            None => {
                return 0;
            },
            Some(page) => page,
        };
        self.dma_pending = None;

        let base = (page as u16) * 256;
        let ghost target = self.dma_from(base, 0);
        let mut i: u16 = 0;
        while i < 256
            invariant
                i <= 256,
                base + 256 <= 0x10000,
                self.dma_from(base, i as nat) == target,
            decreases 256 - i,
        {
            let byte = self.read(base + i);
            self.ppu.write_register(4, byte);  // OAMDATA
            i = i + 1;
        }
        DMA_CYCLES
    }

    fn frame_complete(&mut self) -> (done: bool) {
        self.ppu.frame_complete()
    }
}

/// A read of the cartridge's address range returns the board's byte and changes
/// nothing.
pub proof fn lemma_cartridge_read<M: Mapper>(bus: NesBus<M>, address: u16)
    requires
        address >= 0x4020,
    ensures
        bus.peek(address) == bus.cartridge_state().cpu_value(address),
        bus.read_effect(address) == bus,
{
}

/// The cartridge is touched by CPU writes at 0x4020 and above only: a write to
/// RAM, a PPU clock and an APU run leave it as it is.
pub proof fn lemma_cartridge_kept<M: Mapper>(bus: NesBus<M>, address: u16, data: u8, cycles: u32)
    ensures
        address <= 0x1FFF ==> bus.write_effect(address, data).cartridge_state() == bus.cartridge_state(),
        bus.ppu_tick_effect().1.cartridge_state() == bus.cartridge_state(),
        bus.apu_ticked(cycles).cartridge_state() == bus.cartridge_state(),
{
}

proof fn lemma_dma_from_keeps_pending<M: Mapper>(bus: NesBus<M>, base: u16, i: nat)
    ensures
        bus.dma_from(base, i).dma_pending == bus.dma_pending,
    decreases 256 - i,
{
    if i < 256 {
        let address = (base + i) as u16;
        let after = bus.read_effect(address);
        let next = NesBus { ppu: after.ppu.register_written(4, bus.peek(address)), ..after };
        lemma_dma_from_keeps_pending(next, base, i + 1);
    }
}

/// A transfer clears the pending request, so the next look for one finds none and
/// costs no cycles.
pub proof fn lemma_dma_runs_once<M: Mapper>(bus: NesBus<M>)
    ensures
        bus.dma_effect().1.pending_dma() is None,
        bus.dma_effect().1.dma_effect() == (0u16, bus.dma_effect().1),
{
    if let Some(page) = bus.dma_pending {
        lemma_dma_from_keeps_pending(NesBus { dma_pending: None, ..bus }, ((page as u16) * 256) as u16, 0);
    }
}

/// A DMA transfer never takes more than `DMA_CYCLES` cycles.
pub proof fn lemma_dma_cycles<M: Mapper>()
    ensures
        forall|bus: NesBus<M>| #[trigger] bus.dma_effect().0 <= DMA_CYCLES,
{
}

/// Every address below 0x2000 reaches the same 2 KiB of RAM as its offset modulo
/// 0x800: a write through any mirror is read back through every other.
pub proof fn lemma_ram_mirrors<M: Mapper>(bus: NesBus<M>, written: u16, data: u8, read: u16)
    requires
        written <= 0x1FFF,
        read <= 0x1FFF,
    ensures
        bus.write_effect(written, data).peek(read) == if written % 0x800 == read % 0x800 {
            data
        } else {
            bus.peek(read)
        },
        bus.read_effect(read) == bus,
{
    crate::bits::lemma_word_fields(written);
    crate::bits::lemma_word_fields(read);
}

/// The eight PPU registers repeat every eight bytes through 0x3FFF: an address
/// there reads, and is written, as the register at 0x2000 plus its offset
/// modulo 8.
pub proof fn lemma_ppu_registers_mirror<M: Mapper>(bus: NesBus<M>, address: u16, data: u8)
    requires
        0x2000 <= address <= 0x3FFF,
    ensures
        bus.peek(address) == bus.peek((0x2000 + address % 8) as u16),
        bus.read_effect(address) == bus.read_effect((0x2000 + address % 8) as u16),
        bus.write_effect(address, data) == bus.write_effect((0x2000 + address % 8) as u16, data),
{
    let base = (0x2000 + address % 8) as u16;
    crate::bits::lemma_word_fields(address);
    assert(base & 0x0007 == address % 8) by (bit_vector)
        requires
            base == (0x2000 + address % 8) as u16,
    ;
}

/// Loading a bus state and taking one again gives back what was loaded: the RAM,
/// the pending DMA, the PPU, the APU and both controllers as they were recorded.
pub proof fn lemma_load_then_save<M: Mapper>(before: NesBus<M>, state: BusState, after: NesBus<M>, saved: BusState)
    requires
        before.loaded_from(state, after),
        after.saved_as(saved),
    ensures
        saved.cpu_ram == state.cpu_ram,
        saved.dma_pending == state.dma_pending,
        ppu_states_agree(saved.ppu, state.ppu),
        saved.apu == state.apu,
        saved.controller1 == state.controller1,
        saved.controller2 == state.controller2,
{
    lemma_saved_states_agree(after.ppu, saved.ppu, state.ppu);
}

/// The offset of OAM slot `j` from slot `start`, going up and wrapping.
pub open spec fn oam_offset(start: u8, j: int) -> int {
    (j - start + 256) % 256
}

/// The DMA copy from byte `i` of a RAM page on: the rest of the page lands in OAM
/// from OAMADDR up, wrapping, and the other OAM bytes stay as they were.
proof fn lemma_dma_from_ram<M: Mapper>(bus: NesBus<M>, base: u16, i: nat)
    requires
        base % 256 == 0,
        base < 0x2000,
        i <= 256,
    ensures
        bus.dma_from(base, i).cpu_ram == bus.cpu_ram,
        bus.dma_from(base, i).dma_pending == bus.dma_pending,
        bus.dma_from(base, i).ppu.oam_view().len() == 256,
        bus.dma_from(base, i).ppu.oam_addr() as int == (bus.ppu.oam_addr() + 256 - i) % 256,
        forall|j: int|
            0 <= j < 256 ==> #[trigger] bus.dma_from(base, i).ppu.oam_view()[j] == if oam_offset(
                bus.ppu.oam_addr(),
                j,
            ) < 256 - i {
                bus.cpu_ram@[ram_index((base + i + oam_offset(bus.ppu.oam_addr(), j)) as u16)]
            } else {
                bus.ppu.oam_view()[j]
            },
    decreases 256 - i,
{
    lemma_oam_data_write(bus.ppu, 0);
    if i < 256 {
        let address = (base + i) as u16;
        let byte = bus.peek(address);
        let after = bus.read_effect(address);
        assert(after == bus);
        let next = NesBus { ppu: after.ppu.register_written(4, byte), ..after };
        lemma_oam_data_write(bus.ppu, byte);
        lemma_dma_from_ram(next, base, i + 1);
        let a = bus.ppu.oam_addr();
        assert(next.ppu.oam_addr() == a.wrapping_add(1));
        assert forall|j: int| 0 <= j < 256 implies #[trigger] bus.dma_from(base, i).ppu.oam_view()[j] == if oam_offset(a, j) < 256 - i {
            bus.cpu_ram@[ram_index((base + i + oam_offset(a, j)) as u16)]
        } else {
            bus.ppu.oam_view()[j]
        } by {
            assert(next.dma_from(base, i + 1).ppu.oam_view()[j] == if oam_offset(next.ppu.oam_addr(), j) < 256 - (i
                + 1) {
                next.cpu_ram@[ram_index((base + (i + 1) + oam_offset(next.ppu.oam_addr(), j)) as u16)]
            } else {
                next.ppu.oam_view()[j]
            });
            if j == a as int {
                assert(oam_offset(a, j) == 0);
                assert(oam_offset(next.ppu.oam_addr(), j) == 255);
            } else {
                assert(oam_offset(next.ppu.oam_addr(), j) == oam_offset(a, j) - 1);
            }
        }
    }
}

/// An OAM DMA from a page of internal RAM copies its 256 bytes into OAM, from
/// OAMADDR up and wrapping, and takes `DMA_CYCLES` cycles.
pub proof fn lemma_dma_copies_page<M: Mapper>(bus: NesBus<M>, page: u8)
    requires
        bus.pending_dma() == Some(page),
        page < 0x20,
    ensures
        bus.dma_effect().0 == DMA_CYCLES,
        bus.dma_effect().1.pending_dma() is None,
        bus.dma_effect().1.ram() == bus.ram(),
        bus.dma_effect().1.ppu_state().oam_addr() == bus.ppu_state().oam_addr(),
        forall|k: int|
            0 <= k < 256 ==> #[trigger] bus.dma_effect().1.ppu_state().oam_view()[(bus.ppu_state().oam_addr() + k)
                % 256] == bus.ram()[ram_index((page * 256 + k) as u16)],
{
    let base = ((page as u16) * 256) as u16;
    let start = NesBus { dma_pending: None, ..bus };
    lemma_dma_from_ram(start, base, 0);
    assert forall|k: int| 0 <= k < 256 implies #[trigger] bus.dma_effect().1.ppu_state().oam_view()[(
    bus.ppu_state().oam_addr() + k) % 256] == bus.ram()[ram_index((page * 256 + k) as u16)] by {
        let j = (bus.ppu.oam_addr() + k) % 256;
        assert(oam_offset(bus.ppu.oam_addr(), j) == k);
    }
}

} // verus!
