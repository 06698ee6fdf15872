use vstd::prelude::*;
use crate::cartridge::{load_rom, rom_error, parsed_header, board_for, CartridgeHeader, CartridgeMetadata};
use crate::cpu::{CPU, Flag, Bus, NesBus, word, with_mask, stack_address, lemma_flag_set_get};
use crate::cpu::mapper::{AnyMapper, Mapper};
use crate::cpu::nes_bus::{lemma_dma_cycles, lemma_cartridge_read, lemma_cartridge_kept};
use crate::apu::APU;
use crate::ppu::PPU;
use crate::savestate::{SaveState, SaveError, PpuState, ppu_power_on, apu_power_on};
use crate::input::ControllerView;

verus! {

/// The SHA-256 digest of `data`.
pub uninterp spec fn sha256_digest(data: Seq<u8>) -> Seq<u8>;

/// sha2's `Sha256::digest`: the contract claims only that the 32 bytes returned are
/// the SHA-256 digest of `data`, a function of `data` alone.
#[verifier::external_body]
pub(crate) fn sha256(data: &[u8]) -> (digest: [u8; 32])
    ensures
        digest@ == sha256_digest(data@),
{
    <sha2::Sha256 as sha2::Digest>::digest(data).into()
}

/// The most instructions `run_one_frame` runs: as many as a frame has CPU cycles,
/// so only a run of instructions that take no cycles at all can reach it.
pub const FRAME_STEP_LIMIT: u64 = 29781;

/// The whole machine: the CPU with its bus, and what is known of the cartridge
/// it was started from.
pub struct Emulator {
    pub cpu: CPU<NesBus<AnyMapper>>,
    pub cartridge_metadata: CartridgeMetadata,
    rom_filename: String,
    rom_fingerprint: [u8; 32],
}

/// The machine after `n` PPU clocks, each NMI the PPU raises taken by the CPU at
/// once, and whether any was.
pub open spec fn ppu_ran(cpu: CPU<NesBus<AnyMapper>>, n: nat) -> (bool, CPU<NesBus<AnyMapper>>)
    decreases n,
{
    if n == 0 {
        (false, cpu)
    } else {
        let (fired, c) = ppu_ran(cpu, (n - 1) as nat);
        let (nmi, bus) = c.bus.ppu_tick_effect();
        let c2 = CPU { bus, ..c };
        if nmi {
            (true, c2.interrupted(0xFFFA, false))
        } else {
            (fired, c2)
        }
    }
}

/// The machine after an NMI: the program counter at the vector in 0xFFFA/0xFFFB
/// of the cartridge it runs, interrupts disabled.
pub open spec fn at_nmi_vector(cpu: CPU<NesBus<AnyMapper>>) -> bool {
    &&& cpu.pc == word(cpu.bus.cartridge_state().cpu_value(0xFFFA), cpu.bus.cartridge_state().cpu_value(0xFFFB))
    &&& cpu.flag(Flag::InterruptDisable)
}

/// Taking an NMI pushes to the stack, which is RAM, and then loads the vector
/// from the cartridge.
proof fn lemma_nmi_lands_on_vector(cpu: CPU<NesBus<AnyMapper>>)
    ensures
        at_nmi_vector(cpu.interrupted(0xFFFA, false)),
        cpu.interrupted(0xFFFA, false).bus.cartridge_state() == cpu.bus.cartridge_state(),
{
    let c1 = cpu.pushed((cpu.pc / 256) as u8);
    let c2 = c1.pushed((cpu.pc % 256) as u8);
    let c3 = c2.pushed(with_mask(cpu.p | 0b0010_0000, 0b0001_0000, false));
    lemma_cartridge_kept(cpu.bus, stack_address(cpu.s), (cpu.pc / 256) as u8, 0);
    lemma_cartridge_kept(c1.bus, stack_address(c1.s), (cpu.pc % 256) as u8, 0);
    lemma_cartridge_kept(c2.bus, stack_address(c2.s), with_mask(cpu.p | 0b0010_0000, 0b0001_0000, false), 0);
    let c4 = c3.with_flag(Flag::InterruptDisable, true);
    lemma_cartridge_read(c4.bus, 0xFFFA);
    lemma_cartridge_read(c4.bus, 0xFFFB);
    lemma_flag_set_get(c3, Flag::InterruptDisable, true, Flag::InterruptDisable);
}

/// PPU clocks change only the bus's PPU, and each NMI lands on the vector; so once
/// one has fired, the machine stays at the vector with interrupts disabled.
proof fn lemma_ppu_ran_nmi(cpu: CPU<NesBus<AnyMapper>>, n: nat)
    ensures
        ppu_ran(cpu, n).1.bus.cartridge_state() == cpu.bus.cartridge_state(),
        ppu_ran(cpu, n).0 ==> at_nmi_vector(ppu_ran(cpu, n).1),
    decreases n,
{
    if n > 0 {
        lemma_ppu_ran_nmi(cpu, (n - 1) as nat);
        let c = ppu_ran(cpu, (n - 1) as nat).1;
        lemma_cartridge_kept(c.bus, 0, 0, 0);
        let c2 = CPU { bus: c.bus.ppu_tick_effect().1, ..c };
        lemma_nmi_lands_on_vector(c2);
    }
}

/// The CPU after an IRQ request: taken unless interrupts are disabled.
pub open spec fn irq_served(cpu: CPU<NesBus<AnyMapper>>) -> CPU<NesBus<AnyMapper>> {
    if cpu.flag(Flag::InterruptDisable) {
        cpu
    } else {
        cpu.interrupted(0xFFFE, false)
    }
}

/// The 8 KiB of pattern tables a board shows the PPU.
pub open spec fn pattern_tables_of(mapper: AnyMapper) -> Seq<u8> {
    Seq::new(0x2000, |i: int| mapper.ppu_value(i as u16))
}

impl Emulator {
    pub closed spec fn machine(&self) -> CPU<NesBus<AnyMapper>> {
        self.cpu
    }

    pub closed spec fn metadata(&self) -> CartridgeMetadata {
        self.cartridge_metadata
    }

    pub closed spec fn rom_filename(&self) -> Seq<char> {
        self.rom_filename@
    }

    /// The SHA-256 digest of the ROM image the machine was started from.
    pub closed spec fn fingerprint(&self) -> Seq<u8> {
        self.rom_fingerprint@
    }

    /// The next instruction can run: the decoder knows it, and the cycle counter has
    /// room for it.
    pub closed spec fn can_step(&self) -> bool {
        self.cpu.can_execute() && self.cpu.cycle_count <= u64::MAX - 1024
    }

    /// One step: the instruction, then three PPU clocks per CPU cycle with NMIs
    /// taken as they come, the APU for the same cycles, and an IRQ if the APU asks
    /// for one. Also whether an NMI fired.
    #[verifier::opaque]
    pub closed spec fn stepped(self) -> (bool, Self) {
        let cycles = self.cpu.step_cycles();
        let (fired, c2) = ppu_ran(self.cpu.stepped(), (cycles * 3) as nat);
        let c3 = CPU { bus: c2.bus.apu_ticked(cycles as u32), ..c2 };
        let c4 = if c3.bus.irq_line() { irq_served(c3) } else { c3 };
        (fired, Emulator { cpu: c4, ..self })
    }

    /// Steps until the PPU reports a finished frame, the next instruction cannot
    /// run, or `budget` steps have run; and whether a frame was finished.
    pub closed spec fn frame_run(self, budget: nat) -> (bool, Self)
        decreases budget,
    {
        if budget == 0 || !self.can_step() {
            (false, self)
        } else {
            let s1 = self.stepped().1;
            let (done, bus) = s1.cpu.bus.frame_complete_effect();
            let s2 = Emulator { cpu: CPU { bus, ..s1.cpu }, ..s1 };
            if done {
                (true, s2)
            } else {
                s2.frame_run((budget - 1) as nat)
            }
        }
    }

    /// The machine with `buttons` pressed on controller `port`.
    pub closed spec fn buttons_set(self, port: int, buttons: u8) -> Self {
        Emulator { cpu: CPU { bus: self.cpu.bus.buttons_set(port, buttons), ..self.cpu }, ..self }
    }

    /// The machine after the reset button: the CPU reset, then the PPU and APU.
    pub closed spec fn reset_state(self) -> Self {
        let c = self.cpu.reset_state();
        Emulator { cpu: CPU { bus: c.bus.ppu_reset().apu_reset(), ..c }, ..self }
    }

    /// Starts a machine on the iNES or NES 2.0 image `bytes`.
    pub fn from_rom(bytes: &[u8], rom_filename: String) -> (r: Result<Emulator, String>)
        ensures
            match r {
                Ok(emu) => {
                    &&& rom_error(bytes@) is None
                    &&& parsed_header(bytes@) == Ok::<CartridgeHeader, Seq<char>>(emu.metadata())
                    &&& board_for(bytes@, emu.metadata(), emu.machine().bus.cartridge_state())
                    &&& emu.fingerprint() == sha256_digest(bytes@)
                    &&& emu.rom_filename() == rom_filename@
                    &&& emu.machine().a == 0 && emu.machine().x == 0 && emu.machine().y == 0
                    &&& emu.machine().s == 0xFD && emu.machine().p == 0x20 && emu.machine().cycle_count == 0
                    &&& emu.machine().pc == word(
                        emu.machine().bus.cartridge_state().cpu_value(0xFFFC),
                        emu.machine().bus.cartridge_state().cpu_value(0xFFFD),
                    )
                    &&& emu.machine().bus.ram() == Seq::new(0x0800, |_i: int| 0u8)
                    &&& emu.machine().bus.pending_dma() is None
                    &&& emu.machine().bus.ppu_state().scanline() == -1
                    &&& emu.machine().bus.ppu_state().mirroring_of()
                        == emu.machine().bus.cartridge_state().mirroring_of()
                    &&& emu.machine().bus.ppu_state().pattern_tables()
                        == pattern_tables_of(emu.machine().bus.cartridge_state())
                    &&& forall|state: PpuState| #[trigger] emu.machine().bus.ppu_state().saved_as(state)
                        ==> ppu_power_on(state)
                    &&& emu.machine().bus.apu_state().snapshot() == apu_power_on()
                    &&& emu.machine().bus.controller(1)@ == (ControllerView { button_state: 0, shift_reg: 0, strobe: false })
                    &&& emu.machine().bus.controller(2)@ == (ControllerView { button_state: 0, shift_reg: 0, strobe: false })
                },
                Err(e) => rom_error(bytes@) == Some(e@),
            },
    {
        let rom = match load_rom(bytes) {
            Ok(rom) => rom,
            Err(e) => {
                return Err(e);
            },
        };
        let rom_fingerprint = sha256(bytes);
        let mirroring = rom.mapper.mirroring();
        let chr = pattern_tables(&rom.mapper);
        let bus = NesBus::new(Box::new(rom.mapper), mirroring, chr);
        proof {
            lemma_cartridge_read(bus, 0xFFFC);
            lemma_cartridge_read(bus, 0xFFFD);
        }
        let mut cpu = CPU::new(Box::new(bus));
        cpu.reset();
        Ok(Emulator { cpu, cartridge_metadata: rom.metadata, rom_filename, rom_fingerprint })
    }

    /// Whether the next instruction can run.
    pub fn ready(&self) -> (r: bool)
        ensures
            r == self.can_step(),
    {
        self.cpu.can_execute_now() && self.cpu.cycle_count <= u64::MAX - 1024
    }

    /// Runs one instruction and everything clocked by it; returns whether an NMI
    /// fired.
    pub fn step(&mut self) -> (nmi_fired: bool)
        requires
            old(self).can_step(),
        ensures
            (nmi_fired, *final(self)) == old(self).stepped(),
    {
        proof {
            lemma_dma_cycles::<AnyMapper>();
            reveal(Emulator::stepped);
        }
        let ghost cycles = self.cpu.step_cycles();
        let cpu_cycles = self.cpu.tick();
        let ghost after_tick = self.cpu;
        let mut nmi_fired = false;

        let total: u32 = cpu_cycles as u32 * 3;
        let mut i: u32 = 0;
        while i < total
            invariant
                i <= total,
                total == cycles * 3,
                (nmi_fired, self.cpu) == ppu_ran(after_tick, i as nat),
                self.cartridge_metadata == old(self).cartridge_metadata,
                self.rom_filename == old(self).rom_filename,
                self.rom_fingerprint == old(self).rom_fingerprint,
            decreases total - i,
        {
            if self.cpu.tick_ppu() {
                self.cpu.nmi();
                nmi_fired = true;
            }
            i = i + 1;
        }

        self.cpu.tick_apu(cpu_cycles as u32);

        if self.cpu.irq_pending() {
            self.cpu.irq();
        }

        nmi_fired
    }

    /// Runs until the PPU finishes a frame; returns whether it did, or stops early
    /// when the next instruction cannot run or after `FRAME_STEP_LIMIT` steps.
    pub fn run_one_frame(&mut self) -> (completed: bool)
        ensures
            (completed, *final(self)) == old(self).frame_run(FRAME_STEP_LIMIT as nat),
    {
        let ghost start = *self;
        let mut steps: u64 = 0;
        while steps < FRAME_STEP_LIMIT
            invariant
                steps <= FRAME_STEP_LIMIT,
                start == *old(self),
                start.frame_run(FRAME_STEP_LIMIT as nat) == self.frame_run((FRAME_STEP_LIMIT - steps) as nat),
            decreases FRAME_STEP_LIMIT - steps,
        {
            if !self.ready() {
                return false;
            }
            self.step();
            if self.cpu.frame_complete() {
                return true;
            }
            steps = steps + 1;
        }
        false
    }

    // passthru from cpu from bus
    pub fn set_controller1(&mut self, buttons: u8)
        ensures
            *final(self) == old(self).buttons_set(1, buttons),
    {
        self.cpu.set_controller1(buttons);
    }

    pub fn set_controller2(&mut self, buttons: u8)
        ensures
            *final(self) == old(self).buttons_set(2, buttons),
    {
        self.cpu.set_controller2(buttons);
    }

    pub fn reset(&mut self)
        ensures
            *final(self) == old(self).reset_state(),
    {
        self.cpu.reset();
        self.cpu.reset_ppu();
        self.cpu.reset_apu();
    }

    /// The machine's state: the CPU's registers and the whole bus.
    pub fn save_state(&self) -> (r: Result<SaveState, SaveError>)
        ensures
            r matches Ok(state) && state.cpu == self.machine().registers() && self.machine().bus.saved_as(state.bus),
    {
        let bus = match self.cpu.bus.save_bus_state() {
            Ok(bus) => bus,
            Err(e) => {
                return Err(e);
            },
        };
        Ok(SaveState { cpu: self.cpu.save_state(), bus })
    }

    /// Puts the machine in `state`; when the cartridge refuses its part, the
    /// machine is left as it was.
    pub fn load_state(&mut self, state: &SaveState) -> (r: Result<(), SaveError>)
        requires
            PPU::loadable(state.bus.ppu),
            APU::loadable(state.bus.apu),
        ensures
            match old(self).machine().bus.cartridge_state().load_error(state.bus.mapper) {
                Some(msg) => (r matches Err(e) && e@ == msg) && *final(self) == *old(self),
                None => {
                    &&& r is Ok
                    &&& final(self).machine().registers() == state.cpu
                    &&& old(self).machine().bus.loaded_from(state.bus, final(self).machine().bus)
                    &&& final(self).metadata() == old(self).metadata()
                    &&& final(self).fingerprint() == old(self).fingerprint()
                    &&& final(self).rom_filename() == old(self).rom_filename()
                },
            },
    {
        match self.cpu.bus.load_bus_state(&state.bus) {
            Ok(()) => {},
            Err(e) => {
                return Err(e);
            },
        }
        self.cpu.load_state(&state.cpu);
        Ok(())
    }

    pub fn rom_fingerprint(&self) -> (digest: [u8; 32])
        ensures
            digest@ == self.fingerprint(),
    {
        self.rom_fingerprint
    }

    pub fn rom_file_name(&self) -> (name: &str)
        ensures
            name@ == self.rom_filename(),
    {
        self.rom_filename.as_str()
    }
}

/// A step that reports an NMI ends with the program counter at the NMI vector,
/// read from 0xFFFA/0xFFFB of the cartridge, and interrupts disabled: the APU's
/// IRQ, if it asks, is not taken after it.
pub proof fn lemma_nmi_step_at_vector(emu: Emulator)
    ensures
        emu.stepped().0 ==> at_nmi_vector(emu.stepped().1.machine()),
{
    reveal(Emulator::stepped);
    let cycles = emu.cpu.step_cycles();
    let c2 = ppu_ran(emu.cpu.stepped(), (cycles * 3) as nat).1;
    lemma_ppu_ran_nmi(emu.cpu.stepped(), (cycles * 3) as nat);
    lemma_cartridge_kept(c2.bus, 0, 0, cycles as u32);
}

/// The pattern tables a board shows the PPU, read through its PPU port.
fn pattern_tables(mapper: &AnyMapper) -> (chr: Vec<u8>)
    ensures
        chr@ == pattern_tables_of(*mapper),
{
    let mut chr: Vec<u8> = Vec::new();
    let mut address: u16 = 0;
    while address < 0x2000
        invariant
            address <= 0x2000,
            chr@.len() == address,
            forall|i: int| 0 <= i < address ==> chr@[i] == mapper.ppu_value(i as u16),
        decreases 0x2000 - address,
    {
        chr.push(mapper.ppu_read(address));
        address = address + 1;
    }
    assert(chr@ =~= pattern_tables_of(*mapper));
    chr
}

} // verus!
