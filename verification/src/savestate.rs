use vstd::prelude::*;
use crate::apu::APU;
use crate::apu::consts::{NOISE_PERIOD_TABLE, DMC_RATE_TABLE};
use crate::cpu::mapper::Mapper;
use crate::emulator::{Emulator, sha256, sha256_digest};

verus! {

/// Why a savestate could not be written, read or applied.
pub type SaveError = String;

/// The first eight bytes of every savestate file: "NESSTATE" in ASCII.
pub const MAGIC: [u8; 8] = [0x4E, 0x45, 0x53, 0x53, 0x54, 0x41, 0x54, 0x45];

/// The savestate format version; files of any other version are refused.
pub const VERSION: u32 = 2;

/// The largest savestate file accepted, header included: 1 MiB.
pub const MAX_FILE_SIZE: u64 = 1024 * 1024;

/// The header: magic, version, the ROM's SHA-256 and the payload's SHA-256.
pub const HEADER_SIZE: usize = 8 + 4 + 32 + 32;

/// Everything needed to put the machine back where it was.
#[derive(Clone, Debug)]
pub struct SaveState {
    pub cpu: CpuState,
    pub bus: BusState,
}

/// The CPU's registers and cycle counter.
#[derive(Clone, Copy, Debug, PartialEq, Eq, Structural)]
pub struct CpuState {
    pub a: u8,
    pub x: u8,
    pub y: u8,
    pub pc: u16,
    pub s: u8,
    pub p: u8,
    pub cycle_count: u64,
}

/// The bus: internal RAM, a pending DMA, and every device on it.
#[derive(Clone, Debug)]
pub struct BusState {
    pub cpu_ram: [u8; 0x0800],
    pub dma_pending: Option<u8>,
    pub ppu: PpuState,
    pub apu: ApuState,
    pub mapper: MapperState,
    pub controller1: ControllerSnapshot,
    pub controller2: ControllerSnapshot,
}

/// The PPU's registers, memories, pipelines and picture, field for field.
#[derive(Clone, Debug)]
pub struct PpuState {
    pub nmi_enable: bool,
    pub sprites_8x16: bool,
    pub bg_pattern_table_addr: u16,
    pub sprite_pattern_table_addr: u16,
    pub vram_addr_inc: u8,
    pub emphasize_blue: bool,
    pub emphasize_green: bool,
    pub emphasize_red: bool,
    pub sprite_rendering: bool,
    pub bg_rendering: bool,
    pub show_sprites_in_leftmost: bool,
    pub show_bg_in_leftmost: bool,
    pub grayscale: bool,
    pub vblank_flag: bool,
    pub sprite0_hit: bool,
    pub sprite_overflow: bool,
    pub oam_addr: u8,
    pub oam: [u8; 256],
    pub oam2: [u8; 32],
    pub v: u16,
    pub t: u16,
    pub x: u8,
    pub w: bool,
    pub read_buffer: u8,
    pub io_latch: u8,
    pub scanline: i16,
    pub dot: u16,
    pub odd_frame: bool,
    pub nmi_pending: bool,
    pub vram: [u8; 2048],
    pub palette_ram: [u8; 32],
    pub bg_shift_lo: u16,
    pub bg_shift_hi: u16,
    pub attr_shift_lo: u8,
    pub attr_shift_hi: u8,
    pub attr_latch_lo: bool,
    pub attr_latch_hi: bool,
    pub nt_latch: u8,
    pub at_latch: u8,
    pub bg_lo_latch: u8,
    pub bg_hi_latch: u8,
    pub sprite_pattern_lo: [u8; 8],
    pub sprite_pattern_hi: [u8; 8],
    pub sprite_attr: [u8; 8],
    pub sprite_x: [u8; 8],
    pub sprite_zero_next: bool,
    pub sprite_zero_current: bool,
    pub framebuffer: Vec<(u8, u8, u8)>,
    pub frame_complete_flag: bool,
}

/// The APU's channels and frame sequencer. The audio filter and the sample
/// clock are floating point and are kept by the audio output beside it.
#[derive(Clone, Copy, Debug, PartialEq, Eq, Structural)]
pub struct ApuState {
    pub pulse1: PulseChannelState,
    pub pulse2: PulseChannelState,
    pub cycle_parity: bool,
    pub triangle: TriangleChannelState,
    pub noise: NoiseChannelState,
    pub dmc: DmcChannelState,
    pub status: u8,
    pub frame_counter: u8,
    pub io_latch: u8,
    pub frame_cycle: u32,
    pub frame_step: u8,
    pub mode_5step: bool,
    pub irq_inhibit: bool,
    pub frame_irq_pending: bool,
}

/// A pulse channel's registers and counters, field for field.
#[derive(Clone, Copy, Debug, PartialEq, Eq, Structural)]
pub struct PulseChannelState {
    pub duty_env: u8,
    pub sweep: u8,
    pub timer_lo: u8,
    pub length_timer_hi: u8,
    pub timer_period: u16,
    pub timer_counter: u16,
    pub sequencer_pos: u8,
    pub length_counter: u8,
    pub length_halt: bool,
    pub envelope_start: bool,
    pub envelope_decay: u8,
    pub envelope_counter: u8,
    pub constant_volume: bool,
    pub volume_or_period: u8,
    pub sweep_enabled: bool,
    pub sweep_period: u8,
    pub sweep_negate: bool,
    pub sweep_shift: u8,
    pub sweep_counter: u8,
    pub sweep_reload: bool,
    pub enabled: bool,
    pub is_channel2: bool,
}

/// The triangle channel's registers and counters, field for field.
#[derive(Clone, Copy, Debug, PartialEq, Eq, Structural)]
pub struct TriangleChannelState {
    pub linear_ctrl: u8,
    pub timer_lo: u8,
    pub length_timer_hi: u8,
    pub timer_period: u16,
    pub timer_counter: u16,
    pub sequencer_pos: u8,
    pub length_counter: u8,
    pub control_flag: bool,
    pub linear_counter: u8,
    pub linear_reload_value: u8,
    pub linear_reload_flag: bool,
    pub enabled: bool,
}

/// The DMC channel's registers, sample reader and output unit, field for field.
#[derive(Clone, Copy, Debug, PartialEq, Eq, Structural)]
pub struct DmcChannelState {
    pub irq_enable: bool,
    pub loop_flag: bool,
    pub rate_index: u8,
    pub sample_addr_reg: u8,
    pub sample_length_reg: u8,
    pub timer_period: u16,
    pub timer_counter: u16,
    pub current_addr: u16,
    pub bytes_remaining: u16,
    pub sample_buffer: Option<u8>,
    pub shift_register: u8,
    pub bits_remaining: u8,
    pub output_level: u8,
    pub silence_flag: bool,
    pub enabled: bool,
    pub irq_pending: bool,
}

/// A controller's buttons, shift register and strobe.
#[derive(Clone, Copy, Debug, PartialEq, Eq, Structural)]
pub struct ControllerSnapshot {
    pub button_state: u8,
    pub shift_reg: u8,
    pub strobe: bool,
}

/// What a cartridge board keeps between power cycles of a savestate: its RAM and
/// its bank registers.
#[derive(Clone, Debug)]
#[allow(inconsistent_fields)]
pub enum MapperState {
    Nrom { prg_ram: [u8; 0x2000], chr_ram: Vec<u8> },
    Uxrom { selected_bank: u8, chr_ram: [u8; 0x2000] },
    Cnrom { selected_chr_bank: u8 },
}

/// The noise channel's registers and counters, field for field.
#[derive(Clone, Copy, Debug, PartialEq, Eq, Structural)]
pub struct NoiseChannelState {
    pub env: u8,
    pub mode_period: u8,
    pub length: u8,
    pub timer_period: u16,
    pub timer_counter: u16,
    pub shift_reg: u16,
    pub length_counter: u8,
    pub length_halt: bool,
    pub envelope_start: bool,
    pub envelope_decay: u8,
    pub envelope_counter: u8,
    pub constant_volume: bool,
    pub volume_or_period: u8,
    pub mode_short: bool,
    pub enabled: bool,
}


/// A pulse channel at power-on: every register, counter and flag cleared; only
/// which of the two channels it is (the sweep's negate rule) is set.
pub open spec fn pulse_power_on(is_channel2: bool) -> PulseChannelState {
    PulseChannelState {
        duty_env: 0,
        sweep: 0,
        timer_lo: 0,
        length_timer_hi: 0,
        timer_period: 0,
        timer_counter: 0,
        sequencer_pos: 0,
        length_counter: 0,
        length_halt: false,
        envelope_start: false,
        envelope_decay: 0,
        envelope_counter: 0,
        constant_volume: false,
        volume_or_period: 0,
        sweep_enabled: false,
        sweep_period: 0,
        sweep_negate: false,
        sweep_shift: 0,
        sweep_counter: 0,
        sweep_reload: false,
        enabled: false,
        is_channel2,
    }
}

/// The triangle channel at power-on: everything cleared.
pub open spec fn triangle_power_on() -> TriangleChannelState {
    TriangleChannelState {
        linear_ctrl: 0,
        timer_lo: 0,
        length_timer_hi: 0,
        timer_period: 0,
        timer_counter: 0,
        sequencer_pos: 0,
        length_counter: 0,
        control_flag: false,
        linear_counter: 0,
        linear_reload_value: 0,
        linear_reload_flag: false,
        enabled: false,
    }
}

/// The noise channel at power-on: the shortest period and the shift register at 1.
pub open spec fn noise_power_on() -> NoiseChannelState {
    NoiseChannelState {
        env: 0,
        mode_period: 0,
        length: 0,
        timer_period: NOISE_PERIOD_TABLE[0],
        timer_counter: 0,
        shift_reg: 1,
        length_counter: 0,
        length_halt: false,
        envelope_start: false,
        envelope_decay: 0,
        envelope_counter: 0,
        constant_volume: false,
        volume_or_period: 0,
        mode_short: false,
        enabled: false,
    }
}

/// The DMC at power-on: the first rate, the sample address at 0xC000, no sample
/// buffered, eight bits to go and the output unit silent.
pub open spec fn dmc_power_on() -> DmcChannelState {
    DmcChannelState {
        irq_enable: false,
        loop_flag: false,
        rate_index: 0,
        sample_addr_reg: 0,
        sample_length_reg: 0,
        timer_period: DMC_RATE_TABLE[0],
        timer_counter: 0,
        current_addr: 0xC000,
        bytes_remaining: 0,
        sample_buffer: None,
        shift_register: 0,
        bits_remaining: 8,
        output_level: 0,
        silence_flag: true,
        enabled: false,
        irq_pending: false,
    }
}

/// The APU at power-on: each channel at power-on, pulse 1 before pulse 2, and the
/// frame sequencer at its first step in four-step mode.
pub open spec fn apu_power_on() -> ApuState {
    ApuState {
        pulse1: pulse_power_on(false),
        pulse2: pulse_power_on(true),
        cycle_parity: false,
        triangle: triangle_power_on(),
        noise: noise_power_on(),
        dmc: dmc_power_on(),
        status: 0,
        frame_counter: 0,
        io_latch: 0,
        frame_cycle: 0,
        frame_step: 0,
        mode_5step: false,
        irq_inhibit: false,
        frame_irq_pending: false,
    }
}

/// A PPU state at power-on: PPUCTRL, PPUMASK and PPUSTATUS clear with an address
/// step of 1; OAM, secondary OAM, VRAM, palette RAM and every latch, shifter and
/// address zero; the beam at dot 0 of the pre-render line of an even frame; no
/// NMI pending; a black picture not yet complete.
pub open spec fn ppu_power_on(s: PpuState) -> bool {
    &&& !s.nmi_enable && !s.sprites_8x16
    &&& s.bg_pattern_table_addr == 0 && s.sprite_pattern_table_addr == 0
    &&& s.vram_addr_inc == 1
    &&& !s.emphasize_blue && !s.emphasize_green && !s.emphasize_red
    &&& !s.sprite_rendering && !s.bg_rendering
    &&& !s.show_sprites_in_leftmost && !s.show_bg_in_leftmost && !s.grayscale
    &&& !s.vblank_flag && !s.sprite0_hit && !s.sprite_overflow
    &&& s.oam_addr == 0
    &&& s.oam@ == Seq::new(256, |_i: int| 0u8)
    &&& s.oam2@ == Seq::new(32, |_i: int| 0u8)
    &&& s.v == 0 && s.t == 0 && s.x == 0 && !s.w
    &&& s.read_buffer == 0 && s.io_latch == 0
    &&& s.scanline == -1 && s.dot == 0 && !s.odd_frame && !s.nmi_pending
    &&& s.vram@ == Seq::new(2048, |_i: int| 0u8)
    &&& s.palette_ram@ == Seq::new(32, |_i: int| 0u8)
    &&& s.bg_shift_lo == 0 && s.bg_shift_hi == 0
    &&& s.attr_shift_lo == 0 && s.attr_shift_hi == 0
    &&& !s.attr_latch_lo && !s.attr_latch_hi
    &&& s.nt_latch == 0 && s.at_latch == 0 && s.bg_lo_latch == 0 && s.bg_hi_latch == 0
    &&& s.sprite_pattern_lo@ == Seq::new(8, |_i: int| 0u8)
    &&& s.sprite_pattern_hi@ == Seq::new(8, |_i: int| 0u8)
    &&& s.sprite_attr@ == Seq::new(8, |_i: int| 0u8)
    &&& s.sprite_x@ == Seq::new(8, |_i: int| 0u8)
    &&& !s.sprite_zero_next && !s.sprite_zero_current
    &&& s.framebuffer@ == Seq::new(61440, |_i: int| (0u8, 0u8, 0u8))
    &&& !s.frame_complete_flag
}

/// The component data a savestate may hold: a full picture, the PPU's beam and
/// registers in range, and the APU's sequencers and counters in range.
pub open spec fn component_data_valid(state: SaveState) -> bool {
    let p = state.bus.ppu;
    let a = state.bus.apu;
    &&& p.framebuffer@.len() == 61440
    &&& -1 <= p.scanline <= 260
    &&& p.dot <= 340
    &&& p.x < 8
    &&& p.v <= 0x7fff
    &&& p.t <= 0x7fff
    &&& (p.bg_pattern_table_addr == 0 || p.bg_pattern_table_addr == 0x1000)
    &&& (p.sprite_pattern_table_addr == 0 || p.sprite_pattern_table_addr == 0x1000)
    &&& (p.vram_addr_inc == 1 || p.vram_addr_inc == 32)
    &&& a.pulse1.sequencer_pos < 8
    &&& a.pulse2.sequencer_pos < 8
    &&& a.pulse1.sweep_shift < 8
    &&& a.pulse2.sweep_shift < 8
    &&& a.triangle.sequencer_pos < 32
    &&& a.dmc.rate_index < 16
    &&& a.dmc.bits_remaining <= 8
    &&& a.dmc.output_level < 128
}

/// Checks the component data of a savestate before it is applied.
pub fn validate(state: &SaveState) -> (r: Result<(), SaveError>)
    ensures
        match r {
            Ok(()) => component_data_valid(*state),
            Err(e) => !component_data_valid(*state) && e@ == "invalid savestate component data"@,
        },
{
    let p = &state.bus.ppu;
    let a = &state.bus.apu;
    let valid = p.framebuffer.len() == 61440 && -1 <= p.scanline && p.scanline <= 260 && p.dot <= 340 && p.x < 8
        && p.v <= 0x7fff && p.t <= 0x7fff && (p.bg_pattern_table_addr == 0 || p.bg_pattern_table_addr == 0x1000)
        && (p.sprite_pattern_table_addr == 0 || p.sprite_pattern_table_addr == 0x1000) && (p.vram_addr_inc == 1
        || p.vram_addr_inc == 32) && a.pulse1.sequencer_pos < 8 && a.pulse2.sequencer_pos < 8
        && a.pulse1.sweep_shift < 8 && a.pulse2.sweep_shift < 8 && a.triangle.sequencer_pos < 32
        && a.dmc.rate_index < 16 && a.dmc.bits_remaining <= 8 && a.dmc.output_level < 128;
    if valid {
        Ok(())
    } else {
        Err("invalid savestate component data".to_owned())
    }
}

/// The format version as it is stored: four bytes, least significant first.
pub open spec fn version_bytes() -> Seq<u8> {
    seq![(VERSION % 256) as u8, (VERSION / 256 % 256) as u8, (VERSION / 65536 % 256) as u8, (VERSION / 16777216) as u8]
}

/// A savestate file around `payload`: the magic, the version, the ROM's digest,
/// the payload's digest, then the payload.
pub open spec fn framed(fingerprint: Seq<u8>, payload: Seq<u8>) -> Seq<u8> {
    MAGIC@ + version_bytes() + fingerprint + sha256_digest(payload) + payload
}

/// Why `bytes` is not a savestate file of the ROM with digest `fingerprint`, or
/// `None` when it is one.
pub open spec fn frame_error(fingerprint: Seq<u8>, bytes: Seq<u8>) -> Option<Seq<char>> {
    if bytes.len() < HEADER_SIZE || bytes.len() > MAX_FILE_SIZE {
        Some("invalid savestate size"@)
    } else if bytes.subrange(0, 8) != MAGIC@ || bytes.subrange(8, 12) != version_bytes() {
        Some("unsupported savestate format or version"@)
    } else if bytes.subrange(12, 44) != fingerprint {
        Some("savestate belongs to a different ROM"@)
    } else if bytes.subrange(44, 76) != sha256_digest(bytes.subrange(76, bytes.len() as int)) {
        Some("savestate checksum mismatch"@)
    } else {
        None
    }
}

fn version_le() -> (bytes: [u8; 4])
    ensures
        bytes@ == version_bytes(),
{
    let bytes = [(VERSION % 256) as u8, (VERSION / 256 % 256) as u8, (VERSION / 65536 % 256) as u8, (VERSION / 16777216) as u8];
    assert(bytes@ =~= version_bytes());
    bytes
}

/// Appends `tail` to `bytes`.
fn append(bytes: &mut Vec<u8>, tail: &[u8])
    ensures
        final(bytes)@ == old(bytes)@ + tail@,
{
    let mut i: usize = 0;
    while i < tail.len()
        invariant
            i <= tail@.len(),
            bytes@ == old(bytes)@ + tail@.subrange(0, i as int),
        decreases tail.len() - i,
    {
        bytes.push(tail[i]);
        i = i + 1;
        assert(tail@.subrange(0, i as int) =~= tail@.subrange(0, i - 1) .push(tail@[i - 1]));
    }
    assert(tail@.subrange(0, tail@.len() as int) =~= tail@);
}

/// Whether `bytes` holds `expected` at `start`.
fn matches_at(bytes: &[u8], start: usize, expected: &[u8]) -> (r: bool)
    requires
        start + expected@.len() <= bytes@.len(),
    ensures
        r == (bytes@.subrange(start as int, start + expected@.len()) == expected@),
{
    let n = bytes.len();
    let mut i: usize = 0;
    while i < expected.len()
        invariant
            i <= expected@.len(),
            n == bytes@.len(),
            start + expected@.len() <= bytes@.len(),
            forall|j: int| 0 <= j < i ==> bytes@[start + j] == expected@[j],
        decreases expected.len() - i,
    {
        if bytes[start + i] != expected[i] {
            assert(bytes@.subrange(start as int, start + expected@.len())[i as int] != expected@[i as int]);
            return false;
        }
        i = i + 1;
    }
    assert(bytes@.subrange(start as int, start + expected@.len()) =~= expected@);
    true
}

/// The bytes of `bytes` from `start` on.
fn tail_from(bytes: &[u8], start: usize) -> (tail: Vec<u8>)
    requires
        start <= bytes@.len(),
    ensures
        tail@ == bytes@.subrange(start as int, bytes@.len() as int),
{
    let mut tail: Vec<u8> = Vec::new();
    let mut i: usize = start;
    while i < bytes.len()
        invariant
            start <= i <= bytes@.len(),
            tail@ == bytes@.subrange(start as int, i as int),
        decreases bytes.len() - i,
    {
        tail.push(bytes[i]);
        i = i + 1;
        assert(tail@ =~= bytes@.subrange(start as int, i as int));
    }
    tail
}

/// Wraps a serialized savestate in its header.
pub fn encode_frame(fingerprint: &[u8; 32], payload: &[u8]) -> (bytes: Vec<u8>)
    ensures
        bytes@ == framed(fingerprint@, payload@),
{
    let mut bytes: Vec<u8> = Vec::new();
    append(&mut bytes, MAGIC.as_slice());
    let version = version_le();
    append(&mut bytes, version.as_slice());
    append(&mut bytes, fingerprint.as_slice());
    let digest = sha256(payload);
    append(&mut bytes, digest.as_slice());
    append(&mut bytes, payload);
    bytes
}

/// Checks the header of a savestate file for the ROM with digest `fingerprint`
/// and returns its payload.
pub fn decode_frame(fingerprint: &[u8; 32], bytes: &[u8]) -> (r: Result<Vec<u8>, SaveError>)
    ensures
        match r {
            Ok(payload) => frame_error(fingerprint@, bytes@) is None && payload@ == bytes@.subrange(
                HEADER_SIZE as int,
                bytes@.len() as int,
            ),
            Err(e) => frame_error(fingerprint@, bytes@) == Some(e@),
        },
{
    if bytes.len() < HEADER_SIZE || bytes.len() as u64 > MAX_FILE_SIZE {
        return Err("invalid savestate size".to_owned());
    }
    let version = version_le();
    if !matches_at(bytes, 0, MAGIC.as_slice()) || !matches_at(bytes, 8, version.as_slice()) {
        return Err("unsupported savestate format or version".to_owned());
    }
    if !matches_at(bytes, 12, fingerprint.as_slice()) {
        return Err("savestate belongs to a different ROM".to_owned());
    }
    let payload = tail_from(bytes, HEADER_SIZE);
    let digest = sha256(payload.as_slice());
    if !matches_at(bytes, 44, digest.as_slice()) {
        return Err("savestate checksum mismatch".to_owned());
    }
    Ok(payload)
}

/// Takes a savestate of the whole machine.
pub fn capture(emu: &Emulator) -> (r: Result<SaveState, SaveError>)
    ensures
        r matches Ok(state) && state.cpu == emu.machine().registers() && emu.machine().bus.saved_as(state.bus),
{
    emu.save_state()
}

/// Why `state` cannot be applied to `emu`, or `None` when it can: the component
/// data must be valid, the APU's frame sequencer must sit on a step of its mode
/// before the last boundary, and the cartridge must accept its part.
pub open spec fn restore_error(emu: Emulator, state: SaveState) -> Option<Seq<char>> {
    if !component_data_valid(state) || !APU::loadable(state.bus.apu) {
        Some("invalid savestate component data"@)
    } else {
        emu.machine().bus.cartridge_state().load_error(state.bus.mapper)
    }
}

/// Applies a savestate to the machine; when it is refused the machine is left as
/// it was.
pub fn restore(emu: &mut Emulator, state: &SaveState) -> (r: Result<(), SaveError>)
    ensures
        match restore_error(*old(emu), *state) {
            Some(msg) => (r matches Err(e) && e@ == msg) && *final(emu) == *old(emu),
            None => {
                &&& r is Ok
                &&& final(emu).machine().registers() == state.cpu
                &&& old(emu).machine().bus.loaded_from(state.bus, final(emu).machine().bus)
                &&& final(emu).metadata() == old(emu).metadata()
                &&& final(emu).fingerprint() == old(emu).fingerprint()
                &&& final(emu).rom_filename() == old(emu).rom_filename()
            },
        },
{
    match validate(state) {
        Ok(()) => {},
        Err(e) => {
            return Err(e);
        },
    }
    let a = &state.bus.apu;
    let sequencer_fits = a.frame_step < (if a.mode_5step { 5u8 } else { 4u8 });
    if !sequencer_fits {
        return Err("invalid savestate component data".to_owned());
    }
    emu.load_state(state)
}

/// Two PPU states record the same PPU: every field equal, the pictures equal
/// pixel for pixel.
pub open spec fn ppu_states_agree(a: PpuState, b: PpuState) -> bool {
    &&& a.nmi_enable == b.nmi_enable
    &&& a.sprites_8x16 == b.sprites_8x16
    &&& a.bg_pattern_table_addr == b.bg_pattern_table_addr
    &&& a.sprite_pattern_table_addr == b.sprite_pattern_table_addr
    &&& a.vram_addr_inc == b.vram_addr_inc
    &&& a.emphasize_blue == b.emphasize_blue
    &&& a.emphasize_green == b.emphasize_green
    &&& a.emphasize_red == b.emphasize_red
    &&& a.sprite_rendering == b.sprite_rendering
    &&& a.bg_rendering == b.bg_rendering
    &&& a.show_sprites_in_leftmost == b.show_sprites_in_leftmost
    &&& a.show_bg_in_leftmost == b.show_bg_in_leftmost
    &&& a.grayscale == b.grayscale
    &&& a.vblank_flag == b.vblank_flag
    &&& a.sprite0_hit == b.sprite0_hit
    &&& a.sprite_overflow == b.sprite_overflow
    &&& a.oam_addr == b.oam_addr
    &&& a.oam == b.oam
    &&& a.oam2 == b.oam2
    &&& a.v == b.v
    &&& a.t == b.t
    &&& a.x == b.x
    &&& a.w == b.w
    &&& a.read_buffer == b.read_buffer
    &&& a.io_latch == b.io_latch
    &&& a.scanline == b.scanline
    &&& a.dot == b.dot
    &&& a.odd_frame == b.odd_frame
    &&& a.nmi_pending == b.nmi_pending
    &&& a.vram == b.vram
    &&& a.palette_ram == b.palette_ram
    &&& a.bg_shift_lo == b.bg_shift_lo
    &&& a.bg_shift_hi == b.bg_shift_hi
    &&& a.attr_shift_lo == b.attr_shift_lo
    &&& a.attr_shift_hi == b.attr_shift_hi
    &&& a.attr_latch_lo == b.attr_latch_lo
    &&& a.attr_latch_hi == b.attr_latch_hi
    &&& a.nt_latch == b.nt_latch
    &&& a.at_latch == b.at_latch
    &&& a.bg_lo_latch == b.bg_lo_latch
    &&& a.bg_hi_latch == b.bg_hi_latch
    &&& a.sprite_pattern_lo == b.sprite_pattern_lo
    &&& a.sprite_pattern_hi == b.sprite_pattern_hi
    &&& a.sprite_attr == b.sprite_attr
    &&& a.sprite_x == b.sprite_x
    &&& a.sprite_zero_next == b.sprite_zero_next
    &&& a.sprite_zero_current == b.sprite_zero_current
    &&& a.framebuffer@ == b.framebuffer@
    &&& a.frame_complete_flag == b.frame_complete_flag
}

/// A savestate file read back gives the payload that was written, for the ROM it
/// was written for; the file of another ROM is refused.
pub proof fn lemma_frame_roundtrip(fingerprint: Seq<u8>, payload: Seq<u8>, other: Seq<u8>)
    requires
        fingerprint.len() == 32,
        other.len() == 32,
        sha256_digest(payload).len() == 32,
        payload.len() + HEADER_SIZE <= MAX_FILE_SIZE,
    ensures
        frame_error(fingerprint, framed(fingerprint, payload)) is None,
        framed(fingerprint, payload).subrange(HEADER_SIZE as int, framed(fingerprint, payload).len() as int)
            == payload,
        other != fingerprint ==> frame_error(other, framed(fingerprint, payload)) == Some(
            "savestate belongs to a different ROM"@,
        ),
{
    let bytes = framed(fingerprint, payload);
    let digest = sha256_digest(payload);
    assert(bytes.subrange(0, 8) =~= MAGIC@);
    assert(bytes.subrange(8, 12) =~= version_bytes());
    assert(bytes.subrange(12, 44) =~= fingerprint);
    assert(bytes.subrange(44, 76) =~= digest);
    assert(bytes.subrange(76, bytes.len() as int) =~= payload);
}

} // verus!
