// Known gaps in the APU model: the CPU stall of DMC fetches and some sub-cycle
// behavior on writes to 0x4017 are not emulated.

pub mod consts;
pub mod pulse;
pub mod triangle;
pub mod noise;
pub mod dmc;

use vstd::prelude::*;
use crate::apu::pulse::PulseChannel;
use crate::apu::noise::NoiseChannel;
use crate::apu::triangle::TriangleChannel;
use crate::apu::dmc::DmcChannel;
use crate::savestate::{ApuState, apu_power_on};

verus! {

/*
APU register reference (in CPU address space)
0x4000-0x4003 pulse 1: duty/envelope, sweep, timer low, length/timer high
0x4004-0x4007 pulse 2: the same
0x4008-0x400B triangle: linear counter, (unused), timer low, length/timer high
0x400C-0x400F noise: envelope, (unused), mode/period, length
0x4010-0x4013 DMC: control, direct load, sample address, sample length
0x4015 channel enable and length counter status
0x4017 frame counter

https://www.nesdev.org/wiki/APU_registers
*/

/// How many steps the frame sequencer has in its current mode.
pub open spec fn step_count(mode_5step: bool) -> u8 {
    if mode_5step { 5 } else { 4 }
}

/// The CPU cycle at which each step of the frame sequencer fires.
pub open spec fn frame_boundary_spec(step: u8) -> u32 {
    if step == 0 {
        7457
    } else if step == 1 {
        14913
    } else if step == 2 {
        22371
    } else if step == 3 {
        29829
    } else {
        37281
    }
}

fn frame_boundary(step: u8) -> (boundary: u32)
    ensures
        boundary == frame_boundary_spec(step),
{
    if step == 0 {
        7457
    } else if step == 1 {
        14913
    } else if step == 2 {
        22371
    } else if step == 3 {
        29829
    } else {
        37281
    }
}

/// The audio processing unit: five channels and the frame sequencer that clocks
/// their envelopes, length counters and sweeps.
pub struct APU {
    pulse1: PulseChannel,
    pulse2: PulseChannel,
    cycle_parity: bool,

    triangle: TriangleChannel,

    noise: NoiseChannel,

    dmc: DmcChannel,

    status: u8,
    frame_counter: u8,

    // open-bus latch
    io_latch: u8,

    frame_cycle: u32,
    frame_step: u8,
    mode_5step: bool,
    irq_inhibit: bool,
    frame_irq_pending: bool,
}

impl APU {
    #[verifier::type_invariant]
    spec fn inv(self) -> bool {
        &&& self.frame_step < step_count(self.mode_5step)
    }

    pub closed spec fn frame_cycle(&self) -> u32 {
        self.frame_cycle
    }

    pub closed spec fn frame_step(&self) -> u8 {
        self.frame_step
    }

    pub closed spec fn five_step(&self) -> bool {
        self.mode_5step
    }

    pub closed spec fn irq_inhibited(&self) -> bool {
        self.irq_inhibit
    }

    pub closed spec fn frame_irq(&self) -> bool {
        self.frame_irq_pending
    }

    pub closed spec fn dmc(&self) -> DmcChannel {
        self.dmc
    }

    pub closed spec fn pulse1(&self) -> PulseChannel {
        self.pulse1
    }

    pub closed spec fn pulse2(&self) -> PulseChannel {
        self.pulse2
    }

    pub closed spec fn triangle(&self) -> TriangleChannel {
        self.triangle
    }

    pub closed spec fn noise(&self) -> NoiseChannel {
        self.noise
    }

    /// The APU after a CPU write of `data` to `addr`; every write also fills the
    /// open-bus latch.
    pub closed spec fn register_written(self, addr: u16, data: u8) -> Self {
        let a = if addr == 0x4000 {
            APU { pulse1: self.pulse1.duty_env_written(data), ..self }
        } else if addr == 0x4001 {
            APU { pulse1: self.pulse1.sweep_written(data), ..self }
        } else if addr == 0x4002 {
            APU { pulse1: self.pulse1.timer_lo_written(data), ..self }
        } else if addr == 0x4003 {
            APU { pulse1: self.pulse1.length_timer_hi_written(data), ..self }
        } else if addr == 0x4004 {
            APU { pulse2: self.pulse2.duty_env_written(data), ..self }
        } else if addr == 0x4005 {
            APU { pulse2: self.pulse2.sweep_written(data), ..self }
        } else if addr == 0x4006 {
            APU { pulse2: self.pulse2.timer_lo_written(data), ..self }
        } else if addr == 0x4007 {
            APU { pulse2: self.pulse2.length_timer_hi_written(data), ..self }
        } else if addr == 0x4008 {
            APU { triangle: self.triangle.linear_ctrl_written(data), ..self }
        } else if addr == 0x400A {
            APU { triangle: self.triangle.timer_lo_written(data), ..self }
        } else if addr == 0x400B {
            APU { triangle: self.triangle.length_timer_hi_written(data), ..self }
        } else if addr == 0x400C {
            APU { noise: self.noise.env_written(data), ..self }
        } else if addr == 0x400E {
            APU { noise: self.noise.mode_period_written(data), ..self }
        } else if addr == 0x400F {
            APU { noise: self.noise.length_written(data), ..self }
        } else if addr == 0x4010 {
            APU { dmc: self.dmc.ctrl_written(data), ..self }
        } else if addr == 0x4011 {
            APU { dmc: self.dmc.direct_load_written(data), ..self }
        } else if addr == 0x4012 {
            APU { dmc: self.dmc.sample_addr_written(data), ..self }
        } else if addr == 0x4013 {
            APU { dmc: self.dmc.sample_length_written(data), ..self }
        } else if addr == 0x4015 {
            APU {
                status: data,
                pulse1: self.pulse1.enabled_set(data & 0x01 != 0),
                pulse2: self.pulse2.enabled_set(data & 0x02 != 0),
                triangle: self.triangle.enabled_set(data & 0x04 != 0),
                noise: self.noise.enabled_set(data & 0x08 != 0),
                dmc: self.dmc.enabled_set(data & 0x10 != 0).irq_cleared(),
                ..self
            }
        } else if addr == 0x4017 {
            let irq_inhibit = data & 0x40 != 0;
            APU {
                frame_counter: data,
                mode_5step: data & 0x80 != 0,
                irq_inhibit,
                frame_cycle: 0,
                frame_step: 0,
                frame_irq_pending: if irq_inhibit { false } else { self.frame_irq_pending },
                ..self
            }
        } else {
            self
        };
        APU { io_latch: data, ..a }
    }

    /// The status byte 0x4015 reads: bits 0-3 the channels whose length counters
    /// run, bit 4 an active DMC sample, bit 6 the frame IRQ, bit 7 the DMC IRQ.
    pub closed spec fn status_value(self) -> u8 {
        let s0: u8 = 0;
        let s1: u8 = if self.pulse1.length_counter() > 0 { s0 | 0x01 } else { s0 };
        let s2: u8 = if self.pulse2.length_counter() > 0 { s1 | 0x02 } else { s1 };
        let s3: u8 = if self.triangle.length_counter() > 0 { s2 | 0x04 } else { s2 };
        let s4: u8 = if self.noise.length_counter() > 0 { s3 | 0x08 } else { s3 };
        let s5: u8 = if self.dmc.bytes_remaining() > 0 { s4 | 0x10 } else { s4 };
        let s6: u8 = if self.frame_irq_pending { s5 | 0x40 } else { s5 };
        if self.dmc.irq_flag() { s6 | 0x80 } else { s6 }
    }

    /// What a CPU read of `addr` returns: the status at 0x4015, the open-bus latch
    /// elsewhere.
    pub closed spec fn register_value(self, addr: u16) -> u8 {
        if addr == 0x4015 { self.status_value() } else { self.io_latch }
    }

    /// The APU after a CPU read of `addr`: reading 0x4015 clears the frame IRQ and
    /// latches the status.
    pub closed spec fn after_register_read(self, addr: u16) -> Self {
        if addr == 0x4015 {
            APU { frame_irq_pending: false, io_latch: self.status_value(), ..self }
        } else {
            self
        }
    }

    /// The APU after the frame sequencer fires `step`: every step but the fourth of
    /// five-step mode clocks envelopes and the triangle's linear counter; steps 1
    /// and the last clock length counters and sweeps; the last step of four-step
    /// mode raises the frame IRQ unless inhibited.
    pub closed spec fn step_fired(self, step: u8) -> Self {
        let is_last_step = if self.mode_5step { step == 4 } else { step == 3 };
        let clocks_envelope = !(self.mode_5step && step == 3);
        let a = if clocks_envelope {
            APU {
                pulse1: self.pulse1.envelope_clocked(),
                pulse2: self.pulse2.envelope_clocked(),
                noise: self.noise.envelope_clocked(),
                triangle: self.triangle.linear_clocked(),
                ..self
            }
        } else {
            self
        };
        let clocks_length_sweep = if self.mode_5step { step == 1 || step == 4 } else { step == 1 || step == 3 };
        let b = if clocks_length_sweep {
            APU {
                pulse1: a.pulse1.length_clocked().sweep_clocked(),
                pulse2: a.pulse2.length_clocked().sweep_clocked(),
                triangle: a.triangle.length_clocked(),
                noise: a.noise.length_clocked(),
                ..a
            }
        } else {
            a
        };
        if !self.mode_5step && is_last_step && !self.irq_inhibit {
            APU { frame_irq_pending: true, ..b }
        } else {
            b
        }
    }

    /// The frame sequencer caught up with a cycle count of `count`: every step
    /// whose boundary the count has reached fires in order, and after the last step
    /// the count drops by that step's boundary and the sequence starts over. What is
    /// left of the count becomes the frame cycle.
    pub closed spec fn sequencer_run(self, count: int) -> Self
        decreases count, 5 - self.frame_step(),
    {
        if self.frame_step < step_count(self.mode_5step) && count >= frame_boundary_spec(self.frame_step) {
            let boundary = frame_boundary_spec(self.frame_step);
            let fired = self.step_fired(self.frame_step);
            let next = (self.frame_step + 1) as u8;
            if next >= step_count(self.mode_5step) {
                APU { frame_step: 0, ..fired }.sequencer_run(count - boundary)
            } else {
                APU { frame_step: next, ..fired }.sequencer_run(count)
            }
        } else {
            APU { frame_cycle: count as u32, ..self }
        }
    }

    /// One CPU cycle of the channel timers: pulse, noise and DMC timers run at
    /// half the CPU rate, on every other cycle.
    pub closed spec fn cpu_cycle(self) -> Self {
        let parity = !self.cycle_parity;
        if parity {
            APU {
                cycle_parity: parity,
                pulse1: self.pulse1.timer_ticked(),
                pulse2: self.pulse2.timer_ticked(),
                noise: self.noise.timer_ticked(),
                dmc: self.dmc.timer_ticked(),
                ..self
            }
        } else {
            APU { cycle_parity: parity, ..self }
        }
    }

    /// `n` CPU cycles of the half-rate timers.
    pub closed spec fn cpu_cycles(self, n: nat) -> Self
        decreases n,
    {
        if n == 0 {
            self
        } else {
            self.cpu_cycles((n - 1) as nat).cpu_cycle()
        }
    }

    /// `n` clocks of the triangle's timer, which runs at the CPU rate.
    pub closed spec fn triangle_cycles(self, n: nat) -> Self
        decreases n,
    {
        if n == 0 {
            self
        } else {
            let a = self.triangle_cycles((n - 1) as nat);
            APU { triangle: a.triangle.timer_ticked(), ..a }
        }
    }

    /// The APU after `cycles` CPU cycles: the frame sequencer first, then the
    /// half-rate timers, then the triangle's timer.
    pub closed spec fn ticked(self, cycles: u32) -> Self {
        self.sequencer_run(self.frame_cycle + cycles).cpu_cycles(cycles as nat).triangle_cycles(cycles as nat)
    }

    /// The APU after the DMC channel was handed `byte`.
    pub closed spec fn dmc_byte_provided(self, byte: u8) -> Self {
        APU { dmc: self.dmc.byte_provided(byte), ..self }
    }

    /// The APU after a reset: status and sequencer cleared and every channel disabled.
    pub closed spec fn reset_state(self) -> Self {
        APU {
            status: 0,
            frame_cycle: 0,
            frame_step: 0,
            pulse1: self.pulse1.enabled_set(false),
            pulse2: self.pulse2.enabled_set(false),
            triangle: self.triangle.enabled_set(false),
            noise: self.noise.enabled_set(false),
            dmc: self.dmc.enabled_set(false),
            ..self
        }
    }

    /// The APU as a savestate holds it.
    pub closed spec fn snapshot(&self) -> ApuState {
        ApuState {
            pulse1: self.pulse1.snapshot(),
            pulse2: self.pulse2.snapshot(),
            cycle_parity: self.cycle_parity,
            triangle: self.triangle.snapshot(),
            noise: self.noise.snapshot(),
            dmc: self.dmc.snapshot(),
            status: self.status,
            frame_counter: self.frame_counter,
            io_latch: self.io_latch,
            frame_cycle: self.frame_cycle,
            frame_step: self.frame_step,
            mode_5step: self.mode_5step,
            irq_inhibit: self.irq_inhibit,
            frame_irq_pending: self.frame_irq_pending,
        }
    }

    /// A state that fits the APU's counters: the channels' positions in range, and
    /// the frame sequencer on one of its mode's steps (its cycle count may be any:
    /// the next tick catches up).
    pub open spec fn loadable(state: ApuState) -> bool {
        &&& state.pulse1.sequencer_pos < 8
        &&& state.pulse2.sequencer_pos < 8
        &&& state.pulse1.sweep_shift < 8
        &&& state.pulse2.sweep_shift < 8
        &&& state.triangle.sequencer_pos < 32
        &&& state.dmc.rate_index < 16
        &&& state.dmc.bits_remaining <= 8
        &&& state.dmc.output_level < 128
        &&& state.frame_step < step_count(state.mode_5step)
    }

    pub fn save_state(&self) -> (state: ApuState)
        ensures
            state == self.snapshot(),
    {
        ApuState {
            pulse1: self.pulse1.save_state(),
            pulse2: self.pulse2.save_state(),
            cycle_parity: self.cycle_parity,
            triangle: self.triangle.save_state(),
            noise: self.noise.save_state(),
            dmc: self.dmc.save_state(),
            status: self.status,
            frame_counter: self.frame_counter,
            io_latch: self.io_latch,
            frame_cycle: self.frame_cycle,
            frame_step: self.frame_step,
            mode_5step: self.mode_5step,
            irq_inhibit: self.irq_inhibit,
            frame_irq_pending: self.frame_irq_pending,
        }
    }

    pub fn load_state(&mut self, state: &ApuState)
        requires
            Self::loadable(*state),
        ensures
            final(self).snapshot() == *state,
    {
        let mut pulse1 = PulseChannel::new(false);
        pulse1.load_state(&state.pulse1);
        let mut pulse2 = PulseChannel::new(true);
        pulse2.load_state(&state.pulse2);
        let mut triangle = TriangleChannel::new();
        triangle.load_state(&state.triangle);
        let mut noise = NoiseChannel::new();
        noise.load_state(&state.noise);
        let mut dmc = DmcChannel::new();
        dmc.load_state(&state.dmc);
        *self = APU {
            pulse1,
            pulse2,
            cycle_parity: state.cycle_parity,
            triangle,
            noise,
            dmc,
            status: state.status,
            frame_counter: state.frame_counter,
            io_latch: state.io_latch,
            frame_cycle: state.frame_cycle,
            frame_step: state.frame_step,
            mode_5step: state.mode_5step,
            irq_inhibit: state.irq_inhibit,
            frame_irq_pending: state.frame_irq_pending,
        };
    }

    pub fn new() -> (apu: Self)
        ensures
            apu.frame_cycle() == 0,
            apu.frame_step() == 0,
            !apu.five_step(),
            !apu.irq_inhibited(),
            !apu.frame_irq(),
            apu.snapshot() == apu_power_on(),
    {
        Self {
            pulse1: PulseChannel::new(false),
            pulse2: PulseChannel::new(true),
            cycle_parity: false,

            triangle: TriangleChannel::new(),

            noise: NoiseChannel::new(),

            dmc: DmcChannel::new(),

            status: 0,
            frame_counter: 0,

            io_latch: 0,

            frame_cycle: 0,
            frame_step: 0,
            mode_5step: false,
            irq_inhibit: false,
            frame_irq_pending: false,
        }
    }

    pub fn write_register(&mut self, addr: u16, data: u8)
        ensures
            *final(self) == old(self).register_written(addr, data),
    {
        proof { use_type_invariant(&*self); }
        if addr == 0x4000 {
            self.pulse1.write_duty_env(data);
        } else if addr == 0x4001 {
            self.pulse1.write_sweep(data);
        } else if addr == 0x4002 {
            self.pulse1.write_timer_lo(data);
        } else if addr == 0x4003 {
            self.pulse1.write_length_timer_hi(data);
        } else if addr == 0x4004 {
            self.pulse2.write_duty_env(data);
        } else if addr == 0x4005 {
            self.pulse2.write_sweep(data);
        } else if addr == 0x4006 {
            self.pulse2.write_timer_lo(data);
        } else if addr == 0x4007 {
            self.pulse2.write_length_timer_hi(data);
        } else if addr == 0x4008 {
            self.triangle.write_linear_ctrl(data);
        } else if addr == 0x400A {
            self.triangle.write_timer_lo(data);
        } else if addr == 0x400B {
            self.triangle.write_length_timer_hi(data);
        } else if addr == 0x400C {
            self.noise.write_env(data);
        } else if addr == 0x400E {
            self.noise.write_mode_period(data);
        } else if addr == 0x400F {
            self.noise.write_length(data);
        } else if addr == 0x4010 {
            self.dmc.write_ctrl(data);
        } else if addr == 0x4011 {
            self.dmc.write_direct_load(data);
        } else if addr == 0x4012 {
            self.dmc.write_sample_addr(data);
        } else if addr == 0x4013 {
            self.dmc.write_sample_length(data);
        } else if addr == 0x4015 {
            self.status = data;
            self.pulse1.set_enabled(data & 0x01 != 0);
            self.pulse2.set_enabled(data & 0x02 != 0);
            self.triangle.set_enabled(data & 0x04 != 0);
            self.noise.set_enabled(data & 0x08 != 0);
            self.dmc.set_enabled(data & 0x10 != 0);
            self.dmc.clear_irq();
        } else if addr == 0x4017 {
            self.frame_counter = data;
            self.frame_step = 0;
            self.mode_5step = data & 0x80 != 0;
            self.irq_inhibit = data & 0x40 != 0;
            self.frame_cycle = 0;
            if self.irq_inhibit {
                self.frame_irq_pending = false;
            }
        }

        self.io_latch = data;
    }

    /// The status byte of 0x4015, computed without reading it.
    fn status_byte(&self) -> (r: u8)
        ensures
            r == self.status_value(),
    {
        let mut status_bytes = 0u8;

        if self.pulse1.length_counter_active() {
            status_bytes = status_bytes | 0x01;
        }
        if self.pulse2.length_counter_active() {
            status_bytes = status_bytes | 0x02;
        }
        if self.triangle.length_counter_active() {
            status_bytes = status_bytes | 0x04;
        }
        if self.noise.length_counter_active() {
            status_bytes = status_bytes | 0x08;
        }
        if self.dmc.is_active() {
            status_bytes = status_bytes | 0x10;
        }
        if self.frame_irq_pending {
            status_bytes = status_bytes | 0x40;
        }
        if self.dmc.irq_pending() {
            status_bytes = status_bytes | 0x80;
        }
        status_bytes
    }

    /// What a read of `addr` would return, without the read's side effects.
    pub fn peek_register(&self, addr: u16) -> (r: u8)
        ensures
            r == self.register_value(addr),
    {
        if addr == 0x4015 { self.status_byte() } else { self.io_latch }
    }

    pub fn read_register(&mut self, addr: u16) -> (r: u8)
        ensures
            r == old(self).register_value(addr),
            *final(self) == old(self).after_register_read(addr),
    {
        proof { use_type_invariant(&*self); }
        if addr == 0x4015 {
            let status_bytes = self.status_byte();
            self.frame_irq_pending = false;
            self.io_latch = status_bytes;
            status_bytes
        } else {
            self.io_latch
        }
    }

    pub fn tick(&mut self, cycles: u32)
        ensures
            *final(self) == old(self).ticked(cycles),
            final(self).frame_cycle() < 37282,
    {
        proof { use_type_invariant(&*self); }
        let mut counted: u64 = self.frame_cycle as u64 + cycles as u64;
        let ghost target = self.sequencer_run(counted as int);

        loop
            invariant
                self.frame_step < step_count(self.mode_5step),
                self.sequencer_run(counted as int) == target,
            ensures
                self.frame_step < step_count(self.mode_5step),
                self.sequencer_run(counted as int) == target,
                counted < frame_boundary_spec(self.frame_step),
            decreases counted, 5 - self.frame_step,
        {
            proof { use_type_invariant(&*self); }
            let step_count: u8 = if self.mode_5step { 5 } else { 4 };
            let boundary = frame_boundary(self.frame_step);
            if counted < boundary as u64 {
                break;
            }

            let step = self.frame_step;
            self.fire_step(step);

            let next = self.frame_step + 1;
            if next >= step_count {
                self.frame_step = 0;
                counted = counted - boundary as u64;
            } else {
                self.frame_step = next;
            }
        }
        self.frame_cycle = counted as u32;
        assert(*self == target);
        let ghost after_sequencer = *self;

        let mut i: u32 = 0;
        while i < cycles
            invariant
                i <= cycles,
                *self == after_sequencer.cpu_cycles(i as nat),
                self.frame_cycle == after_sequencer.frame_cycle,
                after_sequencer.frame_cycle < 37282,
            decreases cycles - i,
        {
            proof { use_type_invariant(&*self); }
            self.cycle_parity = !self.cycle_parity;
            if self.cycle_parity {
                self.pulse1.tick_timer();
                self.pulse2.tick_timer();
                self.noise.tick_timer();
                self.dmc.tick_timer();
            }
            i = i + 1;
        }
        let ghost after_timers = *self;

        let mut j: u32 = 0;
        while j < cycles
            invariant
                j <= cycles,
                *self == after_timers.triangle_cycles(j as nat),
                self.frame_cycle == after_timers.frame_cycle,
                after_timers.frame_cycle < 37282,
            decreases cycles - j,
        {
            proof { use_type_invariant(&*self); }
            self.triangle.tick_timer();
            j = j + 1;
        }
    }

    fn fire_step(&mut self, step: u8)
        ensures
            *final(self) == old(self).step_fired(step),
            final(self).frame_cycle == old(self).frame_cycle,
            final(self).frame_step == old(self).frame_step,
            final(self).mode_5step == old(self).mode_5step,
        no_unwind
    {
        proof { use_type_invariant(&*self); }
        let is_last_step = if self.mode_5step { step == 4 } else { step == 3 };

        let clocks_envelope = !(self.mode_5step && step == 3);
        if clocks_envelope {
            self.pulse1.clock_envelope();
            self.pulse2.clock_envelope();
            self.noise.clock_envelope();
            self.triangle.clock_linear_counter();
        }

        let clocks_length_sweep = if self.mode_5step { step == 1 || step == 4 } else { step == 1 || step == 3 };

        if clocks_length_sweep {
            self.pulse1.clock_length_counter();
            self.pulse1.clock_sweep();
            self.pulse2.clock_length_counter();
            self.pulse2.clock_sweep();
            self.triangle.clock_length_counter();
            self.noise.clock_length_counter();
        }

        if !self.mode_5step && is_last_step && !self.irq_inhibit {
            self.frame_irq_pending = true;
        }
    }

    pub fn frame_irq_pending(&self) -> (r: bool)
        ensures
            r == self.frame_irq(),
    {
        self.frame_irq_pending
    }

    pub fn reset(&mut self)
        ensures
            *final(self) == old(self).reset_state(),
    {
        proof { use_type_invariant(&*self); }
        self.status = 0;

        self.frame_cycle = 0;
        self.frame_step = 0;

        self.pulse1.set_enabled(false);
        self.pulse2.set_enabled(false);

        self.triangle.set_enabled(false);
        self.noise.set_enabled(false);

        self.dmc.set_enabled(false);
    }

    pub fn dmc_fetch_request(&self) -> (r: Option<u16>)
        ensures
            r == self.dmc().wanted_address(),
    {
        self.dmc.fetch_request()
    }

    pub fn dmc_provide_byte(&mut self, byte: u8)
        requires
            old(self).dmc().bytes_remaining() > 0,
        ensures
            *final(self) == old(self).dmc_byte_provided(byte),
    {
        proof { use_type_invariant(&*self); }
        self.dmc.provide_byte(byte);
    }

    pub fn dmc_irq_pending(&self) -> (r: bool)
        ensures
            r == self.dmc().irq_flag(),
    {
        self.dmc.irq_pending()
    }

    /// The five channels' current outputs, as the mixer takes them: pulse 1,
    /// pulse 2, triangle, noise, DMC.
    pub fn channel_outputs(&self) -> (r: (u8, u8, u8, u8, u8))
        ensures
            r == (
                self.pulse1().output_value(),
                self.pulse2().output_value(),
                self.triangle().output_value(),
                self.noise().output_value(),
                self.dmc().level(),
            ),
    {
        (self.pulse1.output(), self.pulse2.output(), self.triangle.output(), self.noise.output(), self.dmc.output())
    }
}

/// Reading 0x4015 reports the frame IRQ in bit 6 and acknowledges it.
pub proof fn lemma_status_read_acknowledges_irq(apu: APU)
    ensures
        (apu.register_value(0x4015) & 0x40 != 0) == apu.frame_irq(),
        !apu.after_register_read(0x4015).frame_irq(),
{
    let s0: u8 = 0;
    let s1: u8 = if apu.pulse1.length_counter() > 0 { s0 | 0x01 } else { s0 };
    let s2: u8 = if apu.pulse2.length_counter() > 0 { s1 | 0x02 } else { s1 };
    let s3: u8 = if apu.triangle.length_counter() > 0 { s2 | 0x04 } else { s2 };
    let s4: u8 = if apu.noise.length_counter() > 0 { s3 | 0x08 } else { s3 };
    let s5: u8 = if apu.dmc.bytes_remaining() > 0 { s4 | 0x10 } else { s4 };
    let irq = apu.frame_irq_pending;
    let dmc_irq = apu.dmc.irq_flag();
    let s6: u8 = if irq { s5 | 0x40 } else { s5 };
    let s7: u8 = if dmc_irq { s6 | 0x80 } else { s6 };
    assert((s7 & 0x40 != 0) == irq) by (bit_vector)
        requires
            s0 == 0,
            s1 == s0 || s1 == s0 | 0x01,
            s2 == s1 || s2 == s1 | 0x02,
            s3 == s2 || s3 == s2 | 0x04,
            s4 == s3 || s4 == s3 | 0x08,
            s5 == s4 || s5 == s4 | 0x10,
            s6 == if irq { s5 | 0x40 } else { s5 },
            s7 == if dmc_irq { s6 | 0x80 } else { s6 },
    ;
}

/// Writing 0x4017 with bit 6 set inhibits the frame IRQ and drops a pending one;
/// either way the frame sequencer restarts.
pub proof fn lemma_frame_counter_write(apu: APU, data: u8)
    ensures
        data & 0x40 != 0 ==> !apu.register_written(0x4017, data).frame_irq(),
        data & 0x40 != 0 ==> apu.register_written(0x4017, data).irq_inhibited(),
        apu.register_written(0x4017, data).frame_step() == 0,
        apu.register_written(0x4017, data).frame_cycle() == 0,
        apu.register_written(0x4017, data).five_step() == (data & 0x80 != 0),
{
}

/// The status byte at 0x4015: one bit per channel whose length counter (for the
/// DMC, whose sample) is still running, bit 5 clear, the frame IRQ in bit 6 and
/// the DMC IRQ in bit 7.
pub proof fn lemma_status_bits(apu: APU)
    ensures
        ({
            let v = apu.register_value(0x4015);
            &&& (v & 0x01 != 0) == (apu.pulse1().length_counter() > 0)
            &&& (v & 0x02 != 0) == (apu.pulse2().length_counter() > 0)
            &&& (v & 0x04 != 0) == (apu.triangle().length_counter() > 0)
            &&& (v & 0x08 != 0) == (apu.noise().length_counter() > 0)
            &&& (v & 0x10 != 0) == (apu.dmc().bytes_remaining() > 0)
            &&& v & 0x20 == 0
            &&& (v & 0x40 != 0) == apu.frame_irq()
            &&& (v & 0x80 != 0) == apu.dmc().irq_flag()
        }),
{
    let (b1, b2, b3, b4, b5, b6, b7) = (
        apu.pulse1.length_counter() > 0,
        apu.pulse2.length_counter() > 0,
        apu.triangle.length_counter() > 0,
        apu.noise.length_counter() > 0,
        apu.dmc.bytes_remaining() > 0,
        apu.frame_irq_pending,
        apu.dmc.irq_flag(),
    );
    let s0: u8 = 0;
    let s1: u8 = if b1 { s0 | 0x01 } else { s0 };
    let s2: u8 = if b2 { s1 | 0x02 } else { s1 };
    let s3: u8 = if b3 { s2 | 0x04 } else { s2 };
    let s4: u8 = if b4 { s3 | 0x08 } else { s3 };
    let s5: u8 = if b5 { s4 | 0x10 } else { s4 };
    let s6: u8 = if b6 { s5 | 0x40 } else { s5 };
    let s7: u8 = if b7 { s6 | 0x80 } else { s6 };
    assert({
        &&& (s7 & 0x01 != 0) == b1
        &&& (s7 & 0x02 != 0) == b2
        &&& (s7 & 0x04 != 0) == b3
        &&& (s7 & 0x08 != 0) == b4
        &&& (s7 & 0x10 != 0) == b5
        &&& s7 & 0x20 == 0
        &&& (s7 & 0x40 != 0) == b6
        &&& (s7 & 0x80 != 0) == b7
    }) by (bit_vector)
        requires
            s0 == 0,
            s1 == if b1 { s0 | 0x01 } else { s0 },
            s2 == if b2 { s1 | 0x02 } else { s1 },
            s3 == if b3 { s2 | 0x04 } else { s2 },
            s4 == if b4 { s3 | 0x08 } else { s3 },
            s5 == if b5 { s4 | 0x10 } else { s4 },
            s6 == if b6 { s5 | 0x40 } else { s5 },
            s7 == if b7 { s6 | 0x80 } else { s6 },
    ;
}

/// A write to 0x4015 enables each channel by its bit (0-3 the pulses, triangle
/// and noise, 4 the DMC) and acknowledges the DMC IRQ; the frame sequencer and
/// its IRQ are untouched.
pub proof fn lemma_status_write(apu: APU, data: u8)
    ensures
        ({
            let a = apu.register_written(0x4015, data);
            &&& a.pulse1() == apu.pulse1().enabled_set(data & 0x01 != 0)
            &&& a.pulse2() == apu.pulse2().enabled_set(data & 0x02 != 0)
            &&& a.triangle() == apu.triangle().enabled_set(data & 0x04 != 0)
            &&& a.noise() == apu.noise().enabled_set(data & 0x08 != 0)
            &&& a.dmc() == apu.dmc().enabled_set(data & 0x10 != 0).irq_cleared()
            &&& a.frame_irq() == apu.frame_irq()
            &&& a.frame_step() == apu.frame_step()
            &&& a.frame_cycle() == apu.frame_cycle()
            &&& a.five_step() == apu.five_step()
        }),
{
}

/// The half-rate timers and the triangle's timer leave the frame sequencer alone.
proof fn lemma_timers_keep_sequencer(apu: APU, n: nat)
    ensures
        apu.cpu_cycles(n).frame_irq_pending == apu.frame_irq_pending,
        apu.cpu_cycles(n).frame_step == apu.frame_step,
        apu.cpu_cycles(n).frame_cycle == apu.frame_cycle,
        apu.triangle_cycles(n).frame_irq_pending == apu.frame_irq_pending,
        apu.triangle_cycles(n).frame_step == apu.frame_step,
        apu.triangle_cycles(n).frame_cycle == apu.frame_cycle,
    decreases n,
{
    if n > 0 {
        lemma_timers_keep_sequencer(apu, (n - 1) as nat);
    }
}

/// Five-step mode never raises the frame IRQ.
proof fn lemma_five_step_no_irq(apu: APU, count: int)
    requires
        apu.mode_5step,
        !apu.frame_irq_pending,
    ensures
        !apu.sequencer_run(count).frame_irq_pending,
    decreases count, 5 - apu.frame_step,
{
    if apu.frame_step < step_count(apu.mode_5step) && count >= frame_boundary_spec(apu.frame_step) {
        let boundary = frame_boundary_spec(apu.frame_step);
        let fired = apu.step_fired(apu.frame_step);
        let next = (apu.frame_step + 1) as u8;
        if next >= step_count(apu.mode_5step) {
            lemma_five_step_no_irq(APU { frame_step: 0, ..fired }, count - boundary);
        } else {
            lemma_five_step_no_irq(APU { frame_step: next, ..fired }, count);
        }
    }
}

/// The frame IRQ's timing. Before the current step's boundary nothing fires and
/// the cycles are only counted. In four-step mode the fourth step fires when the
/// count reaches 29829: the IRQ is raised unless inhibited, and the sequence
/// starts over with what is left of the count. Five-step mode never raises it.
pub proof fn lemma_frame_irq_timing(apu: APU, cycles: u32)
    requires
        apu.frame_step() < step_count(apu.five_step()),
    ensures
        ({
            let count = apu.frame_cycle() + cycles;
            let t = apu.ticked(cycles);
            &&& count < frame_boundary_spec(apu.frame_step()) ==> t.frame_irq() == apu.frame_irq()
                && t.frame_step() == apu.frame_step() && t.frame_cycle() == count
            &&& (!apu.five_step() && apu.frame_step() == 3 && 29829 <= count < 29829 + 7457) ==> t.frame_irq() == (
            apu.frame_irq() || !apu.irq_inhibited()) && t.frame_step() == 0 && t.frame_cycle() == count - 29829
            &&& apu.five_step() && !apu.frame_irq() ==> !t.frame_irq()
        }),
{
    let count = apu.frame_cycle + cycles;
    let s = apu.sequencer_run(count);
    lemma_timers_keep_sequencer(s, cycles as nat);
    lemma_timers_keep_sequencer(s.cpu_cycles(cycles as nat), cycles as nat);
    if apu.mode_5step && !apu.frame_irq_pending {
        lemma_five_step_no_irq(apu, count);
    }
    if !apu.mode_5step && apu.frame_step == 3 && 29829 <= count < 29829 + 7457 {
        let fired = apu.step_fired(3);
        assert(s == APU { frame_step: 0, ..fired }.sequencer_run(count - 29829));
        assert(APU { frame_step: 0, ..fired }.sequencer_run(count - 29829) == APU {
            frame_cycle: (count - 29829) as u32,
            frame_step: 0,
            ..fired
        });
    }
}

} // verus!
