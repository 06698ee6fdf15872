use vstd::prelude::*;
use super::consts::{LENGTH_TABLE, DUTY_TABLE};
use crate::bits::lemma_byte_fields;
use crate::savestate::{PulseChannelState, pulse_power_on};

verus! {

/// One of the two square-wave channels.
pub struct PulseChannel {
    duty_env: u8,
    sweep: u8,
    timer_lo: u8,
    length_timer_hi: u8,

    timer_period: u16,
    timer_counter: u16,
    sequencer_pos: u8,

    length_counter: u8,
    length_halt: bool,

    envelope_start: bool,
    envelope_decay: u8,
    envelope_counter: u8,
    constant_volume: bool,
    volume_or_period: u8,

    sweep_enabled: bool,
    sweep_period: u8,
    sweep_negate: bool,
    sweep_shift: u8,
    sweep_counter: u8,
    sweep_reload: bool,

    enabled: bool,

    is_channel2: bool,
}

fn wrapping_add16(a: u16, b: u16) -> (r: u16)
    ensures
        r == a.wrapping_add(b),
    no_unwind
{
    if a as u32 + b as u32 > 0xFFFF {
        (a as u32 + b as u32 - 0x10000) as u16
    } else {
        a + b
    }
}

fn wrapping_sub16(a: u16, b: u16) -> (r: u16)
    ensures
        r == a.wrapping_sub(b),
    no_unwind
{
    if a < b {
        (a as u32 + 0x10000 - b as u32) as u16
    } else {
        a - b
    }
}

impl PulseChannel {

    /// The channel's registers and counters as a savestate holds them.
    pub closed spec fn snapshot(&self) -> PulseChannelState {
        PulseChannelState {
            duty_env: self.duty_env,
            sweep: self.sweep,
            timer_lo: self.timer_lo,
            length_timer_hi: self.length_timer_hi,
            timer_period: self.timer_period,
            timer_counter: self.timer_counter,
            sequencer_pos: self.sequencer_pos,
            length_counter: self.length_counter,
            length_halt: self.length_halt,
            envelope_start: self.envelope_start,
            envelope_decay: self.envelope_decay,
            envelope_counter: self.envelope_counter,
            constant_volume: self.constant_volume,
            volume_or_period: self.volume_or_period,
            sweep_enabled: self.sweep_enabled,
            sweep_period: self.sweep_period,
            sweep_negate: self.sweep_negate,
            sweep_shift: self.sweep_shift,
            sweep_counter: self.sweep_counter,
            sweep_reload: self.sweep_reload,
            enabled: self.enabled,
            is_channel2: self.is_channel2,
        }
    }

    pub fn save_state(&self) -> (state: PulseChannelState)
        ensures
            state == self.snapshot(),
    {
        PulseChannelState {
            duty_env: self.duty_env,
            sweep: self.sweep,
            timer_lo: self.timer_lo,
            length_timer_hi: self.length_timer_hi,
            timer_period: self.timer_period,
            timer_counter: self.timer_counter,
            sequencer_pos: self.sequencer_pos,
            length_counter: self.length_counter,
            length_halt: self.length_halt,
            envelope_start: self.envelope_start,
            envelope_decay: self.envelope_decay,
            envelope_counter: self.envelope_counter,
            constant_volume: self.constant_volume,
            volume_or_period: self.volume_or_period,
            sweep_enabled: self.sweep_enabled,
            sweep_period: self.sweep_period,
            sweep_negate: self.sweep_negate,
            sweep_shift: self.sweep_shift,
            sweep_counter: self.sweep_counter,
            sweep_reload: self.sweep_reload,
            enabled: self.enabled,
            is_channel2: self.is_channel2,
        }
    }

    pub fn load_state(&mut self, state: &PulseChannelState)
        requires
            state.sequencer_pos < 8,
            state.sweep_shift < 8,
        ensures
            final(self).snapshot() == *state,
        no_unwind
    {
        *self = PulseChannel {
            duty_env: state.duty_env,
            sweep: state.sweep,
            timer_lo: state.timer_lo,
            length_timer_hi: state.length_timer_hi,
            timer_period: state.timer_period,
            timer_counter: state.timer_counter,
            sequencer_pos: state.sequencer_pos,
            length_counter: state.length_counter,
            length_halt: state.length_halt,
            envelope_start: state.envelope_start,
            envelope_decay: state.envelope_decay,
            envelope_counter: state.envelope_counter,
            constant_volume: state.constant_volume,
            volume_or_period: state.volume_or_period,
            sweep_enabled: state.sweep_enabled,
            sweep_period: state.sweep_period,
            sweep_negate: state.sweep_negate,
            sweep_shift: state.sweep_shift,
            sweep_counter: state.sweep_counter,
            sweep_reload: state.sweep_reload,
            enabled: state.enabled,
            is_channel2: state.is_channel2,
        };
    }
    #[verifier::type_invariant]
    spec fn inv(self) -> bool {
        &&& self.sequencer_pos < 8
        &&& self.sweep_shift < 8
    }

    pub closed spec fn sweep_negates(&self) -> bool {
        self.sweep_negate
    }

    pub closed spec fn sweep_shift_amount(&self) -> u8 {
        self.sweep_shift
    }

    /// Pulse 2 (true) or pulse 1 (false).
    pub closed spec fn second_channel(&self) -> bool {
        self.is_channel2
    }

    /// The envelope's decay level, 0 to 15.
    pub closed spec fn envelope_level(&self) -> u8 {
        self.envelope_decay
    }

    /// The envelope restarts on its next clock.
    pub closed spec fn envelope_started(&self) -> bool {
        self.envelope_start
    }

    pub closed spec fn length_counter(&self) -> u8 {
        self.length_counter
    }

    pub closed spec fn is_enabled(&self) -> bool {
        self.enabled
    }

    pub closed spec fn timer_period(&self) -> u16 {
        self.timer_period
    }

    pub closed spec fn sequencer_pos(&self) -> u8 {
        self.sequencer_pos
    }

    pub closed spec fn length_halt(&self) -> bool {
        self.length_halt
    }

    /// The channel after a write to its duty/envelope register.
    pub closed spec fn duty_env_written(self, data: u8) -> Self {
        PulseChannel {
            duty_env: data,
            length_halt: data & 0x20 != 0,
            constant_volume: data & 0x10 != 0,
            volume_or_period: data & 0x0F,
            ..self
        }
    }

    /// The channel after a write to its sweep register; the sweep reloads on its
    /// next clock.
    pub closed spec fn sweep_written(self, data: u8) -> Self {
        PulseChannel {
            sweep: data,
            sweep_enabled: data & 0x80 != 0,
            sweep_period: (data >> 4u8) & 0x07,
            sweep_negate: data & 0x08 != 0,
            sweep_shift: data & 0x07,
            sweep_reload: true,
            ..self
        }
    }

    /// The channel after a write to the low byte of its timer period.
    pub closed spec fn timer_lo_written(self, data: u8) -> Self {
        PulseChannel { timer_lo: data, timer_period: (self.timer_period & 0xFF00) | data as u16, ..self }
    }

    /// The channel after a write to its length / timer-high register: the period's
    /// top three bits are set, the length counter loads from the table when the
    /// channel is enabled, and the sequence and envelope restart.
    pub closed spec fn length_timer_hi_written(self, data: u8) -> Self {
        PulseChannel {
            length_timer_hi: data,
            timer_period: (self.timer_period & 0x00FF) | (((data & 0x07) as u16) << 8u16),
            length_counter: if self.enabled { LENGTH_TABLE[(data >> 3u8) as int] } else { self.length_counter },
            sequencer_pos: 0,
            envelope_start: true,
            ..self
        }
    }

    /// The channel enabled or disabled; disabling clears the length counter.
    pub closed spec fn enabled_set(self, enabled: bool) -> Self {
        PulseChannel { enabled, length_counter: if enabled { self.length_counter } else { 0 }, ..self }
    }

    /// The channel after one timer clock: the counter counts down, and on reaching
    /// zero reloads from the period and advances the duty sequence.
    pub closed spec fn timer_ticked(self) -> Self {
        if self.timer_counter == 0 {
            PulseChannel { timer_counter: self.timer_period, sequencer_pos: ((self.sequencer_pos + 1) % 8) as u8, ..self }
        } else {
            PulseChannel { timer_counter: (self.timer_counter - 1) as u16, ..self }
        }
    }

    /// The channel after a quarter-frame envelope clock.
    pub closed spec fn envelope_clocked(self) -> Self {
        if self.envelope_start {
            PulseChannel { envelope_start: false, envelope_decay: 15, envelope_counter: self.volume_or_period, ..self }
        } else if self.envelope_counter > 0 {
            PulseChannel { envelope_counter: (self.envelope_counter - 1) as u8, ..self }
        } else if self.envelope_decay > 0 {
            PulseChannel {
                envelope_counter: self.volume_or_period,
                envelope_decay: (self.envelope_decay - 1) as u8,
                ..self
            }
        } else if self.length_halt {
            PulseChannel { envelope_counter: self.volume_or_period, envelope_decay: 15, ..self }
        } else {
            PulseChannel { envelope_counter: self.volume_or_period, ..self }
        }
    }

    /// The channel after a half-frame length clock: the counter drops by one unless
    /// halted or already zero.
    pub closed spec fn length_clocked(self) -> Self {
        if !self.length_halt && self.length_counter > 0 {
            PulseChannel { length_counter: (self.length_counter - 1) as u8, ..self }
        } else {
            self
        }
    }

    /// The period the sweep unit aims for: the period plus or minus itself shifted
    /// right; channel 1 subtracts one more (ones' complement).
    pub closed spec fn sweep_target(self) -> u16 {
        let change = self.timer_period >> self.sweep_shift;
        if self.sweep_negate {
            if self.is_channel2 {
                self.timer_period.wrapping_sub(change)
            } else {
                self.timer_period.wrapping_sub(change).wrapping_sub(1)
            }
        } else {
            self.timer_period.wrapping_add(change)
        }
    }

    /// The channel after a half-frame sweep clock: when the divider reaches zero
    /// with the sweep on, a nonzero shift and no muting (period below 8 or target
    /// above 0x7FF), the period takes the target; the divider then reloads or
    /// counts down.
    pub closed spec fn sweep_clocked(self) -> Self {
        let target = self.sweep_target();
        let muting = self.timer_period < 8 || target > 0x7FF;
        let period = if self.sweep_counter == 0 && self.sweep_enabled && self.sweep_shift > 0 && !muting {
            target
        } else {
            self.timer_period
        };
        if self.sweep_counter == 0 || self.sweep_reload {
            PulseChannel { timer_period: period, sweep_counter: self.sweep_period, sweep_reload: false, ..self }
        } else {
            PulseChannel { timer_period: period, sweep_counter: (self.sweep_counter - 1) as u8, ..self }
        }
    }

    /// The current step of the duty sequence: 0 or 1.
    pub closed spec fn duty_value(self) -> u8 {
        DUTY_TABLE[((self.duty_env >> 6u8) & 0x03) as int][self.sequencer_pos as int]
    }

    /// The envelope's output: the constant volume, or the decay level.
    pub closed spec fn volume(self) -> u8 {
        if self.constant_volume { self.volume_or_period } else { self.envelope_decay }
    }

    /// What the channel feeds the mixer: silent while disabled, while its length
    /// counter is zero or during the low part of the duty cycle; the volume otherwise.
    pub closed spec fn output_value(self) -> u8 {
        if !self.enabled || self.length_counter == 0 || self.duty_value() == 0 {
            0
        } else {
            self.volume()
        }
    }

    pub fn new(is_channel2: bool) -> (c: Self)
        ensures
            c.length_counter() == 0,
            !c.is_enabled(),
            c.timer_period() == 0,
            c.sequencer_pos() == 0,
            c.snapshot() == pulse_power_on(is_channel2),
    {
        Self {
            duty_env: 0,
            sweep: 0,
            timer_lo: 0,
            length_timer_hi: 0,

            timer_period: 0,
            timer_counter: 0,
            sequencer_pos: 0,

            length_counter: 0,
            length_halt: false,

            envelope_start: false,
            envelope_decay: 0,
            envelope_counter: 0,
            constant_volume: false,
            volume_or_period: 0,

            sweep_enabled: false,
            sweep_period: 0,
            sweep_negate: false,
            sweep_shift: 0,
            sweep_counter: 0,
            sweep_reload: false,

            enabled: false,
            is_channel2,
        }
    }

    pub fn write_duty_env(&mut self, data: u8)
        ensures
            *final(self) == old(self).duty_env_written(data),
        no_unwind
    {
        proof { use_type_invariant(&*self); }
        self.duty_env = data;
        self.length_halt = data & 0x20 != 0;
        self.constant_volume = data & 0x10 != 0;
        self.volume_or_period = data & 0x0F;
    }

    pub fn write_sweep(&mut self, data: u8)
        ensures
            *final(self) == old(self).sweep_written(data),
        no_unwind
    {
        proof {
            use_type_invariant(&*self);
            lemma_byte_fields(data);
        }
        self.sweep = data;
        self.sweep_enabled = data & 0x80 != 0;
        self.sweep_period = (data >> 4u8) & 0x07;
        self.sweep_negate = data & 0x08 != 0;
        self.sweep_shift = data & 0x07;
        self.sweep_reload = true;
    }

    pub fn write_timer_lo(&mut self, data: u8)
        ensures
            *final(self) == old(self).timer_lo_written(data),
        no_unwind
    {
        proof { use_type_invariant(&*self); }
        self.timer_lo = data;
        self.timer_period = (self.timer_period & 0xFF00) | data as u16;
    }

    pub fn write_length_timer_hi(&mut self, data: u8)
        ensures
            *final(self) == old(self).length_timer_hi_written(data),
        no_unwind
    {
        proof {
            use_type_invariant(&*self);
            lemma_byte_fields(data);
        }
        self.length_timer_hi = data;
        self.timer_period = (self.timer_period & 0x00FF) | (((data & 0x07) as u16) << 8u16);

        if self.enabled {
            self.length_counter = LENGTH_TABLE[(data >> 3u8) as usize];
        }

        self.sequencer_pos = 0;
        self.envelope_start = true;
    }

    pub fn set_enabled(&mut self, enabled: bool)
        ensures
            *final(self) == old(self).enabled_set(enabled),
        no_unwind
    {
        proof { use_type_invariant(&*self); }
        self.enabled = enabled;
        if !enabled {
            self.length_counter = 0;
        }
    }

    pub fn tick_timer(&mut self)
        ensures
            *final(self) == old(self).timer_ticked(),
        no_unwind
    {
        proof { use_type_invariant(&*self); }
        if self.timer_counter == 0 {
            self.timer_counter = self.timer_period;
            let next: u8 = self.sequencer_pos + 1;
            proof { assert(next & 7 == next % 8) by (bit_vector); }
            self.sequencer_pos = next & 7;
        } else {
            self.timer_counter = self.timer_counter - 1;
        }
    }

    pub fn current_duty_output(&self) -> (r: u8)
        ensures
            r == self.duty_value(),
    {
        proof {
            use_type_invariant(self);
            lemma_byte_fields(self.duty_env);
        }
        let duty = (self.duty_env >> 6u8) & 0x03;
        DUTY_TABLE[duty as usize][self.sequencer_pos as usize]
    }

    pub fn clock_envelope(&mut self)
        ensures
            *final(self) == old(self).envelope_clocked(),
        no_unwind
    {
        proof { use_type_invariant(&*self); }
        if self.envelope_start {
            self.envelope_start = false;
            self.envelope_decay = 15;
            self.envelope_counter = self.volume_or_period;
        } else if self.envelope_counter > 0 {
            self.envelope_counter = self.envelope_counter - 1;
        } else {
            self.envelope_counter = self.volume_or_period;
            if self.envelope_decay > 0 {
                self.envelope_decay = self.envelope_decay - 1;
            } else if self.length_halt {
                self.envelope_decay = 15;
            }
        }
    }

    pub fn current_volume(&self) -> (r: u8)
        ensures
            r == self.volume(),
    {
        if self.constant_volume {
            self.volume_or_period
        } else {
            self.envelope_decay
        }
    }

    pub fn clock_length_counter(&mut self)
        ensures
            *final(self) == old(self).length_clocked(),
        no_unwind
    {
        proof { use_type_invariant(&*self); }
        if !self.length_halt && self.length_counter > 0 {
            self.length_counter = self.length_counter - 1;
        }
    }

    pub fn clock_sweep(&mut self)
        ensures
            *final(self) == old(self).sweep_clocked(),
        no_unwind
    {
        proof { use_type_invariant(&*self); }
        let change_amount = self.timer_period >> self.sweep_shift;

        let target_period = if self.sweep_negate {
            if self.is_channel2 {
                wrapping_sub16(self.timer_period, change_amount)
            } else {
                wrapping_sub16(wrapping_sub16(self.timer_period, change_amount), 1)
            }
        } else {
            wrapping_add16(self.timer_period, change_amount)
        };

        let muting = self.timer_period < 8 || target_period > 0x7FF;

        if self.sweep_counter == 0 && self.sweep_enabled && self.sweep_shift > 0 && !muting {
            self.timer_period = target_period;
        }

        if self.sweep_counter == 0 || self.sweep_reload {
            self.sweep_counter = self.sweep_period;
            self.sweep_reload = false;
        } else {
            self.sweep_counter = self.sweep_counter - 1;
        }
    }

    pub fn length_counter_active(&self) -> (r: bool)
        ensures
            r == (self.length_counter() > 0),
    {
        self.length_counter > 0
    }

    pub fn output(&self) -> (r: u8)
        ensures
            r == self.output_value(),
    {
        if !self.enabled || self.length_counter == 0 || self.current_duty_output() == 0 {
            0
        } else {
            self.current_volume()
        }
    }
}

/// Disabling a pulse channel silences it and clears its length counter.
pub proof fn lemma_pulse_disable_silences(c: PulseChannel)
    ensures
        c.enabled_set(false).length_counter() == 0,
        c.enabled_set(false).output_value() == 0,
{
}

/// The length counter never rises on a length clock, and drops by exactly one
/// when it is running and not halted.
pub proof fn lemma_pulse_length_clock(c: PulseChannel)
    ensures
        c.length_clocked().length_counter() <= c.length_counter(),
        !c.length_halt() && c.length_counter() > 0 ==> c.length_clocked().length_counter()
            == c.length_counter() - 1,
{
}

/// Enabling keeps the length counter; disabling clears it.
pub proof fn lemma_pulse_enable(c: PulseChannel, enabled: bool)
    ensures
        c.enabled_set(enabled).is_enabled() == enabled,
        c.enabled_set(enabled).length_counter() == if enabled { c.length_counter() } else { 0 },
        c.enabled_set(enabled).timer_period() == c.timer_period(),
{
}

/// The volume after a write of `data` to 0x4000: with bit 4 set it is the constant
/// in the low four bits, whatever the envelope does; with bit 4 clear it is the
/// envelope's decay level. A restarted envelope decays from 15. The channel is
/// heard only at that volume.
pub proof fn lemma_pulse_volume(c: PulseChannel, data: u8)
    ensures
        ({
            let d = c.duty_env_written(data);
            &&& d.volume() == if data & 0x10 != 0 { data & 0x0F } else { c.envelope_level() }
            &&& data & 0x10 != 0 ==> d.envelope_clocked().volume() == data & 0x0F
            &&& data & 0x10 == 0 ==> d.envelope_clocked().volume() == d.envelope_clocked().envelope_level()
            &&& c.envelope_started() ==> d.envelope_clocked().envelope_level() == 15
        }),
        c.output_value() == 0 || c.output_value() == c.volume(),
        c.length_counter() == 0 ==> c.output_value() == 0,
{
}

/// The sweep's target period: the period plus its shifted-down copy, or minus
/// it when negating, where pulse 1 subtracts one more than pulse 2 (ones' against
/// twos' complement).
pub proof fn lemma_pulse_sweep_target(c: PulseChannel)
    ensures
        ({
            let (period, change) = (c.timer_period() as int, (c.timer_period() >> c.sweep_shift_amount()) as int);
            &&& !c.sweep_negates() ==> c.sweep_target() == (period + change) % 0x10000
            &&& c.sweep_negates() && c.second_channel() && change <= period ==> c.sweep_target() == period - change
            &&& c.sweep_negates() && !c.second_channel() && change < period ==> c.sweep_target() == period - change
                - 1
        }),
{
}

/// A write to the sweep register: bit 7 turns the sweep on, bits 4-6 are its
/// divider period, bit 3 negates, bits 0-2 are the shift; the divider reloads
/// on the next clock.
pub proof fn lemma_pulse_length_and_sweep_writes(c: PulseChannel, data: u8)
    ensures
        c.length_timer_hi_written(data).length_counter() == if c.is_enabled() {
            LENGTH_TABLE[(data >> 3u8) as int]
        } else {
            c.length_counter()
        },
        c.length_timer_hi_written(data).sequencer_pos() == 0,
        c.length_timer_hi_written(data).envelope_started(),
        c.sweep_written(data).sweep_negates() == (data & 0x08 != 0),
        c.sweep_written(data).sweep_shift_amount() == data & 0x07,
        c.sweep_written(data).timer_period() == c.timer_period(),
        c.sweep_written(data).second_channel() == c.second_channel(),
{
}

} // verus!
