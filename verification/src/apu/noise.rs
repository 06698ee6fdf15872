use vstd::prelude::*;
use super::consts::{LENGTH_TABLE, NOISE_PERIOD_TABLE};
use crate::bits::lemma_byte_fields;
use crate::savestate::{NoiseChannelState, noise_power_on};

verus! {

/// The noise channel: a 15-bit linear feedback shift register clocked by a timer.
pub struct NoiseChannel {
    env: u8,
    mode_period: u8,
    length: u8,

    timer_period: u16,
    timer_counter: u16,
    shift_reg: u16,

    length_counter: u8,
    length_halt: bool,

    envelope_start: bool,
    envelope_decay: u8,
    envelope_counter: u8,
    constant_volume: bool,
    volume_or_period: u8,

    mode_short: bool,
    enabled: bool,
}

impl NoiseChannel {
    /// Every register and counter of the channel.
    pub closed spec fn snapshot(&self) -> NoiseChannelState {
        NoiseChannelState {
            env: self.env,
            mode_period: self.mode_period,
            length: self.length,
            timer_period: self.timer_period,
            timer_counter: self.timer_counter,
            shift_reg: self.shift_reg,
            length_counter: self.length_counter,
            length_halt: self.length_halt,
            envelope_start: self.envelope_start,
            envelope_decay: self.envelope_decay,
            envelope_counter: self.envelope_counter,
            constant_volume: self.constant_volume,
            volume_or_period: self.volume_or_period,
            mode_short: self.mode_short,
            enabled: self.enabled,
        }
    }

    pub closed spec fn env_written(self, data: u8) -> Self {
        NoiseChannel {
            env: data,
            length_halt: data & 0x20 != 0,
            constant_volume: data & 0x10 != 0,
            volume_or_period: data & 0x0F,
            ..self
        }
    }

    /// The channel after a write to 0x400E: bit 7 picks the short mode and the low
    /// four bits the timer period from the table.
    pub closed spec fn mode_period_written(self, data: u8) -> Self {
        NoiseChannel {
            mode_period: data,
            mode_short: data & 0x80 != 0,
            timer_period: NOISE_PERIOD_TABLE[(data & 0x0F) as int],
            ..self
        }
    }

    pub closed spec fn length_written(self, data: u8) -> Self {
        NoiseChannel {
            length: data,
            length_counter: if self.enabled { LENGTH_TABLE[(data >> 3u8) as int] } else { self.length_counter },
            envelope_start: true,
            ..self
        }
    }

    pub closed spec fn enabled_set(self, enabled: bool) -> Self {
        NoiseChannel { enabled, length_counter: if enabled { self.length_counter } else { 0 }, ..self }
    }

    /// The channel after one timer clock: on reaching zero the counter reloads and
    /// the shift register moves right, feeding bit 0 XOR bit 1 (bit 6 in short mode)
    /// into bit 14.
    pub closed spec fn timer_ticked(self) -> Self {
        if self.timer_counter == 0 {
            let feedback_bit: u16 = if self.mode_short { 6 } else { 1 };
            let feedback = (self.shift_reg & 1) ^ ((self.shift_reg >> feedback_bit) & 1);
            NoiseChannel {
                timer_counter: self.timer_period,
                shift_reg: (self.shift_reg >> 1u16) | (feedback << 14u16),
                ..self
            }
        } else {
            NoiseChannel { timer_counter: (self.timer_counter - 1) as u16, ..self }
        }
    }

    pub closed spec fn envelope_clocked(self) -> Self {
        if self.envelope_start {
            NoiseChannel { envelope_start: false, envelope_decay: 15, envelope_counter: self.volume_or_period, ..self }
        } else if self.envelope_counter > 0 {
            NoiseChannel { envelope_counter: (self.envelope_counter - 1) as u8, ..self }
        } else if self.envelope_decay > 0 {
            NoiseChannel {
                envelope_counter: self.volume_or_period,
                envelope_decay: (self.envelope_decay - 1) as u8,
                ..self
            }
        } else if self.length_halt {
            NoiseChannel { envelope_counter: self.volume_or_period, envelope_decay: 15, ..self }
        } else {
            NoiseChannel { envelope_counter: self.volume_or_period, ..self }
        }
    }

    pub closed spec fn length_clocked(self) -> Self {
        if !self.length_halt && self.length_counter > 0 {
            NoiseChannel { length_counter: (self.length_counter - 1) as u8, ..self }
        } else {
            self
        }
    }

    pub closed spec fn volume(self) -> u8 {
        if self.constant_volume { self.volume_or_period } else { self.envelope_decay }
    }

    /// Silent while disabled, while the length counter is zero, or while bit 0 of
    /// the shift register is set; the volume otherwise.
    pub closed spec fn output_value(self) -> u8 {
        if !self.enabled || self.length_counter == 0 || self.shift_reg & 1 != 0 {
            0
        } else {
            self.volume()
        }
    }

    /// The envelope's decay level, 0 to 15.
    pub closed spec fn envelope_level(&self) -> u8 {
        self.envelope_decay
    }

    /// The envelope restarts on its next clock.
    pub closed spec fn envelope_started(&self) -> bool {
        self.envelope_start
    }

    pub closed spec fn length_counter(&self) -> u8 {
        self.length_counter
    }

    /// The linear feedback shift register.
    pub closed spec fn shift_register(&self) -> u16 {
        self.shift_reg
    }

    pub closed spec fn timer_counter(&self) -> u16 {
        self.timer_counter
    }

    pub closed spec fn timer_period(&self) -> u16 {
        self.timer_period
    }

    /// Short mode: feedback from bit 6 rather than bit 1.
    pub closed spec fn short_mode(&self) -> bool {
        self.mode_short
    }

    pub closed spec fn is_enabled(&self) -> bool {
        self.enabled
    }

    pub fn new() -> (c: Self)
        ensures
            c.snapshot() == noise_power_on(),
    {
        Self {
            env: 0,
            mode_period: 0,
            length: 0,

            timer_period: NOISE_PERIOD_TABLE[0],
            timer_counter: 0,
            shift_reg: 1,

            length_counter: 0,
            length_halt: false,

            envelope_start: false,
            envelope_decay: 0,
            envelope_counter: 0,
            constant_volume: false,
            volume_or_period: 0,

            mode_short: false,
            enabled: false,
        }
    }

    pub fn write_env(&mut self, data: u8)
        ensures
            *final(self) == old(self).env_written(data),
        no_unwind
    {
        self.env = data;
        self.length_halt = data & 0x20 != 0;
        self.constant_volume = data & 0x10 != 0;
        self.volume_or_period = data & 0x0F;
    }

    pub fn write_mode_period(&mut self, data: u8)
        ensures
            *final(self) == old(self).mode_period_written(data),
        no_unwind
    {
        proof { lemma_byte_fields(data); }
        self.mode_period = data;
        self.mode_short = data & 0x80 != 0;
        self.timer_period = NOISE_PERIOD_TABLE[(data & 0x0F) as usize];
    }

    pub fn write_length(&mut self, data: u8)
        ensures
            *final(self) == old(self).length_written(data),
        no_unwind
    {
        proof { lemma_byte_fields(data); }
        self.length = data;
        if self.enabled {
            self.length_counter = LENGTH_TABLE[(data >> 3u8) as usize];
        }
        self.envelope_start = true;
    }

    pub fn set_enabled(&mut self, enabled: bool)
        ensures
            *final(self) == old(self).enabled_set(enabled),
        no_unwind
    {
        self.enabled = enabled;
        if !enabled {
            self.length_counter = 0;
        }
    }

    pub fn tick_timer(&mut self)
        ensures
            *final(self) == old(self).timer_ticked(),
        no_unwind
    {
        if self.timer_counter == 0 {
            self.timer_counter = self.timer_period;

            let feedback_bit: u16 = if self.mode_short { 6 } else { 1 };
            let feedback = (self.shift_reg & 1) ^ ((self.shift_reg >> feedback_bit) & 1);
            self.shift_reg = (self.shift_reg >> 1u16) | (feedback << 14u16);
        } else {
            self.timer_counter = self.timer_counter - 1;
        }
    }

    pub fn clock_envelope(&mut self)
        ensures
            *final(self) == old(self).envelope_clocked(),
        no_unwind
    {
        if self.envelope_start {
            self.envelope_start = false;
            self.envelope_decay = 15;
            self.envelope_counter = self.volume_or_period;
        } else if self.envelope_counter > 0 {
            self.envelope_counter = self.envelope_counter - 1;
        } else {
            self.envelope_counter = self.volume_or_period;
            if self.envelope_decay > 0 {
                self.envelope_decay = self.envelope_decay - 1;
            } else if self.length_halt {
                self.envelope_decay = 15;
            }
        }
    }

    pub fn clock_length_counter(&mut self)
        ensures
            *final(self) == old(self).length_clocked(),
        no_unwind
    {
        if !self.length_halt && self.length_counter > 0 {
            self.length_counter = self.length_counter - 1;
        }
    }

    fn current_volume(&self) -> (r: u8)
        ensures
            r == self.volume(),
    {
        if self.constant_volume {
            self.volume_or_period
        } else {
            self.envelope_decay
        }
    }

    pub fn output(&self) -> (r: u8)
        ensures
            r == self.output_value(),
    {
        if !self.enabled || self.length_counter == 0 {
            return 0;
        }
        if self.shift_reg & 1 != 0 {
            return 0;
        }
        self.current_volume()
    }

    pub fn length_counter_active(&self) -> (r: bool)
        ensures
            r == (self.length_counter() > 0),
    {
        self.length_counter > 0
    }

    pub fn save_state(&self) -> (state: NoiseChannelState)
        ensures
            state == self.snapshot(),
    {
        NoiseChannelState {
            env: self.env,
            mode_period: self.mode_period,
            length: self.length,
            timer_period: self.timer_period,
            timer_counter: self.timer_counter,
            shift_reg: self.shift_reg,
            length_counter: self.length_counter,
            length_halt: self.length_halt,
            envelope_start: self.envelope_start,
            envelope_decay: self.envelope_decay,
            envelope_counter: self.envelope_counter,
            constant_volume: self.constant_volume,
            volume_or_period: self.volume_or_period,
            mode_short: self.mode_short,
            enabled: self.enabled,
        }
    }

    pub fn load_state(&mut self, state: &NoiseChannelState)
        ensures
            final(self).snapshot() == *state,
        no_unwind
    {
        self.env = state.env;
        self.mode_period = state.mode_period;
        self.length = state.length;
        self.timer_period = state.timer_period;
        self.timer_counter = state.timer_counter;
        self.shift_reg = state.shift_reg;
        self.length_counter = state.length_counter;
        self.length_halt = state.length_halt;
        self.envelope_start = state.envelope_start;
        self.envelope_decay = state.envelope_decay;
        self.envelope_counter = state.envelope_counter;
        self.constant_volume = state.constant_volume;
        self.volume_or_period = state.volume_or_period;
        self.mode_short = state.mode_short;
        self.enabled = state.enabled;
    }
}

/// A snapshot determines the channel: two channels with the same snapshot are
/// the same channel, so loading a saved snapshot restores the channel exactly.
pub proof fn lemma_noise_snapshot_restores(a: NoiseChannel, b: NoiseChannel)
    requires
        a.snapshot() == b.snapshot(),
    ensures
        a == b,
{
}

/// Disabling the noise channel silences it.
pub proof fn lemma_noise_disable_silences(c: NoiseChannel)
    ensures
        c.enabled_set(false).output_value() == 0,
        c.enabled_set(false).length_counter() == 0,
{
}

/// The shift register never falls to zero: a timer clock on a register that is
/// not zero leaves it not zero, in either mode, and no register write or
/// envelope or length clock touches it. (It starts at 1.)
pub proof fn lemma_noise_lfsr_nonzero(c: NoiseChannel, data: u8, enabled: bool)
    requires
        c.shift_register() != 0,
    ensures
        c.timer_ticked().shift_register() != 0,
        c.env_written(data).shift_register() == c.shift_register(),
        c.mode_period_written(data).shift_register() == c.shift_register(),
        c.length_written(data).shift_register() == c.shift_register(),
        c.enabled_set(enabled).shift_register() == c.shift_register(),
        c.envelope_clocked().shift_register() == c.shift_register(),
        c.length_clocked().shift_register() == c.shift_register(),
{
    let s = c.shift_reg;
    assert(forall|k: u16| k == 1 || k == 6 ==> ((s >> 1u16) | (((s & 1) ^ ((s >> k) & 1)) << 14u16)) != 0)
        by (bit_vector)
        requires
            s != 0,
    ;
}

/// One timer clock: at zero the counter reloads from the period and the shift
/// register moves right by one, bit 14 taking bit 0 XOR bit 1 (bit 6 in short
/// mode); otherwise the counter counts down and the register stays. A register
/// strictly between 0 and 0x8000 stays there.
pub proof fn lemma_noise_timer_step(c: NoiseChannel)
    ensures
        ({
            let (s, d) = (c.shift_register(), c.timer_ticked());
            let k: u16 = if c.short_mode() { 6 } else { 1 };
            &&& c.timer_counter() == 0 ==> d.timer_counter() == c.timer_period()
                && d.shift_register() == (s >> 1u16) | (((s ^ (s >> k)) & 1) << 14u16)
            &&& c.timer_counter() != 0 ==> d.timer_counter() == c.timer_counter() - 1 && d.shift_register() == s
            &&& 0 < s < 0x8000 ==> 0 < d.shift_register() < 0x8000
            &&& d.timer_period() == c.timer_period() && d.short_mode() == c.short_mode()
        }),
{
    let s = c.shift_reg;
    let k: u16 = if c.mode_short { 6 } else { 1 };
    assert(((s >> 1u16) | (((s & 1) ^ ((s >> k) & 1)) << 14u16)) == ((s >> 1u16) | (((s ^ (s >> k)) & 1)
        << 14u16)) && (0 < s < 0x8000 ==> 0 < ((s >> 1u16) | (((s & 1) ^ ((s >> k) & 1)) << 14u16)) < 0x8000))
        by (bit_vector)
        requires
            k == 1 || k == 6,
    ;
}

/// Enabling keeps the length counter; disabling clears it.
pub proof fn lemma_noise_enable(c: NoiseChannel, enabled: bool)
    ensures
        c.enabled_set(enabled).is_enabled() == enabled,
        c.enabled_set(enabled).length_counter() == if enabled { c.length_counter() } else { 0 },
        c.enabled_set(enabled).shift_register() == c.shift_register(),
{
}

/// The volume after a write of `data` to 0x400C: with bit 4 set it is the constant
/// in the low four bits, whatever the envelope does; with bit 4 clear it is the
/// envelope's decay level. A restarted envelope decays from 15. The channel is
/// heard only at that volume.
pub proof fn lemma_noise_volume(c: NoiseChannel, data: u8)
    ensures
        ({
            let d = c.env_written(data);
            &&& d.volume() == if data & 0x10 != 0 { data & 0x0F } else { c.envelope_level() }
            &&& data & 0x10 != 0 ==> d.envelope_clocked().volume() == data & 0x0F
            &&& data & 0x10 == 0 ==> d.envelope_clocked().volume() == d.envelope_clocked().envelope_level()
            &&& c.envelope_started() ==> d.envelope_clocked().envelope_level() == 15
        }),
        c.output_value() == 0 || c.output_value() == c.volume(),
        c.length_counter() == 0 ==> c.output_value() == 0,
{
}

/// A write to 0x400E: bit 7 picks short mode, the low nibble picks the timer
/// period from the table; the shift register is untouched.
pub proof fn lemma_noise_mode_period_write(c: NoiseChannel, data: u8)
    ensures
        c.mode_period_written(data).short_mode() == (data & 0x80 != 0),
        c.mode_period_written(data).timer_period() == NOISE_PERIOD_TABLE[(data & 0x0F) as int],
        c.mode_period_written(data).shift_register() == c.shift_register(),
        c.length_written(data).length_counter() == if c.is_enabled() {
            LENGTH_TABLE[(data >> 3u8) as int]
        } else {
            c.length_counter()
        },
        c.length_written(data).envelope_started(),
{
}

} // verus!
