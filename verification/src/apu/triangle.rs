use vstd::prelude::*;
use super::consts::{LENGTH_TABLE, TRIANGLE_TABLE};
use crate::bits::lemma_byte_fields;
use crate::savestate::{TriangleChannelState, triangle_power_on};

verus! {

/// The triangle channel.
pub struct TriangleChannel {
    linear_ctrl: u8,
    timer_lo: u8,
    length_timer_hi: u8,

    timer_period: u16,
    timer_counter: u16,
    sequencer_pos: u8,

    length_counter: u8,
    control_flag: bool,

    linear_counter: u8,
    linear_reload_value: u8,
    linear_reload_flag: bool,

    enabled: bool,
}

impl TriangleChannel {

    /// The channel's registers and counters as a savestate holds them.
    pub closed spec fn snapshot(&self) -> TriangleChannelState {
        TriangleChannelState {
            linear_ctrl: self.linear_ctrl,
            timer_lo: self.timer_lo,
            length_timer_hi: self.length_timer_hi,
            timer_period: self.timer_period,
            timer_counter: self.timer_counter,
            sequencer_pos: self.sequencer_pos,
            length_counter: self.length_counter,
            control_flag: self.control_flag,
            linear_counter: self.linear_counter,
            linear_reload_value: self.linear_reload_value,
            linear_reload_flag: self.linear_reload_flag,
            enabled: self.enabled,
        }
    }

    pub fn save_state(&self) -> (state: TriangleChannelState)
        ensures
            state == self.snapshot(),
    {
        TriangleChannelState {
            linear_ctrl: self.linear_ctrl,
            timer_lo: self.timer_lo,
            length_timer_hi: self.length_timer_hi,
            timer_period: self.timer_period,
            timer_counter: self.timer_counter,
            sequencer_pos: self.sequencer_pos,
            length_counter: self.length_counter,
            control_flag: self.control_flag,
            linear_counter: self.linear_counter,
            linear_reload_value: self.linear_reload_value,
            linear_reload_flag: self.linear_reload_flag,
            enabled: self.enabled,
        }
    }

    pub fn load_state(&mut self, state: &TriangleChannelState)
        requires
            state.sequencer_pos < 32,
        ensures
            final(self).snapshot() == *state,
        no_unwind
    {
        *self = TriangleChannel {
            linear_ctrl: state.linear_ctrl,
            timer_lo: state.timer_lo,
            length_timer_hi: state.length_timer_hi,
            timer_period: state.timer_period,
            timer_counter: state.timer_counter,
            sequencer_pos: state.sequencer_pos,
            length_counter: state.length_counter,
            control_flag: state.control_flag,
            linear_counter: state.linear_counter,
            linear_reload_value: state.linear_reload_value,
            linear_reload_flag: state.linear_reload_flag,
            enabled: state.enabled,
        };
    }
    #[verifier::type_invariant]
    spec fn inv(self) -> bool {
        self.sequencer_pos < 32
    }

    pub closed spec fn length_counter(&self) -> u8 {
        self.length_counter
    }

    pub closed spec fn linear_counter(&self) -> u8 {
        self.linear_counter
    }

    pub closed spec fn sequencer_pos(&self) -> u8 {
        self.sequencer_pos
    }

    pub closed spec fn is_enabled(&self) -> bool {
        self.enabled
    }

    /// The channel after a write to its linear counter register.
    pub closed spec fn linear_ctrl_written(self, data: u8) -> Self {
        TriangleChannel {
            linear_ctrl: data,
            control_flag: data & 0x80 != 0,
            linear_reload_value: data & 0x7F,
            ..self
        }
    }

    pub closed spec fn timer_lo_written(self, data: u8) -> Self {
        TriangleChannel { timer_lo: data, timer_period: (self.timer_period & 0xFF00) | data as u16, ..self }
    }

    /// The channel after a write to its length / timer-high register: the length
    /// counter loads when enabled and the linear counter is due to reload.
    pub closed spec fn length_timer_hi_written(self, data: u8) -> Self {
        TriangleChannel {
            length_timer_hi: data,
            timer_period: (self.timer_period & 0x00FF) | (((data & 0x07) as u16) << 8u16),
            length_counter: if self.enabled { LENGTH_TABLE[(data >> 3u8) as int] } else { self.length_counter },
            linear_reload_flag: true,
            ..self
        }
    }

    pub closed spec fn enabled_set(self, enabled: bool) -> Self {
        TriangleChannel { enabled, length_counter: if enabled { self.length_counter } else { 0 }, ..self }
    }

    /// The channel after one timer clock: on reaching zero the counter reloads, and
    /// the sequence advances only while both counters are nonzero.
    pub closed spec fn timer_ticked(self) -> Self {
        if self.timer_counter == 0 {
            TriangleChannel {
                timer_counter: self.timer_period,
                sequencer_pos: if self.length_counter > 0 && self.linear_counter > 0 {
                    ((self.sequencer_pos + 1) % 32) as u8
                } else {
                    self.sequencer_pos
                },
                ..self
            }
        } else {
            TriangleChannel { timer_counter: (self.timer_counter - 1) as u16, ..self }
        }
    }

    /// The channel after a quarter-frame clock of its linear counter.
    pub closed spec fn linear_clocked(self) -> Self {
        let counter = if self.linear_reload_flag {
            self.linear_reload_value
        } else if self.linear_counter > 0 {
            (self.linear_counter - 1) as u8
        } else {
            self.linear_counter
        };
        TriangleChannel {
            linear_counter: counter,
            linear_reload_flag: if !self.control_flag { false } else { self.linear_reload_flag },
            ..self
        }
    }

    pub closed spec fn length_clocked(self) -> Self {
        if !self.control_flag && self.length_counter > 0 {
            TriangleChannel { length_counter: (self.length_counter - 1) as u8, ..self }
        } else {
            self
        }
    }

    /// The sequence step the channel outputs, or 0 while disabled.
    pub closed spec fn output_value(self) -> u8 {
        if !self.enabled { 0 } else { TRIANGLE_TABLE[self.sequencer_pos as int] }
    }

    pub fn new() -> (c: Self)
        ensures
            c.length_counter() == 0,
            c.linear_counter() == 0,
            c.sequencer_pos() == 0,
            !c.is_enabled(),
            c.snapshot() == triangle_power_on(),
    {
        Self {
            linear_ctrl: 0,
            timer_lo: 0,
            length_timer_hi: 0,

            timer_period: 0,
            timer_counter: 0,
            sequencer_pos: 0,

            length_counter: 0,
            control_flag: false,

            linear_counter: 0,
            linear_reload_value: 0,
            linear_reload_flag: false,

            enabled: false,
        }
    }

    pub fn write_linear_ctrl(&mut self, data: u8)
        ensures
            *final(self) == old(self).linear_ctrl_written(data),
        no_unwind
    {
        proof { use_type_invariant(&*self); }
        self.linear_ctrl = data;
        self.control_flag = data & 0x80 != 0;
        self.linear_reload_value = data & 0x7F;
    }

    pub fn write_timer_lo(&mut self, data: u8)
        ensures
            *final(self) == old(self).timer_lo_written(data),
        no_unwind
    {
        proof { use_type_invariant(&*self); }
        self.timer_lo = data;
        self.timer_period = (self.timer_period & 0xFF00) | data as u16;
    }

    pub fn write_length_timer_hi(&mut self, data: u8)
        ensures
            *final(self) == old(self).length_timer_hi_written(data),
        no_unwind
    {
        proof {
            use_type_invariant(&*self);
            lemma_byte_fields(data);
        }
        self.length_timer_hi = data;
        self.timer_period = (self.timer_period & 0x00FF) | (((data & 0x07) as u16) << 8u16);

        if self.enabled {
            self.length_counter = LENGTH_TABLE[(data >> 3u8) as usize];
        }
        self.linear_reload_flag = true;
    }

    pub fn set_enabled(&mut self, enabled: bool)
        ensures
            *final(self) == old(self).enabled_set(enabled),
        no_unwind
    {
        proof { use_type_invariant(&*self); }
        self.enabled = enabled;
        if !enabled {
            self.length_counter = 0;
        }
    }

    pub fn tick_timer(&mut self)
        ensures
            *final(self) == old(self).timer_ticked(),
        no_unwind
    {
        proof { use_type_invariant(&*self); }
        if self.timer_counter == 0 {
            self.timer_counter = self.timer_period;
            if self.length_counter > 0 && self.linear_counter > 0 {
                let next: u8 = self.sequencer_pos + 1;
                proof { assert(next & 31 == next % 32) by (bit_vector); }
                self.sequencer_pos = next & 31;
            }
        } else {
            self.timer_counter = self.timer_counter - 1;
        }
    }

    pub fn clock_linear_counter(&mut self)
        ensures
            *final(self) == old(self).linear_clocked(),
        no_unwind
    {
        proof { use_type_invariant(&*self); }
        if self.linear_reload_flag {
            self.linear_counter = self.linear_reload_value;
        } else if self.linear_counter > 0 {
            self.linear_counter = self.linear_counter - 1;
        }
        if !self.control_flag {
            self.linear_reload_flag = false;
        }
    }

    pub fn clock_length_counter(&mut self)
        ensures
            *final(self) == old(self).length_clocked(),
        no_unwind
    {
        proof { use_type_invariant(&*self); }
        if !self.control_flag && self.length_counter > 0 {
            self.length_counter = self.length_counter - 1;
        }
    }

    pub fn output(&self) -> (r: u8)
        ensures
            r == self.output_value(),
    {
        proof { use_type_invariant(self); }
        if !self.enabled {
            return 0;
        }
        TRIANGLE_TABLE[self.sequencer_pos as usize]
    }

    pub fn length_counter_active(&self) -> (r: bool)
        ensures
            r == (self.length_counter() > 0),
    {
        self.length_counter > 0
    }
}

/// The triangle's sequence only moves while both its counters are running.
pub proof fn lemma_triangle_holds_when_silenced(c: TriangleChannel)
    requires
        c.length_counter() == 0 || c.linear_counter() == 0,
    ensures
        c.timer_ticked().sequencer_pos() == c.sequencer_pos(),
{
}

/// Enabling keeps the length counter; disabling clears it.
pub proof fn lemma_triangle_enable(c: TriangleChannel, enabled: bool)
    ensures
        c.enabled_set(enabled).is_enabled() == enabled,
        c.enabled_set(enabled).length_counter() == if enabled { c.length_counter() } else { 0 },
        c.enabled_set(enabled).linear_counter() == c.linear_counter(),
{
}

} // verus!
