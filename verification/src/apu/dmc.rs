use vstd::prelude::*;
use super::consts::DMC_RATE_TABLE;
use crate::bits::lemma_byte_fields;
use crate::savestate::{DmcChannelState, dmc_power_on};

verus! {

/// The delta modulation channel: 1-bit deltas read from memory move a 7-bit level.
pub struct DmcChannel {
    irq_enable: bool,
    loop_flag: bool,
    rate_index: u8,
    sample_addr_reg: u8,
    sample_length_reg: u8,

    timer_period: u16,
    timer_counter: u16,

    current_addr: u16,
    bytes_remaining: u16,
    sample_buffer: Option<u8>,

    shift_register: u8,
    bits_remaining: u8,
    output_level: u8,
    silence_flag: bool,

    enabled: bool,
    irq_pending: bool,
}

/// Where a sample starts: 0xC000 plus 64 times the address register.
pub open spec fn sample_start(sample_addr_reg: u8) -> u16 {
    (0xC000 + sample_addr_reg * 64) as u16
}

/// How long a sample is: 16 times the length register, plus one byte.
pub open spec fn sample_length(sample_length_reg: u8) -> u16 {
    (sample_length_reg * 16 + 1) as u16
}

impl DmcChannel {

    /// The channel's registers and counters as a savestate holds them.
    pub closed spec fn snapshot(&self) -> DmcChannelState {
        DmcChannelState {
            irq_enable: self.irq_enable,
            loop_flag: self.loop_flag,
            rate_index: self.rate_index,
            sample_addr_reg: self.sample_addr_reg,
            sample_length_reg: self.sample_length_reg,
            timer_period: self.timer_period,
            timer_counter: self.timer_counter,
            current_addr: self.current_addr,
            bytes_remaining: self.bytes_remaining,
            sample_buffer: self.sample_buffer,
            shift_register: self.shift_register,
            bits_remaining: self.bits_remaining,
            output_level: self.output_level,
            silence_flag: self.silence_flag,
            enabled: self.enabled,
            irq_pending: self.irq_pending,
        }
    }

    pub fn save_state(&self) -> (state: DmcChannelState)
        ensures
            state == self.snapshot(),
    {
        DmcChannelState {
            irq_enable: self.irq_enable,
            loop_flag: self.loop_flag,
            rate_index: self.rate_index,
            sample_addr_reg: self.sample_addr_reg,
            sample_length_reg: self.sample_length_reg,
            timer_period: self.timer_period,
            timer_counter: self.timer_counter,
            current_addr: self.current_addr,
            bytes_remaining: self.bytes_remaining,
            sample_buffer: self.sample_buffer,
            shift_register: self.shift_register,
            bits_remaining: self.bits_remaining,
            output_level: self.output_level,
            silence_flag: self.silence_flag,
            enabled: self.enabled,
            irq_pending: self.irq_pending,
        }
    }

    pub fn load_state(&mut self, state: &DmcChannelState)
        requires
            state.rate_index < 16,
            state.bits_remaining <= 8,
            state.output_level < 128,
        ensures
            final(self).snapshot() == *state,
        no_unwind
    {
        *self = DmcChannel {
            irq_enable: state.irq_enable,
            loop_flag: state.loop_flag,
            rate_index: state.rate_index,
            sample_addr_reg: state.sample_addr_reg,
            sample_length_reg: state.sample_length_reg,
            timer_period: state.timer_period,
            timer_counter: state.timer_counter,
            current_addr: state.current_addr,
            bytes_remaining: state.bytes_remaining,
            sample_buffer: state.sample_buffer,
            shift_register: state.shift_register,
            bits_remaining: state.bits_remaining,
            output_level: state.output_level,
            silence_flag: state.silence_flag,
            enabled: state.enabled,
            irq_pending: state.irq_pending,
        };
    }
    #[verifier::type_invariant]
    spec fn inv(self) -> bool {
        &&& self.rate_index < 16
        &&& self.bits_remaining <= 8
        &&& self.output_level < 128
    }

    pub closed spec fn bytes_remaining(&self) -> u16 {
        self.bytes_remaining
    }

    pub closed spec fn current_addr(&self) -> u16 {
        self.current_addr
    }

    pub closed spec fn buffer(&self) -> Option<u8> {
        self.sample_buffer
    }

    pub closed spec fn irq_flag(&self) -> bool {
        self.irq_pending
    }

    pub closed spec fn level(&self) -> u8 {
        self.output_level
    }

    /// The output unit is silent: it ran out of sample bytes at its last reload.
    pub closed spec fn silenced(&self) -> bool {
        self.silence_flag
    }

    /// The output unit's clock period, in APU cycles.
    pub closed spec fn rate(&self) -> u16 {
        self.timer_period
    }

    /// Bits of the output shift register still to play.
    pub closed spec fn bits_remaining(&self) -> u8 {
        self.bits_remaining
    }

    pub closed spec fn shift_register(&self) -> u8 {
        self.shift_register
    }

    pub closed spec fn is_enabled(&self) -> bool {
        self.enabled
    }

    pub closed spec fn loops(&self) -> bool {
        self.loop_flag
    }

    pub closed spec fn irq_enabled(&self) -> bool {
        self.irq_enable
    }

    pub closed spec fn sample_addr_reg(&self) -> u8 {
        self.sample_addr_reg
    }

    pub closed spec fn sample_length_reg(&self) -> u8 {
        self.sample_length_reg
    }

    /// The channel after a write to 0x4010: IRQ enable, loop, and rate; clearing
    /// IRQ enable also clears a pending IRQ.
    pub closed spec fn ctrl_written(self, data: u8) -> Self {
        let irq_enable = data & 0x80 != 0;
        DmcChannel {
            irq_enable,
            loop_flag: data & 0x40 != 0,
            rate_index: data & 0x0F,
            timer_period: DMC_RATE_TABLE[(data & 0x0F) as int],
            irq_pending: if !irq_enable { false } else { self.irq_pending },
            ..self
        }
    }

    pub closed spec fn direct_load_written(self, data: u8) -> Self {
        DmcChannel { output_level: data & 0x7F, ..self }
    }

    pub closed spec fn sample_addr_written(self, data: u8) -> Self {
        DmcChannel { sample_addr_reg: data, ..self }
    }

    pub closed spec fn sample_length_written(self, data: u8) -> Self {
        DmcChannel { sample_length_reg: data, ..self }
    }

    /// Disabling stops the sample; enabling restarts it when none is playing.
    pub closed spec fn enabled_set(self, enabled: bool) -> Self {
        if !enabled {
            DmcChannel { enabled, bytes_remaining: 0, ..self }
        } else if self.bytes_remaining == 0 {
            DmcChannel {
                enabled,
                current_addr: sample_start(self.sample_addr_reg),
                bytes_remaining: sample_length(self.sample_length_reg),
                ..self
            }
        } else {
            DmcChannel { enabled, ..self }
        }
    }

    pub closed spec fn irq_cleared(self) -> Self {
        DmcChannel { irq_pending: false, ..self }
    }

    /// The channel after one clock of its output unit: a set bit raises the level
    /// by two and a clear bit lowers it by two, within 0..=127, unless silenced;
    /// after eight bits the next byte comes from the buffer, or silence when empty.
    pub closed spec fn output_clocked(self) -> Self {
        let level = if !self.silence_flag {
            if self.shift_register & 1 != 0 {
                if self.output_level <= 125 { (self.output_level + 2) as u8 } else { self.output_level }
            } else if self.output_level >= 2 {
                (self.output_level - 2) as u8
            } else {
                self.output_level
            }
        } else {
            self.output_level
        };
        let shifted = self.shift_register >> 1u8;
        let bits = if self.bits_remaining > 0 { (self.bits_remaining - 1) as u8 } else { 0 };
        if bits == 0 {
            match self.sample_buffer {
                Some(byte) => DmcChannel {
                    output_level: level,
                    shift_register: byte,
                    bits_remaining: 8,
                    sample_buffer: None,
                    silence_flag: false,
                    ..self
                },
                None => DmcChannel {
                    output_level: level,
                    shift_register: shifted,
                    bits_remaining: 8,
                    silence_flag: true,
                    ..self
                },
            }
        } else {
            DmcChannel { output_level: level, shift_register: shifted, bits_remaining: bits, ..self }
        }
    }

    pub closed spec fn timer_ticked(self) -> Self {
        if self.timer_counter == 0 {
            DmcChannel { timer_counter: self.timer_period, ..self }.output_clocked()
        } else {
            DmcChannel { timer_counter: (self.timer_counter - 1) as u16, ..self }
        }
    }

    /// The address the channel wants a byte from: only when its buffer is empty
    /// and bytes of the sample remain.
    pub open spec fn wanted_address(&self) -> Option<u16> {
        if self.buffer() is None && self.bytes_remaining() > 0 {
            Some(self.current_addr())
        } else {
            None
        }
    }

    /// The channel after `byte` is handed to it: the buffer fills, the address moves
    /// on (0xFFFF wraps to 0x8000), and at the sample's end it either restarts
    /// (looping) or raises an IRQ (when enabled).
    pub closed spec fn byte_provided(self, byte: u8) -> Self {
        let addr: u16 = if self.current_addr == 0xFFFF { 0x8000 } else { (self.current_addr + 1) as u16 };
        let remaining = (self.bytes_remaining - 1) as u16;
        let c = DmcChannel { sample_buffer: Some(byte), current_addr: addr, bytes_remaining: remaining, ..self };
        if remaining == 0 {
            if self.loop_flag {
                DmcChannel {
                    current_addr: sample_start(self.sample_addr_reg),
                    bytes_remaining: sample_length(self.sample_length_reg),
                    ..c
                }
            } else if self.irq_enable {
                DmcChannel { irq_pending: true, ..c }
            } else {
                c
            }
        } else {
            c
        }
    }

    pub fn new() -> (c: Self)
        ensures
            c.bytes_remaining() == 0,
            c.current_addr() == 0xC000,
            c.buffer() is None,
            !c.irq_flag(),
            c.level() == 0,
            c.snapshot() == dmc_power_on(),
    {
        Self {
            irq_enable: false,
            loop_flag: false,
            rate_index: 0,
            sample_addr_reg: 0,
            sample_length_reg: 0,

            timer_period: DMC_RATE_TABLE[0],
            timer_counter: 0,

            current_addr: 0xC000,
            bytes_remaining: 0,
            sample_buffer: None,

            shift_register: 0,
            bits_remaining: 8,
            output_level: 0,
            silence_flag: true,

            enabled: false,
            irq_pending: false,
        }
    }

    pub fn write_ctrl(&mut self, data: u8)
        ensures
            *final(self) == old(self).ctrl_written(data),
        no_unwind
    {
        proof {
            use_type_invariant(&*self);
            lemma_byte_fields(data);
        }
        self.irq_enable = data & 0x80 != 0;
        self.loop_flag = data & 0x40 != 0;
        self.rate_index = data & 0x0F;
        self.timer_period = DMC_RATE_TABLE[self.rate_index as usize];
        if !self.irq_enable {
            self.irq_pending = false;
        }
    }

    pub fn write_direct_load(&mut self, data: u8)
        ensures
            *final(self) == old(self).direct_load_written(data),
        no_unwind
    {
        proof {
            use_type_invariant(&*self);
            lemma_byte_fields(data);
        }
        self.output_level = data & 0x7F;
    }

    pub fn write_sample_addr(&mut self, data: u8)
        ensures
            *final(self) == old(self).sample_addr_written(data),
        no_unwind
    {
        proof { use_type_invariant(&*self); }
        self.sample_addr_reg = data;
    }

    pub fn write_sample_length(&mut self, data: u8)
        ensures
            *final(self) == old(self).sample_length_written(data),
        no_unwind
    {
        proof { use_type_invariant(&*self); }
        self.sample_length_reg = data;
    }

    pub fn set_enabled(&mut self, enabled: bool)
        ensures
            *final(self) == old(self).enabled_set(enabled),
        no_unwind
    {
        proof { use_type_invariant(&*self); }
        self.enabled = enabled;
        if !enabled {
            self.bytes_remaining = 0;
        } else if self.bytes_remaining == 0 {
            self.current_addr = 0xC000 + (self.sample_addr_reg as u16) * 64;
            self.bytes_remaining = (self.sample_length_reg as u16) * 16 + 1;
        }
    }

    pub fn clear_irq(&mut self)
        ensures
            *final(self) == old(self).irq_cleared(),
        no_unwind
    {
        proof { use_type_invariant(&*self); }
        self.irq_pending = false;
    }

    pub fn irq_pending(&self) -> (r: bool)
        ensures
            r == self.irq_flag(),
    {
        self.irq_pending
    }

    pub fn is_active(&self) -> (r: bool)
        ensures
            r == (self.bytes_remaining() > 0),
    {
        self.bytes_remaining > 0
    }

    pub fn tick_timer(&mut self)
        ensures
            *final(self) == old(self).timer_ticked(),
        no_unwind
    {
        proof { use_type_invariant(&*self); }
        if self.timer_counter == 0 {
            self.timer_counter = self.timer_period;
            self.clock_output_unit();
        } else {
            self.timer_counter = self.timer_counter - 1;
        }
    }

    fn clock_output_unit(&mut self)
        ensures
            *final(self) == old(self).output_clocked(),
        no_unwind
    {
        proof { use_type_invariant(&*self); }
        if !self.silence_flag {
            if self.shift_register & 1 != 0 {
                if self.output_level <= 125 {
                    self.output_level = self.output_level + 2;
                }
            } else if self.output_level >= 2 {
                self.output_level = self.output_level - 2;
            }
        }
        self.shift_register = self.shift_register >> 1u8;

        if self.bits_remaining > 0 {
            self.bits_remaining = self.bits_remaining - 1;
        }
        if self.bits_remaining == 0 {
            self.bits_remaining = 8;
            match self.sample_buffer {
                Some(byte) => {
                    self.sample_buffer = None;
                    self.silence_flag = false;
                    self.shift_register = byte;
                },
                None => {
                    self.silence_flag = true;
                },
            }
        }
    }

    pub fn fetch_request(&self) -> (r: Option<u16>)
        ensures
            r == self.wanted_address(),
    {
        if self.sample_buffer.is_none() && self.bytes_remaining > 0 {
            Some(self.current_addr)
        } else {
            None
        }
    }

    pub fn provide_byte(&mut self, byte: u8)
        requires
            old(self).bytes_remaining() > 0,
        ensures
            *final(self) == old(self).byte_provided(byte),
        no_unwind
    {
        proof { use_type_invariant(&*self); }
        self.sample_buffer = Some(byte);
        self.current_addr = if self.current_addr == 0xFFFF { 0x8000 } else { self.current_addr + 1 };
        self.bytes_remaining = self.bytes_remaining - 1;

        if self.bytes_remaining == 0 {
            if self.loop_flag {
                self.current_addr = 0xC000 + (self.sample_addr_reg as u16) * 64;
                self.bytes_remaining = (self.sample_length_reg as u16) * 16 + 1;
            } else if self.irq_enable {
                self.irq_pending = true;
            }
        }
    }

    pub fn output(&self) -> (r: u8)
        ensures
            r == self.level(),
    {
        self.output_level
    }
}

/// A looping sample never runs out: after its last byte it starts again from the
/// top with its full length, and raises no IRQ.
pub proof fn lemma_dmc_loop_restarts(c: DmcChannel, byte: u8)
    requires
        c.bytes_remaining() == 1,
        c.loops(),
    ensures
        c.byte_provided(byte).bytes_remaining() == sample_length(c.sample_length_reg()),
        c.byte_provided(byte).current_addr() == sample_start(c.sample_addr_reg()),
        c.byte_provided(byte).irq_flag() == c.irq_flag(),
{
}

/// A non-looping sample with IRQs enabled raises an IRQ when its last byte is
/// fetched.
pub proof fn lemma_dmc_end_raises_irq(c: DmcChannel, byte: u8)
    requires
        c.bytes_remaining() == 1,
        !c.loops(),
        c.irq_enabled(),
    ensures
        c.byte_provided(byte).irq_flag(),
        c.byte_provided(byte).bytes_remaining() == 0,
{
}

/// Each clock of the output unit moves the level by at most one step of two: up
/// for a set bit, down for a clear one, staying put at the ends of 0..=127 and
/// whenever the unit is silenced.
pub proof fn lemma_dmc_output_step(c: DmcChannel)
    ensures
        ({
            let (before, after) = (c.level() as int, c.output_clocked().level() as int);
            &&& after == before || after == before + 2 || after == before - 2
            &&& c.silenced() ==> after == before
            &&& before <= 127 ==> after <= 127
        }),
        ({
            let (before, after) = (c.level() as int, c.timer_ticked().level() as int);
            &&& after == before || after == before + 2 || after == before - 2
            &&& c.silenced() ==> after == before
            &&& before <= 127 ==> after <= 127
        }),
{
}

/// The output unit's bit counter: each clock plays one bit. With more than one bit
/// left the count drops by one and the shift register moves right; on the last
/// bit an 8-bit cycle starts: the buffered byte, if any, moves into the shift
/// register and empties the buffer, and the unit is silenced exactly when there
/// was none. The count always stays within 1..=8.
pub proof fn lemma_dmc_bit_counter(c: DmcChannel)
    requires
        c.bits_remaining() <= 8,
    ensures
        ({
            let d = c.output_clocked();
            &&& 1 <= d.bits_remaining() <= 8
            &&& c.bits_remaining() > 1 ==> {
                &&& d.bits_remaining() == c.bits_remaining() - 1
                &&& d.shift_register() == c.shift_register() >> 1u8
                &&& d.buffer() == c.buffer()
                &&& d.silenced() == c.silenced()
            }
            &&& c.bits_remaining() <= 1 ==> {
                &&& d.bits_remaining() == 8
                &&& d.buffer() is None
                &&& d.silenced() == (c.buffer() is None)
                &&& (c.buffer() matches Some(byte) ==> d.shift_register() == byte)
            }
        }),
{
}

/// Enabling restarts a finished sample from its start and length; disabling
/// drops what is left of the sample. Clearing the IRQ touches nothing else.
pub proof fn lemma_dmc_enable(c: DmcChannel, enabled: bool)
    ensures
        c.enabled_set(enabled).is_enabled() == enabled,
        !enabled ==> c.enabled_set(enabled).bytes_remaining() == 0,
        enabled && c.bytes_remaining() == 0 ==> c.enabled_set(enabled).bytes_remaining() == sample_length(
            c.sample_length_reg(),
        ) && c.enabled_set(enabled).current_addr() == sample_start(c.sample_addr_reg()),
        enabled && c.bytes_remaining() != 0 ==> c.enabled_set(enabled).bytes_remaining() == c.bytes_remaining()
            && c.enabled_set(enabled).current_addr() == c.current_addr(),
        c.enabled_set(enabled).irq_flag() == c.irq_flag(),
        !c.irq_cleared().irq_flag(),
        c.irq_cleared().bytes_remaining() == c.bytes_remaining(),
        c.irq_cleared().is_enabled() == c.is_enabled(),
        c.irq_cleared().current_addr() == c.current_addr(),
{
}

/// A write to 0x4010: bit 7 enables the IRQ (clearing it drops a pending one),
/// bit 6 loops, the low nibble picks the rate from the table. A write to 0x4011
/// loads the output level with its low seven bits.
pub proof fn lemma_dmc_register_writes(c: DmcChannel, data: u8)
    ensures
        c.ctrl_written(data).irq_enabled() == (data & 0x80 != 0),
        c.ctrl_written(data).loops() == (data & 0x40 != 0),
        c.ctrl_written(data).rate() == DMC_RATE_TABLE[(data & 0x0F) as int],
        data & 0x80 == 0 ==> !c.ctrl_written(data).irq_flag(),
        data & 0x80 != 0 ==> c.ctrl_written(data).irq_flag() == c.irq_flag(),
        c.direct_load_written(data).level() == data & 0x7F,
{
}

} // verus!
