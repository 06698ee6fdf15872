use vstd::prelude::*;
use crate::savestate::ControllerSnapshot;

verus! {

/// What a standard controller holds: the buttons currently pressed, the shift
/// register the CPU reads them through, and the strobe latch.
pub struct ControllerView {
    /// Bit 0 A, 1 B, 2 Select, 3 Start, 4 Up, 5 Down, 6 Left, 7 Right.
    pub button_state: u8,
    pub shift_reg: u8,
    pub strobe: bool,
}

/// The eight buttons of a standard controller.
#[derive(Clone, Copy, Debug, PartialEq, Eq, Structural)]
pub enum Button {
    A,
    B,
    Select,
    Start,
    Up,
    Down,
    Left,
    Right,
}

/// The bit a button occupies in the button byte, in the order the controller
/// reports them.
pub open spec fn button_mask(button: Button) -> u8 {
    match button {
        Button::A => 0x01,
        Button::B => 0x02,
        Button::Select => 0x04,
        Button::Start => 0x08,
        Button::Up => 0x10,
        Button::Down => 0x20,
        Button::Left => 0x40,
        Button::Right => 0x80,
    }
}

/// The button byte after `button` is pressed or released: its bit set or cleared,
/// every other bit kept.
pub fn button_changed(buttons: u8, button: Button, pressed: bool) -> (r: u8)
    ensures
        r == if pressed { buttons | button_mask(button) } else { buttons & !button_mask(button) },
        forall|other: Button| #[trigger] button_mask(other) != button_mask(button) ==> r & button_mask(other)
            == buttons & button_mask(other),
        (r & button_mask(button) != 0) == pressed,
{
    let mask: u8 = match button {
        Button::A => 0x01,
        Button::B => 0x02,
        Button::Select => 0x04,
        Button::Start => 0x08,
        Button::Up => 0x10,
        Button::Down => 0x20,
        Button::Left => 0x40,
        Button::Right => 0x80,
    };
    let r = if pressed { buttons | mask } else { buttons & !mask };
    proof {
        assert(mask == 1 || mask == 2 || mask == 4 || mask == 8 || mask == 16 || mask == 32 || mask == 64
            || mask == 128);
        assert forall|other: Button| #[trigger] button_mask(other) != mask implies r & button_mask(other)
            == buttons & button_mask(other) by {
            let o = button_mask(other);
            assert(((buttons | mask) & o) == buttons & o && ((buttons & !mask) & o) == buttons & o) by (bit_vector)
                requires
                    mask == 1 || mask == 2 || mask == 4 || mask == 8 || mask == 16 || mask == 32 || mask == 64
                        || mask == 128,
                    o == 1 || o == 2 || o == 4 || o == 8 || o == 16 || o == 32 || o == 64 || o == 128,
                    o != mask,
            ;
        }
        assert(((buttons | mask) & mask) != 0 && ((buttons & !mask) & mask) == 0) by (bit_vector)
            requires
                mask == 1 || mask == 2 || mask == 4 || mask == 8 || mask == 16 || mask == 32 || mask == 64
                    || mask == 128,
        ;
    }
    r
}

/// A standard NES controller on port 0x4016 or 0x4017.
pub struct ControllerState {
    button_state: u8,
    shift_reg: u8,
    strobe: bool,
}

impl View for ControllerState {
    type V = ControllerView;

    closed spec fn view(&self) -> ControllerView {
        ControllerView { button_state: self.button_state, shift_reg: self.shift_reg, strobe: self.strobe }
    }
}

impl ControllerState {
    /// The bit a read returns: while strobing, the A button; otherwise the next
    /// bit of the shift register.
    pub open spec fn read_value(&self) -> u8 {
        if self@.strobe { self@.button_state & 1 } else { self@.shift_reg & 1 }
    }

    /// The controller after a read: while strobing nothing moves; otherwise the
    /// shift register moves right by one and fills with 1 from the top.
    pub closed spec fn after_read(&self) -> Self {
        if self.strobe {
            *self
        } else {
            ControllerState { shift_reg: (self.shift_reg >> 1u8) | 0x80, ..*self }
        }
    }

    /// The controller after a write of `data` to the strobe port: bit 0 sets or
    /// clears the strobe, and the shift register is reloaded from the buttons when
    /// the strobe is being set or was set before.
    pub closed spec fn after_strobe(&self, data: u8) -> Self {
        let strobe_on = data & 1 != 0;
        if strobe_on || self.strobe {
            ControllerState { strobe: strobe_on, shift_reg: self.button_state, ..*self }
        } else {
            ControllerState { strobe: false, ..*self }
        }
    }

    /// The controller with `buttons` pressed.
    pub closed spec fn with_buttons(&self, buttons: u8) -> Self {
        ControllerState { button_state: buttons, ..*self }
    }

    /// The controller as a savestate holds it.
    pub closed spec fn snapshot(&self) -> ControllerSnapshot {
        ControllerSnapshot { button_state: self.button_state, shift_reg: self.shift_reg, strobe: self.strobe }
    }

    pub fn save_state(&self) -> (state: ControllerSnapshot)
        ensures
            state == self.snapshot(),
    {
        ControllerSnapshot { button_state: self.button_state, shift_reg: self.shift_reg, strobe: self.strobe }
    }

    pub fn load_state(&mut self, state: &ControllerSnapshot)
        ensures
            final(self).snapshot() == *state,
            final(self)@ == (ControllerView {
                button_state: state.button_state,
                shift_reg: state.shift_reg,
                strobe: state.strobe,
            }),
    {
        self.button_state = state.button_state;
        self.shift_reg = state.shift_reg;
        self.strobe = state.strobe;
    }

    pub fn new() -> (c: Self)
        ensures
            c@ == (ControllerView { button_state: 0, shift_reg: 0, strobe: false }),
    {
        Self { button_state: 0, shift_reg: 0, strobe: false }
    }

    pub fn set_buttons(&mut self, buttons: u8)
        ensures
            *final(self) == old(self).with_buttons(buttons),
            final(self)@ == (ControllerView { button_state: buttons, ..old(self)@ }),
    {
        self.button_state = buttons;
    }

    pub fn write_strobe(&mut self, data: u8)
        ensures
            *final(self) == old(self).after_strobe(data),
            final(self)@.strobe == (data & 1 != 0),
            final(self)@.button_state == old(self)@.button_state,
            final(self)@.shift_reg == if data & 1 != 0 || old(self)@.strobe {
                old(self)@.button_state
            } else {
                old(self)@.shift_reg
            },
    {
        let strobe_on = data & 1 != 0;
        if strobe_on {
            self.strobe = true;
            self.shift_reg = self.button_state;
        } else {
            if self.strobe {
                self.shift_reg = self.button_state;
            }
            self.strobe = false;
        }
    }

    /// The bit the next read would return, without shifting.
    pub fn peek(&self) -> (bit: u8)
        ensures
            bit == self.read_value(),
    {
        if self.strobe { self.button_state & 1 } else { self.shift_reg & 1 }
    }

    pub fn read(&mut self) -> (bit: u8)
        ensures
            bit == old(self).read_value(),
            *final(self) == old(self).after_read(),
            final(self)@ == if old(self)@.strobe {
                old(self)@
            } else {
                ControllerView { shift_reg: (old(self)@.shift_reg >> 1u8) | 0x80, ..old(self)@ }
            },
    {
        if self.strobe {
            self.button_state & 1
        } else {
            let bit = self.shift_reg & 1;
            self.shift_reg = (self.shift_reg >> 1u8) | 0x80;
            bit
        }
    }
}

/// After a strobe pulse (a write of 1 then of 0), eight reads return the buttons
/// in order, A first, and every later read returns 1.
pub proof fn lemma_serial_readout(c: ControllerState, buttons: u8)
    ensures
        ({
            let latched = c.with_buttons(buttons).after_strobe(1).after_strobe(0);
            &&& latched.read_value() == buttons & 1
            &&& latched.after_read().read_value() == (buttons >> 1u8) & 1
            &&& latched.after_read().after_read().read_value() == (buttons >> 2u8) & 1
            &&& latched.after_read().after_read().after_read().read_value() == (buttons >> 3u8) & 1
            &&& latched.after_read().after_read().after_read().after_read().read_value() == (buttons
                >> 4u8) & 1
            &&& latched.after_read().after_read().after_read().after_read().after_read().read_value()
                == (buttons >> 5u8) & 1
            &&& latched.after_read().after_read().after_read().after_read().after_read().after_read().read_value()
                == (buttons >> 6u8) & 1
            &&& latched.after_read().after_read().after_read().after_read().after_read().after_read().after_read().read_value()
                == (buttons >> 7u8) & 1
            &&& latched.after_read().after_read().after_read().after_read().after_read().after_read().after_read().after_read().read_value()
                == 1
        }),
{
    assert(1u8 & 1 != 0) by (bit_vector);
    assert(0u8 & 1 == 0) by (bit_vector);
    let latched = c.with_buttons(buttons).after_strobe(1).after_strobe(0);
    assert(latched.shift_reg == buttons && !latched.strobe);
    let b = buttons;
    let s1 = (b >> 1u8) | 0x80;
    let s2 = (s1 >> 1u8) | 0x80;
    let s3 = (s2 >> 1u8) | 0x80;
    let s4 = (s3 >> 1u8) | 0x80;
    let s5 = (s4 >> 1u8) | 0x80;
    let s6 = (s5 >> 1u8) | 0x80;
    let s7 = (s6 >> 1u8) | 0x80;
    let s8 = (s7 >> 1u8) | 0x80;
    assert(s1 & 1 == (b >> 1u8) & 1 && s2 & 1 == (b >> 2u8) & 1 && s3 & 1 == (b >> 3u8) & 1 && s4
        & 1 == (b >> 4u8) & 1 && s5 & 1 == (b >> 5u8) & 1 && s6 & 1 == (b >> 6u8) & 1 && s7 & 1 == (b
        >> 7u8) & 1 && s8 & 1 == 1) by (bit_vector)
        requires
            s1 == (b >> 1u8) | 0x80,
            s2 == (s1 >> 1u8) | 0x80,
            s3 == (s2 >> 1u8) | 0x80,
            s4 == (s3 >> 1u8) | 0x80,
            s5 == (s4 >> 1u8) | 0x80,
            s6 == (s5 >> 1u8) | 0x80,
            s7 == (s6 >> 1u8) | 0x80,
            s8 == (s7 >> 1u8) | 0x80,
    ;
}

} // verus!
