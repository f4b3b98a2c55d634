use vstd::prelude::*;

verus! {

/// Bit 0 of a byte written to the controller port drives the strobe line.
pub const MASK_STROBE: u8 = 1;

/// The eight buttons of the standard pad, in the order in which the shift
/// register reports them.
#[derive(Clone, Copy, Debug, PartialEq, Eq, Structural)]
pub enum Button {
    A,
    B,
    Select,
    Start,
    Up,
    Down,
    Left,
    Right,
}

impl Button {
    /// Position of the button's bit in the button byte (A is bit 0, Right is
    /// bit 7).
    pub open spec fn bit(self) -> u8 {
        match self {
            Button::A => 0,
            Button::B => 1,
            Button::Select => 2,
            Button::Start => 3,
            Button::Up => 4,
            Button::Down => 5,
            Button::Left => 6,
            Button::Right => 7,
        }
    }
}

/// A serial game pad: eight button bits, an eight bit shift register and the
/// strobe line that reloads the register from the buttons.
pub struct Controller {
    pub button_states: u8,
    pub shift_register: u8,
    pub strobe: bool,
}

/// What the shift register holds after `count` reads that started from
/// `register` with the strobe low: each read drops bit 0 and feeds a 1 in at
/// the top.
pub open spec fn shifted(register: u8, count: nat) -> u8
    decreases count,
{
    if count == 0 {
        register
    } else {
        (shifted(register, (count - 1) as nat) >> 1) | 0x80
    }
}

impl Controller {
    /// The byte a read looks at: the buttons themselves while the strobe is
    /// high, the shift register otherwise.
    pub open spec fn source(self) -> u8 {
        if self.strobe {
            self.button_states
        } else {
            self.shift_register
        }
    }

    /// The bit that the next read returns.
    pub open spec fn read_value(self) -> u8 {
        self.source() & 1
    }

    /// The controller after one read.
    pub open spec fn after_read(self) -> Controller {
        Controller { shift_register: (self.source() >> 1) | 0x80, ..self }
    }

    /// The controller after `count` reads in a row.
    pub open spec fn after_reads(self, count: nat) -> Controller
        decreases count,
    {
        if count == 0 {
            self
        } else {
            self.after_reads((count - 1) as nat).after_read()
        }
    }

    /// The controller after `value` was written to its port.
    pub open spec fn after_write(self, value: u8) -> Controller {
        let strobe = (value & MASK_STROBE) == 1;
        Controller {
            strobe,
            shift_register: if strobe {
                self.button_states
            } else {
                self.shift_register
            },
            ..self
        }
    }

    /// The controller after `button` was pressed (`down`) or released.
    pub open spec fn with_button(self, button: Button, down: bool) -> Controller {
        let mask = 1u8 << button.bit();
        Controller {
            button_states: if down {
                self.button_states | mask
            } else {
                self.button_states & !mask
            },
            ..self
        }
    }

    /// No button held, the strobe line high.
    pub fn new() -> (controller: Controller)
        ensures
            controller == (Controller { button_states: 0, shift_register: 0, strobe: true }),
    {
        Controller { button_states: 0, shift_register: 0x00, strobe: true }
    }

    fn load_shift_register(&mut self)
        ensures
            *final(self) == (Controller { shift_register: old(self).button_states, ..*old(self) }),
    {
        self.shift_register = self.button_states;
    }

    /// Reads the next bit from the serial line.
    pub fn read(&mut self) -> (bit: u8)
        ensures
            bit == old(self).read_value(),
            *final(self) == old(self).after_read(),
    {
        if self.strobe {
            self.load_shift_register();
        }
        let result: u8 = self.shift_register & 1;
        self.shift_register >>= 1;
        // The top bit is set so that every read past the eighth yields 1.
        self.shift_register |= 0b1000_0000;
        result
    }

    /// Writes to the controller port; only the strobe bit is looked at.
    pub fn write(&mut self, value: u8)
        ensures
            *final(self) == old(self).after_write(value),
    {
        self.strobe = (value & MASK_STROBE) == 1;
        if self.strobe {
            self.load_shift_register()
        }
    }

    /// Records that `button` is held (`value` true) or released.
    pub fn set_button_state(&mut self, button: Button, value: bool)
        ensures
            *final(self) == old(self).with_button(button, value),
    {
        let index: u8 = match button {
            Button::A => 0,
            Button::B => 1,
            Button::Select => 2,
            Button::Start => 3,
            Button::Up => 4,
            Button::Down => 5,
            Button::Left => 6,
            Button::Right => 7,
        };
        let mask: u8 = 1u8 << index;
        if value {
            self.button_states |= mask;
        } else {
            self.button_states &= !mask;
        }
    }
}

impl Default for Controller {
    fn default() -> (controller: Controller)
        ensures
            controller == (Controller { button_states: 0, shift_register: 0, strobe: true }),
    {
        Controller::new()
    }
}

proof fn lemma_shift_step(register: u8, count: u16)
    by (bit_vector)
    requires
        count < 8,
    ensures
        ((((((register as u16) | 0xFF00) >> count) & 0xFF) as u8) >> 1) | 0x80 == ((((
        register as u16) | 0xFF00) >> ((count + 1) as u16)) & 0xFF) as u8,
        ((((register as u16) | 0xFF00) >> count) & 0xFF) as u8 & 1 == (register >> (
        count as u8)) & 1,
        ((((register as u16) | 0xFF00) >> 8u16) & 0xFF) as u8 == 0xFF,
        ((((register as u16) | 0xFF00) >> 0u16) & 0xFF) as u8 == register,
        (0xFFu8 >> 1) | 0x80 == 0xFF,
        0xFFu8 & 1 == 1,
{
}

/// Closed form of the shift register: after `count` reads the low byte of the
/// button byte extended with ones, moved right by `count`, saturating at eight.
pub proof fn lemma_shifted_closed_form(register: u8, count: nat)
    ensures
        count < 8 ==> shifted(register, count) == ((((register as u16) | 0xFF00) >> (
        count as u16)) & 0xFF) as u8,
        count >= 8 ==> shifted(register, count) == 0xFF,
    decreases count,
{
    lemma_shift_step(register, 0);
    if count > 0 {
        lemma_shifted_closed_form(register, (count - 1) as nat);
        if count <= 8 {
            lemma_shift_step(register, (count - 1) as u16);
        }
    }
}

/// While the strobe is low, `count` reads leave the strobe and the buttons
/// alone and move the shift register `count` places.
pub proof fn lemma_reads_with_strobe_low(controller: Controller, count: nat)
    requires
        !controller.strobe,
    ensures
        controller.after_reads(count) == (Controller {
            shift_register: shifted(controller.shift_register, count),
            ..controller
        }),
    decreases count,
{
    if count > 0 {
        lemma_reads_with_strobe_low(controller, (count - 1) as nat);
    }
}

/// While the strobe is high, every read returns the state of button A, however
/// many reads came before it.
pub proof fn lemma_reads_with_strobe_high(controller: Controller, count: nat)
    requires
        controller.strobe,
    ensures
        controller.after_reads(count).strobe,
        controller.after_reads(count).button_states == controller.button_states,
        controller.after_reads(count).read_value() == controller.button_states & 1,
    decreases count,
{
    if count > 0 {
        lemma_reads_with_strobe_high(controller, (count - 1) as nat);
    }
}

/// After the strobe went high and low again, the reads return the buttons in
/// the order A, B, Select, Start, Up, Down, Left, Right, and 1 from the ninth
/// read on.
pub proof fn lemma_read_after_latch(controller: Controller, count: nat)
    ensures
        controller.after_write(1).after_write(0).after_reads(count).read_value() == (if count
            < 8 {
            (controller.button_states >> (count as u8)) & 1
        } else {
            1u8
        }),
{
    assert(1u8 & 1 == 1 && 0u8 & 1 == 0) by (bit_vector);
    let latched = controller.after_write(1).after_write(0);
    assert(!latched.strobe);
    assert(latched.shift_register == controller.button_states);
    lemma_reads_with_strobe_low(latched, count);
    lemma_shifted_closed_form(controller.button_states, count);
    if count < 8 {
        lemma_shift_step(controller.button_states, count as u16);
    } else {
        lemma_shift_step(controller.button_states, 0);
    }
}

} // verus!
