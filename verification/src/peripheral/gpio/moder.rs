//! The mode register: two bits for each pin.

use vstd::prelude::*;
use crate::bitfield::{
    field_set_to, lemma_indexed_write, lemma_mask_values, pack, unpack, valid_index, Bitfield,
};
use super::defs::MODE_WIDTH;

verus! {

/// What a pin is used for.
#[derive(Copy, Clone, Debug, PartialEq, Eq, Structural)]
pub enum Mode {
    /// Digital input.
    Input,
    /// Digital output.
    Output,
    /// Driven by a peripheral, chosen by the pin's alternate function.
    Alternate,
    /// Analog input or output.
    Analog,
}

impl Mode {
    /// The pattern that stands for the mode.
    pub open spec fn code_spec(self) -> u32 {
        match self {
            Mode::Input => 0b00,
            Mode::Output => 0b01,
            Mode::Alternate => 0b10,
            Mode::Analog => 0b11,
        }
    }

    /// The mode that a pattern stands for.
    pub open spec fn from_code_spec(code: u32) -> Mode {
        if code == 0b00 {
            Mode::Input
        } else if code == 0b01 {
            Mode::Output
        } else if code == 0b10 {
            Mode::Alternate
        } else {
            Mode::Analog
        }
    }

    /// The pattern that stands for the mode.
    #[verifier::when_used_as_spec(code_spec)]
    pub fn code(self) -> (code: u32)
        ensures
            code == self.code_spec(),
            code <= 0b11,
            Mode::from_code(code) == self,
    {
        match self {
            Mode::Input => 0b00,
            Mode::Output => 0b01,
            Mode::Alternate => 0b10,
            Mode::Analog => 0b11,
        }
    }

    /// The mode that a pattern stands for.
    #[verifier::when_used_as_spec(from_code_spec)]
    pub fn from_code(code: u32) -> (mode: Mode)
        ensures
            mode == Mode::from_code_spec(code),
    {
        if code == 0b00 {
            Mode::Input
        } else if code == 0b01 {
            Mode::Output
        } else if code == 0b10 {
            Mode::Alternate
        } else {
            Mode::Analog
        }
    }
}

/// The mode register of a port.
#[derive(Copy, Clone, Debug)]
pub struct MODER(pub u32);

impl MODER {
    /// The field of pin `port`.
    pub open spec fn field(port: u8) -> Bitfield {
        Bitfield::indexed(MODE_WIDTH, port)
    }

    /// The mode of pin `port`.
    pub open spec fn mode_at(self, port: u8) -> Mode {
        Mode::from_code(MODER::field(port).unpacked(self.0))
    }

    /// The modes of the sixteen pins, by pin number.
    pub open spec fn view(self) -> Seq<Mode> {
        Seq::new(16, |port: int| self.mode_at(port as u8))
    }

    /// Sets the mode of pin `port`, which is at most 15.
    pub fn set_mode(&mut self, mode: Mode, port: u8)
        requires
            valid_index(port),
        ensures
            field_set_to(old(self).0, final(self).0, MODER::field(port), mode.code()),
            final(self)@ == old(self)@.update(port as int, mode),
    {
        proof {
            lemma_mask_values();
            lemma_indexed_write(self.0, MODE_WIDTH, port, mode.code());
        }
        self.0 = pack(self.0, Bitfield::indexed(MODE_WIDTH, port), mode.code());
        assert(self@ =~= old(self)@.update(port as int, mode));
    }

    /// The mode of pin `port`, which is at most 15.
    pub fn get_mode(&self, port: u8) -> (mode: Mode)
        requires
            valid_index(port),
        ensures
            mode == self@[port as int],
    {
        Mode::from_code(unpack(self.0, Bitfield::indexed(MODE_WIDTH, port)))
    }
}

} // verus!
