//! The pull-up and pull-down register: two bits for each pin.

use vstd::prelude::*;
use crate::bitfield::{
    field_set_to, lemma_indexed_write, lemma_mask_values, pack, unpack, valid_index, Bitfield,
};
use super::defs::PULL_WIDTH;

verus! {

/// What holds a pin's level while nothing drives it.
#[derive(Copy, Clone, Debug, PartialEq, Eq, Structural)]
pub enum Pull {
    /// Nothing: the pin floats.
    Neither,
    /// A resistor to the supply.
    Up,
    /// A resistor to ground.
    Down,
}

impl Pull {
    /// The pattern that stands for the setting.
    pub open spec fn code_spec(self) -> u32 {
        match self {
            Pull::Neither => 0b00,
            Pull::Up => 0b01,
            Pull::Down => 0b10,
        }
    }

    /// The setting that a pattern stands for. The pattern `11` stands for
    /// none.
    pub open spec fn from_code_spec(code: u32) -> Option<Pull> {
        if code == 0b00 {
            Some(Pull::Neither)
        } else if code == 0b01 {
            Some(Pull::Up)
        } else if code == 0b10 {
            Some(Pull::Down)
        } else {
            None
        }
    }

    /// The pattern that stands for the setting.
    #[verifier::when_used_as_spec(code_spec)]
    pub fn code(self) -> (code: u32)
        ensures
            code == self.code_spec(),
            code <= 0b10,
            Pull::from_code(code) == Some(self),
    {
        match self {
            Pull::Neither => 0b00,
            Pull::Up => 0b01,
            Pull::Down => 0b10,
        }
    }

    /// The setting that a pattern stands for. The pattern `11` stands for
    /// none.
    #[verifier::when_used_as_spec(from_code_spec)]
    pub fn from_code(code: u32) -> (pull: Option<Pull>)
        ensures
            pull == Pull::from_code_spec(code),
    {
        if code == 0b00 {
            Some(Pull::Neither)
        } else if code == 0b01 {
            Some(Pull::Up)
        } else if code == 0b10 {
            Some(Pull::Down)
        } else {
            None
        }
    }
}

/// The pull-up and pull-down register of a port.
#[derive(Copy, Clone, Debug)]
pub struct PUPDR(pub u32);

impl PUPDR {
    /// The field of pin `port`.
    pub open spec fn field(port: u8) -> Bitfield {
        Bitfield::indexed(PULL_WIDTH, port)
    }

    /// The setting of pin `port`, if its field holds one.
    pub open spec fn pull_at(self, port: u8) -> Option<Pull> {
        Pull::from_code(PUPDR::field(port).unpacked(self.0))
    }

    /// The settings of the sixteen pins, by pin number.
    pub open spec fn view(self) -> Seq<Option<Pull>> {
        Seq::new(16, |port: int| self.pull_at(port as u8))
    }

    /// Sets the pull of pin `port`, which is at most 15.
    pub fn set_pull(&mut self, pull: Pull, port: u8)
        requires
            valid_index(port),
        ensures
            field_set_to(old(self).0, final(self).0, PUPDR::field(port), pull.code()),
            final(self)@ == old(self)@.update(port as int, Some(pull)),
    {
        proof {
            lemma_mask_values();
            lemma_indexed_write(self.0, PULL_WIDTH, port, pull.code());
        }
        self.0 = pack(self.0, Bitfield::indexed(PULL_WIDTH, port), pull.code());
        assert(self@ =~= old(self)@.update(port as int, Some(pull)));
    }

    /// Whether the field of pin `port`, which is at most 15, holds a
    /// setting.
    pub fn has_pull(&self, port: u8) -> (defined: bool)
        requires
            valid_index(port),
        ensures
            defined == self@[port as int].is_some(),
    {
        Pull::from_code(unpack(self.0, Bitfield::indexed(PULL_WIDTH, port))).is_some()
    }

    /// The pull of pin `port`, which is at most 15 and whose field holds a
    /// setting.
    pub fn get_pull(&self, port: u8) -> (pull: Pull)
        requires
            valid_index(port),
            self@[port as int].is_some(),
        ensures
            Some(pull) == self@[port as int],
    {
        Pull::from_code(unpack(self.0, Bitfield::indexed(PULL_WIDTH, port))).unwrap()
    }
}

} // verus!
