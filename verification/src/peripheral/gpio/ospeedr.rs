//! The output speed register: two bits for each pin.

use vstd::prelude::*;
use crate::bitfield::{
    field_set_to, lemma_indexed_write, lemma_mask_values, pack, unpack, valid_index, Bitfield,
};
use super::defs::SPEED_WIDTH;

verus! {

/// How fast an output pin changes its level.
#[derive(Copy, Clone, Debug, PartialEq, Eq, Structural)]
pub enum Speed {
    /// Slowest edges.
    Low,
    /// Medium edges.
    Medium,
    /// Fast edges.
    Fast,
    /// Fastest edges.
    High,
}

impl Speed {
    /// The pattern that stands for the speed.
    pub open spec fn code_spec(self) -> u32 {
        match self {
            Speed::Low => 0b00,
            Speed::Medium => 0b01,
            Speed::Fast => 0b10,
            Speed::High => 0b11,
        }
    }

    /// The speed that a pattern stands for.
    pub open spec fn from_code_spec(code: u32) -> Speed {
        if code == 0b00 {
            Speed::Low
        } else if code == 0b01 {
            Speed::Medium
        } else if code == 0b10 {
            Speed::Fast
        } else {
            Speed::High
        }
    }

    /// The pattern that stands for the speed.
    #[verifier::when_used_as_spec(code_spec)]
    pub fn code(self) -> (code: u32)
        ensures
            code == self.code_spec(),
            code <= 0b11,
            Speed::from_code(code) == self,
    {
        match self {
            Speed::Low => 0b00,
            Speed::Medium => 0b01,
            Speed::Fast => 0b10,
            Speed::High => 0b11,
        }
    }

    /// The speed that a pattern stands for.
    #[verifier::when_used_as_spec(from_code_spec)]
    pub fn from_code(code: u32) -> (speed: Speed)
        ensures
            speed == Speed::from_code_spec(code),
    {
        if code == 0b00 {
            Speed::Low
        } else if code == 0b01 {
            Speed::Medium
        } else if code == 0b10 {
            Speed::Fast
        } else {
            Speed::High
        }
    }
}

/// The output speed register of a port.
#[derive(Copy, Clone, Debug)]
pub struct OSPEEDR(pub u32);

impl OSPEEDR {
    /// The field of pin `port`.
    pub open spec fn field(port: u8) -> Bitfield {
        Bitfield::indexed(SPEED_WIDTH, port)
    }

    /// The speed of pin `port`.
    pub open spec fn speed_at(self, port: u8) -> Speed {
        Speed::from_code(OSPEEDR::field(port).unpacked(self.0))
    }

    /// The speeds of the sixteen pins, by pin number.
    pub open spec fn view(self) -> Seq<Speed> {
        Seq::new(16, |port: int| self.speed_at(port as u8))
    }

    /// Sets the speed of pin `port`, which is at most 15.
    pub fn set_speed(&mut self, speed: Speed, port: u8)
        requires
            valid_index(port),
        ensures
            field_set_to(old(self).0, final(self).0, OSPEEDR::field(port), speed.code()),
            final(self)@ == old(self)@.update(port as int, speed),
    {
        proof {
            lemma_mask_values();
            lemma_indexed_write(self.0, SPEED_WIDTH, port, speed.code());
        }
        self.0 = pack(self.0, Bitfield::indexed(SPEED_WIDTH, port), speed.code());
        assert(self@ =~= old(self)@.update(port as int, speed));
    }

    /// The speed of pin `port`, which is at most 15.
    pub fn get_speed(&self, port: u8) -> (speed: Speed)
        requires
            valid_index(port),
        ensures
            speed == self@[port as int],
    {
        Speed::from_code(unpack(self.0, Bitfield::indexed(SPEED_WIDTH, port)))
    }
}

} // verus!
