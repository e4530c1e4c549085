//! The output type register: one bit for each pin.

use vstd::prelude::*;
use crate::bitfield::{
    field_set_to, lemma_indexed_write, lemma_mask_values, pack, unpack, valid_index, Bitfield,
};
use super::defs::TYPE_WIDTH;

verus! {

/// How an output pin drives its line.
#[derive(Copy, Clone, Debug, PartialEq, Eq, Structural)]
pub enum Type {
    /// Drives the line high and low.
    PushPull,
    /// Drives the line low only.
    OpenDrain,
}

impl Type {
    /// The pattern that stands for the type.
    pub open spec fn code_spec(self) -> u32 {
        match self {
            Type::PushPull => 0b0,
            Type::OpenDrain => 0b1,
        }
    }

    /// The type that a pattern stands for.
    pub open spec fn from_code_spec(code: u32) -> Type {
        if code == 0b0 {
            Type::PushPull
        } else {
            Type::OpenDrain
        }
    }

    /// The pattern that stands for the type.
    #[verifier::when_used_as_spec(code_spec)]
    pub fn code(self) -> (code: u32)
        ensures
            code == self.code_spec(),
            code <= 0b1,
            Type::from_code(code) == self,
    {
        match self {
            Type::PushPull => 0b0,
            Type::OpenDrain => 0b1,
        }
    }

    /// The type that a pattern stands for.
    #[verifier::when_used_as_spec(from_code_spec)]
    pub fn from_code(code: u32) -> (p_type: Type)
        ensures
            p_type == Type::from_code_spec(code),
    {
        if code == 0b0 {
            Type::PushPull
        } else {
            Type::OpenDrain
        }
    }
}

/// The output type register of a port.
#[derive(Copy, Clone, Debug)]
pub struct OTYPER(pub u32);

impl OTYPER {
    /// The field of pin `port`.
    pub open spec fn field(port: u8) -> Bitfield {
        Bitfield::indexed(TYPE_WIDTH, port)
    }

    /// The output type of pin `port`.
    pub open spec fn type_at(self, port: u8) -> Type {
        Type::from_code(OTYPER::field(port).unpacked(self.0))
    }

    /// The output types of the sixteen pins, by pin number.
    pub open spec fn view(self) -> Seq<Type> {
        Seq::new(16, |port: int| self.type_at(port as u8))
    }

    /// Sets the output type of pin `port`, which is at most 15.
    pub fn set_type(&mut self, p_type: Type, port: u8)
        requires
            valid_index(port),
        ensures
            field_set_to(old(self).0, final(self).0, OTYPER::field(port), p_type.code()),
            final(self)@ == old(self)@.update(port as int, p_type),
    {
        proof {
            lemma_mask_values();
            lemma_indexed_write(self.0, TYPE_WIDTH, port, p_type.code());
        }
        self.0 = pack(self.0, Bitfield::indexed(TYPE_WIDTH, port), p_type.code());
        assert(self@ =~= old(self)@.update(port as int, p_type));
    }

    /// The output type of pin `port`, which is at most 15.
    pub fn get_type(&self, port: u8) -> (p_type: Type)
        requires
            valid_index(port),
        ensures
            p_type == self@[port as int],
    {
        Type::from_code(unpack(self.0, Bitfield::indexed(TYPE_WIDTH, port)))
    }
}

} // verus!
