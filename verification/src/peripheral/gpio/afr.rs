//! The two alternate function registers: four bits for each pin, the lower
//! eight pins in one register and the upper eight in the other.

use vstd::prelude::*;
use crate::bitfield::{
    field_set_to, lemma_indexed_write, lemma_mask_values, pack, unpack, Bitfield,
};
use super::defs::{AFR_PINS, FUNCTION_WIDTH, PINS};

verus! {

/// The peripheral signal that drives a pin in alternate mode.
#[derive(Copy, Clone, Debug, PartialEq, Eq, Structural)]
pub enum AlternateFunction {
    /// Alternate function 0.
    Zero,
    /// Alternate function 1.
    One,
    /// Alternate function 2.
    Two,
    /// Alternate function 3.
    Three,
    /// Alternate function 4.
    Four,
    /// Alternate function 5.
    Five,
    /// Alternate function 6.
    Six,
    /// Alternate function 7.
    Seven,
    /// Alternate function 8.
    Eight,
    /// Alternate function 9.
    Nine,
    /// Alternate function 10.
    Ten,
    /// Alternate function 11.
    Eleven,
    /// Alternate function 12.
    Twelve,
    /// Alternate function 13.
    Thirteen,
    /// Alternate function 14.
    Fourteen,
    /// Alternate function 15.
    Fifteen,
}

impl AlternateFunction {
    /// The number of the function, which is its pattern.
    pub open spec fn code_spec(self) -> u32 {
        match self {
            AlternateFunction::Zero => 0,
            AlternateFunction::One => 1,
            AlternateFunction::Two => 2,
            AlternateFunction::Three => 3,
            AlternateFunction::Four => 4,
            AlternateFunction::Five => 5,
            AlternateFunction::Six => 6,
            AlternateFunction::Seven => 7,
            AlternateFunction::Eight => 8,
            AlternateFunction::Nine => 9,
            AlternateFunction::Ten => 10,
            AlternateFunction::Eleven => 11,
            AlternateFunction::Twelve => 12,
            AlternateFunction::Thirteen => 13,
            AlternateFunction::Fourteen => 14,
            AlternateFunction::Fifteen => 15,
        }
    }

    /// The function that a pattern stands for.
    pub open spec fn from_code_spec(code: u32) -> AlternateFunction {
        if code == 0 {
            AlternateFunction::Zero
        } else if code == 1 {
            AlternateFunction::One
        } else if code == 2 {
            AlternateFunction::Two
        } else if code == 3 {
            AlternateFunction::Three
        } else if code == 4 {
            AlternateFunction::Four
        } else if code == 5 {
            AlternateFunction::Five
        } else if code == 6 {
            AlternateFunction::Six
        } else if code == 7 {
            AlternateFunction::Seven
        } else if code == 8 {
            AlternateFunction::Eight
        } else if code == 9 {
            AlternateFunction::Nine
        } else if code == 10 {
            AlternateFunction::Ten
        } else if code == 11 {
            AlternateFunction::Eleven
        } else if code == 12 {
            AlternateFunction::Twelve
        } else if code == 13 {
            AlternateFunction::Thirteen
        } else if code == 14 {
            AlternateFunction::Fourteen
        } else {
            AlternateFunction::Fifteen
        }
    }

    /// The number of the function, which is its pattern.
    #[verifier::when_used_as_spec(code_spec)]
    pub fn code(self) -> (code: u32)
        ensures
            code == self.code_spec(),
            code <= 15,
            AlternateFunction::from_code(code) == self,
    {
        match self {
            AlternateFunction::Zero => 0,
            AlternateFunction::One => 1,
            AlternateFunction::Two => 2,
            AlternateFunction::Three => 3,
            AlternateFunction::Four => 4,
            AlternateFunction::Five => 5,
            AlternateFunction::Six => 6,
            AlternateFunction::Seven => 7,
            AlternateFunction::Eight => 8,
            AlternateFunction::Nine => 9,
            AlternateFunction::Ten => 10,
            AlternateFunction::Eleven => 11,
            AlternateFunction::Twelve => 12,
            AlternateFunction::Thirteen => 13,
            AlternateFunction::Fourteen => 14,
            AlternateFunction::Fifteen => 15,
        }
    }

    /// The function that a pattern stands for.
    #[verifier::when_used_as_spec(from_code_spec)]
    pub fn from_code(code: u32) -> (function: AlternateFunction)
        ensures
            function == AlternateFunction::from_code_spec(code),
    {
        if code == 0 {
            AlternateFunction::Zero
        } else if code == 1 {
            AlternateFunction::One
        } else if code == 2 {
            AlternateFunction::Two
        } else if code == 3 {
            AlternateFunction::Three
        } else if code == 4 {
            AlternateFunction::Four
        } else if code == 5 {
            AlternateFunction::Five
        } else if code == 6 {
            AlternateFunction::Six
        } else if code == 7 {
            AlternateFunction::Seven
        } else if code == 8 {
            AlternateFunction::Eight
        } else if code == 9 {
            AlternateFunction::Nine
        } else if code == 10 {
            AlternateFunction::Ten
        } else if code == 11 {
            AlternateFunction::Eleven
        } else if code == 12 {
            AlternateFunction::Twelve
        } else if code == 13 {
            AlternateFunction::Thirteen
        } else if code == 14 {
            AlternateFunction::Fourteen
        } else {
            AlternateFunction::Fifteen
        }
    }
}

/// The field of the `slot`-th pin of an alternate function register.
pub open spec fn function_field(slot: u8) -> Bitfield {
    Bitfield::indexed(FUNCTION_WIDTH, slot)
}

/// The functions of the eight pins that a register word serves, by slot.
pub open spec fn functions_of(word: u32) -> Seq<AlternateFunction> {
    Seq::new(8, |slot: int| AlternateFunction::from_code(function_field(slot as u8).unpacked(word)))
}

/// Writes the function of one slot into a register word.
fn with_function(word: u32, function: AlternateFunction, slot: u8) -> (written: u32)
    requires
        slot < AFR_PINS,
    ensures
        field_set_to(word, written, function_field(slot), function.code()),
        functions_of(written) == functions_of(word).update(slot as int, function),
{
    proof {
        lemma_mask_values();
        lemma_indexed_write(word, FUNCTION_WIDTH, slot, function.code());
    }
    let written: u32 = pack(word, Bitfield::indexed(FUNCTION_WIDTH, slot), function.code());
    assert(functions_of(written) =~= functions_of(word).update(slot as int, function));
    written
}

/// Reads the function of one slot out of a register word.
fn function_in(word: u32, slot: u8) -> (function: AlternateFunction)
    requires
        slot < AFR_PINS,
    ensures
        function == functions_of(word)[slot as int],
{
    AlternateFunction::from_code(unpack(word, Bitfield::indexed(FUNCTION_WIDTH, slot)))
}

/// The alternate function register of pins 0 to 7.
#[derive(Copy, Clone, Debug)]
pub struct AFRL(pub u32);

/// The alternate function register of pins 8 to 15.
#[derive(Copy, Clone, Debug)]
pub struct AFRH(pub u32);

impl AFRL {
    /// Whether the register serves pin `port`.
    pub open spec fn serves(port: u8) -> bool {
        port < AFR_PINS
    }

    /// The functions of pins 0 to 7, by pin number.
    pub open spec fn view(self) -> Seq<AlternateFunction> {
        functions_of(self.0)
    }

    /// Sets the function of pin `port`, which is at most 7.
    pub fn set_function(&mut self, function: AlternateFunction, port: u8)
        requires
            AFRL::serves(port),
        ensures
            field_set_to(old(self).0, final(self).0, function_field(port), function.code()),
            final(self)@ == old(self)@.update(port as int, function),
    {
        self.0 = with_function(self.0, function, port);
    }

    /// The function of pin `port`, which is at most 7.
    pub fn get_function(&self, port: u8) -> (function: AlternateFunction)
        requires
            AFRL::serves(port),
        ensures
            function == self@[port as int],
    {
        function_in(self.0, port)
    }
}

impl AFRH {
    /// Whether the register serves pin `port`.
    pub open spec fn serves(port: u8) -> bool {
        AFR_PINS <= port < PINS
    }

    /// The functions of pins 8 to 15, the first being that of pin 8.
    pub open spec fn view(self) -> Seq<AlternateFunction> {
        functions_of(self.0)
    }

    /// Sets the function of pin `port`, which is from 8 to 15.
    pub fn set_function(&mut self, function: AlternateFunction, port: u8)
        requires
            AFRH::serves(port),
        ensures
            field_set_to(
                old(self).0,
                final(self).0,
                function_field((port - AFR_PINS) as u8),
                function.code(),
            ),
            final(self)@ == old(self)@.update(port - AFR_PINS, function),
    {
        self.0 = with_function(self.0, function, port - AFR_PINS);
    }

    /// The function of pin `port`, which is from 8 to 15.
    pub fn get_function(&self, port: u8) -> (function: AlternateFunction)
        requires
            AFRH::serves(port),
        ensures
            function == self@[port - AFR_PINS],
    {
        function_in(self.0, port - AFR_PINS)
    }
}

} // verus!
