//! The current value register of the system timer.

use vstd::prelude::*;
use crate::bitfield::{bit, field_set_to, lemma_mask_values, pack, unpack, Bitfield};
use super::defs::{VALUE_MAX, VALUE_WIDTH};

verus! {

/// Current value register: where the counter stands.
#[derive(Copy, Clone, Debug)]
pub struct CVR(pub u32);

impl CVR {
    /// The field of the current value: the lowest 24 bits.
    pub open spec fn field() -> Bitfield {
        Bitfield::at(0, VALUE_WIDTH)
    }

    /// The current value.
    pub open spec fn view(self) -> u32 {
        CVR::field().unpacked(self.0)
    }

    /// The current value.
    pub fn get_current_value(&self) -> (value: u32)
        ensures
            value == self@,
            value <= VALUE_MAX,
    {
        proof {
            lemma_mask_values();
        }
        unpack(self.0, Bitfield::at(0, VALUE_WIDTH))
    }

    /// Sets the current value to zero.
    pub fn clear_current_value(&mut self)
        ensures
            field_set_to(old(self).0, final(self).0, CVR::field(), 0),
            final(self)@ == 0,
    {
        proof {
            lemma_mask_values();
        }
        self.0 = pack(self.0, Bitfield::at(0, VALUE_WIDTH), 0);
    }
}

} // verus!
