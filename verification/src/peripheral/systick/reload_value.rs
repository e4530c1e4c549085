//! The reload value register of the system timer.

use vstd::prelude::*;
use crate::bitfield::{bit, lemma_mask_values, pack, unpack, Bitfield};
use super::defs::{VALUE_MAX, VALUE_WIDTH};

verus! {

/// Reload value register: the value that the counter starts again from.
#[derive(Copy, Clone, Debug)]
pub struct RVR(pub u32);

impl RVR {
    /// The field of the reload value: the lowest 24 bits.
    pub open spec fn field() -> Bitfield {
        Bitfield::at(0, VALUE_WIDTH)
    }

    /// The reload value.
    pub open spec fn view(self) -> u32 {
        RVR::field().unpacked(self.0)
    }

    /// The reload value.
    pub fn get_reload_value(&self) -> (value: u32)
        ensures
            value == self@,
            value <= VALUE_MAX,
    {
        proof {
            lemma_mask_values();
        }
        unpack(self.0, Bitfield::at(0, VALUE_WIDTH))
    }

    /// Sets the reload value to the lowest 24 bits of `value`.
    pub fn set_reload_value(&mut self, value: u32)
        ensures
            final(self).0 == RVR::field().packed(old(self).0, value),
            final(self)@ == value & VALUE_MAX,
            value <= VALUE_MAX ==> final(self)@ == value,
            forall|i: u32|
                VALUE_WIDTH <= i < 32 ==> #[trigger] bit(final(self).0, i) == bit(old(self).0, i),
    {
        proof {
            lemma_mask_values();
        }
        self.0 = pack(self.0, Bitfield::at(0, VALUE_WIDTH), value);
    }
}

} // verus!
