//! The bit set and reset register.
//!
//! It is written, never read: each write is a command that names the output
//! bits to set, in its lower half, and those to clear, in its upper half.
//! So a write replaces the whole word and rests on no earlier one.

use vstd::prelude::*;
use crate::bitfield::{bit, lemma_no_bit_of_zero, valid_index, write_flag, Bitfield};
use super::defs::BSRR_RESET;

verus! {

/// The bit set and reset register of a port.
#[derive(Copy, Clone, Debug)]
pub struct BSRR(pub u32);

impl BSRR {
    /// The command is to set the output bit of pin `port` and nothing else.
    pub open spec fn is_set_command(self, port: u8) -> bool {
        forall|i: u32| i < 32 ==> #[trigger] bit(self.0, i) == (i == port)
    }

    /// The command is to clear the output bit of pin `port` and nothing
    /// else.
    pub open spec fn is_reset_command(self, port: u8) -> bool {
        forall|i: u32| i < 32 ==> #[trigger] bit(self.0, i) == (i == port + BSRR_RESET)
    }

    /// Makes the command that sets the output bit of pin `port`, which is at
    /// most 15.
    pub fn set(&mut self, port: u8)
        requires
            valid_index(port),
        ensures
            final(self).0 == Bitfield::with_flag(port as u32, 0, true),
            final(self).is_set_command(port),
    {
        proof {
            lemma_no_bit_of_zero();
        }
        self.0 = write_flag(0, port as u32, true);
    }

    /// Makes the command that clears the output bit of pin `port`, which is
    /// at most 15.
    pub fn reset(&mut self, port: u8)
        requires
            valid_index(port),
        ensures
            final(self).0 == Bitfield::with_flag((port + BSRR_RESET) as u32, 0, true),
            final(self).is_reset_command(port),
    {
        proof {
            lemma_no_bit_of_zero();
        }
        self.0 = write_flag(0, port as u32 + BSRR_RESET, true);
    }
}

} // verus!
