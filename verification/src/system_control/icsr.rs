//! The interrupt control and state register.

use vstd::prelude::*;
use crate::bitfield::{flag_set_to, write_flag};
use super::defs::{ICSR_PENDSVCLR, ICSR_PENDSVSET};

verus! {

/// Interrupt control and state register.
#[derive(Copy, Clone, Debug)]
pub struct ICSR(pub u32);

impl ICSR {
    /// Makes the PendSV exception pending, by setting its set bit.
    pub fn set_pend_sv(&mut self)
        ensures
            flag_set_to(old(self).0, final(self).0, ICSR_PENDSVSET, true),
    {
        self.0 = write_flag(self.0, ICSR_PENDSVSET, true);
    }

    /// Clears the pending state of the PendSV exception, by setting its
    /// clear bit.
    pub fn clear_pend_sv(&mut self)
        ensures
            flag_set_to(old(self).0, final(self).0, ICSR_PENDSVCLR, true),
    {
        self.0 = write_flag(self.0, ICSR_PENDSVCLR, true);
    }
}

} // verus!
