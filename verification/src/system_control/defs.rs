//! Bit positions in the interrupt control and state register.

use vstd::prelude::*;

verus! {

/// Address of the interrupt control and state register.
pub const ICSR_ADDR: u32 = 0xE000_ED04;

/// Writing this bit clears the pending state of the PendSV exception.
pub const ICSR_PENDSVCLR: u32 = 27;

/// Writing this bit makes the PendSV exception pending.
pub const ICSR_PENDSVSET: u32 = 28;

} // verus!
