//! Address, bit positions and field widths of the system timer.

use vstd::prelude::*;

verus! {

/// Address of the first register of the system timer.
pub const SYSTICK_ADDR: u32 = 0xE000_E010;

/// Number of registers of the system timer.
pub const WORDS: usize = 4;

/// Place of the control and status register among the timer's registers.
pub const CSR_INDEX: usize = 0;

/// Place of the reload value register.
pub const RVR_INDEX: usize = 1;

/// Place of the current value register.
pub const CVR_INDEX: usize = 2;

/// Place of the calibration value register.
pub const CALIB_INDEX: usize = 3;

/// Control and status: the counter runs.
pub const ENABLE: u32 = 0;

/// Control and status: counting down to zero raises the interrupt.
pub const TICKINT: u32 = 1;

/// Control and status: the counter runs on the processor clock.
pub const CLKSOURCE: u32 = 2;

/// Control and status: the counter has reached zero since the last read.
pub const COUNTFLAG: u32 = 16;

/// Width of the reload value and of the current value.
pub const VALUE_WIDTH: u32 = 24;

/// Largest reload value and current value.
pub const VALUE_MAX: u32 = 0x00FF_FFFF;

} // verus!
