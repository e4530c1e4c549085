//! Addresses and field widths of the I/O port registers.

use vstd::prelude::*;

verus! {

/// Address of the first register of I/O port A.
pub const GROUPA_ADDR: u32 = 0x4800_0000;

/// Address of the first register of I/O port B.
pub const GROUPB_ADDR: u32 = 0x4800_0400;

/// Address of the first register of I/O port C.
pub const GROUPC_ADDR: u32 = 0x4800_0800;

/// Address of the first register of I/O port F.
pub const GROUPF_ADDR: u32 = 0x4800_1400;

/// Number of registers of a port.
pub const WORDS: usize = 11;

/// Place of the mode register among the port's registers.
pub const MODER_INDEX: usize = 0;

/// Place of the output type register.
pub const OTYPER_INDEX: usize = 1;

/// Place of the output speed register.
pub const OSPEEDR_INDEX: usize = 2;

/// Place of the pull-up and pull-down register.
pub const PUPDR_INDEX: usize = 3;

/// Place of the input data register.
pub const IDR_INDEX: usize = 4;

/// Place of the output data register.
pub const ODR_INDEX: usize = 5;

/// Place of the set and reset register.
pub const BSRR_INDEX: usize = 6;

/// Place of the configuration lock register.
pub const LCKR_INDEX: usize = 7;

/// Place of the alternate function register of pins 0 to 7.
pub const AFRL_INDEX: usize = 8;

/// Place of the alternate function register of pins 8 to 15.
pub const AFRH_INDEX: usize = 9;

/// Place of the bit reset register.
pub const BRR_INDEX: usize = 10;

/// Number of pins of a port.
pub const PINS: u8 = 16;

/// Number of pins that one alternate function register serves.
pub const AFR_PINS: u8 = 8;

/// Bits per pin in the mode register.
pub const MODE_WIDTH: u32 = 2;

/// Bits per pin in the output type register.
pub const TYPE_WIDTH: u32 = 1;

/// Bits per pin in the output speed register.
pub const SPEED_WIDTH: u32 = 2;

/// Bits per pin in the pull-up and pull-down register.
pub const PULL_WIDTH: u32 = 2;

/// Bits per pin in the alternate function registers.
pub const FUNCTION_WIDTH: u32 = 4;

/// Position of the first reset bit in the set and reset register.
pub const BSRR_RESET: u32 = 16;

} // verus!
