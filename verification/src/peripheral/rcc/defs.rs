//! Bit positions, field widths and fixed values of the clock controller.

use vstd::prelude::*;

verus! {

/// Address of the first register of the clock controller.
pub const RCC_ADDR: u32 = 0x4002_1000;

/// Place of the control register among the controller's registers.
pub const CR_INDEX: usize = 0;

/// Place of the configuration register.
pub const CFGR_INDEX: usize = 1;

/// Place of the AHB enable register.
pub const AHBENR_INDEX: usize = 5;

/// Place of the enable register of peripheral bus 2.
pub const APB2ENR_INDEX: usize = 6;

/// Place of the enable register of peripheral bus 1.
pub const APB1ENR_INDEX: usize = 7;

/// Place of configuration register 2.
pub const CFGR2_INDEX: usize = 11;

/// Place of control register 2.
pub const CR2_INDEX: usize = 13;

/// Control register: internal 8 MHz oscillator on.
pub const CR_HSION: u32 = 0;

/// Control register: internal 8 MHz oscillator ready.
pub const CR_HSIRDY: u32 = 1;

/// Control register: external oscillator on.
pub const CR_HSEON: u32 = 16;

/// Control register: external oscillator ready.
pub const CR_HSERDY: u32 = 17;

/// Control register: PLL on.
pub const CR_PLLON: u32 = 24;

/// Control register: PLL ready.
pub const CR_PLLRDY: u32 = 25;

/// Control register 2: internal 14 MHz oscillator on.
pub const CR2_HSI14ON: u32 = 0;

/// Control register 2: internal 14 MHz oscillator ready.
pub const CR2_HSI14RDY: u32 = 1;

/// Control register 2: internal 48 MHz oscillator on.
pub const CR2_HSI48ON: u32 = 16;

/// Control register 2: internal 48 MHz oscillator ready.
pub const CR2_HSI48RDY: u32 = 17;

/// Configuration register: lowest bit of the system clock switch.
pub const CFGR_SW: u32 = 0;

/// Configuration register: lowest bit of the PLL input selector.
pub const CFGR_PLLSRC: u32 = 15;

/// Configuration register: lowest bit of the PLL multiplication factor.
pub const CFGR_PLLMUL: u32 = 18;

/// Configuration register 2: lowest bit of the PLL input divider.
pub const CFGR2_PREDIV: u32 = 0;

/// Width of the system clock switch and of the PLL input selector.
pub const SOURCE_WIDTH: u32 = 2;

/// Width of the PLL multiplication factor and of the PLL input divider.
pub const FACTOR_WIDTH: u32 = 4;

/// Smallest PLL multiplier.
pub const PLL_MUL_MIN: u8 = 2;

/// Largest PLL multiplier.
pub const PLL_MUL_MAX: u8 = 16;

/// Smallest PLL input divider.
pub const PREDIV_MIN: u8 = 1;

/// Largest PLL input divider.
pub const PREDIV_MAX: u8 = 16;

/// Rate of the internal 8 MHz oscillator, in hertz.
pub const HSI_VALUE: u32 = 8_000_000;

/// Rate of the external oscillator, in hertz.
pub const HSE_VALUE: u32 = 8_000_000;

/// Rate of the internal 14 MHz oscillator, in hertz.
pub const HSI14_VALUE: u32 = 14_000_000;

/// Rate of the internal 48 MHz oscillator, in hertz.
pub const HSI48_VALUE: u32 = 48_000_000;

/// Control register after a reset: the internal 8 MHz oscillator is on and
/// ready, its trimming at the middle value.
pub const CR_RESET: u32 = 0x0000_0083;

/// Control register 2 after a reset: the 14 MHz trimming at the middle value.
pub const CR2_RESET: u32 = 0x0000_0080;

/// AHB enable register after a reset: flash interface and SRAM are clocked.
pub const AHBENR_RESET: u32 = 0x0000_0014;

} // verus!
