//! Serial port (USART) configuration.

pub mod control;
pub mod defs;
