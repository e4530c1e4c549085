//! The system control block of the processor.

pub mod defs;
pub mod icsr;
