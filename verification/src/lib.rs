//! Register access layer for a Cortex-M0 class microcontroller.
//!
//! Every peripheral register is a 32-bit word, and every named setting is a
//! bit field inside one such word. The crate holds the words as plain values:
//! an operation takes the word as it was read and gives the word to write
//! back, so that what it does to each bit can be stated and proved. Binding
//! the words to their addresses, and the loads and stores themselves, are the
//! caller's part.

pub mod bitfield;
pub mod peripheral;
pub mod system_control;
