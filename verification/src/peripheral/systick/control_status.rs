//! The control and status register of the system timer.

use vstd::prelude::*;
use crate::bitfield::{bit, flag_set_to, read_flag, write_flag};
use super::defs::{CLKSOURCE, COUNTFLAG, ENABLE, TICKINT};

verus! {

/// The clock that the counter runs on.
#[derive(Copy, Clone, Debug, PartialEq, Eq, Structural)]
pub enum ClockSource {
    /// The external reference clock.
    Reference,
    /// The processor clock.
    Processor,
}

impl ClockSource {
    /// Whether the source bit is set for this source.
    pub open spec fn flag_spec(self) -> bool {
        self is Processor
    }

    /// Whether the source bit is set for this source.
    #[verifier::when_used_as_spec(flag_spec)]
    pub fn flag(self) -> (set: bool)
        ensures
            set == self.flag_spec(),
    {
        match self {
            ClockSource::Reference => false,
            ClockSource::Processor => true,
        }
    }
}

/// Control and status register.
#[derive(Copy, Clone, Debug)]
pub struct CSR(pub u32);

impl CSR {
    /// Starts or stops the counter.
    pub fn set_enable(&mut self, enable: bool)
        ensures
            flag_set_to(old(self).0, final(self).0, ENABLE, enable),
    {
        self.0 = write_flag(self.0, ENABLE, enable);
    }

    /// Switches the interrupt at zero on or off.
    pub fn set_interrupt(&mut self, enable: bool)
        ensures
            flag_set_to(old(self).0, final(self).0, TICKINT, enable),
    {
        self.0 = write_flag(self.0, TICKINT, enable);
    }

    /// Chooses the clock that the counter runs on.
    pub fn set_source(&mut self, source: ClockSource)
        ensures
            flag_set_to(old(self).0, final(self).0, CLKSOURCE, source is Processor),
    {
        self.0 = write_flag(self.0, CLKSOURCE, source.flag());
    }

    /// Whether the counter has reached zero. On the device, reading this
    /// register clears the flag: a second read of the device may differ.
    pub fn did_underflow(&self) -> (underflow: bool)
        ensures
            underflow == bit(self.0, COUNTFLAG),
    {
        read_flag(self.0, COUNTFLAG)
    }
}

} // verus!
