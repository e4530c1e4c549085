//! The system timer: a 24-bit counter that counts down to zero and starts
//! again from its reload value.

pub mod control_status;
pub mod current_value;
pub mod defs;
pub mod reload_value;

use vstd::prelude::*;
use crate::bitfield::{bit, flag_set_to};
use self::control_status::{ClockSource, CSR};
use self::current_value::CVR;
use self::defs::{
    CALIB_INDEX, CLKSOURCE, COUNTFLAG, CSR_INDEX, CVR_INDEX, ENABLE, RVR_INDEX, TICKINT, VALUE_MAX,
    VALUE_WIDTH,
};
use self::reload_value::RVR;

verus! {

/// The registers of the system timer, in the order of their addresses.
#[derive(Copy, Clone, Debug)]
pub struct RawSysTick {
    /// Control and status.
    pub csr: CSR,
    /// Reload value.
    pub rvr: RVR,
    /// Current value.
    pub cvr: CVR,
    /// Calibration value.
    pub calib: u32,
}

impl RawSysTick {
    /// The words of the registers in the order of their addresses.
    pub open spec fn view(self) -> Seq<u32> {
        seq![self.csr.0, self.rvr.0, self.cvr.0, self.calib]
    }

    /// `after` differs from `before` in the control and status register
    /// alone, and there in the one bit at `position`, which is `on`.
    pub open spec fn control_bit_set(
        before: RawSysTick,
        after: RawSysTick,
        position: u32,
        on: bool,
    ) -> bool {
        &&& flag_set_to(before.csr.0, after.csr.0, position, on)
        &&& after == (RawSysTick { csr: after.csr, ..before })
    }

    /// A timer whose registers are all zero.
    pub fn new() -> (timer: RawSysTick)
        ensures
            timer == (RawSysTick { csr: CSR(0), rvr: RVR(0), cvr: CVR(0), calib: 0 }),
    {
        RawSysTick { csr: CSR(0), rvr: RVR(0), cvr: CVR(0), calib: 0 }
    }

    /// The words of the registers in the order of their addresses.
    pub fn words(&self) -> (words: [u32; 4])
        ensures
            words@ == self@,
            words[CSR_INDEX as int] == self.csr.0,
            words[RVR_INDEX as int] == self.rvr.0,
            words[CVR_INDEX as int] == self.cvr.0,
            words[CALIB_INDEX as int] == self.calib,
    {
        let words: [u32; 4] = [self.csr.0, self.rvr.0, self.cvr.0, self.calib];
        assert(words@ =~= self@);
        words
    }

    /// The timer whose registers hold the given words.
    pub fn from_words(words: [u32; 4]) -> (timer: RawSysTick)
        ensures
            timer@ == words@,
    {
        let timer = RawSysTick {
            csr: CSR(words[CSR_INDEX]),
            rvr: RVR(words[RVR_INDEX]),
            cvr: CVR(words[CVR_INDEX]),
            calib: words[CALIB_INDEX],
        };
        assert(timer@ =~= words@);
        timer
    }

    /// Starts the counter. It counts down with each cycle of its clock, and
    /// at zero starts again from the reload value.
    pub fn enable_counter(&mut self)
        ensures
            RawSysTick::control_bit_set(*old(self), *final(self), ENABLE, true),
    {
        self.csr.set_enable(true);
    }

    /// Stops the counter.
    pub fn disable_counter(&mut self)
        ensures
            RawSysTick::control_bit_set(*old(self), *final(self), ENABLE, false),
    {
        self.csr.set_enable(false);
    }

    /// Switches the interrupt at zero on.
    pub fn enable_interrupts(&mut self)
        ensures
            RawSysTick::control_bit_set(*old(self), *final(self), TICKINT, true),
    {
        self.csr.set_interrupt(true);
    }

    /// Switches the interrupt at zero off.
    pub fn disable_interrupts(&mut self)
        ensures
            RawSysTick::control_bit_set(*old(self), *final(self), TICKINT, false),
    {
        self.csr.set_interrupt(false);
    }

    /// Lets the counter run on the processor clock.
    pub fn use_processor_clock(&mut self)
        ensures
            RawSysTick::control_bit_set(*old(self), *final(self), CLKSOURCE, true),
    {
        self.csr.set_source(ClockSource::Processor);
    }

    /// Lets the counter run on the external reference clock.
    pub fn use_reference_clock(&mut self)
        ensures
            RawSysTick::control_bit_set(*old(self), *final(self), CLKSOURCE, false),
    {
        self.csr.set_source(ClockSource::Reference);
    }

    /// Whether the counter has reached zero. On the device, reading the
    /// control and status register clears the flag: a second read of the
    /// device may differ.
    pub fn did_underflow(&self) -> (underflow: bool)
        ensures
            underflow == bit(self.csr.0, COUNTFLAG),
    {
        self.csr.did_underflow()
    }

    /// The value that the counter starts again from.
    pub fn get_reload_value(&self) -> (value: u32)
        ensures
            value == self.rvr@,
            value <= VALUE_MAX,
    {
        self.rvr.get_reload_value()
    }

    /// Sets the value that the counter starts again from to the lowest 24
    /// bits of `value`.
    pub fn set_reload_value(&mut self, value: u32)
        ensures
            final(self).rvr.0 == RVR::field().packed(old(self).rvr.0, value),
            final(self).rvr@ == value & VALUE_MAX,
            value <= VALUE_MAX ==> final(self).rvr@ == value,
            forall|i: u32|
                VALUE_WIDTH <= i < 32 ==> #[trigger] bit(final(self).rvr.0, i) == bit(
                    old(self).rvr.0,
                    i,
                ),
            *final(self) == (RawSysTick { rvr: final(self).rvr, ..*old(self) }),
    {
        self.rvr.set_reload_value(value);
    }

    /// Where the counter stands.
    pub fn get_current_value(&self) -> (value: u32)
        ensures
            value == self.cvr@,
            value <= VALUE_MAX,
    {
        self.cvr.get_current_value()
    }

    /// Sets the counter to zero.
    pub fn clear_current_value(&mut self)
        ensures
            final(self).cvr.0 == CVR::field().packed(old(self).cvr.0, 0),
            final(self).cvr@ == 0,
            forall|i: u32|
                VALUE_WIDTH <= i < 32 ==> #[trigger] bit(final(self).cvr.0, i) == bit(
                    old(self).cvr.0,
                    i,
                ),
            *final(self) == (RawSysTick { cvr: final(self).cvr, ..*old(self) }),
    {
        self.cvr.clear_current_value();
    }
}

} // verus!
