//! The oscillators and the PLL: switching them on and off, and their status.

use vstd::prelude::*;
use crate::bitfield::{bit, read_flag, write_flag, Bitfield};
use super::defs::{
    CR2_HSI14ON, CR2_HSI14RDY, CR2_HSI48ON, CR2_HSI48RDY, CR_HSEON, CR_HSERDY, CR_HSION,
    CR_HSIRDY, CR_PLLON, CR_PLLRDY, HSE_VALUE, HSI14_VALUE, HSI48_VALUE, HSI_VALUE,
};

verus! {

/// A clock source of the chip.
#[derive(Copy, Clone, Debug, PartialEq, Eq, Structural)]
pub enum Clock {
    /// Internal 8 MHz oscillator.
    HSI,
    /// Internal 48 MHz oscillator.
    HSI48,
    /// Internal 14 MHz oscillator, which serves the converter only.
    HSI14,
    /// External oscillator.
    HSE,
    /// Phase-locked loop, which multiplies one of the oscillators.
    PLL,
}

/// Where a clock stands between being switched on and being usable.
#[derive(Copy, Clone, Debug, PartialEq, Eq, Structural)]
pub enum ClockState {
    /// Not switched on.
    Off,
    /// Switched on, not yet stable.
    Starting,
    /// Switched on and stable.
    Ready,
}

impl Clock {
    /// Whether the clock's bits are in the second control register.
    pub open spec fn in_second_spec(self) -> bool {
        self is HSI14 || self is HSI48
    }

    /// Position of the clock's enable bit in its control register.
    pub open spec fn on_bit_spec(self) -> u32 {
        match self {
            Clock::HSI => CR_HSION,
            Clock::HSE => CR_HSEON,
            Clock::PLL => CR_PLLON,
            Clock::HSI14 => CR2_HSI14ON,
            Clock::HSI48 => CR2_HSI48ON,
        }
    }

    /// Position of the clock's ready bit in its control register.
    pub open spec fn ready_bit_spec(self) -> u32 {
        match self {
            Clock::HSI => CR_HSIRDY,
            Clock::HSE => CR_HSERDY,
            Clock::PLL => CR_PLLRDY,
            Clock::HSI14 => CR2_HSI14RDY,
            Clock::HSI48 => CR2_HSI48RDY,
        }
    }

    /// Rate of an oscillator in hertz. The PLL has no rate of its own.
    pub open spec fn base_rate_spec(self) -> u32 {
        match self {
            Clock::HSI => HSI_VALUE,
            Clock::HSE => HSE_VALUE,
            Clock::HSI14 => HSI14_VALUE,
            Clock::HSI48 => HSI48_VALUE,
            Clock::PLL => 0,
        }
    }

    /// Whether the clock may drive the system: the internal 8 MHz and 48 MHz
    /// oscillators, the external oscillator and the PLL may.
    pub open spec fn can_drive_system_spec(self) -> bool {
        self is HSI || self is HSE || self is PLL || self is HSI48
    }

    /// Whether the clock may feed the PLL: the internal 8 MHz and 48 MHz
    /// oscillators and the external oscillator may.
    pub open spec fn can_drive_pll_spec(self) -> bool {
        self is HSI || self is HSE || self is HSI48
    }

    /// Whether the clock's bits are in the second control register.
    #[verifier::when_used_as_spec(in_second_spec)]
    pub fn in_second(self) -> (second: bool)
        ensures
            second == self.in_second_spec(),
    {
        match self {
            Clock::HSI14 | Clock::HSI48 => true,
            _ => false,
        }
    }

    /// Position of the clock's enable bit in its control register.
    #[verifier::when_used_as_spec(on_bit_spec)]
    pub fn on_bit(self) -> (position: u32)
        ensures
            position == self.on_bit_spec(),
            position < 31,
    {
        match self {
            Clock::HSI => CR_HSION,
            Clock::HSE => CR_HSEON,
            Clock::PLL => CR_PLLON,
            Clock::HSI14 => CR2_HSI14ON,
            Clock::HSI48 => CR2_HSI48ON,
        }
    }

    /// Position of the clock's ready bit in its control register.
    #[verifier::when_used_as_spec(ready_bit_spec)]
    pub fn ready_bit(self) -> (position: u32)
        ensures
            position == self.ready_bit_spec(),
            position == self.on_bit() + 1,
    {
        match self {
            Clock::HSI => CR_HSIRDY,
            Clock::HSE => CR_HSERDY,
            Clock::PLL => CR_PLLRDY,
            Clock::HSI14 => CR2_HSI14RDY,
            Clock::HSI48 => CR2_HSI48RDY,
        }
    }

    /// Rate of an oscillator in hertz. The PLL has no rate of its own.
    #[verifier::when_used_as_spec(base_rate_spec)]
    pub fn base_rate(self) -> (rate: u32)
        ensures
            rate == self.base_rate_spec(),
            rate <= HSI48_VALUE,
    {
        match self {
            Clock::HSI => HSI_VALUE,
            Clock::HSE => HSE_VALUE,
            Clock::HSI14 => HSI14_VALUE,
            Clock::HSI48 => HSI48_VALUE,
            Clock::PLL => 0,
        }
    }

    /// Whether the clock may drive the system: the internal 8 MHz and 48 MHz
    /// oscillators, the external oscillator and the PLL may.
    #[verifier::when_used_as_spec(can_drive_system_spec)]
    pub fn can_drive_system(self) -> (allowed: bool)
        ensures
            allowed == self.can_drive_system_spec(),
    {
        match self {
            Clock::HSI | Clock::HSE | Clock::PLL | Clock::HSI48 => true,
            Clock::HSI14 => false,
        }
    }

    /// Whether the clock may feed the PLL: the internal 8 MHz and 48 MHz
    /// oscillators and the external oscillator may.
    #[verifier::when_used_as_spec(can_drive_pll_spec)]
    pub fn can_drive_pll(self) -> (allowed: bool)
        ensures
            allowed == self.can_drive_pll_spec(),
    {
        match self {
            Clock::HSI | Clock::HSE | Clock::HSI48 => true,
            Clock::HSI14 | Clock::PLL => false,
        }
    }
}

/// The two clock control registers.
#[derive(Copy, Clone, Debug)]
pub struct ClockControl {
    /// Control register: HSI, HSE and PLL.
    pub cr: u32,
    /// Control register 2: HSI14 and HSI48.
    pub cr2: u32,
}

impl ClockControl {
    /// The register that holds the bits of `clock`.
    pub open spec fn word_of(self, clock: Clock) -> u32 {
        if clock.in_second() {
            self.cr2
        } else {
            self.cr
        }
    }

    /// Whether `clock` is switched on.
    pub open spec fn is_on(self, clock: Clock) -> bool {
        bit(self.word_of(clock), clock.on_bit())
    }

    /// Whether the hardware reports `clock` as stable.
    pub open spec fn is_ready(self, clock: Clock) -> bool {
        bit(self.word_of(clock), clock.ready_bit())
    }

    /// The state of `clock`.
    pub open spec fn state_of(self, clock: Clock) -> ClockState {
        if !self.is_on(clock) {
            ClockState::Off
        } else if self.is_ready(clock) {
            ClockState::Ready
        } else {
            ClockState::Starting
        }
    }

    /// These registers with the enable bit of `clock` set to `on`.
    pub open spec fn switched(self, clock: Clock, on: bool) -> ClockControl {
        if clock.in_second() {
            ClockControl { cr: self.cr, cr2: Bitfield::with_flag(clock.on_bit(), self.cr2, on) }
        } else {
            ClockControl { cr: Bitfield::with_flag(clock.on_bit(), self.cr, on), cr2: self.cr2 }
        }
    }

    /// `after` differs from `before` in the enable bit of `clock` alone,
    /// which is `on`. So a clock that is switched off is off; one that is
    /// switched on is starting, or ready where the hardware reports it so;
    /// and every other clock is in the state it was in.
    pub open spec fn switch_made(
        before: ClockControl,
        after: ClockControl,
        clock: Clock,
        on: bool,
    ) -> bool {
        &&& after == before.switched(clock, on)
        &&& after.is_on(clock) == on
        &&& forall|other: Clock|
            other != clock ==> #[trigger] after.is_on(other) == before.is_on(other)
        &&& forall|any: Clock| #[trigger] after.is_ready(any) == before.is_ready(any)
        &&& after.state_of(clock) == if !on {
            ClockState::Off
        } else if before.is_ready(clock) {
            ClockState::Ready
        } else {
            ClockState::Starting
        }
        &&& forall|other: Clock|
            other != clock ==> #[trigger] after.state_of(other) == before.state_of(other)
    }

    /// Sets the enable bit of `clock` to `on`.
    pub fn set_clock(&mut self, clock: Clock, on: bool)
        ensures
            ClockControl::switch_made(*old(self), *final(self), clock, on),
    {
        if clock.in_second() {
            self.cr2 = write_flag(self.cr2, clock.on_bit(), on);
        } else {
            self.cr = write_flag(self.cr, clock.on_bit(), on);
        }
    }

    /// Switches `clock` on. The hardware reports it as ready some time later.
    pub fn enable_clock(&mut self, clock: Clock)
        ensures
            ClockControl::switch_made(*old(self), *final(self), clock, true),
    {
        self.set_clock(clock, true);
    }

    /// Switches `clock` off.
    pub fn disable_clock(&mut self, clock: Clock)
        ensures
            ClockControl::switch_made(*old(self), *final(self), clock, false),
    {
        self.set_clock(clock, false);
    }

    /// Whether `clock` is switched on.
    pub fn clock_is_on(&self, clock: Clock) -> (on: bool)
        ensures
            on == self.is_on(clock),
    {
        if clock.in_second() {
            read_flag(self.cr2, clock.on_bit())
        } else {
            read_flag(self.cr, clock.on_bit())
        }
    }

    /// Whether the hardware reports `clock` as stable.
    pub fn clock_is_ready(&self, clock: Clock) -> (ready: bool)
        ensures
            ready == self.is_ready(clock),
    {
        if clock.in_second() {
            read_flag(self.cr2, clock.ready_bit())
        } else {
            read_flag(self.cr, clock.ready_bit())
        }
    }
}

} // verus!
