//! The clock configuration: which clock drives the system, which one feeds
//! the PLL, and the PLL's two factors.

use vstd::prelude::*;
use crate::bitfield::{
    field_set_to, lemma_mask_values, lemma_pack_keeps_other_field, lemma_small_values_fit, pack,
    unpack, Bitfield,
};
use super::clock_control::Clock;
use super::defs::{
    CFGR2_PREDIV, CFGR_PLLMUL, CFGR_PLLSRC, CFGR_SW, FACTOR_WIDTH, HSI48_VALUE, PLL_MUL_MAX,
    PLL_MUL_MIN, PREDIV_MAX, PREDIV_MIN, SOURCE_WIDTH,
};

verus! {

/// What the configuration registers say, field by field.
#[derive(Copy, Clone, Debug, PartialEq, Eq, Structural)]
pub struct ClockConfig {
    /// The clock that drives the system.
    pub system_source: Clock,
    /// The clock that feeds the PLL.
    pub pll_source: Clock,
    /// The factor by which the PLL multiplies its input.
    pub multiplier: u8,
    /// The factor by which the PLL's input is divided first.
    pub prediv: u8,
}

impl ClockConfig {
    /// What must hold of a clock configuration at any time.
    pub open spec fn inv(self) -> bool {
        &&& self.system_source.can_drive_system()
        &&& self.pll_source.can_drive_pll()
        &&& PLL_MUL_MIN <= self.multiplier <= PLL_MUL_MAX
        &&& PREDIV_MIN <= self.prediv <= PREDIV_MAX
    }

    /// The system clock rate in hertz that follows from the configuration:
    /// the rate of the system source itself, or, where that is the PLL, the
    /// rate of the PLL's source times the multiplier, divided by the input
    /// divider.
    pub open spec fn derived_rate(self) -> int {
        if self.system_source != Clock::PLL {
            self.system_source.base_rate() as int
        } else {
            (self.pll_source.base_rate() * self.multiplier) / (self.prediv as int)
        }
    }

    /// Whether `clock` drives the system or feeds the PLL.
    pub open spec fn depends_on_spec(self, clock: Clock) -> bool {
        clock == self.system_source || clock == self.pll_source
    }

    /// Computes the system clock rate in hertz.
    pub fn rate(self) -> (rate: u32)
        requires
            self.inv(),
        ensures
            rate == self.derived_rate(),
    {
        match self.system_source {
            Clock::PLL => {
                let base: u32 = self.pll_source.base_rate();
                let factor: u32 = self.multiplier as u32;
                assert(base * factor <= HSI48_VALUE * 16) by (nonlinear_arith)
                    requires
                        base <= HSI48_VALUE,
                        factor <= 16,
                ;
                (base * factor) / (self.prediv as u32)
            },
            source => source.base_rate(),
        }
    }

    /// Whether `clock` drives the system or feeds the PLL.
    #[verifier::when_used_as_spec(depends_on_spec)]
    pub fn depends_on(self, clock: Clock) -> (load_bearing: bool)
        ensures
            load_bearing == self.depends_on_spec(clock),
    {
        clock == self.system_source || clock == self.pll_source
    }
}

/// The clock that a value of the system clock switch selects.
pub open spec fn system_source_of_spec(code: u32) -> Clock {
    if code == 0 {
        Clock::HSI
    } else if code == 1 {
        Clock::HSE
    } else if code == 2 {
        Clock::PLL
    } else {
        Clock::HSI48
    }
}

/// The value of the system clock switch that selects `clock`.
pub open spec fn system_code_spec(clock: Clock) -> u32 {
    match clock {
        Clock::HSI => 0,
        Clock::HSE => 1,
        Clock::PLL => 2,
        _ => 3,
    }
}

/// The clock that a value of the PLL input selector selects. The internal
/// 8 MHz oscillator has two codes.
pub open spec fn pll_source_of_spec(code: u32) -> Clock {
    if code <= 1 {
        Clock::HSI
    } else if code == 2 {
        Clock::HSE
    } else {
        Clock::HSI48
    }
}

/// The value of the PLL input selector that selects `clock`, with the input
/// divider in its path.
pub open spec fn pll_code_spec(clock: Clock) -> u32 {
    match clock {
        Clock::HSI => 1,
        Clock::HSE => 2,
        _ => 3,
    }
}

/// The multiplier that a value of the multiplication field stands for: the
/// value plus two, and sixteen for the two highest values.
pub open spec fn multiplier_of_spec(code: u32) -> u8 {
    if code >= 14 {
        16
    } else {
        (code + 2) as u8
    }
}

/// The input divider that a value of the divider field stands for: the
/// value plus one.
pub open spec fn prediv_of_spec(code: u32) -> u8 {
    if code >= 15 {
        16
    } else {
        (code + 1) as u8
    }
}

/// The clock that a value of the system clock switch selects.
#[verifier::when_used_as_spec(system_source_of_spec)]
pub fn system_source_of(code: u32) -> (clock: Clock)
    ensures
        clock == system_source_of_spec(code),
        clock.can_drive_system(),
{
    if code == 0 {
        Clock::HSI
    } else if code == 1 {
        Clock::HSE
    } else if code == 2 {
        Clock::PLL
    } else {
        Clock::HSI48
    }
}

/// The value of the system clock switch that selects `clock`.
#[verifier::when_used_as_spec(system_code_spec)]
pub fn system_code(clock: Clock) -> (code: u32)
    requires
        clock.can_drive_system(),
    ensures
        code == system_code_spec(clock),
        code <= 3,
        system_source_of(code) == clock,
{
    match clock {
        Clock::HSI => 0,
        Clock::HSE => 1,
        Clock::PLL => 2,
        _ => 3,
    }
}

/// The clock that a value of the PLL input selector selects. The internal
/// 8 MHz oscillator has two codes.
#[verifier::when_used_as_spec(pll_source_of_spec)]
pub fn pll_source_of(code: u32) -> (clock: Clock)
    ensures
        clock == pll_source_of_spec(code),
        clock.can_drive_pll(),
{
    if code <= 1 {
        Clock::HSI
    } else if code == 2 {
        Clock::HSE
    } else {
        Clock::HSI48
    }
}

/// The value of the PLL input selector that selects `clock`, with the input
/// divider in its path.
#[verifier::when_used_as_spec(pll_code_spec)]
pub fn pll_code(clock: Clock) -> (code: u32)
    requires
        clock.can_drive_pll(),
    ensures
        code == pll_code_spec(clock),
        code <= 3,
        pll_source_of(code) == clock,
{
    match clock {
        Clock::HSI => 1,
        Clock::HSE => 2,
        _ => 3,
    }
}

/// The multiplier that a value of the multiplication field stands for: the
/// value plus two, and sixteen for the two highest values.
#[verifier::when_used_as_spec(multiplier_of_spec)]
pub fn multiplier_of(code: u32) -> (multiplier: u8)
    ensures
        multiplier == multiplier_of_spec(code),
        PLL_MUL_MIN <= multiplier <= PLL_MUL_MAX,
{
    if code >= 14 {
        16
    } else {
        (code + 2) as u8
    }
}

/// The input divider that a value of the divider field stands for: the
/// value plus one.
#[verifier::when_used_as_spec(prediv_of_spec)]
pub fn prediv_of(code: u32) -> (prediv: u8)
    ensures
        prediv == prediv_of_spec(code),
        PREDIV_MIN <= prediv <= PREDIV_MAX,
{
    if code >= 15 {
        16
    } else {
        (code + 1) as u8
    }
}

/// The two clock configuration registers.
#[derive(Copy, Clone, Debug)]
pub struct ConfigControl {
    /// Configuration register: system clock switch, PLL input and multiplier.
    pub cfgr: u32,
    /// Configuration register 2: PLL input divider.
    pub cfgr2: u32,
}

impl ConfigControl {
    /// The system clock switch.
    pub open spec fn switch_field() -> Bitfield {
        Bitfield::at(CFGR_SW, SOURCE_WIDTH)
    }

    /// The PLL input selector.
    pub open spec fn pll_source_field() -> Bitfield {
        Bitfield::at(CFGR_PLLSRC, SOURCE_WIDTH)
    }

    /// The PLL multiplication factor.
    pub open spec fn multiplier_field() -> Bitfield {
        Bitfield::at(CFGR_PLLMUL, FACTOR_WIDTH)
    }

    /// The PLL input divider.
    pub open spec fn prediv_field() -> Bitfield {
        Bitfield::at(CFGR2_PREDIV, FACTOR_WIDTH)
    }

    /// What the registers say, field by field.
    pub open spec fn view(self) -> ClockConfig {
        ClockConfig {
            system_source: system_source_of(ConfigControl::switch_field().unpacked(self.cfgr)),
            pll_source: pll_source_of(ConfigControl::pll_source_field().unpacked(self.cfgr)),
            multiplier: multiplier_of(ConfigControl::multiplier_field().unpacked(self.cfgr)),
            prediv: prediv_of(ConfigControl::prediv_field().unpacked(self.cfgr2)),
        }
    }

    /// Whatever the registers hold, what they say is a valid configuration.
    pub proof fn lemma_always_valid(self)
        ensures
            self@.inv(),
    {
    }

    /// Reads all four settings.
    pub fn decode(&self) -> (config: ClockConfig)
        ensures
            config == self@,
            config.inv(),
    {
        ClockConfig {
            system_source: self.get_system_clock_source(),
            pll_source: self.get_pll_source(),
            multiplier: self.get_pll_multiplier(),
            prediv: self.get_pll_prediv_factor(),
        }
    }

    /// The clock that drives the system.
    pub fn get_system_clock_source(&self) -> (clock: Clock)
        ensures
            clock == self@.system_source,
            clock.can_drive_system(),
    {
        system_source_of(unpack(self.cfgr, Bitfield::at(CFGR_SW, SOURCE_WIDTH)))
    }

    /// Makes `clock` drive the system.
    pub fn set_system_clock_source(&mut self, clock: Clock)
        requires
            clock.can_drive_system(),
        ensures
            field_set_to(
                old(self).cfgr,
                final(self).cfgr,
                ConfigControl::switch_field(),
                system_code(clock),
            ),
            final(self).cfgr2 == old(self).cfgr2,
            final(self)@ == (ClockConfig { system_source: clock, ..old(self)@ }),
    {
        let field = Bitfield::at(CFGR_SW, SOURCE_WIDTH);
        let code: u32 = system_code(clock);
        proof {
            lemma_mask_values();
            lemma_pack_keeps_other_field(field, ConfigControl::pll_source_field(), self.cfgr, code);
            lemma_pack_keeps_other_field(field, ConfigControl::multiplier_field(), self.cfgr, code);
        }
        self.cfgr = pack(self.cfgr, field, code);
    }

    /// The clock that feeds the PLL.
    pub fn get_pll_source(&self) -> (clock: Clock)
        ensures
            clock == self@.pll_source,
            clock.can_drive_pll(),
    {
        pll_source_of(unpack(self.cfgr, Bitfield::at(CFGR_PLLSRC, SOURCE_WIDTH)))
    }

    /// Makes `clock` feed the PLL.
    pub fn set_pll_source(&mut self, clock: Clock)
        requires
            clock.can_drive_pll(),
        ensures
            field_set_to(
                old(self).cfgr,
                final(self).cfgr,
                ConfigControl::pll_source_field(),
                pll_code(clock),
            ),
            final(self).cfgr2 == old(self).cfgr2,
            final(self)@ == (ClockConfig { pll_source: clock, ..old(self)@ }),
    {
        let field = Bitfield::at(CFGR_PLLSRC, SOURCE_WIDTH);
        let code: u32 = pll_code(clock);
        proof {
            lemma_mask_values();
            lemma_pack_keeps_other_field(field, ConfigControl::switch_field(), self.cfgr, code);
            lemma_pack_keeps_other_field(field, ConfigControl::multiplier_field(), self.cfgr, code);
        }
        self.cfgr = pack(self.cfgr, field, code);
    }

    /// The factor by which the PLL multiplies its input.
    pub fn get_pll_multiplier(&self) -> (multiplier: u8)
        ensures
            multiplier == self@.multiplier,
            PLL_MUL_MIN <= multiplier <= PLL_MUL_MAX,
    {
        multiplier_of(unpack(self.cfgr, Bitfield::at(CFGR_PLLMUL, FACTOR_WIDTH)))
    }

    /// Sets the factor by which the PLL multiplies its input.
    pub fn set_pll_multiplier(&mut self, mul: u8)
        requires
            PLL_MUL_MIN <= mul <= PLL_MUL_MAX,
        ensures
            field_set_to(
                old(self).cfgr,
                final(self).cfgr,
                ConfigControl::multiplier_field(),
                (mul - PLL_MUL_MIN) as u32,
            ),
            final(self).cfgr2 == old(self).cfgr2,
            final(self)@ == (ClockConfig { multiplier: mul, ..old(self)@ }),
    {
        let field = Bitfield::at(CFGR_PLLMUL, FACTOR_WIDTH);
        let code: u32 = (mul - PLL_MUL_MIN) as u32;
        proof {
            lemma_mask_values();
            lemma_pack_keeps_other_field(field, ConfigControl::switch_field(), self.cfgr, code);
            lemma_pack_keeps_other_field(field, ConfigControl::pll_source_field(), self.cfgr, code);
        }
        self.cfgr = pack(self.cfgr, field, code);
    }

    /// The factor by which the PLL's input is divided.
    pub fn get_pll_prediv_factor(&self) -> (factor: u8)
        ensures
            factor == self@.prediv,
            PREDIV_MIN <= factor <= PREDIV_MAX,
    {
        prediv_of(unpack(self.cfgr2, Bitfield::at(CFGR2_PREDIV, FACTOR_WIDTH)))
    }

    /// Sets the factor by which the PLL's input is divided.
    pub fn set_pll_prediv_factor(&mut self, factor: u8)
        requires
            PREDIV_MIN <= factor <= PREDIV_MAX,
        ensures
            field_set_to(
                old(self).cfgr2,
                final(self).cfgr2,
                ConfigControl::prediv_field(),
                (factor - PREDIV_MIN) as u32,
            ),
            final(self).cfgr == old(self).cfgr,
            final(self)@ == (ClockConfig { prediv: factor, ..old(self)@ }),
    {
        let field = Bitfield::at(CFGR2_PREDIV, FACTOR_WIDTH);
        let code: u32 = (factor - PREDIV_MIN) as u32;
        proof {
            lemma_mask_values();
        }
        self.cfgr2 = pack(self.cfgr2, field, code);
    }
}

} // verus!
