//! The reset and clock controller.
//!
//! It switches the oscillators and the PLL, chooses which clock drives the
//! system and which one feeds the PLL, and gates the clocks of the other
//! peripherals. The one value it keeps beside its registers is the system
//! clock rate, which is worked out anew whenever a setting that it rests on
//! changes.

pub mod clock_control;
pub mod config;
pub mod defs;
pub mod enable;

use vstd::prelude::*;
use crate::bitfield::{bit, field_set_to, lemma_no_bit_of_zero, lemma_unpack_in_range};
use self::clock_control::{Clock, ClockControl};
use self::config::{pll_code, system_code, ClockConfig, ConfigControl};
use self::defs::{
    AHBENR_RESET, CR2_RESET, CR_RESET, HSI_VALUE, PLL_MUL_MAX, PLL_MUL_MIN, PREDIV_MAX, PREDIV_MIN,
};
use self::enable::{Peripheral, PeripheralControl};

verus! {

/// The clock controller as it is after a reset: the internal 8 MHz
/// oscillator runs and drives the system, the PLL is off with the factors 2
/// and 1, and only the flash and SRAM interfaces are clocked.
pub fn rcc() -> (rcc: RCC)
    ensures
        rcc.wf(),
        rcc.holds_reset_values(),
        rcc.after_reset(),
{
    RCC::rcc()
}

/// Reset and clock controller: its registers, and the system clock rate
/// that follows from them.
#[derive(Copy, Clone, Debug)]
pub struct RCC {
    cr: ClockControl,
    cfgr: ConfigControl,
    enr: PeripheralControl,
    rate: u32,
}

impl RCC {
    /// The clock control registers.
    pub closed spec fn clocks(self) -> ClockControl {
        self.cr
    }

    /// The clock configuration registers.
    pub closed spec fn config(self) -> ConfigControl {
        self.cfgr
    }

    /// The peripheral clock enable registers.
    pub closed spec fn gates(self) -> PeripheralControl {
        self.enr
    }

    /// The system clock rate that the controller keeps, in hertz.
    pub closed spec fn cached_rate(self) -> u32 {
        self.rate
    }

    /// The rate that the controller keeps is the one that follows from its
    /// configuration registers.
    pub open spec fn wf(self) -> bool {
        self.cached_rate() == self.config()@.derived_rate()
    }

    /// The registers hold the values that a reset gives them.
    pub open spec fn holds_reset_values(self) -> bool {
        &&& self.clocks() == (ClockControl { cr: CR_RESET, cr2: CR2_RESET })
        &&& self.config() == (ConfigControl { cfgr: 0, cfgr2: 0 })
        &&& self.gates() == (PeripheralControl { ahbenr: AHBENR_RESET, apb1enr: 0, apb2enr: 0 })
    }

    /// `after` has the clock configuration and the peripheral gates of
    /// `before`, and the same rate.
    pub open spec fn only_clocks_differ(before: RCC, after: RCC) -> bool {
        &&& after.config() == before.config()
        &&& after.gates() == before.gates()
        &&& after.cached_rate() == before.cached_rate()
    }

    /// `after` has the clock switches and the clock configuration of
    /// `before`, and the same rate.
    pub open spec fn only_gates_differ(before: RCC, after: RCC) -> bool {
        &&& after.clocks() == before.clocks()
        &&& after.config() == before.config()
        &&& after.cached_rate() == before.cached_rate()
    }

    /// `after` has the clock switches and the peripheral gates of `before`.
    pub open spec fn only_config_differs(before: RCC, after: RCC) -> bool {
        &&& after.clocks() == before.clocks()
        &&& after.gates() == before.gates()
    }

    /// What the registers say after a reset: the internal 8 MHz oscillator
    /// drives the system at its own rate and is the only clock that runs,
    /// the PLL's settings are the lowest, and only the flash and SRAM
    /// interfaces are clocked.
    pub open spec fn after_reset(self) -> bool {
        &&& self.config()@ == (ClockConfig {
            system_source: Clock::HSI,
            pll_source: Clock::HSI,
            multiplier: PLL_MUL_MIN,
            prediv: PREDIV_MIN,
        })
        &&& self.cached_rate() == HSI_VALUE
        &&& forall|clock: Clock| #[trigger] self.clocks().is_on(clock) == (clock is HSI)
        &&& forall|clock: Clock| #[trigger] self.clocks().is_ready(clock) == (clock is HSI)
        &&& forall|peripheral: Peripheral| #[trigger]
            self.gates().is_enabled(peripheral) == (peripheral is FLITF
                || peripheral is SRAMInterface)
    }

    /// A controller whose registers hold the reset values is in the state
    /// described for a reset.
    pub proof fn lemma_reset_state(self)
        requires
            self.wf(),
            self.holds_reset_values(),
        ensures
            self.after_reset(),
    {
        lemma_unpack_in_range(ConfigControl::switch_field(), 0);
        lemma_unpack_in_range(ConfigControl::pll_source_field(), 0);
        lemma_unpack_in_range(ConfigControl::multiplier_field(), 0);
        lemma_unpack_in_range(ConfigControl::prediv_field(), 0);
        assert({
            &&& forall|i: u32| i < 32 ==> #[trigger] bit(0x0000_0083u32, i) == (i <= 1 || i == 7)
            &&& forall|i: u32| i < 32 ==> #[trigger] bit(0x0000_0080u32, i) == (i == 7)
            &&& forall|i: u32| i < 32 ==> #[trigger] bit(0x0000_0014u32, i) == (i == 2 || i == 4)
        }) by (bit_vector);
        lemma_no_bit_of_zero();
        assert forall|clock: Clock| #[trigger] self.clocks().is_on(clock) == (clock is HSI) by {
            assert(bit(0x0000_0083u32, clock.on_bit()) == (clock.on_bit() == 0));
            assert(bit(0x0000_0080u32, clock.on_bit()) == false);
        }
        assert forall|clock: Clock| #[trigger] self.clocks().is_ready(clock) == (clock is HSI) by {
            assert(bit(0x0000_0083u32, clock.ready_bit()) == (clock.ready_bit() == 1));
            assert(bit(0x0000_0080u32, clock.ready_bit()) == false);
        }
        assert forall|peripheral: Peripheral| #[trigger]
            self.gates().is_enabled(peripheral) == (peripheral is FLITF
                || peripheral is SRAMInterface) by {
            let position = peripheral.enable_bit();
            assert(bit(0x0000_0014u32, position) == (position == 2 || position == 4));
            assert(bit(0u32, position) == false);
        }
    }

    /// The controller after a reset.
    pub fn rcc() -> (rcc: RCC)
        ensures
            rcc.wf(),
            rcc.holds_reset_values(),
            rcc.after_reset(),
    {
        let rcc = RCC::from_registers(
            ClockControl { cr: CR_RESET, cr2: CR2_RESET },
            ConfigControl { cfgr: 0, cfgr2: 0 },
            PeripheralControl { ahbenr: AHBENR_RESET, apb1enr: 0, apb2enr: 0 },
        );
        proof {
            rcc.lemma_reset_state();
        }
        rcc
    }

    /// The controller whose registers hold the given words, as read from
    /// the device. The system clock rate is worked out from them.
    pub fn from_registers(
        clocks: ClockControl,
        config: ConfigControl,
        gates: PeripheralControl,
    ) -> (rcc: RCC)
        ensures
            rcc.clocks() == clocks,
            rcc.config() == config,
            rcc.gates() == gates,
            rcc.wf(),
    {
        proof {
            lemma_rate_fits(config@);
        }
        RCC { cr: clocks, cfgr: config, enr: gates, rate: config.decode().rate() }
    }

    /// The clock control registers, to be written to the device.
    pub fn clock_registers(&self) -> (clocks: ClockControl)
        ensures
            clocks == self.clocks(),
    {
        self.cr
    }

    /// The clock configuration registers, to be written to the device.
    pub fn config_registers(&self) -> (config: ConfigControl)
        ensures
            config == self.config(),
    {
        self.cfgr
    }

    /// The peripheral clock enable registers, to be written to the device.
    pub fn enable_registers(&self) -> (gates: PeripheralControl)
        ensures
            gates == self.gates(),
    {
        self.enr
    }

    /// Switches `clock` on. It does not wait for the clock to become ready.
    pub fn enable_clock(&mut self, clock: Clock)
        requires
            old(self).wf(),
        ensures
            final(self).wf(),
            ClockControl::switch_made(old(self).clocks(), final(self).clocks(), clock, true),
            RCC::only_clocks_differ(*old(self), *final(self)),
    {
        self.cr.enable_clock(clock);
    }

    /// Switches `clock` off and returns true, unless `clock` drives the
    /// system or feeds the PLL: then nothing changes and the result is false.
    pub fn disable_clock(&mut self, clock: Clock) -> (disabled: bool)
        requires
            old(self).wf(),
        ensures
            final(self).wf(),
            disabled == !old(self).config()@.depends_on(clock),
            disabled ==> ClockControl::switch_made(
                old(self).clocks(),
                final(self).clocks(),
                clock,
                false,
            ) && RCC::only_clocks_differ(*old(self), *final(self)),
            !disabled ==> *final(self) == *old(self),
    {
        if self.cfgr.decode().depends_on(clock) {
            false
        } else {
            self.cr.disable_clock(clock);
            true
        }
    }

    /// Whether `clock` is switched on.
    pub fn clock_is_on(&self, clock: Clock) -> (on: bool)
        ensures
            on == self.clocks().is_on(clock),
    {
        self.cr.clock_is_on(clock)
    }

    /// Whether `clock` is stable and may be used.
    pub fn clock_is_ready(&self, clock: Clock) -> (ready: bool)
        ensures
            ready == self.clocks().is_ready(clock),
    {
        self.cr.clock_is_ready(clock)
    }

    /// The clock that drives the system.
    pub fn get_system_clock_source(&self) -> (clock: Clock)
        ensures
            clock == self.config()@.system_source,
            clock.can_drive_system(),
    {
        self.cfgr.get_system_clock_source()
    }

    /// Makes `clock` drive the system and works out the system clock rate
    /// anew. Only HSI, HSE, PLL and HSI48 can drive the system.
    pub fn set_system_clock_source(&mut self, clock: Clock)
        requires
            old(self).wf(),
            clock.can_drive_system(),
        ensures
            final(self).wf(),
            RCC::only_config_differs(*old(self), *final(self)),
            field_set_to(
                old(self).config().cfgr,
                final(self).config().cfgr,
                ConfigControl::switch_field(),
                system_code(clock),
            ),
            final(self).config().cfgr2 == old(self).config().cfgr2,
            final(self).config()@ == (ClockConfig { system_source: clock, ..old(self).config()@ }),
            final(self).cached_rate() == (ClockConfig {
                system_source: clock,
                ..old(self).config()@
            }).derived_rate(),
    {
        self.cfgr.set_system_clock_source(clock);
        self.update_system_clock_rate();
    }

    /// The clock that feeds the PLL.
    pub fn get_pll_source(&self) -> (clock: Clock)
        ensures
            clock == self.config()@.pll_source,
            clock.can_drive_pll(),
    {
        self.cfgr.get_pll_source()
    }

    /// Makes `clock` feed the PLL and works out the system clock rate anew.
    /// Only HSI, HSE and HSI48 can feed the PLL.
    pub fn set_pll_source(&mut self, clock: Clock)
        requires
            old(self).wf(),
            clock.can_drive_pll(),
        ensures
            final(self).wf(),
            RCC::only_config_differs(*old(self), *final(self)),
            field_set_to(
                old(self).config().cfgr,
                final(self).config().cfgr,
                ConfigControl::pll_source_field(),
                pll_code(clock),
            ),
            final(self).config().cfgr2 == old(self).config().cfgr2,
            final(self).config()@ == (ClockConfig { pll_source: clock, ..old(self).config()@ }),
    {
        self.cfgr.set_pll_source(clock);
        self.update_system_clock_rate();
    }

    /// The factor by which the PLL multiplies its input, from 2 to 16.
    pub fn get_pll_multiplier(&self) -> (multiplier: u8)
        ensures
            multiplier == self.config()@.multiplier,
            PLL_MUL_MIN <= multiplier <= PLL_MUL_MAX,
    {
        self.cfgr.get_pll_multiplier()
    }

    /// Sets the factor by which the PLL multiplies its input, which is from
    /// 2 to 16, and works out the system clock rate anew.
    pub fn set_pll_multiplier(&mut self, mul: u8)
        requires
            old(self).wf(),
            PLL_MUL_MIN <= mul <= PLL_MUL_MAX,
        ensures
            final(self).wf(),
            RCC::only_config_differs(*old(self), *final(self)),
            field_set_to(
                old(self).config().cfgr,
                final(self).config().cfgr,
                ConfigControl::multiplier_field(),
                (mul - PLL_MUL_MIN) as u32,
            ),
            final(self).config().cfgr2 == old(self).config().cfgr2,
            final(self).config()@ == (ClockConfig { multiplier: mul, ..old(self).config()@ }),
    {
        self.cfgr.set_pll_multiplier(mul);
        self.update_system_clock_rate();
    }

    /// The factor by which the PLL's input is divided, from 1 to 16.
    pub fn get_pll_prediv_factor(&self) -> (factor: u8)
        ensures
            factor == self.config()@.prediv,
            PREDIV_MIN <= factor <= PREDIV_MAX,
    {
        self.cfgr.get_pll_prediv_factor()
    }

    /// Sets the factor by which the PLL's input is divided, which is from 1
    /// to 16, and works out the system clock rate anew.
    pub fn set_pll_prediv_factor(&mut self, factor: u8)
        requires
            old(self).wf(),
            PREDIV_MIN <= factor <= PREDIV_MAX,
        ensures
            final(self).wf(),
            RCC::only_config_differs(*old(self), *final(self)),
            field_set_to(
                old(self).config().cfgr2,
                final(self).config().cfgr2,
                ConfigControl::prediv_field(),
                (factor - PREDIV_MIN) as u32,
            ),
            final(self).config().cfgr == old(self).config().cfgr,
            final(self).config()@ == (ClockConfig { prediv: factor, ..old(self).config()@ }),
    {
        self.cfgr.set_pll_prediv_factor(factor);
        self.update_system_clock_rate();
    }

    /// The system clock rate in hertz: that of the system source, or, where
    /// the PLL drives the system, that of the PLL's source times the
    /// multiplier, divided by the input divider.
    pub fn get_system_clock_rate(&self) -> (rate: u32)
        requires
            self.wf(),
        ensures
            rate == self.cached_rate(),
            rate == self.config()@.derived_rate(),
    {
        self.rate
    }

    /// Gates the clock of `peripheral` on.
    pub fn enable_peripheral(&mut self, peripheral: Peripheral)
        requires
            old(self).wf(),
        ensures
            final(self).wf(),
            PeripheralControl::gate_made(old(self).gates(), final(self).gates(), peripheral, true),
            RCC::only_gates_differ(*old(self), *final(self)),
    {
        self.enr.enable_peripheral(peripheral);
    }

    /// Gates the clock of `peripheral` off.
    pub fn disable_peripheral(&mut self, peripheral: Peripheral)
        requires
            old(self).wf(),
        ensures
            final(self).wf(),
            PeripheralControl::gate_made(old(self).gates(), final(self).gates(), peripheral, false),
            RCC::only_gates_differ(*old(self), *final(self)),
    {
        self.enr.disable_peripheral(peripheral);
    }

    /// Whether the clock of `peripheral` is gated on.
    pub fn peripheral_is_enabled(&self, peripheral: Peripheral) -> (enabled: bool)
        ensures
            enabled == self.gates().is_enabled(peripheral),
    {
        self.enr.peripheral_is_enabled(peripheral)
    }

    /// Works the kept rate out from the configuration registers.
    fn update_system_clock_rate(&mut self)
        ensures
            final(self).wf(),
            final(self).cr == old(self).cr,
            final(self).cfgr == old(self).cfgr,
            final(self).enr == old(self).enr,
    {
        self.rate = self.cfgr.decode().rate();
    }
}

/// The rate that follows from a valid configuration is at most sixteen
/// times that of the fastest oscillator.
pub proof fn lemma_rate_fits(config: ClockConfig)
    requires
        config.inv(),
    ensures
        0 <= config.derived_rate() <= 16 * 48_000_000,
{
    let base = config.pll_source.base_rate() as int;
    let factor = config.multiplier as int;
    let divider = config.prediv as int;
    assert(0 <= base * factor <= 16 * 48_000_000) by (nonlinear_arith)
        requires
            0 <= base <= 48_000_000,
            0 <= factor <= 16,
    ;
    assert(0 <= (base * factor) / divider <= base * factor) by (nonlinear_arith)
        requires
            0 <= base * factor,
            1 <= divider,
    ;
}

} // verus!
