use cortex_m0::peripheral::rcc::clock_control::{Clock, ClockControl};
use cortex_m0::peripheral::rcc::config::{ClockConfig, ConfigControl};
use cortex_m0::peripheral::rcc::enable::{Peripheral, PeripheralControl};
use cortex_m0::peripheral::rcc::{rcc, RCC};

const ALL_CLOCKS: [Clock; 5] = [Clock::HSI, Clock::HSI48, Clock::HSI14, Clock::HSE, Clock::PLL];

#[test]
fn test_rcc_after_reset() {
    let rcc = rcc();
    assert_eq!(rcc.get_system_clock_source(), Clock::HSI);
    assert_eq!(rcc.get_pll_source(), Clock::HSI);
    assert_eq!(rcc.get_pll_multiplier(), 2);
    assert_eq!(rcc.get_pll_prediv_factor(), 1);
    assert_eq!(rcc.get_system_clock_rate(), 8_000_000);
    for clock in ALL_CLOCKS {
        assert_eq!(rcc.clock_is_on(clock), clock == Clock::HSI);
        assert_eq!(rcc.clock_is_ready(clock), clock == Clock::HSI);
    }
    assert!(rcc.peripheral_is_enabled(Peripheral::FLITF));
    assert!(rcc.peripheral_is_enabled(Peripheral::SRAMInterface));
    assert!(!rcc.peripheral_is_enabled(Peripheral::GPIOB));
    assert_eq!(rcc.clock_registers().cr, 0x0000_0083);
    assert_eq!(rcc.clock_registers().cr2, 0x0000_0080);
    assert_eq!(rcc.enable_registers().ahbenr, 0x0000_0014);
}

#[test]
fn test_rcc_pll_from_hse_times_nine() {
    let mut rcc = rcc();
    rcc.set_pll_source(Clock::HSE);
    rcc.set_pll_multiplier(9);
    rcc.set_pll_prediv_factor(1);
    rcc.set_system_clock_source(Clock::PLL);
    assert_eq!(rcc.get_system_clock_rate(), 72_000_000);
    assert_eq!(rcc.get_system_clock_source(), Clock::PLL);
    assert_eq!(rcc.get_pll_source(), Clock::HSE);
    assert_eq!(rcc.get_pll_multiplier(), 9);
    assert_eq!(rcc.get_pll_prediv_factor(), 1);
}

#[test]
fn test_rcc_rate_follows_every_setting() {
    let mut rcc = rcc();
    rcc.set_system_clock_source(Clock::PLL);
    assert_eq!(rcc.get_system_clock_rate(), 16_000_000);
    rcc.set_pll_multiplier(16);
    assert_eq!(rcc.get_system_clock_rate(), 128_000_000);
    rcc.set_pll_source(Clock::HSI48);
    assert_eq!(rcc.get_system_clock_rate(), 768_000_000);
    rcc.set_pll_prediv_factor(16);
    assert_eq!(rcc.get_system_clock_rate(), 48_000_000);
    rcc.set_pll_prediv_factor(7);
    assert_eq!(rcc.get_system_clock_rate(), 109_714_285);
    rcc.set_pll_source(Clock::HSE);
    rcc.set_pll_multiplier(3);
    rcc.set_pll_prediv_factor(3);
    assert_eq!(rcc.get_system_clock_rate(), 8_000_000);
    rcc.set_system_clock_source(Clock::HSI48);
    assert_eq!(rcc.get_system_clock_rate(), 48_000_000);
    rcc.set_system_clock_source(Clock::HSE);
    assert_eq!(rcc.get_system_clock_rate(), 8_000_000);
    rcc.set_pll_multiplier(12);
    assert_eq!(rcc.get_system_clock_rate(), 8_000_000);
}

#[test]
fn test_rcc_config_words() {
    let mut rcc = rcc();
    rcc.set_system_clock_source(Clock::PLL);
    assert_eq!(rcc.config_registers().cfgr, 0x0000_0002);
    rcc.set_system_clock_source(Clock::HSI48);
    assert_eq!(rcc.config_registers().cfgr, 0x0000_0003);
    rcc.set_system_clock_source(Clock::HSE);
    assert_eq!(rcc.config_registers().cfgr, 0x0000_0001);
    rcc.set_pll_source(Clock::HSE);
    assert_eq!(rcc.config_registers().cfgr, 0x0001_0001);
    rcc.set_pll_source(Clock::HSI48);
    assert_eq!(rcc.config_registers().cfgr, 0x0001_8001);
    rcc.set_pll_source(Clock::HSI);
    assert_eq!(rcc.config_registers().cfgr, 0x0000_8001);
    rcc.set_pll_multiplier(2);
    assert_eq!(rcc.config_registers().cfgr, 0x0000_8001);
    rcc.set_pll_multiplier(16);
    assert_eq!(rcc.config_registers().cfgr, 0x0038_8001);
    rcc.set_pll_multiplier(9);
    assert_eq!(rcc.config_registers().cfgr, 0x001C_8001);
    assert_eq!(rcc.config_registers().cfgr2, 0);
    rcc.set_pll_prediv_factor(16);
    assert_eq!(rcc.config_registers().cfgr2, 0xF);
    rcc.set_pll_prediv_factor(1);
    assert_eq!(rcc.config_registers().cfgr2, 0);
    assert_eq!(rcc.config_registers().cfgr, 0x001C_8001);
    rcc.set_system_clock_source(Clock::HSI);
    assert_eq!(rcc.config_registers().cfgr, 0x001C_8000);
}

#[test]
fn test_config_decodes_every_code() {
    let both_hsi_codes = [0x0000_0000u32, 0x0000_8000];
    for cfgr in both_hsi_codes {
        let config = ConfigControl { cfgr, cfgr2: 0 };
        assert_eq!(config.get_pll_source(), Clock::HSI);
    }
    let config = ConfigControl { cfgr: 0x003C_0000, cfgr2: 0xFFFF_FFF4 };
    assert_eq!(config.get_pll_multiplier(), 16);
    assert_eq!(config.get_pll_prediv_factor(), 5);
    let config = ConfigControl { cfgr: 0x0034_0000, cfgr2: 0 };
    assert_eq!(config.get_pll_multiplier(), 15);
    let config = ConfigControl { cfgr: 0xFFC3_FFFF, cfgr2: 0 };
    assert_eq!(config.get_pll_multiplier(), 2);
    assert_eq!(config.get_system_clock_source(), Clock::HSI48);
    assert_eq!(config.get_pll_source(), Clock::HSI48);
    assert_eq!(
        config.decode(),
        ClockConfig {
            system_source: Clock::HSI48,
            pll_source: Clock::HSI48,
            multiplier: 2,
            prediv: 1,
        }
    );
}

#[test]
fn test_rate_formula() {
    let config = ClockConfig {
        system_source: Clock::PLL,
        pll_source: Clock::HSE,
        multiplier: 9,
        prediv: 1,
    };
    assert_eq!(config.rate(), 72_000_000);
    let config = ClockConfig { prediv: 2, ..config };
    assert_eq!(config.rate(), 36_000_000);
    let config = ClockConfig { system_source: Clock::HSI, ..config };
    assert_eq!(config.rate(), 8_000_000);
    assert_eq!(Clock::HSI.base_rate(), 8_000_000);
    assert_eq!(Clock::HSE.base_rate(), 8_000_000);
    assert_eq!(Clock::HSI14.base_rate(), 14_000_000);
    assert_eq!(Clock::HSI48.base_rate(), 48_000_000);
}

#[test]
fn test_rcc_disable_clock_refuses_load_bearing_clocks() {
    let mut rcc = rcc();
    rcc.set_pll_source(Clock::HSE);
    rcc.enable_clock(Clock::HSE);
    rcc.enable_clock(Clock::HSI48);
    let before = (rcc.clock_registers(), rcc.config_registers(), rcc.enable_registers());

    assert_eq!(rcc.disable_clock(Clock::HSI), false);
    assert_eq!(rcc.disable_clock(Clock::HSE), false);
    assert_eq!(rcc.clock_registers().cr, before.0.cr);
    assert_eq!(rcc.clock_registers().cr2, before.0.cr2);
    assert_eq!(rcc.config_registers().cfgr, before.1.cfgr);
    assert_eq!(rcc.config_registers().cfgr2, before.1.cfgr2);
    assert_eq!(rcc.enable_registers().ahbenr, before.2.ahbenr);
    assert!(rcc.clock_is_on(Clock::HSI));
    assert!(rcc.clock_is_on(Clock::HSE));

    assert_eq!(rcc.disable_clock(Clock::HSI48), true);
    assert!(!rcc.clock_is_on(Clock::HSI48));
    assert!(rcc.clock_is_on(Clock::HSI));
    assert!(rcc.clock_is_on(Clock::HSE));
    assert_eq!(rcc.clock_registers().cr, before.0.cr);
    assert_eq!(rcc.clock_registers().cr2, 0x0000_0080);

    rcc.set_system_clock_source(Clock::HSE);
    assert_eq!(rcc.disable_clock(Clock::HSI), true);
    assert!(!rcc.clock_is_on(Clock::HSI));
    assert_eq!(rcc.clock_registers().cr, 0x0001_0082);
    assert_eq!(rcc.get_system_clock_rate(), 8_000_000);
}

#[test]
fn test_rcc_enable_clock_sets_one_bit() {
    let mut rcc = rcc();
    rcc.enable_clock(Clock::PLL);
    assert_eq!(rcc.clock_registers().cr, 0x0100_0083);
    assert!(rcc.clock_is_on(Clock::PLL));
    assert!(!rcc.clock_is_ready(Clock::PLL));
    rcc.enable_clock(Clock::HSE);
    assert_eq!(rcc.clock_registers().cr, 0x0101_0083);
    rcc.enable_clock(Clock::HSI14);
    assert_eq!(rcc.clock_registers().cr2, 0x0000_0081);
    rcc.enable_clock(Clock::HSI48);
    assert_eq!(rcc.clock_registers().cr2, 0x0001_0081);
    assert_eq!(rcc.clock_registers().cr, 0x0101_0083);
    assert_eq!(rcc.get_system_clock_rate(), 8_000_000);
}

#[test]
fn test_clock_ready_bits() {
    let clocks = ClockControl { cr: 0x0202_0002, cr2: 0x0002_0002 };
    for clock in ALL_CLOCKS {
        assert!(clocks.clock_is_ready(clock));
        assert!(!clocks.clock_is_on(clock));
    }
    let clocks = ClockControl { cr: 0x0101_0001, cr2: 0x0001_0001 };
    for clock in ALL_CLOCKS {
        assert!(!clocks.clock_is_ready(clock));
        assert!(clocks.clock_is_on(clock));
    }
}

#[test]
fn test_allowed_sources() {
    for clock in ALL_CLOCKS {
        assert_eq!(clock.can_drive_system(), clock != Clock::HSI14);
        assert_eq!(clock.can_drive_pll(), clock != Clock::HSI14 && clock != Clock::PLL);
    }
}

#[test]
fn test_rcc_peripheral_gates() {
    let mut rcc = rcc();
    rcc.enable_peripheral(Peripheral::GPIOB);
    assert!(rcc.peripheral_is_enabled(Peripheral::GPIOB));
    assert!(!rcc.peripheral_is_enabled(Peripheral::GPIOA));
    assert!(!rcc.peripheral_is_enabled(Peripheral::USART3));
    assert_eq!(rcc.enable_registers().ahbenr, 0x0004_0014);

    rcc.enable_peripheral(Peripheral::USART2);
    assert_eq!(rcc.enable_registers().apb1enr, 0x0002_0000);
    rcc.enable_peripheral(Peripheral::USART1);
    assert_eq!(rcc.enable_registers().apb2enr, 0x0000_4000);
    assert_eq!(rcc.enable_registers().ahbenr, 0x0004_0014);
    assert!(rcc.peripheral_is_enabled(Peripheral::USART1));
    assert!(rcc.peripheral_is_enabled(Peripheral::USART2));
    assert!(!rcc.peripheral_is_enabled(Peripheral::TIM16));

    rcc.disable_peripheral(Peripheral::GPIOB);
    assert!(!rcc.peripheral_is_enabled(Peripheral::GPIOB));
    assert_eq!(rcc.enable_registers().ahbenr, 0x0000_0014);
    assert_eq!(rcc.enable_registers().apb1enr, 0x0002_0000);
    assert_eq!(rcc.get_system_clock_rate(), 8_000_000);
}

#[test]
fn test_every_peripheral_has_its_own_bit() {
    let all = [
        Peripheral::TouchSenseController,
        Peripheral::GPIOA,
        Peripheral::GPIOB,
        Peripheral::GPIOC,
        Peripheral::GPIOF,
        Peripheral::CRC,
        Peripheral::FLITF,
        Peripheral::SRAMInterface,
        Peripheral::DMA,
        Peripheral::DMA2,
        Peripheral::CEC,
        Peripheral::DAC,
        Peripheral::PowerInterface,
        Peripheral::ClockRecoverySystem,
        Peripheral::CAN,
        Peripheral::USB,
        Peripheral::I2C1,
        Peripheral::I2C2,
        Peripheral::USART2,
        Peripheral::USART3,
        Peripheral::USART4,
        Peripheral::USART5,
        Peripheral::SPI2,
        Peripheral::WindowWatchdog,
        Peripheral::TIM2,
        Peripheral::TIM3,
        Peripheral::TIM6,
        Peripheral::TIM7,
        Peripheral::TIM14,
        Peripheral::MCUDebug,
        Peripheral::TIM1,
        Peripheral::TIM15,
        Peripheral::TIM16,
        Peripheral::TIM17,
        Peripheral::USART1,
        Peripheral::USART6,
        Peripheral::USART7,
        Peripheral::USART8,
        Peripheral::SPI1,
        Peripheral::ADC,
        Peripheral::SysCfgComp,
    ];
    for (i, &one) in all.iter().enumerate() {
        let mut gates = PeripheralControl { ahbenr: 0, apb1enr: 0, apb2enr: 0 };
        gates.enable_peripheral(one);
        let words = [gates.ahbenr, gates.apb1enr, gates.apb2enr];
        let set: u32 = words.iter().map(|word| word.count_ones()).sum();
        assert_eq!(set, 1);
        for (j, &other) in all.iter().enumerate() {
            assert_eq!(gates.peripheral_is_enabled(other), i == j);
        }
        gates.disable_peripheral(one);
        assert_eq!((gates.ahbenr, gates.apb1enr, gates.apb2enr), (0, 0, 0));
    }
}

#[test]
fn test_rcc_from_registers() {
    let rcc = RCC::from_registers(
        ClockControl { cr: 0x0301_0083, cr2: 0x0000_0080 },
        ConfigControl { cfgr: 0x0011_0002, cfgr2: 0x0000_0001 },
        PeripheralControl { ahbenr: 0x0002_0014, apb1enr: 0, apb2enr: 0x0000_4000 },
    );
    assert_eq!(rcc.get_system_clock_source(), Clock::PLL);
    assert_eq!(rcc.get_pll_source(), Clock::HSE);
    assert_eq!(rcc.get_pll_multiplier(), 6);
    assert_eq!(rcc.get_pll_prediv_factor(), 2);
    assert_eq!(rcc.get_system_clock_rate(), 24_000_000);
    assert!(rcc.clock_is_on(Clock::PLL));
    assert!(rcc.clock_is_ready(Clock::PLL));
    assert!(rcc.clock_is_on(Clock::HSE));
    assert!(!rcc.clock_is_ready(Clock::HSE));
    assert!(rcc.peripheral_is_enabled(Peripheral::GPIOA));
    assert!(rcc.peripheral_is_enabled(Peripheral::USART1));
}
