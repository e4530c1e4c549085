use cortex_m0::peripheral::gpio::afr::{AlternateFunction, AFRH, AFRL};
use cortex_m0::peripheral::gpio::bsrr::BSRR;
use cortex_m0::peripheral::gpio::moder::{Mode, MODER};
use cortex_m0::peripheral::gpio::ospeedr::{Speed, OSPEEDR};
use cortex_m0::peripheral::gpio::otyper::{Type, OTYPER};
use cortex_m0::peripheral::gpio::pupdr::{Pull, PUPDR};
use cortex_m0::peripheral::gpio::{Group, RawGPIO};
use cortex_m0::peripheral::rcc::enable::Peripheral;
use cortex_m0::peripheral::rcc::rcc;

#[test]
fn test_gpio_enable_group_b_and_assert_port_3() {
    let mut rcc = rcc();
    RawGPIO::enable(&mut rcc, Group::B);
    assert!(rcc.peripheral_is_enabled(Peripheral::GPIOB));
    assert!(!rcc.peripheral_is_enabled(Peripheral::GPIOA));
    assert!(!rcc.peripheral_is_enabled(Peripheral::GPIOC));
    assert!(!rcc.peripheral_is_enabled(Peripheral::GPIOF));

    for before in [0x0000u32, 0xFFF7, 0xA5A5, 0x0008, 0xFFFF] {
        let mut gpio = RawGPIO::new();
        gpio.odr = before;
        gpio.set_mode(Mode::Output, 3);
        assert_eq!(gpio.moder.0, 0b01 << 6);
        assert_eq!(gpio.odr, before);
        gpio.set_bit(3);
        assert_eq!(gpio.odr, before | (1 << 3));
        assert_eq!(gpio.odr & !(1 << 3), before & !(1 << 3));
        assert_eq!(gpio.bsrr.0, 1 << 3);
        gpio.reset_bit(3);
        assert_eq!(gpio.odr, before & !(1 << 3));
        assert_eq!(gpio.bsrr.0, 1 << 19);
    }
}

#[test]
fn test_gpio_enable_each_group() {
    let groups = [
        (Group::A, Peripheral::GPIOA, 0x0002_0014u32),
        (Group::B, Peripheral::GPIOB, 0x0004_0014),
        (Group::C, Peripheral::GPIOC, 0x0008_0014),
        (Group::F, Peripheral::GPIOF, 0x0040_0014),
    ];
    for (group, peripheral, word) in groups {
        let mut rcc = rcc();
        RawGPIO::enable(&mut rcc, group);
        assert!(rcc.peripheral_is_enabled(peripheral));
        assert_eq!(rcc.enable_registers().ahbenr, word);
        assert_eq!(group.peripheral(), peripheral);
    }
}

#[test]
fn test_group_addresses() {
    assert_eq!(Group::A.base_address(), 0x4800_0000);
    assert_eq!(Group::B.base_address(), 0x4800_0400);
    assert_eq!(Group::C.base_address(), 0x4800_0800);
    assert_eq!(Group::F.base_address(), 0x4800_1400);
}

#[test]
fn test_moder_set_and_get() {
    let mut moder = MODER(0);
    moder.set_mode(Mode::Output, 0);
    assert_eq!(moder.0, 0b01);
    moder.set_mode(Mode::Alternate, 8);
    assert_eq!(moder.0, (0b10 << 16) | 0b01);
    moder.set_mode(Mode::Analog, 15);
    assert_eq!(moder.0, (0b11 << 30) | (0b10 << 16) | 0b01);
    assert_eq!(moder.get_mode(0), Mode::Output);
    assert_eq!(moder.get_mode(1), Mode::Input);
    assert_eq!(moder.get_mode(8), Mode::Alternate);
    assert_eq!(moder.get_mode(15), Mode::Analog);
    moder.set_mode(Mode::Input, 15);
    assert_eq!(moder.0, (0b10 << 16) | 0b01);
}

#[test]
fn test_moder_every_port_round_trips() {
    let modes = [Mode::Input, Mode::Output, Mode::Alternate, Mode::Analog];
    for port in 0..16u8 {
        for mode in modes {
            let mut moder = MODER(0xFFFF_FFFF);
            moder.set_mode(mode, port);
            assert_eq!(moder.get_mode(port), mode);
            for other in 0..16u8 {
                if other != port {
                    assert_eq!(moder.get_mode(other), Mode::Analog);
                }
            }
        }
    }
}

#[test]
fn test_otyper_set_and_get() {
    let mut otyper = OTYPER(0);
    otyper.set_type(Type::OpenDrain, 4);
    assert_eq!(otyper.0, 1 << 4);
    assert_eq!(otyper.get_type(4), Type::OpenDrain);
    assert_eq!(otyper.get_type(5), Type::PushPull);
    otyper.set_type(Type::OpenDrain, 15);
    assert_eq!(otyper.0, (1 << 15) | (1 << 4));
    otyper.set_type(Type::PushPull, 4);
    assert_eq!(otyper.0, 1 << 15);
    let mut otyper = OTYPER(0xFFFF_0000);
    otyper.set_type(Type::OpenDrain, 0);
    assert_eq!(otyper.0, 0xFFFF_0001);
}

#[test]
fn test_ospeedr_set_and_get() {
    let mut ospeedr = OSPEEDR(0);
    ospeedr.set_speed(Speed::High, 2);
    assert_eq!(ospeedr.0, 0b11 << 4);
    ospeedr.set_speed(Speed::Medium, 3);
    assert_eq!(ospeedr.0, (0b01 << 6) | (0b11 << 4));
    ospeedr.set_speed(Speed::Fast, 2);
    assert_eq!(ospeedr.0, (0b01 << 6) | (0b10 << 4));
    assert_eq!(ospeedr.get_speed(2), Speed::Fast);
    assert_eq!(ospeedr.get_speed(3), Speed::Medium);
    assert_eq!(ospeedr.get_speed(4), Speed::Low);
    ospeedr.set_speed(Speed::Low, 3);
    assert_eq!(ospeedr.0, 0b10 << 4);
}

#[test]
fn test_pupdr_set_and_get() {
    let mut pupdr = PUPDR(0);
    pupdr.set_pull(Pull::Up, 1);
    assert_eq!(pupdr.0, 0b01 << 2);
    pupdr.set_pull(Pull::Down, 14);
    assert_eq!(pupdr.0, (0b10 << 28) | (0b01 << 2));
    assert_eq!(pupdr.get_pull(1), Pull::Up);
    assert_eq!(pupdr.get_pull(14), Pull::Down);
    assert_eq!(pupdr.get_pull(0), Pull::Neither);
    pupdr.set_pull(Pull::Neither, 1);
    assert_eq!(pupdr.0, 0b10 << 28);
}

#[test]
fn test_pupdr_reserved_pattern_holds_no_setting() {
    let mut pupdr = PUPDR(0b11 << 10);
    assert!(!pupdr.has_pull(5));
    assert!(pupdr.has_pull(4));
    assert!(pupdr.has_pull(6));
    assert_eq!(Pull::from_code(0b11), None);
    assert_eq!(Pull::from_code(0b10), Some(Pull::Down));
    pupdr.set_pull(Pull::Up, 5);
    assert!(pupdr.has_pull(5));
    assert_eq!(pupdr.get_pull(5), Pull::Up);
}

#[test]
fn test_bsrr_commands_are_whole_words() {
    let mut bsrr = BSRR(0xDEAD_BEEF);
    bsrr.set(0);
    assert_eq!(bsrr.0, 1);
    bsrr.set(15);
    assert_eq!(bsrr.0, 1 << 15);
    bsrr.reset(0);
    assert_eq!(bsrr.0, 1 << 16);
    bsrr.reset(15);
    assert_eq!(bsrr.0, 1 << 31);
}

#[test]
fn test_afr_set_and_get() {
    let mut afrl = AFRL(0);
    afrl.set_function(AlternateFunction::Five, 0);
    assert_eq!(afrl.0, 5);
    afrl.set_function(AlternateFunction::Fifteen, 7);
    assert_eq!(afrl.0, 0xF000_0005);
    assert_eq!(afrl.get_function(0), AlternateFunction::Five);
    assert_eq!(afrl.get_function(7), AlternateFunction::Fifteen);
    assert_eq!(afrl.get_function(3), AlternateFunction::Zero);

    let mut afrh = AFRH(0);
    afrh.set_function(AlternateFunction::One, 8);
    assert_eq!(afrh.0, 1);
    afrh.set_function(AlternateFunction::Ten, 15);
    assert_eq!(afrh.0, 0xA000_0001);
    assert_eq!(afrh.get_function(8), AlternateFunction::One);
    assert_eq!(afrh.get_function(15), AlternateFunction::Ten);
}

#[test]
fn test_gpio_function_goes_to_the_register_of_the_pin() {
    let mut gpio = RawGPIO::new();
    gpio.set_function(AlternateFunction::Two, 7);
    assert_eq!(gpio.afrl.0, 0x2000_0000);
    assert_eq!(gpio.afrh.0, 0);
    gpio.set_function(AlternateFunction::Three, 8);
    assert_eq!(gpio.afrl.0, 0x2000_0000);
    assert_eq!(gpio.afrh.0, 0x0000_0003);
    gpio.set_function(AlternateFunction::Seven, 12);
    assert_eq!(gpio.afrh.0, 0x0007_0003);
    assert_eq!(gpio.get_function(7), AlternateFunction::Two);
    assert_eq!(gpio.get_function(8), AlternateFunction::Three);
    assert_eq!(gpio.get_function(12), AlternateFunction::Seven);
    assert_eq!(gpio.get_function(0), AlternateFunction::Zero);
    assert_eq!(gpio.get_function(15), AlternateFunction::Zero);
}

#[test]
fn test_gpio_setters_touch_one_register() {
    let mut gpio = RawGPIO::new();
    gpio.idr = 0x1111;
    gpio.lckr = 0x2222;
    gpio.brr = 0x3333;
    gpio.set_mode(Mode::Alternate, 9);
    gpio.set_type(Type::OpenDrain, 9);
    gpio.set_speed(Speed::High, 9);
    gpio.set_pull(Pull::Up, 9);
    gpio.set_function(AlternateFunction::One, 9);
    assert_eq!(gpio.moder.0, 0b10 << 18);
    assert_eq!(gpio.otyper.0, 1 << 9);
    assert_eq!(gpio.ospeedr.0, 0b11 << 18);
    assert_eq!(gpio.pupdr.0, 0b01 << 18);
    assert_eq!(gpio.afrh.0, 1 << 4);
    assert_eq!(gpio.afrl.0, 0);
    assert_eq!(gpio.idr, 0x1111);
    assert_eq!(gpio.odr, 0);
    assert_eq!(gpio.bsrr.0, 0);
    assert_eq!(gpio.lckr, 0x2222);
    assert_eq!(gpio.brr, 0x3333);
    assert_eq!(gpio.get_mode(9), Mode::Alternate);
    assert_eq!(gpio.get_type(9), Type::OpenDrain);
    assert_eq!(gpio.get_speed(9), Speed::High);
    assert_eq!(gpio.get_pull(9), Pull::Up);
    assert_eq!(gpio.get_function(9), AlternateFunction::One);
}

#[test]
fn test_gpio_highest_and_lowest_port() {
    let mut gpio = RawGPIO::new();
    gpio.set_bit(0);
    gpio.set_bit(15);
    assert_eq!(gpio.odr, 0x8001);
    gpio.reset_bit(0);
    assert_eq!(gpio.odr, 0x8000);
    gpio.set_mode(Mode::Output, 15);
    gpio.set_mode(Mode::Output, 0);
    assert_eq!(gpio.moder.0, 0x4000_0001);
}

#[test]
fn test_gpio_register_order() {
    let mut words = [0u32; 11];
    for (i, word) in words.iter_mut().enumerate() {
        *word = 10 + i as u32;
    }
    let gpio = RawGPIO::from_words(words);
    assert_eq!(gpio.moder.0, 10);
    assert_eq!(gpio.otyper.0, 11);
    assert_eq!(gpio.ospeedr.0, 12);
    assert_eq!(gpio.pupdr.0, 13);
    assert_eq!(gpio.idr, 14);
    assert_eq!(gpio.odr, 15);
    assert_eq!(gpio.bsrr.0, 16);
    assert_eq!(gpio.lckr, 17);
    assert_eq!(gpio.afrl.0, 18);
    assert_eq!(gpio.afrh.0, 19);
    assert_eq!(gpio.brr, 20);
    assert_eq!(gpio.words(), words);
}
