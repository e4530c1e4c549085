use cortex_m0::peripheral::systick::control_status::{ClockSource, CSR};
use cortex_m0::peripheral::systick::current_value::CVR;
use cortex_m0::peripheral::systick::reload_value::RVR;
use cortex_m0::peripheral::systick::RawSysTick;

#[test]
fn test_systick_counter_and_interrupt_bits() {
    let mut timer = RawSysTick::new();
    timer.enable_counter();
    assert_eq!(timer.csr.0, 0b001);
    timer.enable_interrupts();
    assert_eq!(timer.csr.0, 0b011);
    timer.use_processor_clock();
    assert_eq!(timer.csr.0, 0b111);
    timer.disable_counter();
    assert_eq!(timer.csr.0, 0b110);
    timer.disable_interrupts();
    assert_eq!(timer.csr.0, 0b100);
    timer.use_reference_clock();
    assert_eq!(timer.csr.0, 0b000);
    assert_eq!(timer.rvr.0, 0);
    assert_eq!(timer.cvr.0, 0);
    assert_eq!(timer.calib, 0);
}

#[test]
fn test_systick_underflow_flag() {
    let mut timer = RawSysTick::new();
    assert!(!timer.did_underflow());
    timer.csr = CSR(1 << 16);
    assert!(timer.did_underflow());
    timer.enable_counter();
    assert!(timer.did_underflow());
    assert_eq!(timer.csr.0, (1 << 16) | 1);
    timer.csr = CSR(!(1 << 16));
    assert!(!timer.did_underflow());
}

#[test]
fn test_systick_reload_value() {
    let mut timer = RawSysTick::new();
    timer.set_reload_value(48_000);
    assert_eq!(timer.get_reload_value(), 48_000);
    assert_eq!(timer.rvr.0, 48_000);
    timer.set_reload_value(0x00FF_FFFF);
    assert_eq!(timer.get_reload_value(), 0x00FF_FFFF);
    timer.set_reload_value(0x1234_5678);
    assert_eq!(timer.get_reload_value(), 0x0034_5678);
    assert_eq!(timer.rvr.0, 0x0034_5678);

    let mut rvr = RVR(0xAB00_0000);
    rvr.set_reload_value(7);
    assert_eq!(rvr.0, 0xAB00_0007);
    assert_eq!(rvr.get_reload_value(), 7);
}

#[test]
fn test_systick_current_value() {
    let mut timer = RawSysTick::new();
    timer.cvr = CVR(0xFF12_3456);
    assert_eq!(timer.get_current_value(), 0x0012_3456);
    timer.clear_current_value();
    assert_eq!(timer.get_current_value(), 0);
    assert_eq!(timer.cvr.0, 0xFF00_0000);
}

#[test]
fn test_csr_set_source() {
    let mut csr = CSR(0xFFFF_FFFF);
    csr.set_source(ClockSource::Reference);
    assert_eq!(csr.0, 0xFFFF_FFFB);
    csr.set_source(ClockSource::Processor);
    assert_eq!(csr.0, 0xFFFF_FFFF);
    csr.set_enable(false);
    assert_eq!(csr.0, 0xFFFF_FFFE);
    csr.set_interrupt(false);
    assert_eq!(csr.0, 0xFFFF_FFFC);
}

#[test]
fn test_systick_register_order() {
    let timer = RawSysTick::from_words([1, 2, 3, 4]);
    assert_eq!(timer.csr.0, 1);
    assert_eq!(timer.rvr.0, 2);
    assert_eq!(timer.cvr.0, 3);
    assert_eq!(timer.calib, 4);
    assert_eq!(timer.words(), [1, 2, 3, 4]);
}
