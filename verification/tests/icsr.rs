use cortex_m0::system_control::icsr::ICSR;

#[test]
fn test_icsr_set_pend_sv() {
    let mut icsr = ICSR(0);

    icsr.set_pend_sv();
    assert_eq!(icsr.0, 0b1 << 28);
}

#[test]
fn test_icsr_clear_pend_sv() {
    let mut icsr = ICSR(0);

    icsr.clear_pend_sv();
    assert_eq!(icsr.0, 0b1 << 27);
}

#[test]
fn test_icsr_keeps_the_other_bits() {
    let mut icsr = ICSR(0x0000_0401);
    icsr.set_pend_sv();
    assert_eq!(icsr.0, 0x1000_0401);
    icsr.clear_pend_sv();
    assert_eq!(icsr.0, 0x1800_0401);
}
