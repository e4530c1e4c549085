use cortex_m0::peripheral::usart::control::{
    DMAMode, HardwareFlowControl, Mode, Parity, StopLength, WordLength, CR1, CR2, CR3,
};

#[test]
fn test_cr1_enable_disable_usart() {
    let mut cr1 = CR1(0);
    assert_eq!(cr1.0, 0b0);

    cr1.enable_usart(true);
    assert_eq!(cr1.0, 0b1);

    cr1.enable_usart(false);
    assert_eq!(cr1.0, 0b0);
}

#[test]
fn test_cr1_is_usart_enabled_returns_false_when_disabled() {
    let cr1 = CR1(0);
    assert_eq!(cr1.is_usart_enabled(), false);
}

#[test]
fn test_cr1_is_usart_enabled_returns_true_when_enabled() {
    let cr1 = CR1(1);
    assert_eq!(cr1.is_usart_enabled(), true);
}

#[test]
fn test_cr1_set_word_length() {
    let mut cr1 = CR1(0);

    cr1.set_word_length(WordLength::Seven);
    assert_eq!(cr1.0, 0b1 << 28);

    cr1.set_word_length(WordLength::Eight);
    assert_eq!(cr1.0, 0b0);

    cr1.set_word_length(WordLength::Nine);
    assert_eq!(cr1.0, 0b1 << 12);
}

#[test]
fn test_cr1_set_mode() {
    let mut cr1 = CR1(0);

    cr1.set_mode(Mode::Receive);
    assert_eq!(cr1.0, 0b1 << 2);

    cr1.set_mode(Mode::Transmit);
    assert_eq!(cr1.0, 0b1 << 3);

    cr1.set_mode(Mode::All);
    assert_eq!(cr1.0, 0b11 << 2);
}

#[test]
fn test_cr1_set_parity() {
    let mut cr1 = CR1(0);

    cr1.set_parity(Parity::Off);
    assert_eq!(cr1.0, 0b0);

    cr1.set_parity(Parity::Even);
    assert_eq!(cr1.0, 0b1 << 10);

    cr1.set_parity(Parity::Odd);
    assert_eq!(cr1.0, 0b11 << 9);
}

#[test]
fn test_cr1_set_over8() {
    let mut cr1 = CR1(0);
    assert_eq!(cr1.0, 0b0);

    cr1.set_over8(true);
    assert_eq!(cr1.0, 0b1 << 15);

    cr1.set_over8(false);
    assert_eq!(cr1.0, 0b0);
}

#[test]
fn test_cr1_get_over8_returns_false_when_value_is_zero() {
    let cr1 = CR1(0);
    assert_eq!(cr1.get_over8(), false);
}

#[test]
fn test_cr1_get_over8_returns_true_when_value_is_set() {
    let cr1 = CR1(0b1 << 15);
    assert_eq!(cr1.get_over8(), true);
}

#[test]
fn test_cr1_enable_transmit_interrupt() {
    let mut cr1 = CR1(0);
    cr1.set_transmit_interrupt(true);
    assert_eq!(cr1.0, 0b1 << 7);
}

#[test]
fn test_cr1_disable_transmit_interrupt() {
    let mut cr1 = CR1(0);
    cr1.set_transmit_interrupt(false);
    assert_eq!(cr1.0, 0);
}

#[test]
fn test_cr1_enable_transmit_complete_interrupt() {
    let mut cr1 = CR1(0);
    cr1.set_transmit_complete_interrupt(true);
    assert_eq!(cr1.0, 0b1 << 6);
}

#[test]
fn test_cr1_disable_transmit_complete_interrupt() {
    let mut cr1 = CR1(0b1 << 6);
    cr1.set_transmit_complete_interrupt(false);
    assert_eq!(cr1.0, 0);
}

#[test]
fn test_cr1_enable_receiver_not_empty_interrupt() {
    let mut cr1 = CR1(0);
    cr1.set_receiver_not_empty_interrupt(true);
    assert_eq!(cr1.0, 0b1 << 5);
}

#[test]
fn test_cr1_disable_receiver_not_empty_interrupt() {
    let mut cr1 = CR1(0b1 << 5);
    cr1.set_receiver_not_empty_interrupt(false);
    assert_eq!(cr1.0, 0);
}

#[test]
fn test_cr2_set_stop_bits() {
    let mut cr2 = CR2(0);
    assert_eq!(cr2.0, 0b0);

    cr2.set_stop_bits(StopLength::Half);
    assert_eq!(cr2.0, 0b1 << 12);

    cr2.set_stop_bits(StopLength::OneAndHalf);
    assert_eq!(cr2.0, 0b11 << 12);

    cr2.set_stop_bits(StopLength::Two);
    assert_eq!(cr2.0, 0b1 << 13);

    cr2.set_stop_bits(StopLength::One);
    assert_eq!(cr2.0, 0b0);
}

#[test]
fn test_cr3_set_dma_mode() {
    let mut cr3 = CR3(0);

    cr3.set_dma_mode(DMAMode::Receive);
    assert_eq!(cr3.0, 0b1 << 6);

    cr3.set_dma_mode(DMAMode::Transmit);
    assert_eq!(cr3.0, 0b1 << 7);

    cr3.set_dma_mode(DMAMode::All);
    assert_eq!(cr3.0, 0b11 << 6);

    cr3.set_dma_mode(DMAMode::Off);
    assert_eq!(cr3.0, 0)
}

#[test]
fn test_cr3_set_hardware_flow_control() {
    let mut cr3 = CR3(0);
    assert_eq!(cr3.0, 0b0);

    cr3.set_hardware_flow_control(HardwareFlowControl::Rts);
    assert_eq!(cr3.0, 0b1 << 8);

    cr3.set_hardware_flow_control(HardwareFlowControl::Cts);
    assert_eq!(cr3.0, 0b1 << 9);

    cr3.set_hardware_flow_control(HardwareFlowControl::All);
    assert_eq!(cr3.0, 0b11 << 8);

    cr3.set_hardware_flow_control(HardwareFlowControl::Off);
    assert_eq!(cr3.0, 0b0);
}

#[test]
fn test_cr1_setters_keep_the_other_bits() {
    let mut cr1 = CR1(0xFFFF_FFFF);

    cr1.set_mode(Mode::Off);
    assert_eq!(cr1.0, 0xFFFF_FFF3);

    cr1.set_parity(Parity::Even);
    assert_eq!(cr1.0, 0xFFFF_FDF3);

    cr1.set_word_length(WordLength::Eight);
    assert_eq!(cr1.0, 0xEFFF_EDF3);

    cr1.set_word_length(WordLength::Seven);
    assert_eq!(cr1.0, 0xFFFF_EDF3);

    cr1.enable_usart(false);
    assert_eq!(cr1.0, 0xFFFF_EDF2);
    assert_eq!(cr1.is_usart_enabled(), false);
    assert_eq!(cr1.get_over8(), true);
}

#[test]
fn test_cr1_mode_and_parity_do_not_interfere() {
    let mut cr1 = CR1(0);
    cr1.set_mode(Mode::Transmit);
    cr1.set_parity(Parity::Odd);
    assert_eq!(cr1.0, (0b1 << 3) | (0b11 << 9));

    cr1.set_mode(Mode::Receive);
    assert_eq!(cr1.0, (0b1 << 2) | (0b11 << 9));
}

#[test]
fn test_stop_length_codes() {
    assert_eq!(StopLength::Half.code(), 0b01);
    assert_eq!(StopLength::One.code(), 0b00);
    assert_eq!(StopLength::OneAndHalf.code(), 0b11);
    assert_eq!(StopLength::Two.code(), 0b10);

    let mut cr2 = CR2(0xFFFF_FFFF);
    cr2.set_stop_bits(StopLength::Half);
    assert_eq!(cr2.0, 0xFFFF_DFFF);
    cr2.set_stop_bits(StopLength::Two);
    assert_eq!(cr2.0, 0xFFFF_EFFF);
}

#[test]
fn test_word_length_bits() {
    let mut cr1 = CR1(0xFFFF_FFFF);
    cr1.set_word_length(WordLength::Seven);
    assert_eq!(cr1.0 & (1 << 28), 1 << 28);
    assert_eq!(cr1.0 & (1 << 12), 0);

    cr1.set_word_length(WordLength::Eight);
    assert_eq!(cr1.0 & ((1 << 28) | (1 << 12)), 0);

    cr1.set_word_length(WordLength::Nine);
    assert_eq!(cr1.0 & (1 << 12), 1 << 12);
    assert_eq!(cr1.0 & (1 << 28), 0);
    assert_eq!(cr1.0 | (1 << 28), 0xFFFF_FFFF);
}

#[test]
fn test_dma_mode_bits() {
    let mut cr3 = CR3(0xFFFF_FF3F);
    cr3.set_dma_mode(DMAMode::Off);
    assert_eq!(cr3.0, 0xFFFF_FF3F);
    cr3.set_dma_mode(DMAMode::Receive);
    assert_eq!(cr3.0, 0xFFFF_FF7F);
    cr3.set_dma_mode(DMAMode::Transmit);
    assert_eq!(cr3.0, 0xFFFF_FFBF);
    cr3.set_dma_mode(DMAMode::All);
    assert_eq!(cr3.0, 0xFFFF_FFFF);
}
