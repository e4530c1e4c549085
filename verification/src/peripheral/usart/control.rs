//! The three USART control registers.
//!
//! Each holds independent settings side by side. A setter rewrites the bits
//! of its own setting and leaves every other bit of the word as it found it.

use vstd::prelude::*;
use crate::bitfield::{
    bit, field_set_to, flag_set_to, lemma_low_bits, lemma_mask_values, pack, read_flag, write_flag,
    Bitfield,
};
use super::defs::{
    CR1_M0, CR1_M1, CR1_OVER8, CR1_PCE, CR1_PS, CR1_RE, CR1_RXNEIE, CR1_TCIE, CR1_TE, CR1_TXEIE,
    CR1_UE, CR2_STOP_BIT0, CR2_STOP_BIT1, CR3_CTSE, CR3_DMAR, CR3_DMAT, CR3_RTSE,
};

verus! {

/// Hardware flow control lines in use.
#[derive(Copy, Clone, Debug, PartialEq, Eq, Structural)]
pub enum HardwareFlowControl {
    /// No hardware flow control.
    Off,
    /// Request to send.
    Rts,
    /// Clear to send.
    Cts,
    /// Both lines.
    All,
}

/// Parity of a frame.
#[derive(Copy, Clone, Debug, PartialEq, Eq, Structural)]
pub enum Parity {
    /// No parity bit.
    Off,
    /// Even parity.
    Even,
    /// Odd parity.
    Odd,
}

/// Number of stop bits of a frame.
#[derive(Copy, Clone, Debug, PartialEq, Eq, Structural)]
pub enum StopLength {
    /// Half a stop bit.
    Half,
    /// One stop bit.
    One,
    /// One and a half stop bits.
    OneAndHalf,
    /// Two stop bits.
    Two,
}

/// Number of data bits of a frame.
#[derive(Copy, Clone, Debug, PartialEq, Eq, Structural)]
pub enum WordLength {
    /// Seven data bits.
    Seven,
    /// Eight data bits.
    Eight,
    /// Nine data bits.
    Nine,
}

/// Directions in which the port is active.
#[derive(Copy, Clone, Debug, PartialEq, Eq, Structural)]
pub enum Mode {
    /// Neither receives nor transmits.
    Off,
    /// Receives only.
    Receive,
    /// Transmits only.
    Transmit,
    /// Receives and transmits.
    All,
}

/// Directions served by DMA.
#[derive(Copy, Clone, Debug, PartialEq, Eq, Structural)]
pub enum DMAMode {
    /// DMA serves neither direction.
    Off,
    /// DMA serves reception.
    Receive,
    /// DMA serves transmission.
    Transmit,
    /// DMA serves both directions.
    All,
}

impl HardwareFlowControl {
    /// The field's pattern: RTS is the low bit, CTS the high one.
    pub open spec fn code_spec(self) -> u32 {
        match self {
            HardwareFlowControl::Off => 0b00,
            HardwareFlowControl::Rts => 0b01,
            HardwareFlowControl::Cts => 0b10,
            HardwareFlowControl::All => 0b11,
        }
    }

    /// The field's pattern: RTS is the low bit, CTS the high one.
    #[verifier::when_used_as_spec(code_spec)]
    pub fn code(self) -> (code: u32)
        ensures
            code == self.code_spec(),
    {
        match self {
            HardwareFlowControl::Off => 0b00,
            HardwareFlowControl::Rts => 0b01,
            HardwareFlowControl::Cts => 0b10,
            HardwareFlowControl::All => 0b11,
        }
    }
}

impl Parity {
    /// The field's pattern: the low bit selects odd parity, the high bit
    /// switches parity on.
    pub open spec fn code_spec(self) -> u32 {
        match self {
            Parity::Off => 0b00,
            Parity::Even => 0b10,
            Parity::Odd => 0b11,
        }
    }

    /// The field's pattern: RTS is the low bit, CTS the high one.
    #[verifier::when_used_as_spec(code_spec)]
    pub fn code(self) -> (code: u32)
        ensures
            code == self.code_spec(),
    {
        match self {
            Parity::Off => 0b00,
            Parity::Even => 0b10,
            Parity::Odd => 0b11,
        }
    }
}

impl StopLength {
    /// The field's pattern. The codes do not grow with the length: one stop
    /// bit is `00`, a half `01`, two `10`, one and a half `11`.
    pub open spec fn code_spec(self) -> u32 {
        match self {
            StopLength::Half => 0b01,
            StopLength::One => 0b00,
            StopLength::OneAndHalf => 0b11,
            StopLength::Two => 0b10,
        }
    }

    /// The field's pattern: RTS is the low bit, CTS the high one.
    #[verifier::when_used_as_spec(code_spec)]
    pub fn code(self) -> (code: u32)
        ensures
            code == self.code_spec(),
    {
        match self {
            StopLength::Half => 0b01,
            StopLength::One => 0b00,
            StopLength::OneAndHalf => 0b11,
            StopLength::Two => 0b10,
        }
    }
}

impl WordLength {
    /// Whether the low word-length bit is set for this length.
    pub open spec fn m0_spec(self) -> bool {
        self is Nine
    }

    /// Whether the high word-length bit is set for this length.
    pub open spec fn m1_spec(self) -> bool {
        self is Seven
    }

    /// Whether the low word-length bit is set for this length.
    #[verifier::when_used_as_spec(m0_spec)]
    pub fn m0(self) -> (set: bool)
        ensures
            set == self.m0_spec(),
    {
        match self {
            WordLength::Nine => true,
            _ => false,
        }
    }

    /// Whether the high word-length bit is set for this length.
    #[verifier::when_used_as_spec(m1_spec)]
    pub fn m1(self) -> (set: bool)
        ensures
            set == self.m1_spec(),
    {
        match self {
            WordLength::Seven => true,
            _ => false,
        }
    }
}

impl Mode {
    /// The field's pattern: the receiver is the low bit, the transmitter the
    /// high one.
    pub open spec fn code_spec(self) -> u32 {
        match self {
            Mode::Off => 0b00,
            Mode::Receive => 0b01,
            Mode::Transmit => 0b10,
            Mode::All => 0b11,
        }
    }

    /// The field's pattern: RTS is the low bit, CTS the high one.
    #[verifier::when_used_as_spec(code_spec)]
    pub fn code(self) -> (code: u32)
        ensures
            code == self.code_spec(),
    {
        match self {
            Mode::Off => 0b00,
            Mode::Receive => 0b01,
            Mode::Transmit => 0b10,
            Mode::All => 0b11,
        }
    }
}

impl DMAMode {
    /// The field's pattern: reception is the low bit, transmission the high
    /// one.
    pub open spec fn code_spec(self) -> u32 {
        match self {
            DMAMode::Off => 0b00,
            DMAMode::Receive => 0b01,
            DMAMode::Transmit => 0b10,
            DMAMode::All => 0b11,
        }
    }

    /// The field's pattern: RTS is the low bit, CTS the high one.
    #[verifier::when_used_as_spec(code_spec)]
    pub fn code(self) -> (code: u32)
        ensures
            code == self.code_spec(),
    {
        match self {
            DMAMode::Off => 0b00,
            DMAMode::Receive => 0b01,
            DMAMode::Transmit => 0b10,
            DMAMode::All => 0b11,
        }
    }
}

/// Control register 1.
#[derive(Copy, Clone, Debug)]
pub struct CR1(pub u32);

/// Control register 2.
#[derive(Copy, Clone, Debug)]
pub struct CR2(pub u32);

/// Control register 3.
#[derive(Copy, Clone, Debug)]
pub struct CR3(pub u32);

impl CR1 {
    /// The field of the receiver and transmitter enable bits.
    pub open spec fn mode_field() -> Bitfield {
        Bitfield::at(CR1_RE, 2)
    }

    /// The field of the parity selection and parity enable bits.
    pub open spec fn parity_field() -> Bitfield {
        Bitfield::at(CR1_PS, 2)
    }

    /// Switches the USART on or off.
    pub fn enable_usart(&mut self, enable: bool)
        ensures
            flag_set_to(old(self).0, final(self).0, CR1_UE, enable),
    {
        self.0 = write_flag(self.0, CR1_UE, enable);
    }

    /// Whether the USART is switched on.
    pub fn is_usart_enabled(&self) -> (enabled: bool)
        ensures
            enabled == bit(self.0, CR1_UE),
    {
        read_flag(self.0, CR1_UE)
    }

    /// Chooses the directions in which the port is active.
    pub fn set_mode(&mut self, mode: Mode)
        ensures
            field_set_to(old(self).0, final(self).0, CR1::mode_field(), mode.code()),
            bit(final(self).0, CR1_RE) == (mode is Receive || mode is All),
            bit(final(self).0, CR1_TE) == (mode is Transmit || mode is All),
    {
        proof {
            lemma_mask_values();
            lemma_low_bits(mode.code());
        }
        self.0 = pack(self.0, Bitfield::at(CR1_RE, 2), mode.code());
    }

    /// Switches the interrupt for a filled receive register on or off.
    pub fn set_receiver_not_empty_interrupt(&mut self, enable: bool)
        ensures
            flag_set_to(old(self).0, final(self).0, CR1_RXNEIE, enable),
    {
        self.0 = write_flag(self.0, CR1_RXNEIE, enable);
    }

    /// Switches the interrupt for a completed transmission on or off.
    pub fn set_transmit_complete_interrupt(&mut self, enable: bool)
        ensures
            flag_set_to(old(self).0, final(self).0, CR1_TCIE, enable),
    {
        self.0 = write_flag(self.0, CR1_TCIE, enable);
    }

    /// Switches the interrupt for an empty transmit register on or off.
    pub fn set_transmit_interrupt(&mut self, enable: bool)
        ensures
            flag_set_to(old(self).0, final(self).0, CR1_TXEIE, enable),
    {
        self.0 = write_flag(self.0, CR1_TXEIE, enable);
    }

    /// Chooses the parity.
    pub fn set_parity(&mut self, parity: Parity)
        ensures
            field_set_to(old(self).0, final(self).0, CR1::parity_field(), parity.code()),
            bit(final(self).0, CR1_PS) == (parity is Odd),
            bit(final(self).0, CR1_PCE) == (parity is Even || parity is Odd),
    {
        proof {
            lemma_mask_values();
            lemma_low_bits(parity.code());
        }
        self.0 = pack(self.0, Bitfield::at(CR1_PS, 2), parity.code());
    }

    /// Chooses the word length. Its two bits lie apart: bit 28 alone is set
    /// for seven data bits, bit 12 alone for nine, neither for eight.
    pub fn set_word_length(&mut self, length: WordLength)
        ensures
            final(self).0 == Bitfield::with_flag(
                CR1_M1,
                Bitfield::with_flag(CR1_M0, old(self).0, length.m0()),
                length.m1(),
            ),
            forall|i: u32| i < 32 ==> #[trigger] bit(final(self).0, i) == (if i == CR1_M1 {
                length is Seven
            } else if i == CR1_M0 {
                length is Nine
            } else {
                bit(old(self).0, i)
            }),
    {
        let low: u32 = write_flag(self.0, CR1_M0, length.m0());
        self.0 = write_flag(low, CR1_M1, length.m1());
    }

    /// Chooses oversampling by 8 (`true`) or by 16 (`false`).
    pub fn set_over8(&mut self, enable: bool)
        ensures
            flag_set_to(old(self).0, final(self).0, CR1_OVER8, enable),
    {
        self.0 = write_flag(self.0, CR1_OVER8, enable);
    }

    /// Whether the port oversamples by 8.
    pub fn get_over8(&self) -> (over8: bool)
        ensures
            over8 == bit(self.0, CR1_OVER8),
    {
        read_flag(self.0, CR1_OVER8)
    }
}

impl CR2 {
    /// The field of the two stop-length bits.
    pub open spec fn stop_field() -> Bitfield {
        Bitfield::at(CR2_STOP_BIT0, 2)
    }

    /// Chooses the number of stop bits: the two bits from bit 12 upwards
    /// then hold `01` for a half, `00` for one, `11` for one and a half and
    /// `10` for two.
    pub fn set_stop_bits(&mut self, length: StopLength)
        ensures
            field_set_to(old(self).0, final(self).0, CR2::stop_field(), length.code()),
            bit(final(self).0, CR2_STOP_BIT0) == (length is Half || length is OneAndHalf),
            bit(final(self).0, CR2_STOP_BIT1) == (length is OneAndHalf || length is Two),
    {
        proof {
            lemma_mask_values();
            lemma_low_bits(length.code());
        }
        self.0 = pack(self.0, Bitfield::at(CR2_STOP_BIT0, 2), length.code());
    }
}

impl CR3 {
    /// The field of the two DMA enable bits.
    pub open spec fn dma_field() -> Bitfield {
        Bitfield::at(CR3_DMAR, 2)
    }

    /// The field of the two flow control enable bits.
    pub open spec fn flow_control_field() -> Bitfield {
        Bitfield::at(CR3_RTSE, 2)
    }

    /// Chooses the directions that DMA serves.
    pub fn set_dma_mode(&mut self, mode: DMAMode)
        ensures
            field_set_to(old(self).0, final(self).0, CR3::dma_field(), mode.code()),
            bit(final(self).0, CR3_DMAR) == (mode is Receive || mode is All),
            bit(final(self).0, CR3_DMAT) == (mode is Transmit || mode is All),
    {
        proof {
            lemma_mask_values();
            lemma_low_bits(mode.code());
        }
        self.0 = pack(self.0, Bitfield::at(CR3_DMAR, 2), mode.code());
    }

    /// Chooses the hardware flow control lines.
    pub fn set_hardware_flow_control(&mut self, hfc: HardwareFlowControl)
        ensures
            field_set_to(old(self).0, final(self).0, CR3::flow_control_field(), hfc.code()),
            bit(final(self).0, CR3_RTSE) == (hfc is Rts || hfc is All),
            bit(final(self).0, CR3_CTSE) == (hfc is Cts || hfc is All),
    {
        proof {
            lemma_mask_values();
            lemma_low_bits(hfc.code());
        }
        self.0 = pack(self.0, Bitfield::at(CR3_RTSE, 2), hfc.code());
    }
}

} // verus!
