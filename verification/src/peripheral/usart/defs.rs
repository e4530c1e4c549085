//! Bit positions in the three USART control registers.

use vstd::prelude::*;

verus! {

/// CR1: USART enable.
pub const CR1_UE: u32 = 0;

/// CR1: receiver enable.
pub const CR1_RE: u32 = 2;

/// CR1: transmitter enable.
pub const CR1_TE: u32 = 3;

/// CR1: interrupt when the receive register is not empty.
pub const CR1_RXNEIE: u32 = 5;

/// CR1: interrupt when a transmission is complete.
pub const CR1_TCIE: u32 = 6;

/// CR1: interrupt when the transmit register is empty.
pub const CR1_TXEIE: u32 = 7;

/// CR1: parity selection, odd when set.
pub const CR1_PS: u32 = 9;

/// CR1: parity control enable.
pub const CR1_PCE: u32 = 10;

/// CR1: low bit of the word length.
pub const CR1_M0: u32 = 12;

/// CR1: oversampling by 8 instead of 16.
pub const CR1_OVER8: u32 = 15;

/// CR1: high bit of the word length.
pub const CR1_M1: u32 = 28;

/// CR2: low bit of the stop length.
pub const CR2_STOP_BIT0: u32 = 12;

/// CR2: high bit of the stop length.
pub const CR2_STOP_BIT1: u32 = 13;

/// CR3: DMA for reception.
pub const CR3_DMAR: u32 = 6;

/// CR3: DMA for transmission.
pub const CR3_DMAT: u32 = 7;

/// CR3: request-to-send flow control.
pub const CR3_RTSE: u32 = 8;

/// CR3: clear-to-send flow control.
pub const CR3_CTSE: u32 = 9;

} // verus!
