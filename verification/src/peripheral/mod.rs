//! The peripherals, one module for each family.

pub mod dma;
pub mod gpio;
pub mod rcc;
pub mod systick;
pub mod usart;
