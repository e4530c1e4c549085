//! The clock gates of the peripherals.
//!
//! Each peripheral has one enable bit, in one of three registers, by the
//! bus it is attached to.

use vstd::prelude::*;
use crate::bitfield::{bit, read_flag, write_flag, Bitfield};

verus! {

/// A peripheral whose clock can be gated.
#[derive(Copy, Clone, Debug, PartialEq, Eq, Structural)]
pub enum Peripheral {
    // On the AHB bus.
    /// Touch sensing controller.
    TouchSenseController,
    /// I/O port A.
    GPIOA,
    /// I/O port B.
    GPIOB,
    /// I/O port C.
    GPIOC,
    /// I/O port F.
    GPIOF,
    /// CRC unit.
    CRC,
    /// Flash interface.
    FLITF,
    /// SRAM interface.
    SRAMInterface,
    /// DMA controller.
    DMA,
    /// Second DMA controller.
    DMA2,
    // On the APB1 bus.
    /// HDMI CEC interface.
    CEC,
    /// Digital to analog converter.
    DAC,
    /// Power interface.
    PowerInterface,
    /// Clock recovery system.
    ClockRecoverySystem,
    /// CAN interface.
    CAN,
    /// USB interface.
    USB,
    /// I2C 1.
    I2C1,
    /// I2C 2.
    I2C2,
    /// USART 2.
    USART2,
    /// USART 3.
    USART3,
    /// USART 4.
    USART4,
    /// USART 5.
    USART5,
    /// SPI 2.
    SPI2,
    /// Window watchdog.
    WindowWatchdog,
    /// Timer 2.
    TIM2,
    /// Timer 3.
    TIM3,
    /// Timer 6.
    TIM6,
    /// Timer 7.
    TIM7,
    /// Timer 14.
    TIM14,
    // On the APB2 bus.
    /// Debug support.
    MCUDebug,
    /// Timer 1.
    TIM1,
    /// Timer 15.
    TIM15,
    /// Timer 16.
    TIM16,
    /// Timer 17.
    TIM17,
    /// USART 1.
    USART1,
    /// USART 6.
    USART6,
    /// USART 7.
    USART7,
    /// USART 8.
    USART8,
    /// SPI 1.
    SPI1,
    /// Analog to digital converter.
    ADC,
    /// System configuration and comparators.
    SysCfgComp,
}

/// The bus that a peripheral is attached to, which decides the register of
/// its enable bit.
#[derive(Copy, Clone, Debug, PartialEq, Eq, Structural)]
pub enum Bus {
    /// The high-performance bus.
    AHB,
    /// Peripheral bus 1.
    APB1,
    /// Peripheral bus 2.
    APB2,
}

impl Peripheral {
    /// The bus of the peripheral.
    pub open spec fn bus_spec(self) -> Bus {
        match self {
            Peripheral::TouchSenseController
            | Peripheral::GPIOA
            | Peripheral::GPIOB
            | Peripheral::GPIOC
            | Peripheral::GPIOF
            | Peripheral::CRC
            | Peripheral::FLITF
            | Peripheral::SRAMInterface
            | Peripheral::DMA
            | Peripheral::DMA2 => Bus::AHB,
            Peripheral::CEC
            | Peripheral::DAC
            | Peripheral::PowerInterface
            | Peripheral::ClockRecoverySystem
            | Peripheral::CAN
            | Peripheral::USB
            | Peripheral::I2C1
            | Peripheral::I2C2
            | Peripheral::USART2
            | Peripheral::USART3
            | Peripheral::USART4
            | Peripheral::USART5
            | Peripheral::SPI2
            | Peripheral::WindowWatchdog
            | Peripheral::TIM2
            | Peripheral::TIM3
            | Peripheral::TIM6
            | Peripheral::TIM7
            | Peripheral::TIM14 => Bus::APB1,
            Peripheral::MCUDebug
            | Peripheral::TIM1
            | Peripheral::TIM15
            | Peripheral::TIM16
            | Peripheral::TIM17
            | Peripheral::USART1
            | Peripheral::USART6
            | Peripheral::USART7
            | Peripheral::USART8
            | Peripheral::SPI1
            | Peripheral::ADC
            | Peripheral::SysCfgComp => Bus::APB2,
        }
    }

    /// Position of the peripheral's enable bit in the register of its bus.
    pub open spec fn enable_bit_spec(self) -> u32 {
        match self {
            Peripheral::DMA => 0,
            Peripheral::DMA2 => 1,
            Peripheral::SRAMInterface => 2,
            Peripheral::FLITF => 4,
            Peripheral::CRC => 6,
            Peripheral::GPIOA => 17,
            Peripheral::GPIOB => 18,
            Peripheral::GPIOC => 19,
            Peripheral::GPIOF => 22,
            Peripheral::TouchSenseController => 24,
            Peripheral::TIM2 => 0,
            Peripheral::TIM3 => 1,
            Peripheral::TIM6 => 4,
            Peripheral::TIM7 => 5,
            Peripheral::TIM14 => 8,
            Peripheral::WindowWatchdog => 11,
            Peripheral::SPI2 => 14,
            Peripheral::USART2 => 17,
            Peripheral::USART3 => 18,
            Peripheral::USART4 => 19,
            Peripheral::USART5 => 20,
            Peripheral::I2C1 => 21,
            Peripheral::I2C2 => 22,
            Peripheral::USB => 23,
            Peripheral::CAN => 25,
            Peripheral::ClockRecoverySystem => 27,
            Peripheral::PowerInterface => 28,
            Peripheral::DAC => 29,
            Peripheral::CEC => 30,
            Peripheral::SysCfgComp => 0,
            Peripheral::USART6 => 5,
            Peripheral::USART7 => 6,
            Peripheral::USART8 => 7,
            Peripheral::ADC => 9,
            Peripheral::TIM1 => 11,
            Peripheral::SPI1 => 12,
            Peripheral::USART1 => 14,
            Peripheral::TIM15 => 16,
            Peripheral::TIM16 => 17,
            Peripheral::TIM17 => 18,
            Peripheral::MCUDebug => 22,
        }
    }

    /// The bus of the peripheral.
    #[verifier::when_used_as_spec(bus_spec)]
    pub fn bus(self) -> (bus: Bus)
        ensures
            bus == self.bus_spec(),
    {
        match self {
            Peripheral::TouchSenseController
            | Peripheral::GPIOA
            | Peripheral::GPIOB
            | Peripheral::GPIOC
            | Peripheral::GPIOF
            | Peripheral::CRC
            | Peripheral::FLITF
            | Peripheral::SRAMInterface
            | Peripheral::DMA
            | Peripheral::DMA2 => Bus::AHB,
            Peripheral::CEC
            | Peripheral::DAC
            | Peripheral::PowerInterface
            | Peripheral::ClockRecoverySystem
            | Peripheral::CAN
            | Peripheral::USB
            | Peripheral::I2C1
            | Peripheral::I2C2
            | Peripheral::USART2
            | Peripheral::USART3
            | Peripheral::USART4
            | Peripheral::USART5
            | Peripheral::SPI2
            | Peripheral::WindowWatchdog
            | Peripheral::TIM2
            | Peripheral::TIM3
            | Peripheral::TIM6
            | Peripheral::TIM7
            | Peripheral::TIM14 => Bus::APB1,
            Peripheral::MCUDebug
            | Peripheral::TIM1
            | Peripheral::TIM15
            | Peripheral::TIM16
            | Peripheral::TIM17
            | Peripheral::USART1
            | Peripheral::USART6
            | Peripheral::USART7
            | Peripheral::USART8
            | Peripheral::SPI1
            | Peripheral::ADC
            | Peripheral::SysCfgComp => Bus::APB2,
        }
    }

    /// Position of the peripheral's enable bit in the register of its bus.
    #[verifier::when_used_as_spec(enable_bit_spec)]
    pub fn enable_bit(self) -> (position: u32)
        ensures
            position == self.enable_bit_spec(),
            position < 32,
    {
        match self {
            Peripheral::DMA => 0,
            Peripheral::DMA2 => 1,
            Peripheral::SRAMInterface => 2,
            Peripheral::FLITF => 4,
            Peripheral::CRC => 6,
            Peripheral::GPIOA => 17,
            Peripheral::GPIOB => 18,
            Peripheral::GPIOC => 19,
            Peripheral::GPIOF => 22,
            Peripheral::TouchSenseController => 24,
            Peripheral::TIM2 => 0,
            Peripheral::TIM3 => 1,
            Peripheral::TIM6 => 4,
            Peripheral::TIM7 => 5,
            Peripheral::TIM14 => 8,
            Peripheral::WindowWatchdog => 11,
            Peripheral::SPI2 => 14,
            Peripheral::USART2 => 17,
            Peripheral::USART3 => 18,
            Peripheral::USART4 => 19,
            Peripheral::USART5 => 20,
            Peripheral::I2C1 => 21,
            Peripheral::I2C2 => 22,
            Peripheral::USB => 23,
            Peripheral::CAN => 25,
            Peripheral::ClockRecoverySystem => 27,
            Peripheral::PowerInterface => 28,
            Peripheral::DAC => 29,
            Peripheral::CEC => 30,
            Peripheral::SysCfgComp => 0,
            Peripheral::USART6 => 5,
            Peripheral::USART7 => 6,
            Peripheral::USART8 => 7,
            Peripheral::ADC => 9,
            Peripheral::TIM1 => 11,
            Peripheral::SPI1 => 12,
            Peripheral::USART1 => 14,
            Peripheral::TIM15 => 16,
            Peripheral::TIM16 => 17,
            Peripheral::TIM17 => 18,
            Peripheral::MCUDebug => 22,
        }
    }
}

/// The three peripheral clock enable registers.
#[derive(Copy, Clone, Debug)]
pub struct PeripheralControl {
    /// Enable register of the AHB bus.
    pub ahbenr: u32,
    /// Enable register of peripheral bus 1.
    pub apb1enr: u32,
    /// Enable register of peripheral bus 2.
    pub apb2enr: u32,
}

impl PeripheralControl {
    /// The enable register of `bus`.
    pub open spec fn word_of(self, bus: Bus) -> u32 {
        match bus {
            Bus::AHB => self.ahbenr,
            Bus::APB1 => self.apb1enr,
            Bus::APB2 => self.apb2enr,
        }
    }

    /// Whether the clock of `peripheral` is gated on.
    pub open spec fn is_enabled(self, peripheral: Peripheral) -> bool {
        bit(self.word_of(peripheral.bus()), peripheral.enable_bit())
    }

    /// These registers with the enable bit of `peripheral` set to `on`.
    pub open spec fn gated(self, peripheral: Peripheral, on: bool) -> PeripheralControl {
        let word = Bitfield::with_flag(
            peripheral.enable_bit(),
            self.word_of(peripheral.bus()),
            on,
        );
        match peripheral.bus() {
            Bus::AHB => PeripheralControl { ahbenr: word, ..self },
            Bus::APB1 => PeripheralControl { apb1enr: word, ..self },
            Bus::APB2 => PeripheralControl { apb2enr: word, ..self },
        }
    }

    /// `after` differs from `before` in the enable bit of `peripheral`
    /// alone, which is `on`.
    pub open spec fn gate_made(
        before: PeripheralControl,
        after: PeripheralControl,
        peripheral: Peripheral,
        on: bool,
    ) -> bool {
        &&& after == before.gated(peripheral, on)
        &&& after.is_enabled(peripheral) == on
        &&& forall|other: Peripheral|
            other != peripheral ==> #[trigger] after.is_enabled(other) == before.is_enabled(other)
    }

    /// Sets the enable bit of `peripheral` to `on`, in the register of its
    /// bus.
    pub fn set_gate(&mut self, peripheral: Peripheral, on: bool)
        ensures
            PeripheralControl::gate_made(*old(self), *final(self), peripheral, on),
    {
        let position: u32 = peripheral.enable_bit();
        match peripheral.bus() {
            Bus::AHB => {
                self.ahbenr = write_flag(self.ahbenr, position, on);
            },
            Bus::APB1 => {
                self.apb1enr = write_flag(self.apb1enr, position, on);
            },
            Bus::APB2 => {
                self.apb2enr = write_flag(self.apb2enr, position, on);
            },
        }
    }

    /// Gates the clock of `peripheral` on.
    pub fn enable_peripheral(&mut self, peripheral: Peripheral)
        ensures
            PeripheralControl::gate_made(*old(self), *final(self), peripheral, true),
    {
        self.set_gate(peripheral, true);
    }

    /// Gates the clock of `peripheral` off.
    pub fn disable_peripheral(&mut self, peripheral: Peripheral)
        ensures
            PeripheralControl::gate_made(*old(self), *final(self), peripheral, false),
    {
        self.set_gate(peripheral, false);
    }

    /// Whether the clock of `peripheral` is gated on.
    pub fn peripheral_is_enabled(&self, peripheral: Peripheral) -> (enabled: bool)
        ensures
            enabled == self.is_enabled(peripheral),
    {
        let position: u32 = peripheral.enable_bit();
        match peripheral.bus() {
            Bus::AHB => read_flag(self.ahbenr, position),
            Bus::APB1 => read_flag(self.apb1enr, position),
            Bus::APB2 => read_flag(self.apb2enr, position),
        }
    }
}

} // verus!
