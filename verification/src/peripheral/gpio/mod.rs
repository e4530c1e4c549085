//! The general purpose I/O ports.
//!
//! A port has sixteen pins. Each pin has its settings in per-pin fields of
//! the port's registers, and its output level in one bit of the output data
//! register, which is changed through the set and reset register.

pub mod afr;
pub mod bsrr;
pub mod defs;
pub mod moder;
pub mod ospeedr;
pub mod otyper;
pub mod pupdr;

use vstd::prelude::*;
use crate::bitfield::{bit, field_set_to, valid_index, write_flag, Bitfield};
use crate::peripheral::rcc::enable::{Peripheral, PeripheralControl};
use crate::peripheral::rcc::RCC;
use self::afr::{function_field, AlternateFunction, AFRH, AFRL};
use self::bsrr::BSRR;
use self::defs::{
    AFRH_INDEX, AFRL_INDEX, AFR_PINS, BRR_INDEX, BSRR_INDEX, BSRR_RESET, GROUPA_ADDR, GROUPB_ADDR,
    GROUPC_ADDR, GROUPF_ADDR, IDR_INDEX, LCKR_INDEX, MODER_INDEX, ODR_INDEX, OSPEEDR_INDEX,
    OTYPER_INDEX, PUPDR_INDEX,
};
use self::moder::{Mode, MODER};
use self::ospeedr::{Speed, OSPEEDR};
use self::otyper::{Type, OTYPER};
use self::pupdr::{Pull, PUPDR};

verus! {

/// An I/O port of up to sixteen pins.
#[derive(Copy, Clone, Debug, PartialEq, Eq, Structural)]
pub enum Group {
    /// Port A.
    A,
    /// Port B.
    B,
    /// Port C.
    C,
    /// Port F.
    F,
}

impl Group {
    /// Address of the port's first register.
    pub open spec fn base_address_spec(self) -> u32 {
        match self {
            Group::A => GROUPA_ADDR,
            Group::B => GROUPB_ADDR,
            Group::C => GROUPC_ADDR,
            Group::F => GROUPF_ADDR,
        }
    }

    /// The clock gate of the port.
    pub open spec fn peripheral_spec(self) -> Peripheral {
        match self {
            Group::A => Peripheral::GPIOA,
            Group::B => Peripheral::GPIOB,
            Group::C => Peripheral::GPIOC,
            Group::F => Peripheral::GPIOF,
        }
    }

    /// Address of the port's first register.
    #[verifier::when_used_as_spec(base_address_spec)]
    pub fn base_address(self) -> (address: u32)
        ensures
            address == self.base_address_spec(),
    {
        match self {
            Group::A => GROUPA_ADDR,
            Group::B => GROUPB_ADDR,
            Group::C => GROUPC_ADDR,
            Group::F => GROUPF_ADDR,
        }
    }

    /// The clock gate of the port.
    #[verifier::when_used_as_spec(peripheral_spec)]
    pub fn peripheral(self) -> (peripheral: Peripheral)
        ensures
            peripheral == self.peripheral_spec(),
    {
        match self {
            Group::A => Peripheral::GPIOA,
            Group::B => Peripheral::GPIOB,
            Group::C => Peripheral::GPIOC,
            Group::F => Peripheral::GPIOF,
        }
    }
}

/// The registers of one port, in the order of their addresses.
#[derive(Copy, Clone, Debug)]
pub struct RawGPIO {
    /// Mode of each pin.
    pub moder: MODER,
    /// Output type of each pin.
    pub otyper: OTYPER,
    /// Output speed of each pin.
    pub ospeedr: OSPEEDR,
    /// Pull-up or pull-down of each pin.
    pub pupdr: PUPDR,
    /// Input data: the level at each pin.
    pub idr: u32,
    /// Output data: the level that each output pin drives.
    pub odr: u32,
    /// The last command to set or clear output bits.
    pub bsrr: BSRR,
    /// Configuration lock.
    pub lckr: u32,
    /// Alternate function of pins 0 to 7.
    pub afrl: AFRL,
    /// Alternate function of pins 8 to 15.
    pub afrh: AFRH,
    /// Bit reset.
    pub brr: u32,
}

impl RawGPIO {
    /// The words of the registers in the order of their addresses.
    pub open spec fn view(self) -> Seq<u32> {
        seq![
            self.moder.0,
            self.otyper.0,
            self.ospeedr.0,
            self.pupdr.0,
            self.idr,
            self.odr,
            self.bsrr.0,
            self.lckr,
            self.afrl.0,
            self.afrh.0,
            self.brr,
        ]
    }

    /// The alternate functions of the sixteen pins, by pin number.
    pub open spec fn functions(self) -> Seq<AlternateFunction> {
        self.afrl@ + self.afrh@
    }

    /// A port whose registers are all zero.
    pub fn new() -> (gpio: RawGPIO)
        ensures
            gpio == (RawGPIO {
                moder: MODER(0),
                otyper: OTYPER(0),
                ospeedr: OSPEEDR(0),
                pupdr: PUPDR(0),
                idr: 0,
                odr: 0,
                bsrr: BSRR(0),
                lckr: 0,
                afrl: AFRL(0),
                afrh: AFRH(0),
                brr: 0,
            }),
    {
        RawGPIO {
            moder: MODER(0),
            otyper: OTYPER(0),
            ospeedr: OSPEEDR(0),
            pupdr: PUPDR(0),
            idr: 0,
            odr: 0,
            bsrr: BSRR(0),
            lckr: 0,
            afrl: AFRL(0),
            afrh: AFRH(0),
            brr: 0,
        }
    }

    /// The words of the registers in the order of their addresses.
    pub fn words(&self) -> (words: [u32; 11])
        ensures
            words@ == self@,
            words[MODER_INDEX as int] == self.moder.0,
            words[OTYPER_INDEX as int] == self.otyper.0,
            words[OSPEEDR_INDEX as int] == self.ospeedr.0,
            words[PUPDR_INDEX as int] == self.pupdr.0,
            words[IDR_INDEX as int] == self.idr,
            words[ODR_INDEX as int] == self.odr,
            words[BSRR_INDEX as int] == self.bsrr.0,
            words[LCKR_INDEX as int] == self.lckr,
            words[AFRL_INDEX as int] == self.afrl.0,
            words[AFRH_INDEX as int] == self.afrh.0,
            words[BRR_INDEX as int] == self.brr,
    {
        let words: [u32; 11] = [
            self.moder.0,
            self.otyper.0,
            self.ospeedr.0,
            self.pupdr.0,
            self.idr,
            self.odr,
            self.bsrr.0,
            self.lckr,
            self.afrl.0,
            self.afrh.0,
            self.brr,
        ];
        assert(words@ =~= self@);
        words
    }

    /// The port whose registers hold the given words.
    pub fn from_words(words: [u32; 11]) -> (gpio: RawGPIO)
        ensures
            gpio@ == words@,
    {
        let gpio = RawGPIO {
            moder: MODER(words[MODER_INDEX]),
            otyper: OTYPER(words[OTYPER_INDEX]),
            ospeedr: OSPEEDR(words[OSPEEDR_INDEX]),
            pupdr: PUPDR(words[PUPDR_INDEX]),
            idr: words[IDR_INDEX],
            odr: words[ODR_INDEX],
            bsrr: BSRR(words[BSRR_INDEX]),
            lckr: words[LCKR_INDEX],
            afrl: AFRL(words[AFRL_INDEX]),
            afrh: AFRH(words[AFRH_INDEX]),
            brr: words[BRR_INDEX],
        };
        assert(gpio@ =~= words@);
        gpio
    }

    /// Gates the clock of a port on. Until this is done the port's
    /// registers have no defined behaviour.
    pub fn enable(rcc: &mut RCC, group: Group)
        requires
            old(rcc).wf(),
        ensures
            final(rcc).wf(),
            PeripheralControl::gate_made(
                old(rcc).gates(),
                final(rcc).gates(),
                group.peripheral(),
                true,
            ),
            RCC::only_gates_differ(*old(rcc), *final(rcc)),
    {
        let io_group = match group {
            Group::A => Peripheral::GPIOA,
            Group::B => Peripheral::GPIOB,
            Group::C => Peripheral::GPIOC,
            Group::F => Peripheral::GPIOF,
        };
        rcc.enable_peripheral(io_group);
    }

    /// Sets the mode of pin `port`, which is at most 15.
    pub fn set_mode(&mut self, mode: Mode, port: u8)
        requires
            valid_index(port),
        ensures
            field_set_to(old(self).moder.0, final(self).moder.0, MODER::field(port), mode.code()),
            final(self).moder@ == old(self).moder@.update(port as int, mode),
            *final(self) == (RawGPIO { moder: final(self).moder, ..*old(self) }),
    {
        self.moder.set_mode(mode, port);
    }

    /// The mode of pin `port`, which is at most 15.
    pub fn get_mode(&self, port: u8) -> (mode: Mode)
        requires
            valid_index(port),
        ensures
            mode == self.moder@[port as int],
    {
        self.moder.get_mode(port)
    }

    /// Sets the output type of pin `port`, which is at most 15.
    pub fn set_type(&mut self, p_type: Type, port: u8)
        requires
            valid_index(port),
        ensures
            field_set_to(
                old(self).otyper.0,
                final(self).otyper.0,
                OTYPER::field(port),
                p_type.code(),
            ),
            final(self).otyper@ == old(self).otyper@.update(port as int, p_type),
            *final(self) == (RawGPIO { otyper: final(self).otyper, ..*old(self) }),
    {
        self.otyper.set_type(p_type, port);
    }

    /// The output type of pin `port`, which is at most 15.
    pub fn get_type(&self, port: u8) -> (p_type: Type)
        requires
            valid_index(port),
        ensures
            p_type == self.otyper@[port as int],
    {
        self.otyper.get_type(port)
    }

    /// Drives output pin `port`, which is at most 15, high: one write to
    /// the set and reset register, which changes that pin's output bit and
    /// no other.
    pub fn set_bit(&mut self, port: u8)
        requires
            valid_index(port),
        ensures
            final(self).bsrr.0 == Bitfield::with_flag(port as u32, 0, true),
            final(self).bsrr.is_set_command(port),
            final(self).odr == Bitfield::with_flag(port as u32, old(self).odr, true),
            forall|i: u32|
                i < 32 ==> #[trigger] bit(final(self).odr, i) == (i == port || bit(
                    old(self).odr,
                    i,
                )),
            *final(self) == (RawGPIO {
                bsrr: final(self).bsrr,
                odr: final(self).odr,
                ..*old(self)
            }),
    {
        self.bsrr.set(port);
        self.odr = write_flag(self.odr, port as u32, true);
    }

    /// Drives output pin `port`, which is at most 15, low: one write to the
    /// set and reset register, which changes that pin's output bit and no
    /// other.
    pub fn reset_bit(&mut self, port: u8)
        requires
            valid_index(port),
        ensures
            final(self).bsrr.0 == Bitfield::with_flag((port + BSRR_RESET) as u32, 0, true),
            final(self).bsrr.is_reset_command(port),
            final(self).odr == Bitfield::with_flag(port as u32, old(self).odr, false),
            forall|i: u32|
                i < 32 ==> #[trigger] bit(final(self).odr, i) == (i != port && bit(
                    old(self).odr,
                    i,
                )),
            *final(self) == (RawGPIO {
                bsrr: final(self).bsrr,
                odr: final(self).odr,
                ..*old(self)
            }),
    {
        self.bsrr.reset(port);
        self.odr = write_flag(self.odr, port as u32, false);
    }

    /// Sets the speed of pin `port`, which is at most 15.
    pub fn set_speed(&mut self, speed: Speed, port: u8)
        requires
            valid_index(port),
        ensures
            field_set_to(
                old(self).ospeedr.0,
                final(self).ospeedr.0,
                OSPEEDR::field(port),
                speed.code(),
            ),
            final(self).ospeedr@ == old(self).ospeedr@.update(port as int, speed),
            *final(self) == (RawGPIO { ospeedr: final(self).ospeedr, ..*old(self) }),
    {
        self.ospeedr.set_speed(speed, port);
    }

    /// The speed of pin `port`, which is at most 15.
    pub fn get_speed(&self, port: u8) -> (speed: Speed)
        requires
            valid_index(port),
        ensures
            speed == self.ospeedr@[port as int],
    {
        self.ospeedr.get_speed(port)
    }

    /// Sets what holds the level of pin `port`, which is at most 15, while
    /// nothing drives it.
    pub fn set_pull(&mut self, pull: Pull, port: u8)
        requires
            valid_index(port),
        ensures
            field_set_to(old(self).pupdr.0, final(self).pupdr.0, PUPDR::field(port), pull.code()),
            final(self).pupdr@ == old(self).pupdr@.update(port as int, Some(pull)),
            *final(self) == (RawGPIO { pupdr: final(self).pupdr, ..*old(self) }),
    {
        self.pupdr.set_pull(pull, port);
    }

    /// What holds the level of pin `port` while nothing drives it. The pin
    /// is at most 15 and its field holds a setting.
    pub fn get_pull(&self, port: u8) -> (pull: Pull)
        requires
            valid_index(port),
            self.pupdr@[port as int].is_some(),
        ensures
            Some(pull) == self.pupdr@[port as int],
    {
        self.pupdr.get_pull(port)
    }

    /// Sets the alternate function of pin `port`, which is at most 15, in
    /// the register that serves the pin.
    pub fn set_function(&mut self, function: AlternateFunction, port: u8)
        requires
            valid_index(port),
        ensures
            final(self).functions() == old(self).functions().update(port as int, function),
            port < AFR_PINS ==> field_set_to(
                old(self).afrl.0,
                final(self).afrl.0,
                function_field(port),
                function.code(),
            ) && *final(self) == (RawGPIO { afrl: final(self).afrl, ..*old(self) }),
            port >= AFR_PINS ==> field_set_to(
                old(self).afrh.0,
                final(self).afrh.0,
                function_field((port - AFR_PINS) as u8),
                function.code(),
            ) && *final(self) == (RawGPIO { afrh: final(self).afrh, ..*old(self) }),
    {
        if port < AFR_PINS {
            self.afrl.set_function(function, port);
        } else {
            self.afrh.set_function(function, port);
        }
        assert(self.functions() =~= old(self).functions().update(port as int, function));
    }

    /// The alternate function of pin `port`, which is at most 15.
    pub fn get_function(&self, port: u8) -> (function: AlternateFunction)
        requires
            valid_index(port),
        ensures
            function == self.functions()[port as int],
    {
        if port < AFR_PINS {
            self.afrl.get_function(port)
        } else {
            self.afrh.get_function(port)
        }
    }
}

} // verus!
