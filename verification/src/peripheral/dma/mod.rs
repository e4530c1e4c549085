//! The DMA controller's registers.
//!
//! Two registers serve the whole controller. Each of the five channels has
//! four registers of its own, and every channel but the last is followed by
//! one reserved word, so that the channels lie five words apart.
//!
//! A channel is set up in this order: the peripheral address, the memory
//! address, the number of items, then priority, direction and the other
//! settings of the control register, and last of all the enable bit of the
//! control register. Nothing here enforces that order.

use vstd::prelude::*;
use crate::bitfield::{write_flag, Bitfield};

verus! {

/// Address of the first register of the DMA controller.
pub const DMA_ADDR: u32 = 0x4002_0000;

/// Position of the enable bit in a channel's control register.
pub const CCR_EN: u32 = 0;

/// Number of channels.
pub const CHANNELS: u8 = 5;

/// Number of words from one channel's registers to the next channel's.
pub const CHANNEL_STRIDE: usize = 5;

/// Index of the first channel's control register among the words.
pub const FIRST_CHANNEL: usize = 2;

/// Number of words of the layout.
pub const WORDS: usize = 26;

/// The registers of the DMA controller, in the order of their addresses.
#[derive(Copy, Clone, Debug)]
pub struct RawDMA {
    /// Interrupt status.
    pub isr: u32,
    /// Interrupt flag clear.
    pub ifcr: u32,
    /// Channel 1: control.
    pub ccr1: u32,
    /// Channel 1: number of items to transfer.
    pub cndtr1: u32,
    /// Channel 1: peripheral address.
    pub cpar1: u32,
    /// Channel 1: memory address.
    pub cmar1: u32,
    /// Reserved.
    pub _res1: u32,
    /// Channel 2: control.
    pub ccr2: u32,
    /// Channel 2: number of items to transfer.
    pub cndtr2: u32,
    /// Channel 2: peripheral address.
    pub cpar2: u32,
    /// Channel 2: memory address.
    pub cmar2: u32,
    /// Reserved.
    pub _res2: u32,
    /// Channel 3: control.
    pub ccr3: u32,
    /// Channel 3: number of items to transfer.
    pub cndtr3: u32,
    /// Channel 3: peripheral address.
    pub cpar3: u32,
    /// Channel 3: memory address.
    pub cmar3: u32,
    /// Reserved.
    pub _res3: u32,
    /// Channel 4: control.
    pub ccr4: u32,
    /// Channel 4: number of items to transfer.
    pub cndtr4: u32,
    /// Channel 4: peripheral address.
    pub cpar4: u32,
    /// Channel 4: memory address.
    pub cmar4: u32,
    /// Reserved.
    pub _res4: u32,
    /// Channel 5: control.
    pub ccr5: u32,
    /// Channel 5: number of items to transfer.
    pub cndtr5: u32,
    /// Channel 5: peripheral address.
    pub cpar5: u32,
    /// Channel 5: memory address.
    pub cmar5: u32,
}

/// The four registers of one channel.
#[derive(Copy, Clone, Debug, PartialEq, Eq, Structural)]
pub struct Channel {
    /// Control.
    pub ccr: u32,
    /// Number of items to transfer.
    pub cndtr: u32,
    /// Peripheral address.
    pub cpar: u32,
    /// Memory address.
    pub cmar: u32,
}

impl RawDMA {
    /// The words of the layout in the order of their addresses, reserved
    /// words included.
    pub open spec fn view(self) -> Seq<u32> {
        seq![
            self.isr,
            self.ifcr,
            self.ccr1,
            self.cndtr1,
            self.cpar1,
            self.cmar1,
            self._res1,
            self.ccr2,
            self.cndtr2,
            self.cpar2,
            self.cmar2,
            self._res2,
            self.ccr3,
            self.cndtr3,
            self.cpar3,
            self.cmar3,
            self._res3,
            self.ccr4,
            self.cndtr4,
            self.cpar4,
            self.cmar4,
            self._res4,
            self.ccr5,
            self.cndtr5,
            self.cpar5,
            self.cmar5,
        ]
    }

    /// Whether `channel` is the number of a channel: from 1 to 5.
    pub open spec fn valid_channel_spec(channel: u8) -> bool {
        1 <= channel <= CHANNELS
    }

    /// Whether `channel` is the number of a channel: from 1 to 5. An
    /// operation that takes a channel is not to be called with any other.
    #[verifier::when_used_as_spec(valid_channel_spec)]
    pub fn valid_channel(channel: u8) -> (valid: bool)
        ensures
            valid == RawDMA::valid_channel_spec(channel),
    {
        1 <= channel && channel <= CHANNELS
    }

    /// Index among the words of the control register of `channel`.
    pub open spec fn channel_index_spec(channel: u8) -> usize {
        (FIRST_CHANNEL + CHANNEL_STRIDE * (channel - 1)) as usize
    }

    /// The registers of `channel`, as they lie among the words.
    pub open spec fn channel_spec(self, channel: u8) -> Channel {
        let first = RawDMA::channel_index_spec(channel) as int;
        Channel {
            ccr: self@[first],
            cndtr: self@[first + 1],
            cpar: self@[first + 2],
            cmar: self@[first + 3],
        }
    }

    /// Index among the words of the control register of `channel`, which is
    /// from 1 to 5. The channel's other registers follow it.
    #[verifier::when_used_as_spec(channel_index_spec)]
    pub fn channel_index(channel: u8) -> (index: usize)
        requires
            RawDMA::valid_channel(channel),
        ensures
            index == RawDMA::channel_index_spec(channel),
            index + 3 < WORDS,
    {
        FIRST_CHANNEL + CHANNEL_STRIDE * (channel as usize - 1)
    }

    /// The words of the layout in the order of their addresses.
    pub fn words(&self) -> (words: [u32; 26])
        ensures
            words@ == self@,
    {
        let words: [u32; 26] = [
            self.isr,
            self.ifcr,
            self.ccr1,
            self.cndtr1,
            self.cpar1,
            self.cmar1,
            self._res1,
            self.ccr2,
            self.cndtr2,
            self.cpar2,
            self.cmar2,
            self._res2,
            self.ccr3,
            self.cndtr3,
            self.cpar3,
            self.cmar3,
            self._res3,
            self.ccr4,
            self.cndtr4,
            self.cpar4,
            self.cmar4,
            self._res4,
            self.ccr5,
            self.cndtr5,
            self.cpar5,
            self.cmar5,
        ];
        assert(words@ =~= self@);
        words
    }

    /// The layout that holds the given words.
    pub fn from_words(words: [u32; 26]) -> (dma: RawDMA)
        ensures
            dma@ == words@,
    {
        let dma = RawDMA {
            isr: words[0],
            ifcr: words[1],
            ccr1: words[2],
            cndtr1: words[3],
            cpar1: words[4],
            cmar1: words[5],
            _res1: words[6],
            ccr2: words[7],
            cndtr2: words[8],
            cpar2: words[9],
            cmar2: words[10],
            _res2: words[11],
            ccr3: words[12],
            cndtr3: words[13],
            cpar3: words[14],
            cmar3: words[15],
            _res3: words[16],
            ccr4: words[17],
            cndtr4: words[18],
            cpar4: words[19],
            cmar4: words[20],
            _res4: words[21],
            ccr5: words[22],
            cndtr5: words[23],
            cpar5: words[24],
            cmar5: words[25],
        };
        assert(dma@ =~= words@);
        dma
    }

    /// The registers of `channel`, which is from 1 to 5.
    pub fn channel(&self, channel: u8) -> (registers: Channel)
        requires
            RawDMA::valid_channel(channel),
        ensures
            registers == self.channel_spec(channel),
            channel == 1 ==> registers == (Channel {
                ccr: self.ccr1,
                cndtr: self.cndtr1,
                cpar: self.cpar1,
                cmar: self.cmar1,
            }),
            channel == 2 ==> registers == (Channel {
                ccr: self.ccr2,
                cndtr: self.cndtr2,
                cpar: self.cpar2,
                cmar: self.cmar2,
            }),
            channel == 3 ==> registers == (Channel {
                ccr: self.ccr3,
                cndtr: self.cndtr3,
                cpar: self.cpar3,
                cmar: self.cmar3,
            }),
            channel == 4 ==> registers == (Channel {
                ccr: self.ccr4,
                cndtr: self.cndtr4,
                cpar: self.cpar4,
                cmar: self.cmar4,
            }),
            channel == 5 ==> registers == (Channel {
                ccr: self.ccr5,
                cndtr: self.cndtr5,
                cpar: self.cpar5,
                cmar: self.cmar5,
            }),
    {
        let words: [u32; 26] = self.words();
        let first: usize = RawDMA::channel_index(channel);
        Channel {
            ccr: words[first],
            cndtr: words[first + 1],
            cpar: words[first + 2],
            cmar: words[first + 3],
        }
    }

    /// Replaces the word at `index` of the layout.
    fn put(&mut self, index: usize, word: u32)
        requires
            index < WORDS,
        ensures
            final(self)@ == old(self)@.update(index as int, word),
    {
        let mut words: [u32; 26] = self.words();
        words[index] = word;
        *self = RawDMA::from_words(words);
    }

    /// Sets the peripheral address of `channel`, which is from 1 to 5.
    pub fn set_peripheral_address(&mut self, channel: u8, address: u32)
        requires
            RawDMA::valid_channel(channel),
        ensures
            final(self)@ == old(self)@.update(RawDMA::channel_index(channel) + 2, address),
            final(self).channel_spec(channel) == (Channel {
                cpar: address,
                ..old(self).channel_spec(channel)
            }),
    {
        self.put(RawDMA::channel_index(channel) + 2, address);
    }

    /// Sets the memory address of `channel`, which is from 1 to 5.
    pub fn set_memory_address(&mut self, channel: u8, address: u32)
        requires
            RawDMA::valid_channel(channel),
        ensures
            final(self)@ == old(self)@.update(RawDMA::channel_index(channel) + 3, address),
            final(self).channel_spec(channel) == (Channel {
                cmar: address,
                ..old(self).channel_spec(channel)
            }),
    {
        self.put(RawDMA::channel_index(channel) + 3, address);
    }

    /// Sets the number of items that `channel`, which is from 1 to 5, is to
    /// transfer.
    pub fn set_count(&mut self, channel: u8, count: u32)
        requires
            RawDMA::valid_channel(channel),
        ensures
            final(self)@ == old(self)@.update(RawDMA::channel_index(channel) + 1, count),
            final(self).channel_spec(channel) == (Channel {
                cndtr: count,
                ..old(self).channel_spec(channel)
            }),
    {
        self.put(RawDMA::channel_index(channel) + 1, count);
    }

    /// Sets the control register of `channel`, which is from 1 to 5.
    pub fn set_control(&mut self, channel: u8, control: u32)
        requires
            RawDMA::valid_channel(channel),
        ensures
            final(self)@ == old(self)@.update(RawDMA::channel_index(channel) as int, control),
            final(self).channel_spec(channel) == (Channel {
                ccr: control,
                ..old(self).channel_spec(channel)
            }),
    {
        self.put(RawDMA::channel_index(channel), control);
    }

    /// Starts `channel`, which is from 1 to 5, by setting the enable bit of
    /// its control register. This is the last step of setting a channel up.
    pub fn enable_channel(&mut self, channel: u8)
        requires
            RawDMA::valid_channel(channel),
        ensures
            final(self)@ == old(self)@.update(
                RawDMA::channel_index(channel) as int,
                Bitfield::with_flag(CCR_EN, old(self).channel_spec(channel).ccr, true),
            ),
            final(self).channel_spec(channel) == (Channel {
                ccr: Bitfield::with_flag(CCR_EN, old(self).channel_spec(channel).ccr, true),
                ..old(self).channel_spec(channel)
            }),
    {
        let control: u32 = self.channel(channel).ccr;
        self.put(RawDMA::channel_index(channel), write_flag(control, CCR_EN, true));
    }
}

} // verus!
