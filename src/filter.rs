use vstd::prelude::*;

use crate::level::Level;

verus! {

/// The number of channels the signal path filters: a stereo pair.
pub const CHANNELS: usize = 2;

/// The two most recent input and output samples of one channel of a
/// second-order filter.
#[derive(Clone, Copy, Debug, PartialEq, Eq, Structural)]
pub struct ChannelHistory {
    pub in1: Level,
    pub in2: Level,
    pub out1: Level,
    pub out2: Level,
}

impl ChannelHistory {
    pub open spec fn zeroed_spec() -> ChannelHistory {
        ChannelHistory {
            in1: Level { bits: 0 },
            in2: Level { bits: 0 },
            out1: Level { bits: 0 },
            out2: Level { bits: 0 },
        }
    }

    /// The history after the filter read `input` and wrote `output`.
    pub open spec fn shifted(self, input: Level, output: Level) -> ChannelHistory {
        ChannelHistory { in1: input, in2: self.in1, out1: output, out2: self.out1 }
    }

    /// Silence in every cell.
    pub fn zeroed() -> (r: ChannelHistory)
        ensures
            r == ChannelHistory::zeroed_spec(),
    {
        ChannelHistory {
            in1: Level::zero(),
            in2: Level::zero(),
            out1: Level::zero(),
            out2: Level::zero(),
        }
    }
}

/// The filter history of each channel, indexed by channel number. Channels
/// are filtered independently: touching one leaves the other as it was.
#[derive(Clone, Copy, Debug)]
pub struct FilterHistory {
    pub channels: [ChannelHistory; 2],
}

impl FilterHistory {
    pub open spec fn zeroed_spec() -> FilterHistory {
        FilterHistory { channels: [ChannelHistory::zeroed_spec(), ChannelHistory::zeroed_spec()] }
    }

    /// The history of every channel is silence.
    pub open spec fn is_zeroed(self) -> bool {
        forall|c: int| 0 <= c < CHANNELS ==> #[trigger] self.channels@[c] == ChannelHistory::zeroed_spec()
    }

    pub fn new() -> (r: FilterHistory)
        ensures
            r == FilterHistory::zeroed_spec(),
            r.is_zeroed(),
    {
        FilterHistory { channels: [ChannelHistory::zeroed(), ChannelHistory::zeroed()] }
    }

    /// Zeroes the history of every channel.
    pub fn reset(&mut self)
        ensures
            *final(self) == FilterHistory::zeroed_spec(),
            final(self).is_zeroed(),
    {
        self.channels = [ChannelHistory::zeroed(), ChannelHistory::zeroed()];
    }

    /// The history of one channel.
    pub fn channel(&self, channel: usize) -> (r: ChannelHistory)
        requires
            channel < CHANNELS,
        ensures
            r == self.channels@[channel as int],
    {
        self.channels[channel]
    }

    /// Records that the filter of `channel` read `input` and wrote `output`:
    /// the older sample of each pair falls out, the newer moves up.
    pub fn shift(&mut self, channel: usize, input: Level, output: Level)
        requires
            channel < CHANNELS,
        ensures
            final(self).channels@ == old(self).channels@.update(
                channel as int,
                old(self).channels@[channel as int].shifted(input, output),
            ),
    {
        let h = self.channels[channel];
        self.channels[channel] = ChannelHistory { in1: input, in2: h.in1, out1: output, out2: h.out1 };
    }
}

} // verus!
