//! The local DMX channel buffer.  The library fills and clears it; the
//! network transport only takes the finished 512-byte universe and sends it
//! as one datagram.

use vstd::prelude::*;

verus! {

/// Channels of one DMX universe.
pub const DMX_CHANNELS: usize = 512;

/// The channel buffer of the device sink.  Pixel `i` occupies channels
/// `3 * i .. 3 * i + 3`.
pub struct OlaOutput {
    pub buffer: Vec<u8>,
}

pub open spec fn spec_zero_universe() -> Seq<u8> {
    Seq::new(DMX_CHANNELS as nat, |i: int| 0u8)
}

fn zero_universe() -> (buffer: Vec<u8>)
    ensures
        buffer@ == spec_zero_universe(),
{
    let mut buffer: Vec<u8> = Vec::new();
    let mut i: usize = 0;
    while i < DMX_CHANNELS
        invariant
            i <= DMX_CHANNELS,
            buffer@.len() == i,
            forall|j: int| 0 <= j < i ==> buffer@[j] == 0u8,
        decreases DMX_CHANNELS - i,
    {
        buffer.push(0u8);
        i = i + 1;
    }
    proof {
        assert(buffer@ =~= spec_zero_universe());
    }
    buffer
}

impl OlaOutput {
    pub open spec fn wf(self) -> bool {
        self.buffer@.len() == DMX_CHANNELS
    }

    /// A fresh, blacked-out universe.
    pub fn new() -> (ola: OlaOutput)
        ensures
            ola.wf(),
            ola.buffer@ == spec_zero_universe(),
    {
        OlaOutput { buffer: zero_universe() }
    }

    /// Write one channel.
    pub fn set(&mut self, channel: u8, value: u8)
        requires
            old(self).wf(),
        ensures
            final(self).wf(),
            final(self).buffer@ == old(self).buffer@.update(channel as int, value),
    {
        self.buffer[channel as usize] = value;
    }

    /// Write the three channels of one pixel, starting at `start_channel`.
    pub fn set_rgb(&mut self, start_channel: u8, values: (u8, u8, u8))
        requires
            old(self).wf(),
            start_channel <= 253,
        ensures
            final(self).wf(),
            final(self).buffer@ == old(self).buffer@.update(
                start_channel as int,
                values.0,
            ).update(start_channel + 1, values.1).update(start_channel + 2, values.2),
    {
        self.set(start_channel, values.0);
        self.set(start_channel + 1, values.1);
        self.set(start_channel + 2, values.2);
    }

    /// Clear every channel.
    pub fn blackout(&mut self)
        requires
            old(self).wf(),
        ensures
            final(self).wf(),
            final(self).buffer@ == spec_zero_universe(),
    {
        let mut i: usize = 0;
        while i < DMX_CHANNELS
            invariant
                self.buffer@.len() == DMX_CHANNELS,
                i <= DMX_CHANNELS,
                forall|j: int| 0 <= j < i ==> self.buffer@[j] == 0u8,
            decreases DMX_CHANNELS - i,
        {
            self.buffer[i] = 0u8;
            i = i + 1;
        }
        proof {
            assert(self.buffer@ =~= spec_zero_universe());
        }
    }

    /// Hand out the finished universe for transmission and reset the local
    /// buffer to blackout, as one flush does.
    pub fn take_frame(&mut self) -> (frame: Vec<u8>)
        requires
            old(self).wf(),
        ensures
            final(self).wf(),
            frame@ == old(self).buffer@,
            final(self).buffer@ == spec_zero_universe(),
    {
        let mut taken = zero_universe();
        core::mem::swap(&mut self.buffer, &mut taken);
        taken
    }
}

} // verus!
