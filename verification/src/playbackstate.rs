//! The shared audio window: a fixed-length sample buffer kept current by the
//! capture collaborator, plus the spectral figures derived from it.

use vstd::prelude::*;

verus! {

/// The shared audio window state.  Samples are fixed-point fractions of
/// `UNIT`, amplitude-normalized to roughly `[-1, 1]` by the capture side.
pub struct PlaybackState {
    pub shutdown: bool,
    pub buffer: Vec<i32>,
    /// Number of frequency buckets, `window size / 2`.
    pub bucket_count: usize,
    /// Bucket bandwidth in Hz, as a fraction of `UNIT`.
    pub freq_step: u64,
}

impl PlaybackState {
    /// A silent window of the given size.
    pub fn new(window_size: usize) -> (state: PlaybackState)
        ensures
            state.buffer@.len() == window_size,
            forall|i: int| 0 <= i < window_size ==> state.buffer@[i] == 0i32,
            !state.shutdown,
            state.bucket_count == 0,
            state.freq_step == 0,
    {
        let mut buffer: Vec<i32> = Vec::new();
        let mut i: usize = 0;
        while i < window_size
            invariant
                i <= window_size,
                buffer@.len() == i,
                forall|j: int| 0 <= j < i ==> buffer@[j] == 0i32,
            decreases window_size - i,
        {
            buffer.push(0i32);
            i = i + 1;
        }
        PlaybackState { shutdown: false, buffer, bucket_count: 0, freq_step: 0 }
    }

    /// Replace the window with a freshly captured one of the same length:
    /// the buffer always holds one full window, never a partial one.
    pub fn set_window(&mut self, samples: Vec<i32>)
        requires
            samples@.len() == old(self).buffer@.len(),
        ensures
            final(self).buffer@ == samples@,
            final(self).shutdown == old(self).shutdown,
            final(self).bucket_count == old(self).bucket_count,
            final(self).freq_step == old(self).freq_step,
    {
        self.buffer = samples;
    }
}

} // verus!
