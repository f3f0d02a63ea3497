//! The stateless effect: every pixel shows the accent color.

use vstd::prelude::*;
use crate::color::Rgb;
use crate::effects::{spec_uniform_frame, frame_wf, uniform_frame};
use crate::photonizer::PhotonizerOptions;

verus! {

/// Shows the configured accent color on the whole strip.  It keeps no
/// animation state at all.
pub struct StaticColor {
    pub pixel_count: usize,
}

/// The frame `step` produces: the accent color at every pixel.
pub open spec fn spec_static_frame(options: PhotonizerOptions, pixel_count: nat) -> Seq<Rgb> {
    spec_uniform_frame(options.accent_color, pixel_count)
}

impl StaticColor {
    pub open spec fn wf(self) -> bool {
        self.pixel_count >= 1
    }

    pub open spec fn spec_pixel_count(self) -> nat {
        self.pixel_count as nat
    }

    pub fn new(pixel_count: usize) -> (effect: StaticColor)
        requires
            pixel_count >= 1,
        ensures
            effect.wf(),
            effect.spec_pixel_count() == pixel_count,
    {
        StaticColor { pixel_count }
    }

    /// Recompute the accent-colored frame.  The effect holds no state, so
    /// the frame is a function of the configuration alone.
    pub fn step(&mut self, options: &PhotonizerOptions, _intensities: &Vec<u32>) -> (frame: Vec<
        Rgb,
    >)
        requires
            old(self).wf(),
            options.wf(),
        ensures
            *final(self) == *old(self),
            frame@ == spec_static_frame(*options, old(self).spec_pixel_count()),
            frame_wf(frame@),
    {
        uniform_frame(&options.accent_color, self.pixel_count)
    }
}

/// Idempotence: as long as the configuration's accent color is unchanged,
/// repeated calls of `StaticColor::step` produce identical frames.
pub proof fn lemma_static_color_idempotent(
    earlier: PhotonizerOptions,
    later: PhotonizerOptions,
    pixel_count: nat,
)
    requires
        earlier.accent_color == later.accent_color,
    ensures
        spec_static_frame(earlier, pixel_count) == spec_static_frame(later, pixel_count),
{
    assert(spec_static_frame(earlier, pixel_count) =~= spec_static_frame(later, pixel_count));
}

} // verus!
