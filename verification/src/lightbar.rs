//! The light-bar effect: one decaying peak applied uniformly to the strip.

use vstd::prelude::*;
use crate::fixed::{
    UNIT, is_unit, clamp_unit, spec_clamp_unit, scale_unit, spec_scale,
    lemma_scale_bounds, lemma_scale_strictly_decreases,
};
use crate::color::{Rgb, spec_scale_rgb, scale_rgb};
use crate::effects::{spec_uniform_frame, frame_wf, uniform_frame};
use crate::photonizer::PhotonizerOptions;

verus! {

/// The per-tick falloff of the peak, `0.9` as a fraction of `UNIT`.
pub const LIGHTBAR_FALLOFF: u32 = 9000;

/// Tracks the loudest recent drive value and washes the whole strip with the
/// accent color at that opacity, letting it fade between beats.
pub struct LightBar {
    pub pixel_count: usize,
    /// A fraction of `UNIT`.
    pub last_peak: u32,
}

/// The peak that drives this tick's frame: the drive signal, clamped, if it
/// rises above the stored peak; the stored peak otherwise.
pub open spec fn spec_peak_used(last_peak: int, drive: int) -> int {
    let cur = spec_clamp_unit(drive);
    if cur > last_peak { cur } else { last_peak }
}

/// One tick of peak falloff.
pub open spec fn spec_peak_decay(p: int) -> int {
    spec_scale(p, LIGHTBAR_FALLOFF as int)
}

impl LightBar {
    pub open spec fn wf(self) -> bool {
        &&& self.pixel_count >= 1
        &&& is_unit(self.last_peak)
    }

    pub fn new(pixel_count: usize) -> (effect: LightBar)
        requires
            pixel_count >= 1,
        ensures
            effect.wf(),
            effect.pixel_count == pixel_count,
            effect.last_peak == 0,
    {
        LightBar { pixel_count, last_peak: 0 }
    }

    /// One tick: raise the peak if the drive signal exceeds it, paint the
    /// accent color over black at the peak's opacity on every pixel, then
    /// let the peak fall off.
    pub fn step(&mut self, options: &PhotonizerOptions, intensities: &Vec<u32>) -> (frame: Vec<
        Rgb,
    >)
        requires
            old(self).wf(),
            options.wf(),
            intensities.len() >= 3,
        ensures
            final(self).wf(),
            final(self).pixel_count == old(self).pixel_count,
            final(self).last_peak == spec_peak_decay(
                spec_peak_used(old(self).last_peak as int, intensities[2] as int),
            ),
            frame@ == spec_uniform_frame(
                spec_scale_rgb(
                    options.accent_color,
                    spec_peak_used(old(self).last_peak as int, intensities[2] as int),
                ),
                old(self).pixel_count as nat,
            ),
            frame_wf(frame@),
    {
        let cur_val = clamp_unit(intensities[2]);
        if cur_val > self.last_peak {
            self.last_peak = cur_val;
        }
        let blended = scale_rgb(&options.accent_color, self.last_peak);
        let frame = uniform_frame(&blended, self.pixel_count);
        self.last_peak = scale_unit(self.last_peak, LIGHTBAR_FALLOFF);
        frame
    }
}

/// The peak after `n` ticks of falloff with no drive signal.
pub open spec fn spec_decay_iter(p: int, n: nat) -> int
    decreases n,
{
    if n == 0 {
        p
    } else {
        spec_peak_decay(spec_decay_iter(p, (n - 1) as nat))
    }
}

/// Fade of the light bar under silence: with a drive signal of zero the
/// frame's uniform opacity is the stored peak, and each tick of falloff
/// strictly decreases a positive peak while keeping it a valid fraction.
pub proof fn lemma_lightbar_fades(p: int)
    requires
        0 <= p <= UNIT,
    ensures
        0 <= spec_peak_decay(p) <= p,
        p >= 1 ==> spec_peak_decay(p) < p,
        spec_peak_used(p, 0) == p,
{
    lemma_scale_bounds(p, LIGHTBAR_FALLOFF as int);
    if p >= 1 {
        lemma_scale_strictly_decreases(p, LIGHTBAR_FALLOFF as int);
    }
}

/// A falling peak never brightens a pixel: every component of the uniform
/// frame is scaled by the peak, and scaling by a smaller fraction gives a
/// component at most as large.
pub proof fn lemma_fade_is_monotone(component: int, dimmer: int, brighter: int)
    requires
        0 <= component <= UNIT,
        0 <= dimmer <= brighter <= UNIT,
    ensures
        spec_scale(component, dimmer) <= spec_scale(component, brighter),
{
    assert((component * dimmer) / (UNIT as int) <= (component * brighter) / (UNIT as int))
        by (nonlinear_arith)
        requires 0 <= component, 0 <= dimmer <= brighter;
}

/// The fade reaches exactly zero: a peak of `p` is extinguished after at
/// most `p` silent ticks.
pub proof fn lemma_lightbar_reaches_black(p: int, n: nat)
    requires
        0 <= p <= UNIT,
        p <= n,
    ensures
        spec_decay_iter(p, n) == 0,
    decreases n,
{
    lemma_decay_iter_bounds(p, n);
}

proof fn lemma_decay_iter_bounds(p: int, n: nat)
    requires
        0 <= p <= UNIT,
    ensures
        0 <= spec_decay_iter(p, n) <= UNIT,
        spec_decay_iter(p, n) <= (if p - n >= 0 { p - n } else { 0 }),
    decreases n,
{
    if n > 0 {
        lemma_decay_iter_bounds(p, (n - 1) as nat);
        let q = spec_decay_iter(p, (n - 1) as nat);
        lemma_lightbar_fades(q);
    }
}

} // verus!
