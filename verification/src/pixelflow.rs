//! The pixel-flow effect: a beat spawns a pulse at the strip's origin, and
//! every pulse travels along the strip at the configured speed until it
//! leaves the far end.

use vstd::prelude::*;
use crate::fixed::{
    UNIT, SPEED_LIMIT, POSITION_LIMIT, is_unit, clamp_unit, spec_clamp_unit,
    spec_clamp_magnitude, scale_unit, spec_scale,
};
use crate::color::{Rgb, spec_blend_over, blend_over, spec_black};
use crate::effects::{
    Pulse, pulses_wf, frame_wf, spec_uniform_frame, uniform_frame, spec_pixel_floor,
    spec_pixel_rem, position_floor_rem,
};
use crate::photonizer::PhotonizerOptions;

verus! {

/// The per-tick falloff of the creation peak, `0.95` as a fraction of `UNIT`.
pub const PIXELFLOW_FALLOFF: u32 = 9500;

/// Largest strip the effects accept; keeps the removal bound inside `i64`.
pub const PIXEL_LIMIT: usize = 1000000;

/// Traveling pulses spawned on rising beats, drawn with sub-pixel
/// interpolation and composited over a black strip.
pub struct PixelFlow {
    pub pixel_count: usize,
    /// A fraction of `UNIT`.
    pub last_peak: u32,
    pub pulses: Vec<Pulse>,
}

/// A position after one tick of travel, saturating at `POSITION_LIMIT`.
pub open spec fn spec_advance_position(pos: int, speed: int) -> int {
    spec_clamp_magnitude(pos + speed, POSITION_LIMIT as int)
}

pub open spec fn spec_advanced_pulse(p: Pulse, speed: int) -> Pulse {
    Pulse {
        color: p.color,
        intensity: p.intensity,
        position: spec_advance_position(p.position as int, speed) as i64,
    }
}

/// Every pulse moved by the configured speed.
pub open spec fn spec_advance_pulses(pulses: Seq<Pulse>, speed: int) -> Seq<Pulse> {
    Seq::new(pulses.len(), |i: int| spec_advanced_pulse(pulses[i], speed))
}

/// A pulse is removed once its position exceeds the last pixel.
pub open spec fn spec_removal_bound(pixel_count: int) -> int {
    (pixel_count - 1) * (UNIT as int)
}

pub open spec fn spec_in_bounds(p: Pulse, pixel_count: int) -> bool {
    p.position <= spec_removal_bound(pixel_count)
}

/// The pulses that survive removal, in their original order.
pub open spec fn spec_retain_pulses(pulses: Seq<Pulse>, pixel_count: int) -> Seq<Pulse>
    decreases pulses.len(),
{
    if pulses.len() == 0 {
        Seq::empty()
    } else {
        let rest = spec_retain_pulses(pulses.drop_last(), pixel_count);
        if spec_in_bounds(pulses.last(), pixel_count) {
            rest.push(pulses.last())
        } else {
            rest
        }
    }
}

/// The pulse a beat spawns at the strip's origin.
pub open spec fn spec_new_pulse(accent: Rgb) -> Pulse {
    Pulse { color: accent, intensity: UNIT, position: 0 }
}

/// The creation rule: a drive value strictly above the stored peak spawns a
/// pulse at the origin, unless the youngest pulse is still within one pixel
/// of it; the early exit of the suppressed case also skips the falloff.
/// Returns the new pulse list and the new peak.
pub open spec fn spec_pixelflow_create(
    pulses: Seq<Pulse>,
    last_peak: int,
    drive: int,
    accent: Rgb,
) -> (Seq<Pulse>, int) {
    let cur = spec_clamp_unit(drive);
    if cur > last_peak {
        if pulses.len() > 0 && pulses.last().position < UNIT {
            (pulses, last_peak)
        } else {
            (pulses.push(spec_new_pulse(accent)), spec_scale(cur, PIXELFLOW_FALLOFF as int))
        }
    } else {
        (pulses, spec_scale(last_peak, PIXELFLOW_FALLOFF as int))
    }
}

/// An index clamped onto the strip, mirroring the saturating cast the draw
/// pass uses for positions that lie before the origin.
pub open spec fn spec_clamp_index(i: int, len: int) -> int {
    if i < 0 {
        0
    } else if i >= len {
        len - 1
    } else {
        i
    }
}

/// One pulse's contribution to the frame: its color is blended onto the two
/// pixels nearest its position, with linear alpha interpolation by the
/// fractional offset; the trailing pixel (against the direction of travel)
/// is painted first.
pub open spec fn spec_draw_pulse(frame: Seq<Rgb>, p: Pulse, speed: int) -> Seq<Rgb> {
    let fl = spec_pixel_floor(p.position as int);
    let rem = spec_pixel_rem(p.position as int);
    let ce = if rem == 0 { fl } else { fl + 1 };
    let alpha_floor = if rem == 0 { 0 } else { UNIT - rem };
    let alpha_ceil = rem;
    let fi = spec_clamp_index(fl, frame.len() as int);
    let ci = spec_clamp_index(ce, frame.len() as int);
    let (i1, a1, i2, a2) = if speed > 0 {
        (fi, alpha_floor, ci, alpha_ceil)
    } else {
        (ci, alpha_ceil, fi, alpha_floor)
    };
    let once = frame.update(i1, spec_blend_over(frame[i1], p.color, a1));
    once.update(i2, spec_blend_over(once[i2], p.color, a2))
}

/// All pulses drawn in order onto a base frame.
pub open spec fn spec_draw_pulses(frame: Seq<Rgb>, pulses: Seq<Pulse>, speed: int) -> Seq<Rgb>
    decreases pulses.len(),
{
    if pulses.len() == 0 {
        frame
    } else {
        spec_draw_pulse(spec_draw_pulses(frame, pulses.drop_last(), speed), pulses.last(), speed)
    }
}

proof fn lemma_retain_membership(pulses: Seq<Pulse>, pixel_count: int)
    ensures
        forall|j: int|
            0 <= j < spec_retain_pulses(pulses, pixel_count).len() ==> spec_in_bounds(
                #[trigger] spec_retain_pulses(pulses, pixel_count)[j],
                pixel_count,
            ) && pulses.contains(spec_retain_pulses(pulses, pixel_count)[j]),
    decreases pulses.len(),
{
    if pulses.len() > 0 {
        lemma_retain_membership(pulses.drop_last(), pixel_count);
        let shorter = pulses.drop_last();
        let rest = spec_retain_pulses(shorter, pixel_count);
        assert forall|j: int| 0 <= j < rest.len() implies pulses.contains(rest[j]) by {
            let k = choose|k: int| 0 <= k < shorter.len() && shorter[k] == rest[j];
            assert(pulses[k] == rest[j]);
        }
        assert(pulses.contains(pulses.last())) by {
            assert(pulses[pulses.len() - 1] == pulses.last());
        }
    }
}

/// Pulse motion and removal.  Advancing moves every pulse by exactly the
/// configured speed (saturating far off the strip), so across ticks a
/// pulse's position is monotonically non-decreasing when the speed is
/// non-negative and non-increasing when it is non-positive; and removal
/// keeps exactly the pulses at or before the last pixel, so no pulse whose
/// position exceeds `pixel_count - 1` ever persists into the drawn frame.
pub proof fn lemma_pulse_lifecycle(pulses: Seq<Pulse>, speed: int, pixel_count: int)
    requires
        pulses_wf(pulses),
        -SPEED_LIMIT <= speed <= SPEED_LIMIT,
        1 <= pixel_count,
    ensures
        spec_advance_pulses(pulses, speed).len() == pulses.len(),
        speed >= 0 ==> forall|i: int|
            0 <= i < pulses.len() ==> (#[trigger] spec_advance_pulses(pulses, speed)[i]).position
                >= pulses[i].position,
        speed <= 0 ==> forall|i: int|
            0 <= i < pulses.len() ==> (#[trigger] spec_advance_pulses(pulses, speed)[i]).position
                <= pulses[i].position,
        forall|j: int|
            0 <= j < spec_retain_pulses(pulses, pixel_count).len() ==> (
            #[trigger] spec_retain_pulses(pulses, pixel_count)[j]).position <= spec_removal_bound(
                pixel_count,
            ),
        forall|j: int|
            0 <= j < spec_retain_pulses(pulses, pixel_count).len() ==> pulses.contains(
                #[trigger] spec_retain_pulses(pulses, pixel_count)[j],
            ),
{
    assert forall|i: int| 0 <= i < pulses.len() implies ((speed >= 0
        ==> (#[trigger] spec_advance_pulses(pulses, speed)[i]).position >= pulses[i].position)
        && (speed <= 0 ==> spec_advance_pulses(pulses, speed)[i].position
        <= pulses[i].position)) by {
        assert(pulses[i].wf());
    }
    lemma_retain_membership(pulses, pixel_count);
}

impl PixelFlow {
    pub open spec fn wf(self) -> bool {
        &&& 1 <= self.pixel_count <= PIXEL_LIMIT
        &&& is_unit(self.last_peak)
        &&& pulses_wf(self.pulses@)
    }

    pub fn new(pixel_count: usize) -> (effect: PixelFlow)
        requires
            1 <= pixel_count <= PIXEL_LIMIT,
        ensures
            effect.wf(),
            effect.pixel_count == pixel_count,
            effect.last_peak == 0,
            effect.pulses@ == Seq::<Pulse>::empty(),
    {
        let effect = PixelFlow { pixel_count, last_peak: 0, pulses: Vec::new() };
        proof {
            assert(effect.pulses@ =~= Seq::<Pulse>::empty());
        }
        effect
    }

    /// Move every pulse by the configured speed.
    fn advance_pulses(&mut self, speed: i64)
        requires
            old(self).wf(),
            -SPEED_LIMIT <= speed <= SPEED_LIMIT,
        ensures
            final(self).pixel_count == old(self).pixel_count,
            final(self).last_peak == old(self).last_peak,
            final(self).pulses@ == spec_advance_pulses(old(self).pulses@, speed as int),
            final(self).wf(),
    {
        let n = self.pulses.len();
        let mut moved: Vec<Pulse> = Vec::new();
        let mut i: usize = 0;
        while i < n
            invariant
                *self == *old(self),
                old(self).wf(),
                -SPEED_LIMIT <= speed <= SPEED_LIMIT,
                n == self.pulses.len(),
                i <= n,
                moved@.len() == i,
                forall|j: int|
                    0 <= j < i ==> moved@[j] == spec_advanced_pulse(
                        self.pulses@[j],
                        speed as int,
                    ),
            decreases n - i,
        {
            let p = self.pulses[i];
            assert(p.wf());
            let raw = p.position + speed;
            let clamped = if raw > POSITION_LIMIT {
                POSITION_LIMIT
            } else if raw < -POSITION_LIMIT {
                -POSITION_LIMIT
            } else {
                raw
            };
            moved.push(Pulse { color: p.color, intensity: p.intensity, position: clamped });
            i = i + 1;
        }
        self.pulses = moved;
        proof {
            assert(self.pulses@ =~= spec_advance_pulses(old(self).pulses@, speed as int));
            assert(self.wf());
        }
    }

    /// Drop every pulse that has traveled past the last pixel, in one
    /// filtering pass.
    fn remove_pulses(&mut self)
        requires
            old(self).wf(),
        ensures
            final(self).pixel_count == old(self).pixel_count,
            final(self).last_peak == old(self).last_peak,
            final(self).pulses@ == spec_retain_pulses(
                old(self).pulses@,
                old(self).pixel_count as int,
            ),
            final(self).wf(),
    {
        proof {
            assert(0 <= (self.pixel_count as int - 1) * (UNIT as int) <= 10000000000int)
                by (nonlinear_arith)
                requires 1 <= self.pixel_count <= PIXEL_LIMIT;
        }
        let bound: i64 = (self.pixel_count as i64 - 1) * (UNIT as i64);
        let n = self.pulses.len();
        let mut kept: Vec<Pulse> = Vec::new();
        let mut i: usize = 0;
        proof {
            assert(bound == spec_removal_bound(self.pixel_count as int));
        }
        while i < n
            invariant
                *self == *old(self),
                old(self).wf(),
                bound == spec_removal_bound(self.pixel_count as int),
                n == self.pulses.len(),
                i <= n,
                kept@ == spec_retain_pulses(self.pulses@.take(i as int), self.pixel_count as int),
                pulses_wf(kept@),
            decreases n - i,
        {
            let p = self.pulses[i];
            assert(p.wf());
            proof {
                let taken = self.pulses@.take(i + 1);
                assert(taken.drop_last() =~= self.pulses@.take(i as int));
                assert(taken.last() == p);
            }
            if p.position <= bound {
                kept.push(p);
            }
            i = i + 1;
        }
        proof {
            assert(self.pulses@.take(n as int) =~= self.pulses@);
        }
        self.pulses = kept;
    }

    /// Spawn a pulse on a rising beat, unless one is still near the origin,
    /// and let the creation peak fall off.
    fn create_pulse(&mut self, options: &PhotonizerOptions, intensities: &Vec<u32>)
        requires
            old(self).wf(),
            options.wf(),
            intensities.len() >= 3,
        ensures
            final(self).pixel_count == old(self).pixel_count,
            final(self).pulses@ == spec_pixelflow_create(
                old(self).pulses@,
                old(self).last_peak as int,
                intensities[2] as int,
                options.accent_color,
            ).0,
            final(self).last_peak == spec_pixelflow_create(
                old(self).pulses@,
                old(self).last_peak as int,
                intensities[2] as int,
                options.accent_color,
            ).1,
            final(self).wf(),
    {
        let cur_val = clamp_unit(intensities[2]);
        if cur_val > self.last_peak {
            if self.pulses.len() > 0 {
                let newest = self.pulses[self.pulses.len() - 1];
                if newest.position < UNIT as i64 {
                    return ;
                }
            }
            self.last_peak = cur_val;
            self.pulses.push(
                Pulse { color: options.accent_color, intensity: UNIT, position: 0 },
            );
        }
        self.last_peak = scale_unit(self.last_peak, PIXELFLOW_FALLOFF);
    }

    /// Draw all pulses onto a black strip.
    fn draw(&self, speed: i64) -> (frame: Vec<Rgb>)
        requires
            self.wf(),
        ensures
            frame@ == spec_draw_pulses(
                spec_uniform_frame(spec_black(), self.pixel_count as nat),
                self.pulses@,
                speed as int,
            ),
            frame@.len() == self.pixel_count,
            frame_wf(frame@),
    {
        let base = crate::color::Rgb::black();
        let mut frame = uniform_frame(&base, self.pixel_count);
        let n = self.pulses.len();
        let mut i: usize = 0;
        while i < n
            invariant
                self.wf(),
                n == self.pulses.len(),
                i <= n,
                frame@ == spec_draw_pulses(
                    spec_uniform_frame(spec_black(), self.pixel_count as nat),
                    self.pulses@.take(i as int),
                    speed as int,
                ),
                frame@.len() == self.pixel_count,
                frame_wf(frame@),
            decreases n - i,
        {
            let p = self.pulses[i];
            assert(p.wf());
            proof {
                let taken = self.pulses@.take(i + 1);
                assert(taken.drop_last() =~= self.pulses@.take(i as int));
                assert(taken.last() == p);
            }
            let ghost before = frame@;
            let (fl, rem) = position_floor_rem(p.position);
            let ce = if rem == 0 { fl } else { fl + 1 };
            let alpha_floor: u32 = if rem == 0 { 0 } else { UNIT - rem as u32 };
            let alpha_ceil: u32 = rem as u32;
            let fi = self.clamp_index(fl);
            let ci = self.clamp_index(ce);
            let (i1, a1, i2, a2) = if speed > 0 {
                (fi, alpha_floor, ci, alpha_ceil)
            } else {
                (ci, alpha_ceil, fi, alpha_floor)
            };
            let blended1 = blend_over(&frame[i1], &p.color, a1);
            frame[i1] = blended1;
            let blended2 = blend_over(&frame[i2], &p.color, a2);
            frame[i2] = blended2;
            proof {
                assert(frame@ =~= spec_draw_pulse(before, p, speed as int));
            }
            i = i + 1;
        }
        proof {
            assert(self.pulses@.take(n as int) =~= self.pulses@);
        }
        frame
    }

    fn clamp_index(&self, i: i64) -> (r: usize)
        requires
            self.wf(),
            -POSITION_LIMIT <= i <= POSITION_LIMIT,
        ensures
            r == spec_clamp_index(i as int, self.pixel_count as int),
            r < self.pixel_count,
    {
        if i < 0 {
            0
        } else if i >= self.pixel_count as i64 {
            self.pixel_count - 1
        } else {
            i as usize
        }
    }

    /// One tick: advance the pulses, remove those past the strip, possibly
    /// spawn a new one, and composite all of them over black.
    pub fn step(&mut self, options: &PhotonizerOptions, intensities: &Vec<u32>) -> (frame: Vec<
        Rgb,
    >)
        requires
            old(self).wf(),
            options.wf(),
            intensities.len() >= 3,
        ensures
            final(self).wf(),
            final(self).pixel_count == old(self).pixel_count,
            ({
                let moved = spec_advance_pulses(old(self).pulses@, options.pulse_speed as int);
                let kept = spec_retain_pulses(moved, old(self).pixel_count as int);
                let created = spec_pixelflow_create(
                    kept,
                    old(self).last_peak as int,
                    intensities[2] as int,
                    options.accent_color,
                );
                &&& final(self).pulses@ == created.0
                &&& final(self).last_peak == created.1
                &&& frame@ == spec_draw_pulses(
                    spec_uniform_frame(spec_black(), old(self).pixel_count as nat),
                    created.0,
                    options.pulse_speed as int,
                )
            }),
            frame@.len() == old(self).pixel_count,
            frame_wf(frame@),
    {
        self.advance_pulses(options.pulse_speed);
        self.remove_pulses();
        self.create_pulse(options, intensities);
        self.draw(options.pulse_speed)
    }
}

} // verus!
