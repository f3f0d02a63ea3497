//! The thunderstruck effect: a beat fires a white strike at a random pixel;
//! every strike fades by a fixed factor each tick and vanishes once it is
//! dim enough.

use vstd::prelude::*;
use crate::fixed::{
    UNIT, is_unit, clamp_unit, spec_clamp_unit, scale_unit, spec_scale,
    lemma_scale_bounds, lemma_scale_strictly_decreases,
};
use crate::color::{Rgb, spec_white, spec_blend_over, blend_over, spec_scale_rgb, scale_rgb};
use crate::effects::{Pulse, pulses_wf, frame_wf, spec_uniform_frame, uniform_frame};
use crate::photonizer::PhotonizerOptions;
use crate::pixelflow::{PIXEL_LIMIT, spec_clamp_index};

verus! {

/// The per-tick falloff of strike intensities and of the creation peak,
/// `0.9` as a fraction of `UNIT`.
pub const THUNDERSTRUCK_FALLOFF: u32 = 9000;

/// A strike is removed once its intensity is at or below `0.1`.
pub const STRIKE_FLOOR: u32 = 1000;

/// The opacity of the accent-colored base wash, `0.3`.
pub const WASH_ALPHA: u32 = 3000;

/// Random white strikes over a dim accent wash.
pub struct Thunderstruck {
    pub pixel_count: usize,
    /// A fraction of `UNIT`.
    pub last_peak: u32,
    pub pulses: Vec<Pulse>,
}

/// Strikes sit on whole pixels of the strip.
pub open spec fn strikes_on_strip(pulses: Seq<Pulse>, pixel_count: int) -> bool {
    forall|i: int|
        0 <= i < pulses.len() ==> 0 <= (#[trigger] pulses[i]).position <= (pixel_count - 1) * (
        UNIT as int)
}

/// Every strike's intensity after one tick of falloff.
pub open spec fn spec_decay_strikes(pulses: Seq<Pulse>) -> Seq<Pulse> {
    Seq::new(
        pulses.len(),
        |i: int| Pulse {
            color: pulses[i].color,
            intensity: spec_scale(pulses[i].intensity as int, THUNDERSTRUCK_FALLOFF as int) as u32,
            position: pulses[i].position,
        },
    )
}

pub open spec fn spec_strike_alive(p: Pulse) -> bool {
    p.intensity > STRIKE_FLOOR
}

/// The strikes that survive removal, in their original order.
pub open spec fn spec_remove_strikes(pulses: Seq<Pulse>) -> Seq<Pulse>
    decreases pulses.len(),
{
    if pulses.len() == 0 {
        Seq::empty()
    } else {
        let rest = spec_remove_strikes(pulses.drop_last());
        if spec_strike_alive(pulses.last()) {
            rest.push(pulses.last())
        } else {
            rest
        }
    }
}

/// One strike blended onto the frame at its whole pixel, at its current
/// intensity.
pub open spec fn spec_draw_strike(frame: Seq<Rgb>, p: Pulse) -> Seq<Rgb> {
    let i = spec_clamp_index(p.position as int / (UNIT as int), frame.len() as int);
    frame.update(i, spec_blend_over(frame[i], p.color, p.intensity as int))
}

/// All strikes drawn in order onto a base frame.
pub open spec fn spec_draw_strikes(frame: Seq<Rgb>, pulses: Seq<Pulse>) -> Seq<Rgb>
    decreases pulses.len(),
{
    if pulses.len() == 0 {
        frame
    } else {
        spec_draw_strike(spec_draw_strikes(frame, pulses.drop_last()), pulses.last())
    }
}

/// The base wash the strikes are drawn over: the accent color at `0.3`
/// opacity over black, on every pixel.
pub open spec fn spec_wash_frame(options: PhotonizerOptions, pixel_count: nat) -> Seq<Rgb> {
    spec_uniform_frame(spec_scale_rgb(options.accent_color, WASH_ALPHA as int), pixel_count)
}

/// Relies on `rand::Rng::gen_range` with the thread-local generator, over
/// the range `0..pixel_count`: the range is non-empty, so the call returns
/// one of its values.
#[verifier::external_body]
fn random_pixel(pixel_count: usize) -> (r: usize)
    requires
        pixel_count >= 1,
    ensures
        r < pixel_count,
{
    rand::Rng::gen_range(&mut rand::thread_rng(), 0..pixel_count)
}

impl Thunderstruck {
    pub open spec fn wf(self) -> bool {
        &&& 1 <= self.pixel_count <= PIXEL_LIMIT
        &&& is_unit(self.last_peak)
        &&& pulses_wf(self.pulses@)
        &&& strikes_on_strip(self.pulses@, self.pixel_count as int)
    }

    pub fn new(pixel_count: usize) -> (effect: Thunderstruck)
        requires
            1 <= pixel_count <= PIXEL_LIMIT,
        ensures
            effect.wf(),
            effect.pixel_count == pixel_count,
            effect.last_peak == 0,
            effect.pulses@ == Seq::<Pulse>::empty(),
    {
        let effect = Thunderstruck { pixel_count, last_peak: 0, pulses: Vec::new() };
        proof {
            assert(effect.pulses@ =~= Seq::<Pulse>::empty());
        }
        effect
    }

    /// Fade every strike by the falloff factor.
    fn decay_strikes(&mut self)
        requires
            old(self).wf(),
        ensures
            final(self).pixel_count == old(self).pixel_count,
            final(self).last_peak == old(self).last_peak,
            final(self).pulses@ == spec_decay_strikes(old(self).pulses@),
            final(self).wf(),
    {
        let n = self.pulses.len();
        let mut faded: Vec<Pulse> = Vec::new();
        let mut i: usize = 0;
        while i < n
            invariant
                *self == *old(self),
                old(self).wf(),
                n == self.pulses.len(),
                i <= n,
                faded@.len() == i,
                forall|j: int|
                    0 <= j < i ==> faded@[j] == spec_decay_strikes(self.pulses@)[j],
            decreases n - i,
        {
            let p = self.pulses[i];
            assert(p.wf());
            faded.push(
                Pulse {
                    color: p.color,
                    intensity: scale_unit(p.intensity, THUNDERSTRUCK_FALLOFF),
                    position: p.position,
                },
            );
            i = i + 1;
        }
        self.pulses = faded;
        proof {
            assert(self.pulses@ =~= spec_decay_strikes(old(self).pulses@));
        }
    }

    /// Drop every strike at or below the intensity floor.
    fn remove_strikes(&mut self)
        requires
            old(self).wf(),
        ensures
            final(self).pixel_count == old(self).pixel_count,
            final(self).last_peak == old(self).last_peak,
            final(self).pulses@ == spec_remove_strikes(old(self).pulses@),
            final(self).wf(),
    {
        let n = self.pulses.len();
        let mut kept: Vec<Pulse> = Vec::new();
        let mut i: usize = 0;
        while i < n
            invariant
                *self == *old(self),
                old(self).wf(),
                n == self.pulses.len(),
                i <= n,
                kept@ == spec_remove_strikes(self.pulses@.take(i as int)),
                pulses_wf(kept@),
                strikes_on_strip(kept@, self.pixel_count as int),
            decreases n - i,
        {
            let p = self.pulses[i];
            assert(p.wf());
            proof {
                let taken = self.pulses@.take(i + 1);
                assert(taken.drop_last() =~= self.pulses@.take(i as int));
                assert(taken.last() == p);
            }
            if p.intensity > STRIKE_FLOOR {
                kept.push(p);
            }
            i = i + 1;
        }
        proof {
            assert(self.pulses@.take(n as int) =~= self.pulses@);
        }
        self.pulses = kept;
    }

    /// Fire a strike at a random pixel when the drive signal reaches the
    /// stored peak (a rising edge, not strictly above it), then let the
    /// peak fall off.  Which pixel is struck is up to the generator; every
    /// outcome lies on the strip.
    fn create_strike(&mut self, intensities: &Vec<u32>)
        requires
            old(self).wf(),
            intensities.len() >= 3,
        ensures
            final(self).pixel_count == old(self).pixel_count,
            final(self).wf(),
            ({
                let cur = spec_clamp_unit(intensities[2] as int);
                if cur < old(self).last_peak {
                    *final(self) == *old(self)
                } else {
                    &&& final(self).pulses@.len() == old(self).pulses@.len() + 1
                    &&& final(self).pulses@.take(old(self).pulses@.len() as int) == old(
                        self,
                    ).pulses@
                    &&& final(self).pulses@.last().color == spec_white()
                    &&& final(self).pulses@.last().intensity == UNIT
                    &&& 0 <= final(self).pulses@.last().position
                    &&& final(self).pulses@.last().position <= (old(self).pixel_count - 1) * (
                    UNIT as int)
                    &&& final(self).last_peak == spec_scale(cur, THUNDERSTRUCK_FALLOFF as int)
                }
            }),
    {
        let cur_val = clamp_unit(intensities[2]);
        if cur_val < self.last_peak {
            return ;
        }
        self.last_peak = cur_val;
        let pixel = random_pixel(self.pixel_count);
        let position = (pixel as i64) * (UNIT as i64);
        proof {
            assert(pixel as int * (UNIT as int) <= (self.pixel_count - 1) * (UNIT as int))
                by (nonlinear_arith)
                requires pixel < self.pixel_count;
            assert((self.pixel_count - 1) * (UNIT as int) <= PIXEL_LIMIT * (UNIT as int))
                by (nonlinear_arith)
                requires self.pixel_count <= PIXEL_LIMIT;
        }
        self.pulses.push(Pulse { color: Rgb::white(), intensity: UNIT, position });
        self.last_peak = scale_unit(self.last_peak, THUNDERSTRUCK_FALLOFF);
        proof {
            assert(self.pulses@.take(old(self).pulses@.len() as int) =~= old(self).pulses@);
        }
    }

    /// Draw all strikes over the accent wash.
    fn draw(&self, options: &PhotonizerOptions) -> (frame: Vec<Rgb>)
        requires
            self.wf(),
            options.wf(),
        ensures
            frame@ == spec_draw_strikes(
                spec_wash_frame(*options, self.pixel_count as nat),
                self.pulses@,
            ),
            frame@.len() == self.pixel_count,
            frame_wf(frame@),
    {
        let wash = scale_rgb(&options.accent_color, WASH_ALPHA);
        let mut frame = uniform_frame(&wash, self.pixel_count);
        let n = self.pulses.len();
        let mut i: usize = 0;
        while i < n
            invariant
                self.wf(),
                options.wf(),
                n == self.pulses.len(),
                i <= n,
                frame@ == spec_draw_strikes(
                    spec_wash_frame(*options, self.pixel_count as nat),
                    self.pulses@.take(i as int),
                ),
                frame@.len() == self.pixel_count,
                frame_wf(frame@),
            decreases n - i,
        {
            let p = self.pulses[i];
            assert(p.wf());
            proof {
                let taken = self.pulses@.take(i + 1);
                assert(taken.drop_last() =~= self.pulses@.take(i as int));
                assert(taken.last() == p);
            }
            let ghost before = frame@;
            let idx_i64 = p.position / (UNIT as i64);
            proof {
                assert(0 <= p.position as int / (UNIT as int) < self.pixel_count)
                    by (nonlinear_arith)
                    requires
                        0 <= p.position as int <= (self.pixel_count - 1) * (UNIT as int),
                        self.pixel_count >= 1;
            }
            let idx = idx_i64 as usize;
            let blended = blend_over(&frame[idx], &p.color, p.intensity);
            frame[idx] = blended;
            proof {
                assert(frame@ =~= spec_draw_strike(before, p));
            }
            i = i + 1;
        }
        proof {
            assert(self.pulses@.take(n as int) =~= self.pulses@);
        }
        frame
    }

    /// One tick: fade the strikes, drop the dim ones, possibly fire a new
    /// one, and composite all of them over the accent wash.
    pub fn step(&mut self, options: &PhotonizerOptions, intensities: &Vec<u32>) -> (frame: Vec<
        Rgb,
    >)
        requires
            old(self).wf(),
            options.wf(),
            intensities.len() >= 3,
        ensures
            final(self).wf(),
            final(self).pixel_count == old(self).pixel_count,
            ({
                let alive = spec_remove_strikes(spec_decay_strikes(old(self).pulses@));
                let cur = spec_clamp_unit(intensities[2] as int);
                let kept = final(self).pulses@;
                &&& (cur < old(self).last_peak ==> kept == alive && final(self).last_peak == old(
                    self,
                ).last_peak)
                &&& (cur >= old(self).last_peak ==> {
                    &&& kept.len() == alive.len() + 1
                    &&& kept.take(alive.len() as int) == alive
                    &&& kept.last().color == spec_white()
                    &&& kept.last().intensity == UNIT
                    &&& final(self).last_peak == spec_scale(cur, THUNDERSTRUCK_FALLOFF as int)
                })
                &&& frame@ == spec_draw_strikes(
                    spec_wash_frame(*options, old(self).pixel_count as nat),
                    kept,
                )
            }),
            frame@.len() == old(self).pixel_count,
            frame_wf(frame@),
    {
        self.decay_strikes();
        self.remove_strikes();
        self.create_strike(intensities);
        self.draw(options)
    }
}

proof fn lemma_remove_membership(pulses: Seq<Pulse>)
    ensures
        forall|j: int|
            0 <= j < spec_remove_strikes(pulses).len() ==> spec_strike_alive(
                #[trigger] spec_remove_strikes(pulses)[j],
            ) && pulses.contains(spec_remove_strikes(pulses)[j]),
    decreases pulses.len(),
{
    if pulses.len() > 0 {
        lemma_remove_membership(pulses.drop_last());
        let shorter = pulses.drop_last();
        let rest = spec_remove_strikes(shorter);
        assert forall|j: int| 0 <= j < rest.len() implies pulses.contains(rest[j]) by {
            let k = choose|k: int| 0 <= k < shorter.len() && shorter[k] == rest[j];
            assert(pulses[k] == rest[j]);
        }
        assert(pulses.contains(pulses.last())) by {
            assert(pulses[pulses.len() - 1] == pulses.last());
        }
    }
}

/// Strike decay and removal.  One tick multiplies every strike's intensity
/// by exactly `0.9`, which strictly decreases any positive intensity; and
/// removal keeps exactly the strikes whose intensity is still above the
/// `0.1` floor, so a strike that has fallen to or below it appears in no
/// later frame.
pub proof fn lemma_strike_decay(strikes: Seq<Pulse>)
    requires
        pulses_wf(strikes),
    ensures
        spec_decay_strikes(strikes).len() == strikes.len(),
        forall|i: int|
            0 <= i < strikes.len() ==> (#[trigger] spec_decay_strikes(strikes)[i]).intensity
                == spec_scale(strikes[i].intensity as int, THUNDERSTRUCK_FALLOFF as int),
        forall|i: int|
            0 <= i < strikes.len() && strikes[i].intensity >= 1 ==> (
            #[trigger] spec_decay_strikes(strikes)[i]).intensity < strikes[i].intensity,
        forall|j: int|
            0 <= j < spec_remove_strikes(strikes).len() ==> (
            #[trigger] spec_remove_strikes(strikes)[j]).intensity > STRIKE_FLOOR,
        forall|j: int|
            0 <= j < spec_remove_strikes(strikes).len() ==> strikes.contains(
                #[trigger] spec_remove_strikes(strikes)[j],
            ),
{
    assert forall|i: int| 0 <= i < strikes.len() && strikes[i].intensity >= 1 implies (
    #[trigger] spec_decay_strikes(strikes)[i]).intensity < strikes[i].intensity by {
        assert(strikes[i].wf());
        lemma_scale_bounds(strikes[i].intensity as int, THUNDERSTRUCK_FALLOFF as int);
        lemma_scale_strictly_decreases(
            strikes[i].intensity as int,
            THUNDERSTRUCK_FALLOFF as int,
        );
    }
    lemma_remove_membership(strikes);
}

} // verus!
