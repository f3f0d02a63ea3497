//! Shared building blocks of the lighting effects: the ephemeral pulse
//! entity and color-frame helpers.

use vstd::prelude::*;
use vstd::arithmetic::div_mod::{lemma_hoist_over_denominator, lemma_mod_multiples_vanish};
use crate::fixed::{UNIT, POSITION_LIMIT, POSITION_LIMIT_PIXELS, is_unit};
use crate::color::Rgb;

verus! {

/// An ephemeral animated entity owned by the active effect: a traveling
/// pulse or a decaying strike.
#[derive(Clone, Copy, Debug, PartialEq, Eq, Structural)]
pub struct Pulse {
    pub color: Rgb,
    /// A fraction of `UNIT`.
    pub intensity: u32,
    /// Fractional pixel index in fixed-point position units.
    pub position: i64,
}

impl Pulse {
    pub open spec fn wf(self) -> bool {
        &&& self.color.wf()
        &&& is_unit(self.intensity)
        &&& -POSITION_LIMIT <= self.position <= POSITION_LIMIT
    }
}

/// Every pulse of the sequence is well formed.
pub open spec fn pulses_wf(pulses: Seq<Pulse>) -> bool {
    forall|i: int| 0 <= i < pulses.len() ==> (#[trigger] pulses[i]).wf()
}

/// The whole pixel a position lies on, rounded towards negative infinity.
pub open spec fn spec_pixel_floor(pos: int) -> int {
    pos / (UNIT as int)
}

/// The fractional offset of a position above its floor pixel, in `[0, UNIT)`.
pub open spec fn spec_pixel_rem(pos: int) -> int {
    pos % (UNIT as int)
}

/// Split a position into its floor pixel and its fractional offset.
pub fn position_floor_rem(pos: i64) -> (r: (i64, i64))
    requires
        -POSITION_LIMIT <= pos <= POSITION_LIMIT,
    ensures
        r.0 == spec_pixel_floor(pos as int),
        r.1 == spec_pixel_rem(pos as int),
        0 <= r.1 < UNIT,
        -POSITION_LIMIT_PIXELS <= r.0 <= POSITION_LIMIT_PIXELS,
{
    let shifted = pos + POSITION_LIMIT;
    let q = shifted / (UNIT as i64);
    let rem = shifted % (UNIT as i64);
    proof {
        lemma_hoist_over_denominator(pos as int, POSITION_LIMIT_PIXELS as int, UNIT as nat);
        lemma_mod_multiples_vanish(POSITION_LIMIT_PIXELS as int, pos as int, UNIT as int);
        assert(pos as int + POSITION_LIMIT as int == (UNIT as int) * (POSITION_LIMIT_PIXELS as int)
            + pos as int);
        assert(POSITION_LIMIT_PIXELS as int * (UNIT as int) == (UNIT as int)
            * (POSITION_LIMIT_PIXELS as int));
    }
    (q - POSITION_LIMIT_PIXELS, rem)
}

/// A frame with the same color at every pixel.
pub open spec fn spec_uniform_frame(c: Rgb, n: nat) -> Seq<Rgb> {
    Seq::new(n, |i: int| c)
}

/// Every pixel of the frame is a well-formed color.
pub open spec fn frame_wf(frame: Seq<Rgb>) -> bool {
    forall|i: int| 0 <= i < frame.len() ==> (#[trigger] frame[i]).wf()
}

/// Build a frame that shows one color on every pixel.
pub fn uniform_frame(c: &Rgb, n: usize) -> (frame: Vec<Rgb>)
    requires
        c.wf(),
    ensures
        frame@ == spec_uniform_frame(*c, n as nat),
        frame_wf(frame@),
{
    let mut frame: Vec<Rgb> = Vec::new();
    let mut i: usize = 0;
    while i < n
        invariant
            i <= n,
            c.wf(),
            frame@ =~= spec_uniform_frame(*c, i as nat),
        decreases n - i,
    {
        frame.push(*c);
        proof {
            assert(frame@ =~= spec_uniform_frame(*c, (i + 1) as nat));
        }
        i = i + 1;
    }
    proof {
        assert(frame_wf(frame@));
    }
    frame
}

} // verus!
