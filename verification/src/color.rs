//! Linear RGB colors in fixed-point form, alpha compositing, and the
//! conversion of a color frame to device channel bytes.

use vstd::prelude::*;
use crate::fixed::{UNIT, is_unit, scale_unit, spec_scale};

verus! {

/// A linear RGB color; each component is a fraction of [`UNIT`].
#[derive(Clone, Copy, Debug, PartialEq, Eq, Structural)]
pub struct Rgb {
    pub red: u32,
    pub green: u32,
    pub blue: u32,
}

impl Rgb {
    /// All components within `[0, UNIT]`.
    pub open spec fn wf(self) -> bool {
        is_unit(self.red) && is_unit(self.green) && is_unit(self.blue)
    }

    pub fn new(red: u32, green: u32, blue: u32) -> (c: Rgb)
        requires
            is_unit(red),
            is_unit(green),
            is_unit(blue),
        ensures
            c == (Rgb { red, green, blue }),
            c.wf(),
    {
        Rgb { red, green, blue }
    }

    pub fn black() -> (c: Rgb)
        ensures
            c == spec_black(),
            c.wf(),
    {
        Rgb { red: 0, green: 0, blue: 0 }
    }

    pub fn white() -> (c: Rgb)
        ensures
            c == spec_white(),
            c.wf(),
    {
        Rgb { red: UNIT, green: UNIT, blue: UNIT }
    }
}

pub open spec fn spec_black() -> Rgb {
    Rgb { red: 0, green: 0, blue: 0 }
}

pub open spec fn spec_white() -> Rgb {
    Rgb { red: UNIT, green: UNIT, blue: UNIT }
}

/// One component of a color scaled by a fraction.
pub open spec fn spec_scale_rgb(c: Rgb, f: int) -> Rgb {
    Rgb {
        red: spec_scale(c.red as int, f) as u32,
        green: spec_scale(c.green as int, f) as u32,
        blue: spec_scale(c.blue as int, f) as u32,
    }
}

/// Scale every component of a color by a fraction of `UNIT`.
pub fn scale_rgb(c: &Rgb, f: u32) -> (r: Rgb)
    requires
        c.wf(),
        is_unit(f),
    ensures
        r == spec_scale_rgb(*c, f as int),
        r.wf(),
{
    Rgb {
        red: scale_unit(c.red, f),
        green: scale_unit(c.green, f),
        blue: scale_unit(c.blue, f),
    }
}

/// One component of the alpha-over blend: `alpha` parts of the overlaid
/// component, `UNIT - alpha` parts of the base.
pub open spec fn spec_blend_component(base: int, over: int, alpha: int) -> int {
    (alpha * over + (UNIT - alpha) * base) / (UNIT as int)
}

/// The alpha-over blend of a translucent color over an opaque base.
pub open spec fn spec_blend_over(base: Rgb, over: Rgb, alpha: int) -> Rgb {
    Rgb {
        red: spec_blend_component(base.red as int, over.red as int, alpha) as u32,
        green: spec_blend_component(base.green as int, over.green as int, alpha) as u32,
        blue: spec_blend_component(base.blue as int, over.blue as int, alpha) as u32,
    }
}

proof fn lemma_blend_component_bounds(base: int, over: int, alpha: int)
    requires
        0 <= base <= UNIT,
        0 <= over <= UNIT,
        0 <= alpha <= UNIT,
    ensures
        0 <= alpha * over + (UNIT - alpha) * base <= UNIT * UNIT,
        0 <= spec_blend_component(base, over, alpha) <= UNIT,
{
    assert(0 <= alpha * over + (UNIT - alpha) * base <= UNIT * UNIT) by (nonlinear_arith)
        requires 0 <= base <= UNIT, 0 <= over <= UNIT, 0 <= alpha <= UNIT;
    assert(0 <= (alpha * over + (UNIT - alpha) * base) / (UNIT as int) <= UNIT) by (nonlinear_arith)
        requires 0 <= alpha * over + (UNIT - alpha) * base <= UNIT * UNIT;
}

fn blend_component(base: u32, over: u32, alpha: u32) -> (r: u32)
    requires
        is_unit(base),
        is_unit(over),
        is_unit(alpha),
    ensures
        r == spec_blend_component(base as int, over as int, alpha as int),
        is_unit(r),
{
    proof {
        lemma_blend_component_bounds(base as int, over as int, alpha as int);
    }
    (alpha * over + (UNIT - alpha) * base) / UNIT
}

/// Composite `over` with opacity `alpha` onto the opaque color `base`.
pub fn blend_over(base: &Rgb, over: &Rgb, alpha: u32) -> (r: Rgb)
    requires
        base.wf(),
        over.wf(),
        is_unit(alpha),
    ensures
        r == spec_blend_over(*base, *over, alpha as int),
        r.wf(),
{
    Rgb {
        red: blend_component(base.red, over.red, alpha),
        green: blend_component(base.green, over.green, alpha),
        blue: blend_component(base.blue, over.blue, alpha),
    }
}

/// The device byte of one component: `round(component * 255)`, where the
/// component is a fraction of `UNIT`.
pub open spec fn spec_dmx_channel(c: int) -> int {
    (c * 255 + (UNIT as int) / 2) / (UNIT as int)
}

/// Encode one color component as a DMX channel byte.
pub fn dmx_channel(c: u32) -> (b: u8)
    requires
        is_unit(c),
    ensures
        b == spec_dmx_channel(c as int),
{
    proof {
        lemma_dmx_channel_bounds(c as int);
    }
    ((c * 255 + UNIT / 2) / UNIT) as u8
}

proof fn lemma_dmx_channel_bounds(c: int)
    requires
        0 <= c <= UNIT,
    ensures
        0 <= spec_dmx_channel(c) <= 255,
{
    assert(0 <= (c * 255 + (UNIT as int) / 2) / (UNIT as int) <= 255) by (nonlinear_arith)
        requires 0 <= c <= UNIT;
}

/// The three channel bytes of a pixel, in red, green, blue order.
pub fn dmx_bytes(c: &Rgb) -> (b: (u8, u8, u8))
    requires
        c.wf(),
    ensures
        b.0 == spec_dmx_channel(c.red as int),
        b.1 == spec_dmx_channel(c.green as int),
        b.2 == spec_dmx_channel(c.blue as int),
{
    (dmx_channel(c.red), dmx_channel(c.green), dmx_channel(c.blue))
}

/// Round trip through the device encoding: decoding a channel byte back to a
/// fraction (`byte / 255`, i.e. `byte * UNIT` against `c * 255`) recovers the
/// component within an absolute error of `1 / 510`, well inside the promised
/// `1 / 255`.
pub proof fn lemma_dmx_round_trip(c: int)
    requires
        0 <= c <= UNIT,
    ensures
        0 <= spec_dmx_channel(c) <= 255,
        -(UNIT as int) / 2 <= spec_dmx_channel(c) * (UNIT as int) - c * 255 <= (UNIT as int) / 2,
{
    lemma_dmx_channel_bounds(c);
    let n = c * 255 + (UNIT as int) / 2;
    assert(spec_dmx_channel(c) * (UNIT as int) <= n < spec_dmx_channel(c) * (UNIT as int)
        + UNIT) by (nonlinear_arith)
        requires 0 <= n, spec_dmx_channel(c) == n / (UNIT as int);
}

} // verus!
