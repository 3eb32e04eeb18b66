//! Polylinear color ramps: a list of control points expanded into a
//! fixed-resolution gradient lookup table, sampled by index. A standalone
//! utility superseded by shader-side computation; it has no tie to the
//! render-session lifecycle.

use crate::color::Color;
use vstd::prelude::*;

verus! {

/// How many gradient entries a ramp aims for over all its segments.
pub const RAMP_RESOLUTION: u32 = 64;

/// One channel interpolated linearly from `a` (at position 0) to `b` (at
/// position `steps`), evaluated at position `x`, rounding toward `a`.
pub open spec fn spec_lerp_channel(a: u8, b: u8, x: int, steps: int) -> int
    recommends
        0 < steps,
{
    if b >= a {
        a + (x * (b - a)) / steps
    } else {
        a - (x * (a - b)) / steps
    }
}

/// An interpolated channel stays between its two endpoints (and so inside
/// the 8-bit range).
pub proof fn lemma_lerp_channel_bounds(a: u8, b: u8, x: int, steps: int)
    requires
        0 < steps,
        0 <= x <= steps,
    ensures
        if b >= a {
            a <= spec_lerp_channel(a, b, x, steps) <= b
        } else {
            b <= spec_lerp_channel(a, b, x, steps) <= a
        },
{
    if b >= a {
        let delta = b - a;
        assert(0 <= (x * delta) / steps <= delta) by (nonlinear_arith)
            requires 0 < steps, 0 <= x <= steps, 0 <= delta;
    } else {
        let delta = a - b;
        assert(0 <= (x * delta) / steps <= delta) by (nonlinear_arith)
            requires 0 < steps, 0 <= x <= steps, 0 <= delta;
    }
}

/// The gradient color at position `x` of a segment from `a` to `b` spanning
/// `steps` positions: each channel interpolated, fully opaque.
pub open spec fn spec_gradient_color(a: Color, b: Color, x: int, steps: int) -> Color {
    Color {
        r: spec_lerp_channel(a.r, b.r, x, steps) as u8,
        g: spec_lerp_channel(a.g, b.g, x, steps) as u8,
        b: spec_lerp_channel(a.b, b.b, x, steps) as u8,
        a: 255,
    }
}

/// A whole segment: `resolution` colors running from `a` (inclusive) to `b`
/// (inclusive, at index `resolution - 1`).
pub open spec fn spec_linear_gradient(a: Color, b: Color, resolution: int) -> Seq<Color> {
    Seq::new(resolution as nat, |x: int| spec_gradient_color(a, b, x, resolution - 1))
}

/// All segments of a ramp laid end to end: one segment per adjacent pair of
/// control points, each `per` colors long.
pub open spec fn spec_polylinear(colors: Seq<Color>, per: int) -> Seq<Color>
    decreases colors.len(),
{
    if colors.len() < 2 {
        Seq::empty()
    } else {
        spec_polylinear(colors.drop_last(), per) + spec_linear_gradient(
            colors[colors.len() - 2],
            colors.last(),
            per,
        )
    }
}

/// A color ramp: the control points it was built from and the expanded
/// gradient lookup table.
#[derive(Debug)]
pub struct ColorRamp {
    points: Vec<Color>,
    gradient: Vec<Color>,
}

impl ColorRamp {
    /// The control points this ramp was built from.
    pub closed spec fn spec_points(&self) -> Seq<Color> {
        self.points@
    }

    /// The expanded gradient table.
    pub closed spec fn spec_gradient(&self) -> Seq<Color> {
        self.gradient@
    }

    /// Builds a ramp from its control points. At least two points make a
    /// segment, and past 33 the per-segment share of the fixed resolution
    /// falls under two entries, leaving segments nothing to interpolate.
    pub fn new(points: Vec<Color>) -> (ramp: Self)
        requires
            2 <= points@.len() <= 33,
        ensures
            ramp.spec_points() == points@,
            ramp.spec_gradient() == spec_polylinear(
                points@,
                RAMP_RESOLUTION as int / (points@.len() - 1),
            ),
    {
        let mut copied: Vec<Color> = Vec::new();
        let mut i: usize = 0;
        while i < points.len()
            invariant
                i <= points.len(),
                copied@ =~= points@.subrange(0, i as int),
            decreases points.len() - i,
        {
            copied.push(points[i]);
            i = i + 1;
        }
        proof {
            assert(copied@ =~= points@);
        }
        let gradient = ColorRamp::polylinear_gradient(copied);
        ColorRamp { points, gradient }
    }

    /// One linear segment from `starting` to `ending`, `resolution` colors
    /// long, endpoints included.
    fn linear_gradient(starting: Color, ending: Color, resolution: u32) -> (gradient: Vec<Color>)
        requires
            2 <= resolution <= 0x1000000,
        ensures
            gradient@ == spec_linear_gradient(starting, ending, resolution as int),
    {
        let steps = resolution - 1;
        let mut gradient: Vec<Color> = Vec::new();
        let mut x: u32 = 0;
        while x < resolution
            invariant
                x <= resolution,
                2 <= resolution <= 0x1000000,
                steps == resolution - 1,
                gradient@.len() == x as int,
                forall|k: int|
                    0 <= k < x ==> gradient@[k] == spec_gradient_color(
                        starting,
                        ending,
                        k,
                        resolution - 1,
                    ),
            decreases resolution - x,
        {
            let r = Self::lerp_channel(starting.r, ending.r, x, steps);
            let g = Self::lerp_channel(starting.g, ending.g, x, steps);
            let b = Self::lerp_channel(starting.b, ending.b, x, steps);
            gradient.push(Color::new(r, g, b, 255));
            x = x + 1;
        }
        proof {
            assert(gradient@ =~= spec_linear_gradient(starting, ending, resolution as int));
        }
        gradient
    }

    fn lerp_channel(a: u8, b: u8, x: u32, steps: u32) -> (channel: u8)
        requires
            0 < steps,
            x <= steps,
            steps < 0x1000000,
        ensures
            channel == spec_lerp_channel(a, b, x as int, steps as int),
    {
        proof {
            lemma_lerp_channel_bounds(a, b, x as int, steps as int);
        }
        if b >= a {
            let delta = (b - a) as u32;
            proof {
                assert(x * delta <= 0xFFFFFF * 255) by (nonlinear_arith)
                    requires x < 0x1000000, delta <= 255;
            }
            let offset = (x * delta) / steps;
            a + (offset as u8)
        } else {
            let delta = (a - b) as u32;
            proof {
                assert(x * delta <= 0xFFFFFF * 255) by (nonlinear_arith)
                    requires x < 0x1000000, delta <= 255;
            }
            let offset = (x * delta) / steps;
            a - (offset as u8)
        }
    }

    /// Expands control points into the full gradient: one segment per
    /// adjacent pair, each taking an equal share of the fixed resolution.
    pub fn polylinear_gradient(colors: Vec<Color>) -> (gradient: Vec<Color>)
        requires
            2 <= colors@.len() <= 33,
        ensures
            gradient@ == spec_polylinear(colors@, RAMP_RESOLUTION as int / (colors@.len() - 1)),
    {
        let count = colors.len();
        let per = RAMP_RESOLUTION / ((count - 1) as u32);
        proof {
            assert(2 <= 64int / (count - 1) <= 64) by (nonlinear_arith)
                requires 1 <= count - 1 <= 32;
        }
        let mut gradient = Self::linear_gradient(colors[0], colors[1], per);
        proof {
            let two = colors@.subrange(0, 2);
            assert(two.drop_last() =~= colors@.subrange(0, 1));
            assert(spec_polylinear(colors@.subrange(0, 1), per as int) =~= Seq::<Color>::empty());
            assert(gradient@ =~= spec_polylinear(two, per as int));
        }
        let mut i: usize = 1;
        while i < count - 1
            invariant
                1 <= i <= count - 1,
                count == colors@.len(),
                2 <= count <= 33,
                per == RAMP_RESOLUTION as int / (count - 1),
                2 <= per <= 64,
                gradient@ =~= spec_polylinear(colors@.subrange(0, i as int + 1), per as int),
            decreases count - i,
        {
            let mut next = Self::linear_gradient(colors[i], colors[i + 1], per);
            gradient.append(&mut next);
            proof {
                let longer = colors@.subrange(0, i as int + 2);
                assert(longer.drop_last() =~= colors@.subrange(0, i as int + 1));
                assert(gradient@ =~= spec_polylinear(longer, per as int));
            }
            i = i + 1;
        }
        proof {
            assert(colors@.subrange(0, count as int) =~= colors@);
        }
        gradient
    }

    /// How many colors the expanded gradient holds.
    pub fn gradient_len(&self) -> (len: usize)
        ensures
            len == self.spec_gradient().len(),
    {
        self.gradient.len()
    }

    /// The gradient color at a table index.
    pub fn color_at_index(&self, index: usize) -> (color: Color)
        requires
            index < self.spec_gradient().len(),
        ensures
            color == self.spec_gradient()[index as int],
    {
        self.gradient[index]
    }
}

} // verus!
