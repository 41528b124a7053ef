//! A horizontal polyline: an ordered run of points at consecutive whole-unit
//! x positions, all sharing one base height at construction.
//!
//! Drawing does not touch the line: it takes one externally sampled
//! [`Sample`] per point and returns the colored vertices, each displaced
//! vertically by the wave and noise values of its sample.

use vstd::prelude::*;
use crate::color::Color;
use crate::color::color_from_noise;
use crate::color::tint_level;
use crate::color::opacity_level;

verus! {

/// One 2D point, both coordinates in fixed-point milli units.
#[verifier::ext_equal]
#[derive(Clone, Copy, Debug, PartialEq, Eq, Structural)]
pub struct Point {
    pub x: i64,
    pub y: i64,
}

/// The values sampled outside the library for one point, in milli units:
/// the smooth noise value at the point (in [-1000, 1000]) and the traveling
/// sine-wave displacement for the point (in [-1000, 1000]).
#[verifier::ext_equal]
#[derive(Clone, Copy, Debug, PartialEq, Eq, Structural)]
pub struct Sample {
    pub noise: i64,
    pub wave: i64,
}

/// One rendered vertex: a position in milli units and its color.
#[verifier::ext_equal]
#[derive(Clone, Copy, Debug, PartialEq, Eq, Structural)]
pub struct Vertex {
    pub x: i64,
    pub y: i64,
    pub color: Color,
}

/// An ordered sequence of points spanning a fixed horizontal extent.
#[derive(Clone, Debug, PartialEq, Eq)]
pub struct Line {
    pub points: Vec<Point>,
}

/// How many points a line of the given half-width holds: one per whole x in
/// [-half_width + 50, half_width - 50), so 2 * half_width - 100 when the
/// half-width exceeds the 50-unit margin, and none otherwise.
pub open spec fn point_count(half_width: int) -> int {
    if half_width > 50 {
        2 * half_width - 100
    } else {
        0
    }
}

/// The shape a freshly constructed line has: `point_count` points, the k-th
/// at x = (k - half_width + 50) whole units (in milli), all at the base
/// height.
pub open spec fn line_shape(points: Seq<Point>, base_height: int, half_width: int) -> bool {
    &&& points.len() == point_count(half_width)
    &&& forall|k: int|
        0 <= k < points.len() ==> {
            &&& (#[trigger] points[k]).x == 1000 * (k + 50 - half_width)
            &&& points[k].y == base_height
        }
}

/// What drawing yields: one vertex per point, at the point's x, with the
/// point's y displaced by the sample's wave and noise values, colored from
/// the same noise value that displaces it.
pub open spec fn draw_output_matches(points: Seq<Point>, samples: Seq<Sample>, out: Seq<Vertex>) -> bool {
    &&& out.len() == points.len()
    &&& forall|k: int|
        0 <= k < points.len() ==> {
            &&& (#[trigger] out[k]).x == points[k].x
            &&& out[k].y == points[k].y + samples[k].wave + samples[k].noise
            &&& out[k].color.r == 1000
            &&& out[k].color.g == tint_level(samples[k].noise as int)
            &&& out[k].color.b == tint_level(samples[k].noise as int)
            &&& out[k].color.a == opacity_level(samples[k].noise as int)
        }
}

impl Line {
    /// Builds the line for a base height (milli units) and a half-width
    /// (whole units): one point per whole x in [-half_width + 50,
    /// half_width - 50), each at the base height. A half-width of at most
    /// 50 yields an empty line.
    pub fn new(base_height: i64, half_width: i32) -> (line: Line)
        ensures
            line_shape(line.points@, base_height as int, half_width as int),
    {
        let lo: i64 = 50 - (half_width as i64);
        let hi: i64 = (half_width as i64) - 50;
        let mut points: Vec<Point> = Vec::new();
        let mut i: i64 = lo;
        while i < hi
            invariant
                lo == 50 - half_width as int,
                hi == half_width as int - 50,
                lo <= i,
                i <= hi || i == lo,
                points@.len() == i - lo,
                forall|k: int|
                    0 <= k < points@.len() ==> {
                        &&& (#[trigger] points@[k]).x == 1000 * (k + lo)
                        &&& points@[k].y == base_height
                    },
            decreases hi - i,
        {
            let x: i64 = i * 1000;
            points.push(Point { x, y: base_height });
            i = i + 1;
        }
        Line { points }
    }

    /// Replaces every point's y, in place, by the transform applied to the
    /// point's coordinates; x values and the point order stay as they are.
    /// This is the animation hook: the frame loop does not currently apply
    /// it, so at draw time every y still equals the base height.
    pub fn update<F: Fn(i64, i64) -> i64>(&mut self, transform: F)
        requires
            forall|k: int|
                0 <= k < old(self).points@.len() ==> call_requires(
                    transform,
                    ((#[trigger] old(self).points@[k]).x, old(self).points@[k].y),
                ),
        ensures
            final(self).points@.len() == old(self).points@.len(),
            forall|k: int|
                0 <= k < old(self).points@.len() ==> {
                    &&& (#[trigger] final(self).points@[k]).x == old(self).points@[k].x
                    &&& call_ensures(
                        transform,
                        (old(self).points@[k].x, old(self).points@[k].y),
                        final(self).points@[k].y,
                    )
                },
    {
        let n: usize = self.points.len();
        let mut idx: usize = 0;
        while idx < n
            invariant
                idx <= n,
                n == old(self).points@.len(),
                self.points@.len() == n,
                forall|k: int|
                    0 <= k < n ==> call_requires(
                        transform,
                        ((#[trigger] old(self).points@[k]).x, old(self).points@[k].y),
                    ),
                forall|k: int|
                    idx <= k < n ==> #[trigger] self.points@[k] == old(self).points@[k],
                forall|k: int|
                    0 <= k < idx ==> {
                        &&& (#[trigger] self.points@[k]).x == old(self).points@[k].x
                        &&& call_ensures(
                            transform,
                            (old(self).points@[k].x, old(self).points@[k].y),
                            self.points@[k].y,
                        )
                    },
            decreases n - idx,
        {
            let p: Point = self.points[idx];
            let new_y: i64 = transform(p.x, p.y);
            self.points[idx] = Point { x: p.x, y: new_y };
            idx = idx + 1;
        }
    }

    /// Draws the line: for each point, one vertex at the point's x whose y
    /// is the point's y plus the sample's wave and noise displacements, and
    /// whose color derives from the same noise value. The line itself is
    /// not touched.
    pub fn draw(&self, samples: &Vec<Sample>) -> (out: Vec<Vertex>)
        requires
            samples@.len() == self.points@.len(),
            forall|k: int|
                0 <= k < samples@.len() ==> {
                    &&& -1000 <= (#[trigger] samples@[k]).noise <= 1000
                    &&& -1000 <= samples@[k].wave <= 1000
                },
            forall|k: int|
                0 <= k < self.points@.len() ==> i64::MIN + 2000 <= (#[trigger] self.points@[k]).y
                    <= i64::MAX - 2000,
        ensures
            draw_output_matches(self.points@, samples@, out@),
    {
        let n: usize = self.points.len();
        let mut out: Vec<Vertex> = Vec::new();
        let mut idx: usize = 0;
        while idx < n
            invariant
                idx <= n,
                n == self.points@.len(),
                samples@.len() == n,
                forall|k: int|
                    0 <= k < n ==> {
                        &&& -1000 <= (#[trigger] samples@[k]).noise <= 1000
                        &&& -1000 <= samples@[k].wave <= 1000
                    },
                forall|k: int|
                    0 <= k < n ==> i64::MIN + 2000 <= (#[trigger] self.points@[k]).y
                        <= i64::MAX - 2000,
                out@.len() == idx,
                forall|k: int|
                    0 <= k < idx ==> {
                        &&& (#[trigger] out@[k]).x == self.points@[k].x
                        &&& out@[k].y == self.points@[k].y + samples@[k].wave + samples@[k].noise
                        &&& out@[k].color.r == 1000
                        &&& out@[k].color.g == tint_level(samples@[k].noise as int)
                        &&& out@[k].color.b == tint_level(samples@[k].noise as int)
                        &&& out@[k].color.a == opacity_level(samples@[k].noise as int)
                    },
            decreases n - idx,
        {
            let p: Point = self.points[idx];
            let s: Sample = samples[idx];
            let y: i64 = p.y + s.wave + s.noise;
            let color: Color = color_from_noise(s.noise);
            out.push(Vertex { x: p.x, y, color });
            idx = idx + 1;
        }
        out
    }
}

/// Law: a half-width of at most the 50-unit margin yields no points at all.
pub proof fn lemma_degenerate_empty(half_width: int)
    requires
        half_width <= 50,
    ensures
        point_count(half_width) == 0,
{
}

/// Law: updating with the identity transform leaves every point of the line
/// unchanged.
pub fn update_identity_unchanged(line: &mut Line)
    ensures
        final(line).points@ == old(line).points@,
{
    let identity = |x: i64, y: i64| -> (r: i64)
        ensures
            r == y,
        { y };
    line.update(identity);
    proof {
        assert(line.points@ =~= old(line).points@);
    }
}

/// Law: drawing is deterministic — the output is a function of the points
/// and samples alone, so two draws of the same line with the same samples
/// yield the same vertex and color sequence.
pub proof fn lemma_draw_deterministic(
    points: Seq<Point>,
    samples: Seq<Sample>,
    out1: Seq<Vertex>,
    out2: Seq<Vertex>,
)
    requires
        draw_output_matches(points, samples, out1),
        draw_output_matches(points, samples, out2),
    ensures
        out1 == out2,
{
    assert forall|k: int| 0 <= k < out1.len() implies out1[k] == out2[k] by {
        assert(out1[k] =~= out2[k]);
    }
    assert(out1 =~= out2);
}

} // verus!
