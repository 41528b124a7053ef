//! The whole sketch state: the fixed set of lines and the animation offset.
//!
//! The fixed configuration is 17 lines spaced 32 units apart, spanning
//! base heights -256 .. 256, each 800 half-units wide. Every frame the
//! offset advances by 0.009 units (9 milli); nothing else changes after
//! construction.

use vstd::prelude::*;
use crate::line::Line;
use crate::line::line_shape;

verus! {

/// The offset advance per frame, in milli units (0.009 units).
pub const TICK_MILLI: i64 = 9;

/// How many lines the sketch holds.
pub const LINE_COUNT: usize = 17;

/// Vertical spacing between neighboring base heights, in milli units
/// (32 units).
pub const LINE_SPACING_MILLI: i64 = 32000;

/// The half-width every line is built with, in whole units.
pub const HALF_WIDTH: i32 = 800;

/// The side of the square window, in whole units.
pub const WINDOW_SIZE: u32 = 800;

/// The opacity of the full-window black fade drawn before the lines each
/// frame, in milli units (0.1).
pub const FADE_ALPHA_MILLI: i64 = 100;

/// The stroke weight of each polyline, in milli units (2 units).
pub const STROKE_WEIGHT_MILLI: i64 = 2000;

/// The sketch state: the lines, fixed at construction, and the animation
/// offset in milli units, advanced once per frame and touched by nothing
/// else — so it never decreases over the sketch's life.
pub struct Sketch {
    pub lines: Vec<Line>,
    pub offset: i64,
}

impl Sketch {
    /// Builds the starting state: 17 lines with base heights -256, -224,
    /// ..., 256 units (32 apart), each of half-width 800, and a zero
    /// offset.
    pub fn new() -> (s: Sketch)
        ensures
            s.offset == 0,
            s.lines@.len() == LINE_COUNT,
            forall|j: int|
                0 <= j < s.lines@.len() ==> line_shape(
                    (#[trigger] s.lines@[j]).points@,
                    (j - 8) * 32000,
                    800,
                ),
    {
        let mut lines: Vec<Line> = Vec::new();
        let mut i: i64 = -8;
        while i < 9
            invariant
                -8 <= i <= 9,
                lines@.len() == i + 8,
                forall|j: int|
                    0 <= j < lines@.len() ==> line_shape(
                        (#[trigger] lines@[j]).points@,
                        (j - 8) * 32000,
                        800,
                    ),
            decreases 9 - i,
        {
            let base_height: i64 = i * LINE_SPACING_MILLI;
            lines.push(Line::new(base_height, HALF_WIDTH));
            i = i + 1;
        }
        Sketch { lines, offset: 0 }
    }

    /// One frame tick: advances the offset by `TICK_MILLI` and leaves the
    /// lines untouched. The offset never decreases.
    pub fn tick(&mut self)
        requires
            old(self).offset <= i64::MAX - TICK_MILLI,
        ensures
            final(self).offset == old(self).offset + TICK_MILLI,
            final(self).lines == old(self).lines,
    {
        self.offset = self.offset + TICK_MILLI;
    }
}

} // verus!
