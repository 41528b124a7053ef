//! A small generative sketch core: a set of horizontal polylines, each point
//! colored and displaced from a smooth noise sample, animated by a time
//! offset that advances a fixed step per frame.
//!
//! Every scalar quantity in this crate is a fixed-point integer with `MILLI`
//! (1000) steps per whole unit: a coordinate of 1.5 units is stored as 1500,
//! a color channel of 0.25 as 250, a noise sample of -1.0 as -1000. The
//! windowing, the noise generator and the trigonometry live outside the
//! library; they hand their samples in as plain fixed-point values, and every
//! decision made on those values is verified here.

use vstd::prelude::*;

pub mod color;
pub mod line;
pub mod sketch;

verus! {

/// Fixed-point steps per whole unit.
pub const MILLI: i64 = 1000;

} // verus!
