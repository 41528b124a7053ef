//! Per-point color derivation from a noise sample.
//!
//! A noise sample in [-1000, 1000] (fixed point for [-1.0, 1.0]) is mapped
//! linearly to an alpha level in [0, 1000]. The red channel is held at full
//! intensity; green and blue are the square of the alpha level and the
//! opacity its cube, so that color and opacity concentrate near the noise
//! extremes.

use vstd::prelude::*;

verus! {

/// An RGBA color with fixed-point channels: 1000 is full intensity, 0 none.
#[verifier::ext_equal]
#[derive(Clone, Copy, Debug, PartialEq, Eq, Structural)]
pub struct Color {
    pub r: i64,
    pub g: i64,
    pub b: i64,
    pub a: i64,
}

/// The alpha level for a noise sample: the linear map of [-1000, 1000]
/// onto [0, 1000].
pub open spec fn alpha_level(noise: int) -> int {
    (noise + 1000) / 2
}

/// The green and blue channel for a noise sample: the fixed-point square
/// of the alpha level.
pub open spec fn tint_level(noise: int) -> int {
    alpha_level(noise) * alpha_level(noise) / 1000
}

/// The opacity for a noise sample: the fixed-point cube of the alpha level.
pub open spec fn opacity_level(noise: int) -> int {
    alpha_level(noise) * alpha_level(noise) * alpha_level(noise) / 1000000
}

/// Maps a noise sample to its alpha level.
pub fn alpha_from_noise(noise: i64) -> (alpha: i64)
    requires
        -1000 <= noise <= 1000,
    ensures
        alpha == alpha_level(noise as int),
        0 <= alpha <= 1000,
{
    let shifted: u64 = (noise + 1000) as u64;
    let alpha: u64 = shifted / 2;
    alpha as i64
}

/// Derives the full color for a noise sample: red at full intensity, green
/// and blue at the squared alpha level, opacity at the cubed alpha level.
pub fn color_from_noise(noise: i64) -> (c: Color)
    requires
        -1000 <= noise <= 1000,
    ensures
        c.r == 1000,
        c.g == tint_level(noise as int),
        c.b == tint_level(noise as int),
        c.a == opacity_level(noise as int),
{
    let alpha: i64 = alpha_from_noise(noise);
    let a: u64 = alpha as u64;
    proof {
        assert(a * a <= 1000000) by (nonlinear_arith)
            requires a <= 1000;
        assert(a * a * a <= 1000000000) by (nonlinear_arith)
            requires a <= 1000;
    }
    let square: u64 = a * a;
    let cube: u64 = square * a;
    let tint: u64 = square / 1000;
    let opacity: u64 = cube / 1000000;
    Color { r: 1000, g: tint as i64, b: tint as i64, a: opacity as i64 }
}

/// Law: the alpha level is monotonically non-decreasing in the noise sample
/// over [-1000, 1000], and stays within [0, 1000].
pub proof fn lemma_alpha_monotone(n1: int, n2: int)
    requires
        -1000 <= n1 <= n2 <= 1000,
    ensures
        alpha_level(n1) <= alpha_level(n2),
        0 <= alpha_level(n1) <= 1000,
{
    vstd::arithmetic::div_mod::lemma_div_is_ordered(n1 + 1000, n2 + 1000, 2);
}

/// Law: for every noise sample in [-1000, 1000], green and blue equal the
/// squared alpha level, the opacity the cubed one, and all channels lie in
/// [0, 1000].
pub proof fn lemma_channel_bounds(n: int)
    requires
        -1000 <= n <= 1000,
    ensures
        0 <= tint_level(n) <= 1000,
        0 <= opacity_level(n) <= 1000,
{
    let a = alpha_level(n);
    assert(0 <= a <= 1000);
    assert(0 <= a * a <= 1000000) by (nonlinear_arith)
        requires 0 <= a <= 1000;
    assert(0 <= a * a * a <= 1000000000) by (nonlinear_arith)
        requires 0 <= a <= 1000;
}

} // verus!
