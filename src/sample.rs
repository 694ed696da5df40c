//! Fixed-point audio samples and the integer arithmetic the analysis needs.
use vstd::prelude::*;

verus! {

/// One mono audio sample as a fixed-point amplitude: [`SAMPLE_SCALE`] stands for full scale,
/// so the usual range of a signal is `[-SAMPLE_SCALE, SAMPLE_SCALE]`.
pub type Sample = i32;

/// The sample value of full scale (amplitude 1.0): samples are millionths of full scale.
pub const SAMPLE_SCALE: i32 = 1_000_000;

/// Absolute value.
pub open spec fn abs(x: int) -> nat {
    if x < 0 {
        (-x) as nat
    } else {
        x as nat
    }
}

/// `n / d` rounded to the nearest integer, halves rounded up.
pub open spec fn div_round(n: nat, d: nat) -> nat
    recommends
        d > 0,
{
    (2 * n + d) / (2 * d)
}

/// `x / d` rounded to the nearest integer, halves rounded away from zero.
pub open spec fn signed_div_round(x: int, d: nat) -> int
    recommends
        d > 0,
{
    if x < 0 {
        -(div_round(abs(x), d) as int)
    } else {
        div_round(abs(x), d) as int
    }
}

/// Whether every sample lies within full scale, `[-1, 1]`.
pub open spec fn within_full_scale(s: Seq<Sample>) -> bool {
    forall|i: int| 0 <= i < s.len() ==> abs(s[i] as int) <= SAMPLE_SCALE
}

/// The absolute value of a sample.
pub fn sample_abs(x: Sample) -> (r: u32)
    ensures
        r == abs(x as int),
{
    if x < 0 {
        (-(x as i64)) as u32
    } else {
        x as u32
    }
}

/// A sample value rounded to thousandths of full scale (three decimal places).
pub fn round_to_thousandths(x: Sample) -> (r: i32)
    ensures
        r == signed_div_round(x as int, 1000),
        abs(r as int) == div_round(abs(x as int), 1000),
{
    let a = sample_abs(x) as u64;
    let q = ((2 * a + 1000) / 2000) as i32;
    if x < 0 {
        -q
    } else {
        q
    }
}

} // verus!
