//! Height normalizer: maps the smoothed values of one frame into the fixed
//! display range `[0, 2]` (in fixed point, `[0, 2 * SCALE]`) using the
//! frame's extrema.
//!
//! Degenerate-range policy: when `max == min` (silent or constant input)
//! every output height is 0. This is the documented deterministic choice for
//! the zero-division guard; the frame is still rendered, as a row of flat
//! bars.

use vstd::prelude::*;

use crate::errors::VisualizerError;
use crate::smoother::FrameExtrema;
use crate::MAG_BOUND;
use crate::SCALE;

verus! {

use vstd::arithmetic::div_mod::lemma_div_is_ordered;
use vstd::arithmetic::div_mod::lemma_div_multiples_vanish;

/// Normalization of one element, in fixed point: the real formula is
/// `((v - lo) / (hi - lo)) * 2.0`, so an element equal to `lo` maps to 0 and
/// one equal to `hi` maps to `2 * SCALE`. When `hi == lo` the documented
/// degenerate policy applies and the height is 0.
pub open spec fn norm_one_spec(v: int, lo: int, hi: int) -> int {
    if lo == hi {
        0
    } else {
        ((v - lo) * 2 * SCALE) / (hi - lo)
    }
}

/// For a non-degenerate range the normalized height lies in `[0, 2 * SCALE]`;
/// the element equal to the minimum maps exactly to 0 and the element equal
/// to the maximum maps exactly to `2 * SCALE`.
pub proof fn lemma_norm_one_range(v: int, lo: int, hi: int)
    requires
        lo <= v <= hi,
        lo < hi,
    ensures
        0 <= norm_one_spec(v, lo, hi) <= 2 * SCALE,
        v == lo ==> norm_one_spec(v, lo, hi) == 0,
        v == hi ==> norm_one_spec(v, lo, hi) == 2 * SCALE,
{
    let d = hi - lo;
    let num = (v - lo) * 2 * SCALE;
    assert(0 <= num <= d * (2 * SCALE)) by (nonlinear_arith)
        requires
            0 <= v - lo <= d,
            num == (v - lo) * 2 * SCALE,
            SCALE > 0,
    ;
    lemma_div_is_ordered(0, num, d);
    lemma_div_is_ordered(num, d * (2 * SCALE), d);
    lemma_div_multiples_vanish(2 * SCALE, d);
    assert(v == hi ==> num == d * (2 * SCALE)) by (nonlinear_arith)
        requires
            num == (v - lo) * 2 * SCALE,
            d == hi - lo,
    ;
}

/// The degenerate policy is a constant: whatever the element, a frame whose
/// extrema coincide normalizes to height 0. Together with the exact per-
/// element formula this makes the normalizer deterministic on silent input.
pub proof fn lemma_degenerate_flat(v: int, m: int)
    ensures
        norm_one_spec(v, m, m) == 0,
{
}

/// Normalizes the smoothed values into heights in `[0, 2 * SCALE]`.
///
/// Only elements with index >= 1 are retained: the element at index 0 exists
/// to seed extrema tracking and edge geometry, so the output has one element
/// fewer than the input. An empty input fails with `LengthMismatch`.
pub fn normalize(smoothed: &Vec<u64>, extrema: FrameExtrema) -> (res: Result<
    Vec<u64>,
    VisualizerError,
>)
    requires
        extrema.min <= extrema.max <= MAG_BOUND,
        forall|i: int|
            0 <= i < smoothed@.len() ==> extrema.min <= #[trigger] smoothed@[i] <= extrema.max,
    ensures
        res is Ok <==> smoothed@.len() >= 1,
        res matches Ok(heights) ==> {
            &&& heights@.len() == smoothed@.len() - 1
            &&& forall|i: int|
                0 <= i < heights@.len() ==> #[trigger] heights@[i] == norm_one_spec(
                    smoothed@[i + 1] as int,
                    extrema.min as int,
                    extrema.max as int,
                )
            &&& forall|i: int| 0 <= i < heights@.len() ==> #[trigger] heights@[i] <= 2 * SCALE
        },
        res matches Err(e) ==> e == VisualizerError::LengthMismatch,
{
    if smoothed.len() == 0 {
        return Err(VisualizerError::LengthMismatch);
    }
    let len = smoothed.len();
    let lo = extrema.min;
    let hi = extrema.max;
    let mut heights: Vec<u64> = Vec::new();
    let mut i: usize = 1;
    while i < len
        invariant
            len == smoothed@.len(),
            1 <= i <= len,
            lo == extrema.min,
            hi == extrema.max,
            lo <= hi <= MAG_BOUND,
            forall|k: int| 0 <= k < smoothed@.len() ==> lo <= #[trigger] smoothed@[k] <= hi,
            heights@.len() == i - 1,
            forall|k: int|
                0 <= k < heights@.len() ==> #[trigger] heights@[k] == norm_one_spec(
                    smoothed@[k + 1] as int,
                    lo as int,
                    hi as int,
                ),
            forall|k: int| 0 <= k < heights@.len() ==> #[trigger] heights@[k] <= 2 * SCALE,
        decreases len - i,
    {
        let v = smoothed[i];
        let h: u64 = if hi == lo {
            0
        } else {
            proof {
                lemma_norm_one_range(v as int, lo as int, hi as int);
            }
            (v - lo) * 2 * SCALE / (hi - lo)
        };
        heights.push(h);
        i += 1;
    }
    Ok(heights)
}

} // verus!
