//! Spectrum smoother: combines a fresh magnitude vector with the previous
//! frame's smoothed vector using direction-dependent exponential smoothing,
//! and tracks the running extrema of the result in the same pass.

use vstd::prelude::*;

use crate::errors::VisualizerError;
use crate::MAG_BOUND;

verus! {

use vstd::arithmetic::div_mod::lemma_div_is_ordered;
use vstd::arithmetic::div_mod::lemma_div_multiples_vanish;

/// Extrema (minimum and maximum) of one frame's smoothed values, used to
/// normalize that frame into the display range.
#[derive(Clone, Copy, Debug, PartialEq, Eq, Structural)]
pub struct FrameExtrema {
    pub min: u64,
    pub max: u64,
}

/// Direction-dependent smoothing of one element, in fixed point.
///
/// A decaying signal (`c < p`) takes weight 0.2 on the previous value and 0.8
/// on the new low value (fast decay); a rising or equal signal takes weight
/// 0.8 on the previous value and 0.2 on the new one (slow attack). The
/// weights are written as exact integer arithmetic: `(2*p + 8*c) / 10` is the
/// fixed-point form of `p*0.2 + c*0.8`.
pub open spec fn smooth_one_spec(p: int, c: int) -> int {
    if c < p {
        (2 * p + 8 * c) / 10
    } else {
        (8 * p + 2 * c) / 10
    }
}

/// The smoothed element is a convex combination of the two inputs: it always
/// lies between the previous and the current value, inclusive. In particular
/// a rising signal (`p <= c`) is never overshot and a falling one is never
/// undershot.
pub proof fn lemma_smooth_one_convex(p: int, c: int)
    requires
        0 <= p,
        0 <= c,
    ensures
        c < p ==> c <= smooth_one_spec(p, c) <= p,
        p <= c ==> p <= smooth_one_spec(p, c) <= c,
{
    if c < p {
        lemma_div_multiples_vanish(c, 10);
        lemma_div_multiples_vanish(p, 10);
        lemma_div_is_ordered(10 * c, 2 * p + 8 * c, 10);
        lemma_div_is_ordered(2 * p + 8 * c, 10 * p, 10);
    } else {
        lemma_div_multiples_vanish(c, 10);
        lemma_div_multiples_vanish(p, 10);
        lemma_div_is_ordered(10 * p, 8 * p + 2 * c, 10);
        lemma_div_is_ordered(8 * p + 2 * c, 10 * c, 10);
    }
}

/// The asymmetry points the intended way: on a falling signal (`c < p`) the
/// fast-decay weights give a result no larger than the slow-attack weights
/// would have given for the same pair, so falling bars drop at least as fast
/// as rising bars climb.
pub proof fn lemma_decay_faster_than_attack(p: int, c: int)
    requires
        0 <= c < p,
    ensures
        smooth_one_spec(p, c) <= (8 * p + 2 * c) / 10,
{
    lemma_div_is_ordered(2 * p + 8 * c, 8 * p + 2 * c, 10);
}

/// Smooths `current` against `previous` element by element and returns the
/// new smoothed vector together with its extrema.
///
/// The two vectors must have equal, non-zero length; otherwise the frame
/// fails with `LengthMismatch` and no partial result is produced.
pub fn smooth(previous: &Vec<u64>, current: &Vec<u64>) -> (res: Result<
    (Vec<u64>, FrameExtrema),
    VisualizerError,
>)
    requires
        forall|i: int| 0 <= i < previous@.len() ==> #[trigger] previous@[i] <= MAG_BOUND,
        forall|i: int| 0 <= i < current@.len() ==> #[trigger] current@[i] <= MAG_BOUND,
    ensures
        res is Ok <==> (previous@.len() == current@.len() && current@.len() >= 1),
        res matches Ok(out) ==> {
            &&& out.0@.len() == current@.len()
            &&& forall|i: int|
                0 <= i < out.0@.len() ==> #[trigger] out.0@[i] == smooth_one_spec(
                    previous@[i] as int,
                    current@[i] as int,
                )
            &&& forall|i: int| 0 <= i < out.0@.len() ==> #[trigger] out.0@[i] <= MAG_BOUND
            &&& forall|i: int|
                0 <= i < out.0@.len() ==> (previous@[i] <= current@[i] ==> previous@[i]
                    <= #[trigger] out.0@[i] <= current@[i])
            &&& forall|i: int|
                0 <= i < out.0@.len() ==> (current@[i] < previous@[i] ==> current@[i]
                    <= #[trigger] out.0@[i] <= previous@[i])
            &&& forall|i: int|
                0 <= i < out.0@.len() ==> out.1.min <= #[trigger] out.0@[i] <= out.1.max
            &&& exists|i: int| 0 <= i < out.0@.len() && out.0@[i] == out.1.min
            &&& exists|i: int| 0 <= i < out.0@.len() && out.0@[i] == out.1.max
        },
        res matches Err(e) ==> e == VisualizerError::LengthMismatch,
{
    if previous.len() != current.len() || current.len() == 0 {
        return Err(VisualizerError::LengthMismatch);
    }
    let len = current.len();
    let mut out: Vec<u64> = Vec::new();
    let mut min: u64 = u64::MAX;
    let mut max: u64 = 0;
    let ghost mut kmin: int = 0;
    let ghost mut kmax: int = 0;
    let mut i: usize = 0;
    while i < len
        invariant
            len == previous@.len() == current@.len(),
            0 <= i <= len,
            out@.len() == i,
            forall|k: int| 0 <= k < previous@.len() ==> #[trigger] previous@[k] <= MAG_BOUND,
            forall|k: int| 0 <= k < current@.len() ==> #[trigger] current@[k] <= MAG_BOUND,
            forall|k: int|
                0 <= k < i ==> #[trigger] out@[k] == smooth_one_spec(
                    previous@[k] as int,
                    current@[k] as int,
                ),
            forall|k: int| 0 <= k < i ==> #[trigger] out@[k] <= MAG_BOUND,
            forall|k: int| 0 <= k < i ==> min <= #[trigger] out@[k] <= max,
            i > 0 ==> 0 <= kmin < i && out@[kmin] == min,
            i > 0 ==> 0 <= kmax < i && out@[kmax] == max,
            i == 0 ==> min == u64::MAX && max == 0 && kmin == 0 && kmax == 0,
        decreases len - i,
    {
        let p = previous[i];
        let c = current[i];
        let v: u64 = if c < p {
            (2 * p + 8 * c) / 10
        } else {
            (8 * p + 2 * c) / 10
        };
        proof {
            lemma_smooth_one_convex(p as int, c as int);
        }
        out.push(v);
        if v < min {
            min = v;
            proof {
                kmin = i as int;
            }
        }
        if v > max {
            max = v;
            proof {
                kmax = i as int;
            }
        }
        i += 1;
    }
    proof {
        assert(out@[kmin] == min);
        assert(out@[kmax] == max);
        assert forall|k: int| 0 <= k < out@.len() implies (previous@[k] <= current@[k]
            ==> previous@[k] <= #[trigger] out@[k] <= current@[k]) && (current@[k] < previous@[k]
            ==> current@[k] <= out@[k] <= previous@[k]) by {
            lemma_smooth_one_convex(previous@[k] as int, current@[k] as int);
        }
    }
    Ok((out, FrameExtrema { min, max }))
}

} // verus!
