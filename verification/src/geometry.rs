//! Bar geometry builder: turns a sequence of normalized heights into a
//! vertex buffer and a triangle-list index buffer describing vertically
//! oriented bars whose widths shrink along a logarithmic horizontal axis.
//!
//! The horizontal spacing is handed in as a table of positive fixed-point
//! increments, one per bar (for bar `i`, counted from 1, the real value
//! `(log10((i+1)/i) / log10(n)) * 2.0`). Computing the logarithms is the
//! caller's concern; this module owns the layout of the two vertex bands and
//! of the triangle indices.

use vstd::prelude::*;

use crate::errors::VisualizerError;
use crate::SCALE;

verus! {

/// One vertex position, in fixed point; `z` is always 0.
#[derive(Clone, Copy, Debug, PartialEq, Eq, Structural)]
pub struct Vertex {
    pub x: i64,
    pub y: i64,
    pub z: i64,
}

/// One triangle, as three indices into the vertex buffer.
#[derive(Clone, Copy, Debug, PartialEq, Eq, Structural)]
pub struct TriIndexes {
    pub a: u32,
    pub b: u32,
    pub c: u32,
}

/// Sum of a table of horizontal increments.
pub open spec fn sum_steps(s: Seq<u64>) -> int
    decreases s.len(),
{
    if s.len() == 0 {
        0
    } else {
        sum_steps(s.drop_last()) + s.last()
    }
}

/// Layout of the vertex buffer for `steps.len()` bars, two logical bands:
///
/// - band A, indices `0..=n`: baseline vertices at `y == -1`, `x` starting at
///   -1 and growing by one increment per bar;
/// - band B, indices `n+1..3n+1`: two top vertices per bar, vertex `n+1+i`
///   sharing its `x` with baseline vertex `(i+1)/2` and sitting at the height
///   of bar `i/2`, shifted down by 1.
pub open spec fn bar_vertices_spec(v: Seq<Vertex>, heights: Seq<u64>, steps: Seq<u64>) -> bool {
    let n = steps.len() as int;
    &&& v.len() == 3 * n + 1
    &&& v[0].x == -(SCALE as int)
    &&& forall|i: int| 0 <= i <= n ==> (#[trigger] v[i]).y == -(SCALE as int) && v[i].z == 0
    &&& forall|i: int| 1 <= i <= n ==> (#[trigger] v[i]).x == v[i - 1].x + steps[i - 1]
    &&& forall|m: int|
        n + 1 <= m < 3 * n + 1 ==> {
            &&& (#[trigger] v[m]).x == v[(m - n) / 2].x
            &&& v[m].y == heights[(m - n - 1) / 2] - SCALE
            &&& v[m].z == 0
        }
}

/// Builds the vertex buffer for one frame.
///
/// `heights` must hold exactly one height per bar, i.e. one per entry of
/// `steps`; otherwise the frame fails with `LengthMismatch`. On success the
/// buffer follows [`bar_vertices_spec`], the baseline x-coordinates are
/// strictly increasing, and the last baseline vertex sits at -1 plus the sum
/// of all increments (real value ~1, up to the caller's rounding).
pub fn compute_bar_vertice(heights: &Vec<u64>, steps: &Vec<u64>) -> (res: Result<
    Vec<Vertex>,
    VisualizerError,
>)
    requires
        forall|i: int| 0 <= i < heights@.len() ==> #[trigger] heights@[i] <= 2 * SCALE,
        forall|i: int| 0 <= i < steps@.len() ==> 0 < #[trigger] steps@[i] <= 4 * SCALE,
        steps@.len() <= 0x1000000,
    ensures
        res is Ok <==> heights@.len() == steps@.len(),
        res matches Ok(v) ==> {
            &&& bar_vertices_spec(v@, heights@, steps@)
            &&& forall|i: int, j: int|
                0 <= i < j <= steps@.len() ==> (#[trigger] v@[i]).x < (#[trigger] v@[j]).x
            &&& v@[steps@.len() as int].x == -(SCALE as int) + sum_steps(steps@)
        },
        res matches Err(e) ==> e == VisualizerError::LengthMismatch,
{
    if heights.len() != steps.len() {
        return Err(VisualizerError::LengthMismatch);
    }
    let n = steps.len();
    let mut v: Vec<Vertex> = Vec::new();
    let base: i64 = -(SCALE as i64);
    v.push(Vertex { x: base, y: base, z: 0 });
    let mut i: usize = 1;
    while i <= n
        invariant
            n == steps@.len() == heights@.len(),
            n <= 0x1000000,
            forall|k: int| 0 <= k < steps@.len() ==> 0 < #[trigger] steps@[k] <= 4 * SCALE,
            1 <= i <= n + 1,
            base == -(SCALE as int),
            v@.len() == i,
            v@[0].x == -(SCALE as int),
            forall|k: int| 0 <= k < i ==> (#[trigger] v@[k]).y == -(SCALE as int) && v@[k].z == 0,
            forall|k: int| 1 <= k < i ==> (#[trigger] v@[k]).x == v@[k - 1].x + steps@[k - 1],
            forall|k1: int, k2: int|
                0 <= k1 < k2 < i ==> (#[trigger] v@[k1]).x < (#[trigger] v@[k2]).x,
            forall|k: int|
                0 <= k < i ==> -(SCALE as int) <= (#[trigger] v@[k]).x <= -(SCALE as int) + 4 * (
                SCALE as int) * k,
            v@[i - 1].x == -(SCALE as int) + sum_steps(steps@.take(i - 1)),
        decreases n + 1 - i,
    {
        let last_x = v[i - 1].x;
        let step = steps[i - 1];
        proof {
            assert(steps@.take(i as int).drop_last() =~= steps@.take(i - 1));
            assert(steps@.take(i as int).last() == steps@[i - 1]);
        }
        v.push(Vertex { x: last_x + step as i64, y: base, z: 0 });
        i += 1;
    }
    proof {
        assert(steps@.take(n as int) =~= steps@);
    }
    let mut j: usize = 0;
    while j < 2 * n
        invariant
            n == steps@.len() == heights@.len(),
            n <= 0x1000000,
            forall|k: int| 0 <= k < heights@.len() ==> #[trigger] heights@[k] <= 2 * SCALE,
            0 <= j <= 2 * n,
            v@.len() == n + 1 + j,
            v@[0].x == -(SCALE as int),
            forall|k: int|
                0 <= k <= n ==> (#[trigger] v@[k]).y == -(SCALE as int) && v@[k].z == 0,
            forall|k: int| 1 <= k <= n ==> (#[trigger] v@[k]).x == v@[k - 1].x + steps@[k - 1],
            forall|k1: int, k2: int|
                0 <= k1 < k2 <= n ==> (#[trigger] v@[k1]).x < (#[trigger] v@[k2]).x,
            v@[n as int].x == -(SCALE as int) + sum_steps(steps@),
            forall|m: int|
                n + 1 <= m < n + 1 + j ==> {
                    &&& (#[trigger] v@[m]).x == v@[(m - n) / 2].x
                    &&& v@[m].y == heights@[(m - n - 1) / 2] - SCALE
                    &&& v@[m].z == 0
                },
        decreases 2 * n - j,
    {
        let bx = v[(j + 1) / 2].x;
        let hy = heights[j / 2] as i64 - SCALE as i64;
        v.push(Vertex { x: bx, y: hy, z: 0 });
        j += 1;
    }
    Ok(v)
}

/// Builds the triangle-list index buffer for `n` bars: for each bar `i`, the
/// quad made of baseline vertices `i`, `i+1` and top vertices `n+1+2i`,
/// `n+1+2i+1` is split into the two triangles `(i, i+1, n+1+2i)` and
/// `(i+1, n+1+2i, n+1+2i+1)`.
///
/// The buffer depends only on `n`, never on per-frame data, so it can be
/// built once at startup and reused. It holds exactly `2n` triangles, every
/// index is a valid position in a vertex buffer of length `3n+1`, the third
/// corner of triangle `k` is always vertex `n+1+k`, and no triangle repeats.
pub fn compute_bar_indices(n: usize) -> (res: Vec<TriIndexes>)
    requires
        3 * n + 1 <= u32::MAX,
    ensures
        res@.len() == 2 * n,
        forall|k: int|
            0 <= k < 2 * n && k % 2 == 0 ==> (#[trigger] res@[k]).a == k / 2 && res@[k].b == k / 2
                + 1,
        forall|k: int|
            0 <= k < 2 * n && k % 2 == 1 ==> (#[trigger] res@[k]).a == (k + 1) / 2 && res@[k].b
                == n + k,
        forall|k: int| 0 <= k < 2 * n ==> (#[trigger] res@[k]).c == n + 1 + k,
        forall|k: int|
            0 <= k < 2 * n ==> (#[trigger] res@[k]).a < 3 * n + 1 && res@[k].b < 3 * n + 1
                && res@[k].c < 3 * n + 1,
        forall|k1: int, k2: int| 0 <= k1 < k2 < 2 * n ==> res@[k1] != res@[k2],
{
    let mut res: Vec<TriIndexes> = Vec::new();
    let mid: u32 = (n + 1) as u32;
    let mut i: usize = 0;
    while i < n
        invariant
            3 * n + 1 <= u32::MAX,
            mid == n + 1,
            0 <= i <= n,
            res@.len() == 2 * i,
            forall|k: int|
                0 <= k < 2 * i && k % 2 == 0 ==> (#[trigger] res@[k]).a == k / 2 && res@[k].b == k
                    / 2 + 1,
            forall|k: int|
                0 <= k < 2 * i && k % 2 == 1 ==> (#[trigger] res@[k]).a == (k + 1) / 2
                    && res@[k].b == n + k,
            forall|k: int| 0 <= k < 2 * i ==> (#[trigger] res@[k]).c == n + 1 + k,
        decreases n - i,
    {
        let j: u32 = i as u32;
        res.push(TriIndexes { a: j, b: j + 1, c: mid + j * 2 });
        res.push(TriIndexes { a: j + 1, b: mid + j * 2, c: mid + j * 2 + 1 });
        i += 1;
    }
    proof {
        assert forall|k1: int, k2: int| 0 <= k1 < k2 < 2 * n implies res@[k1] != res@[k2] by {
            assert(res@[k1].c == n + 1 + k1);
            assert(res@[k2].c == n + 1 + k2);
        }
    }
    res
}

} // verus!
