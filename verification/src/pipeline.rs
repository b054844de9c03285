//! Per-frame signal-to-geometry pipeline: smoothing, normalization and
//! vertex-buffer construction in one call, as the frame driver runs it once
//! per captured frame. The index buffer depends only on the bar count and is
//! built separately, once, with [`crate::geometry::compute_bar_indices`].

use vstd::prelude::*;

use crate::errors::VisualizerError;
use crate::geometry::bar_vertices_spec;
use crate::geometry::compute_bar_vertice;
use crate::geometry::sum_steps;
use crate::geometry::Vertex;
use crate::normalizer::norm_one_spec;
use crate::normalizer::normalize;
use crate::smoother::smooth;
use crate::smoother::smooth_one_spec;
use crate::smoother::FrameExtrema;
use crate::MAG_BOUND;
use crate::SCALE;

verus! {

/// Everything one frame produces: the new smoothed state (the "last frame"
/// memory for the next call), its extrema, the normalized heights, and the
/// vertex buffer ready for upload.
pub struct FrameOutput {
    pub smoothed: Vec<u64>,
    pub extrema: FrameExtrema,
    pub heights: Vec<u64>,
    pub vertices: Vec<Vertex>,
}

/// Runs one frame through the whole pipeline.
///
/// `previous` is the smoothed state of the last frame (all zeros initially),
/// `current` the fresh magnitude vector from the FFT stage; both must have
/// length `steps.len() + 2` (one magnitude per bar plus two boundary bins).
/// The normalizer emits one height per bar plus one trailing boundary height;
/// only the per-bar heights shape the mesh.
pub fn process_frame(previous: &Vec<u64>, current: &Vec<u64>, steps: &Vec<u64>) -> (res: Result<
    FrameOutput,
    VisualizerError,
>)
    requires
        forall|i: int| 0 <= i < previous@.len() ==> #[trigger] previous@[i] <= MAG_BOUND,
        forall|i: int| 0 <= i < current@.len() ==> #[trigger] current@[i] <= MAG_BOUND,
        forall|i: int| 0 <= i < steps@.len() ==> 0 < #[trigger] steps@[i] <= 4 * SCALE,
        steps@.len() <= 0x1000000,
    ensures
        res is Ok <==> (previous@.len() == current@.len() && current@.len() == steps@.len() + 2),
        res matches Ok(out) ==> out.smoothed@.len() == current@.len(),
        res matches Ok(out) ==> forall|i: int|
            0 <= i < out.smoothed@.len() ==> #[trigger] out.smoothed@[i] == smooth_one_spec(
                previous@[i] as int,
                current@[i] as int,
            ),
        res matches Ok(out) ==> forall|i: int|
            0 <= i < out.smoothed@.len() ==> out.extrema.min <= #[trigger] out.smoothed@[i]
                <= out.extrema.max,
        res matches Ok(out) ==> exists|i: int|
            0 <= i < out.smoothed@.len() && out.smoothed@[i] == out.extrema.min,
        res matches Ok(out) ==> exists|i: int|
            0 <= i < out.smoothed@.len() && out.smoothed@[i] == out.extrema.max,
        res matches Ok(out) ==> out.heights@.len() == steps@.len() + 1,
        res matches Ok(out) ==> forall|i: int|
            0 <= i < out.heights@.len() ==> #[trigger] out.heights@[i] == norm_one_spec(
                out.smoothed@[i + 1] as int,
                out.extrema.min as int,
                out.extrema.max as int,
            ),
        res matches Ok(out) ==> bar_vertices_spec(out.vertices@, out.heights@, steps@),
        res matches Ok(out) ==> forall|i: int, j: int|
            0 <= i < j <= steps@.len() ==> (#[trigger] out.vertices@[i]).x
                < (#[trigger] out.vertices@[j]).x,
        res matches Ok(out) ==> out.vertices@[steps@.len() as int].x == -(SCALE as int)
            + sum_steps(steps@),
        res matches Err(e) ==> e == VisualizerError::LengthMismatch,
{
    if previous.len() != current.len() || current.len() != steps.len() + 2 {
        return Err(VisualizerError::LengthMismatch);
    }
    let (smoothed, extrema) = match smooth(previous, current) {
        Ok(r) => r,
        Err(e) => {
            return Err(e);
        },
    };
    let heights = match normalize(&smoothed, extrema) {
        Ok(h) => h,
        Err(e) => {
            return Err(e);
        },
    };
    let n = steps.len();
    let mut bar_heights: Vec<u64> = Vec::new();
    let mut i: usize = 0;
    while i < n
        invariant
            n == steps@.len(),
            heights@.len() == n + 1,
            forall|k: int| 0 <= k < heights@.len() ==> #[trigger] heights@[k] <= 2 * SCALE,
            0 <= i <= n,
            bar_heights@.len() == i,
            forall|k: int| 0 <= k < i ==> #[trigger] bar_heights@[k] == heights@[k],
        decreases n - i,
    {
        bar_heights.push(heights[i]);
        i += 1;
    }
    let vertices = match compute_bar_vertice(&bar_heights, steps) {
        Ok(v) => v,
        Err(e) => {
            return Err(e);
        },
    };
    proof {
        assert forall|m: int|
            n + 1 <= m < 3 * (n as int) + 1 implies (#[trigger] vertices@[m]).y == heights@[(m - n
            - 1) / 2] - SCALE by {
            assert(0 <= (m - n - 1) / 2 < n);
            assert(bar_heights@[(m - n - 1) / 2] == heights@[(m - n - 1) / 2]);
        }
        assert(bar_vertices_spec(vertices@, heights@, steps@));
    }
    Ok(FrameOutput { smoothed, extrema, heights, vertices })
}

} // verus!
