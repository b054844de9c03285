//! Signal-to-geometry pipeline of a real-time audio spectrum visualizer.
//!
//! Each frame, a magnitude vector from an external FFT stage is smoothed
//! against the previous frame with asymmetric attack/decay weights, normalized
//! into a bounded display range by the frame's extrema, and turned into a
//! triangulated bar-chart mesh with logarithmically spaced bars.
//!
//! All quantities are fixed-point integers: the constant [`SCALE`] stands for
//! the real value 1.0. The floating-point conversions at the boundary (raw FFT
//! magnitudes, the logarithm table for bar spacing) are the caller's concern.

use vstd::prelude::*;

pub mod errors;
pub mod geometry;
pub mod normalizer;
pub mod pipeline;
pub mod smoother;

verus! {

/// Number of bars in the reference configuration.
pub const N: usize = 256;

/// Fixed-point scale: the integer that stands for the real value 1.0.
pub const SCALE: u64 = 1048576;

/// Upper bound on the magnitude values the pipeline accepts, chosen so that
/// every intermediate product in smoothing and normalization fits in 64 bits.
pub const MAG_BOUND: u64 = 1099511627776;

} // verus!
