use vstd::prelude::*;

verus! {

/// Error surfaced to the frame driver when a component receives sequences of
/// unexpected length. The driver is expected to drop the malformed frame and
/// proceed to the next capture cycle; no partial results are produced.
#[derive(Clone, Copy, Debug, PartialEq, Eq, Structural)]
pub enum VisualizerError {
    LengthMismatch,
}

} // verus!
