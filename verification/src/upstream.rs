//! Upstream collaborator values this core consumes but never reinterprets:
//! error markers from inter-stage channels, rendered error details from
//! decoding and subprocess supervision, and monotonic-clock readings.

use vstd::prelude::*;

verus! {

/// Marker that the downstream side of an inter-stage channel has closed, so
/// events could not be forwarded.
#[derive(Debug)]
pub struct ClosedError {}

/// An error surfaced by an upstream collaborator (for instance a subprocess
/// supervisor), already rendered to its human-readable detail text. The core
/// only places this text in a log field; it draws no metric labels from it.
#[derive(Debug)]
pub struct UpstreamError {
    pub message: String,
}

/// A framing error from the decoding collaborator, already rendered to its
/// detail text.
#[derive(Debug)]
pub struct FramingError {
    pub message: String,
}

/// A reading of a monotonic clock, as whole nanoseconds from an arbitrary
/// process-local origin. Timing events carry two of these; the caller must
/// take `end` no earlier than `start`.
#[derive(Clone, Copy, Debug, PartialEq, Eq, Structural)]
pub struct TimePoint {
    pub nanos: u64,
}

} // verus!
