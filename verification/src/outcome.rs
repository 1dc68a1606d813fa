use vstd::prelude::*;

verus! {

/// The single domain error: an operation intentionally declined to take
/// effect. It carries no payload and is returned to the caller as-is.
#[derive(Clone, Copy, Debug, PartialEq, Eq, Structural)]
pub enum FlipError {
    FlipError,
}

/// The outcome of one call: either the value the call committed, or the
/// failure it reported instead. An outcome is never persisted; it exists
/// only for the duration of one call, and it alone decides the fate of the
/// call's candidate value.
#[derive(Clone, Copy, Debug, PartialEq, Eq, Structural)]
pub enum Outcome {
    Success(bool),
    Failure(FlipError),
}

} // verus!
