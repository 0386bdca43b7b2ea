use vstd::prelude::*;

verus! {

/// Why a call was rejected.
///
/// Every error is terminal for the call: the engine performs no local
/// recovery, and a failed transition leaves both the profile and the record
/// store untouched. Validation is binary by design, so that every replica
/// reaches the identical accept/reject outcome.
#[derive(Clone, Copy, Debug, PartialEq, Eq, Structural)]
pub enum FronsError {
    /// The host failed to supply the derived-address bookkeeping for a
    /// record. The engine itself never produces this; it belongs to the
    /// taxonomy so the host glue can surface it alongside the engine's own
    /// errors.
    MissingDerivedAddress,
    /// The reported start time lies more than the clock-skew tolerance past
    /// the trusted current time.
    SessionStartInFuture,
    /// The declared planned duration is non-positive or exceeds the cap.
    InvalidPlannedDuration,
    /// The reported end time precedes the start time, or the recorded span
    /// exceeds the cap.
    InvalidEndTime,
    /// A counter increment or sum would overflow its fixed-width integer.
    MathOverflow,
    /// The presented balance proof is malformed or names the wrong asset.
    InvalidFronSolAccount,
    /// The presented balance proof holds a zero balance.
    EmptyFronSolAccount,
}

} // verus!
