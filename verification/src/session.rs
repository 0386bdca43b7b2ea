use vstd::prelude::*;

verus! {

/// The kind of a reported work session.
#[derive(Clone, Copy, Debug, PartialEq, Eq, Structural)]
pub enum SessionKind {
    Focus,
    Rest,
    Cancelled,
}

/// Externally presented proof that the caller holds a balance in a designated
/// asset account. The host reads the account and hands the engine this plain
/// shape; the engine never mutates it.
#[derive(Clone, Copy, Debug, PartialEq, Eq, Structural)]
pub struct BalanceProof {
    /// Host-assigned identity of the asset the balance is held in.
    pub asset_identity: u64,
    /// The balance itself.
    pub amount: u64,
}

/// The caller-supplied description of one session, as validated by the
/// engine. Timestamps are signed seconds; durations are seconds.
#[derive(Clone, Copy, Debug, PartialEq, Eq)]
pub struct SessionInput {
    pub kind: SessionKind,
    pub start_ts: i64,
    /// The actual completion time, when one was reported.
    pub end_ts: Option<i64>,
    /// The declared intended length of the session.
    pub planned_duration_seconds: i64,
}

impl SessionInput {
    /// The actually-completed span, `end_ts - start_ts`, when an end time was
    /// reported.
    pub open spec fn spec_actual_duration(self) -> Option<int> {
        match self.end_ts {
            None => None,
            Some(end) => Some(end - self.start_ts),
        }
    }
}

/// One immutable record of a completed `record_session` call, addressed by
/// `(owner, index)`. Records are created exactly once and never mutated or
/// deleted, forming an append-only audit trail.
#[derive(Clone, Copy, Debug, PartialEq, Eq)]
pub struct SessionRecord {
    /// Identity of the user the session belongs to.
    pub owner: u64,
    /// The owning profile's `session_count` at creation time. The host's
    /// exclusivity-on-create storage guarantees the same index can never be
    /// written twice for the same owner.
    pub index: u64,
    pub kind: SessionKind,
    pub start_ts: i64,
    /// Absent when the session's completion time was not reported.
    pub end_ts: Option<i64>,
    pub planned_duration_seconds: i64,
    /// `end_ts - start_ts` when an end time was reported.
    pub actual_duration_seconds: Option<i64>,
    /// The signed reward applied to the profile by this session.
    pub points_delta: i64,
    /// The basis-points multiplier actually used.
    pub multiplier_applied_bps: i64,
    /// The validation-time trusted timestamp, not the caller-supplied start.
    pub recorded_at: i64,
}

} // verus!
