use vstd::prelude::*;

verus! {

/// The per-user mutable aggregate: one per identity, created once by
/// `initialize_user` and mutated only by that owner's `record_session` calls.
#[derive(Clone, Copy, Debug, PartialEq, Eq, Structural)]
pub struct UserProfile {
    /// Identity of the controlling user; immutable after creation.
    pub owner: u64,
    /// Signed running point balance; may go negative, and is never silently
    /// wrapped at the signed-integer bounds.
    pub total_points: i64,
    pub focus_sessions: u64,
    pub rest_sessions: u64,
    pub cancelled_sessions: u64,
    /// Consecutive completed focus sessions; resets to 0 on any rest or
    /// cancellation.
    pub focus_streak: u64,
    /// High-water mark of `focus_streak`.
    pub longest_focus_streak: u64,
    /// Monotonic counter of successful calls; doubles as the next session's
    /// sequence index.
    pub session_count: u64,
    /// Trusted timestamp of the most recent recorded session.
    pub last_session_timestamp: i64,
    /// Accumulated seconds of actually-completed focus sessions.
    pub total_focus_duration: i64,
    /// Accumulated seconds of actually-completed rest sessions.
    pub total_rest_duration: i64,
}

impl UserProfile {
    /// Structural invariant: the live streak never exceeds its high-water
    /// mark. Constructors establish it and every transition preserves it.
    pub open spec fn wf(self) -> bool {
        self.focus_streak <= self.longest_focus_streak
    }

    /// The zeroed profile a new identity starts from.
    pub open spec fn spec_initialized(owner: u64) -> UserProfile {
        UserProfile {
            owner,
            total_points: 0,
            focus_sessions: 0,
            rest_sessions: 0,
            cancelled_sessions: 0,
            focus_streak: 0,
            longest_focus_streak: 0,
            session_count: 0,
            last_session_timestamp: 0,
            total_focus_duration: 0,
            total_rest_duration: 0,
        }
    }
}

} // verus!
