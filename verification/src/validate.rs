use vstd::prelude::*;

use crate::errors::FronsError;
use crate::session::SessionInput;

verus! {

/// How far past the trusted current time a reported start may lie.
pub const CLOCK_SKEW_TOLERANCE_SECONDS: i64 = 60;

/// Safety cap on the declared intended length: 3 hours.
pub const MAX_PLANNED_DURATION_SECONDS: i64 = 10800;

/// Safety cap on an actually-recorded span: 6 hours.
pub const MAX_RECORDED_DURATION_SECONDS: i64 = 21600;

/// The validator's verdict on a proposed session, given the trusted current
/// time `now_ts`: the error the call is rejected with, or `None` when every
/// check passes. All checks are pure functions of the inputs and run before
/// any mutation.
pub open spec fn spec_validation_error(input: SessionInput, now_ts: i64) -> Option<FronsError> {
    if input.start_ts > now_ts + CLOCK_SKEW_TOLERANCE_SECONDS {
        Some(FronsError::SessionStartInFuture)
    } else if input.planned_duration_seconds <= 0
        || input.planned_duration_seconds > MAX_PLANNED_DURATION_SECONDS {
        Some(FronsError::InvalidPlannedDuration)
    } else if input.end_ts matches Some(end) && end < input.start_ts {
        Some(FronsError::InvalidEndTime)
    } else if input.end_ts matches Some(end)
        && end - input.start_ts > MAX_RECORDED_DURATION_SECONDS {
        Some(FronsError::InvalidEndTime)
    } else {
        None
    }
}

/// Checks a proposed session against the trusted current time, returning the
/// rejection error if any check fails. The arithmetic is carried out with
/// checked operations so the comparison is exact even at the integer bounds.
pub fn validate_session(input: &SessionInput, now_ts: i64) -> (verdict: Option<FronsError>)
    ensures
        verdict == spec_validation_error(*input, now_ts),
{
    let start_in_future: bool = match now_ts.checked_add(CLOCK_SKEW_TOLERANCE_SECONDS) {
        Some(limit) => input.start_ts > limit,
        // `now_ts + 60` exceeds `i64::MAX`, which no `i64` start can top.
        None => false,
    };
    if start_in_future {
        return Some(FronsError::SessionStartInFuture);
    }
    if input.planned_duration_seconds <= 0
        || input.planned_duration_seconds > MAX_PLANNED_DURATION_SECONDS {
        return Some(FronsError::InvalidPlannedDuration);
    }
    if let Some(end) = input.end_ts {
        if end < input.start_ts {
            return Some(FronsError::InvalidEndTime);
        }
        match end.checked_sub(input.start_ts) {
            Some(span) => {
                if span > MAX_RECORDED_DURATION_SECONDS {
                    return Some(FronsError::InvalidEndTime);
                }
            },
            // The span exceeds `i64::MAX`, which is far over the cap.
            None => {
                return Some(FronsError::InvalidEndTime);
            },
        }
    }
    None
}

} // verus!
