use vstd::prelude::*;

use crate::errors::FronsError;
use crate::profile::UserProfile;
use crate::rewards::{
    resolve_multiplier_bps, spec_base_points, spec_multiplier, spec_points_delta,
    BASE_MULTIPLIER_BPS, CANCEL_PENALTY, FOCUS_REWARD, FRON_SOL_ASSET_IDENTITY, REST_REWARD,
    STREAK_BONUS, STREAK_BONUS_INTERVAL,
};
use crate::session::{BalanceProof, SessionInput, SessionKind, SessionRecord};
use crate::validate::{spec_validation_error, validate_session};

verus! {

/// Whether a mathematical integer fits the signed 64-bit range.
pub open spec fn fits_i64(x: int) -> bool {
    i64::MIN <= x <= i64::MAX
}

/// The per-kind statistics update, applied before the reward is committed:
/// the kind's counter, the streak and its high-water mark, and the
/// accumulated duration when an end time was reported. `None` means a
/// counter or duration sum would overflow and the call fails with
/// `MathOverflow`.
pub open spec fn spec_stats_update(
    p: UserProfile,
    kind: SessionKind,
    actual: Option<int>,
) -> Option<UserProfile> {
    match kind {
        SessionKind::Focus => {
            if p.focus_sessions == u64::MAX || p.focus_streak == u64::MAX {
                None
            } else {
                let new_streak = p.focus_streak + 1;
                let new_focus_total = match actual {
                    None => p.total_focus_duration as int,
                    Some(span) => p.total_focus_duration + span,
                };
                if !fits_i64(new_focus_total) {
                    None
                } else {
                    Some(
                        UserProfile {
                            focus_sessions: (p.focus_sessions + 1) as u64,
                            focus_streak: new_streak as u64,
                            longest_focus_streak: if p.longest_focus_streak >= new_streak {
                                p.longest_focus_streak
                            } else {
                                new_streak as u64
                            },
                            total_focus_duration: new_focus_total as i64,
                            ..p
                        },
                    )
                }
            }
        },
        SessionKind::Rest => {
            if p.rest_sessions == u64::MAX {
                None
            } else {
                let new_rest_total = match actual {
                    None => p.total_rest_duration as int,
                    Some(span) => p.total_rest_duration + span,
                };
                if !fits_i64(new_rest_total) {
                    None
                } else {
                    Some(
                        UserProfile {
                            rest_sessions: (p.rest_sessions + 1) as u64,
                            focus_streak: 0,
                            total_rest_duration: new_rest_total as i64,
                            ..p
                        },
                    )
                }
            }
        },
        SessionKind::Cancelled => {
            if p.cancelled_sessions == u64::MAX {
                None
            } else {
                Some(UserProfile { cancelled_sessions: (p.cancelled_sessions + 1) as u64, focus_streak: 0, ..p })
            }
        },
    }
}

/// The whole state transition of one `record_session` call: either the
/// committed profile paired with the new session record, or the exact error
/// the call aborts with. Checks run in order: input validation, then the
/// per-kind statistics update, then multiplier resolution, then the reward
/// commit; the first failure wins and nothing is written.
pub open spec fn spec_transition(
    p: UserProfile,
    input: SessionInput,
    balance: Option<BalanceProof>,
    configured_asset: u64,
    now_ts: i64,
) -> Result<(UserProfile, SessionRecord), FronsError> {
    match spec_validation_error(input, now_ts) {
        Some(e) => Err(e),
        None => {
            let actual = input.spec_actual_duration();
            match spec_stats_update(p, input.kind, actual) {
                None => Err(FronsError::MathOverflow),
                Some(stats) => match spec_multiplier(configured_asset, balance) {
                    Err(e) => Err(e),
                    Ok(bps) => {
                        let delta = spec_points_delta(
                            input.kind,
                            spec_base_points(input.kind, stats.focus_streak as int),
                            bps as int,
                        );
                        if !fits_i64(p.total_points + delta) || p.session_count == u64::MAX {
                            Err(FronsError::MathOverflow)
                        } else {
                            Ok(
                                (
                                    UserProfile {
                                        total_points: (p.total_points + delta) as i64,
                                        session_count: (p.session_count + 1) as u64,
                                        last_session_timestamp: now_ts,
                                        ..stats
                                    },
                                    SessionRecord {
                                        owner: p.owner,
                                        index: p.session_count,
                                        kind: input.kind,
                                        start_ts: input.start_ts,
                                        end_ts: input.end_ts,
                                        planned_duration_seconds: input.planned_duration_seconds,
                                        actual_duration_seconds: match input.end_ts {
                                            None => None,
                                            Some(end) => Some((end - input.start_ts) as i64),
                                        },
                                        points_delta: delta as i64,
                                        multiplier_applied_bps: bps,
                                        recorded_at: now_ts,
                                    },
                                ),
                            )
                        }
                    },
                },
            }
        },
    }
}

/// Creates the zeroed profile a new identity starts from. The host creates
/// the backing storage with exclusivity-on-create semantics, so a second
/// initialization for the same identity fails at the host.
pub fn initialize_user(owner: u64) -> (profile: UserProfile)
    ensures
        profile == UserProfile::spec_initialized(owner),
        profile.wf(),
{
    UserProfile {
        owner,
        total_points: 0,
        focus_sessions: 0,
        rest_sessions: 0,
        cancelled_sessions: 0,
        focus_streak: 0,
        longest_focus_streak: 0,
        session_count: 0,
        last_session_timestamp: 0,
        total_focus_duration: 0,
        total_rest_duration: 0,
    }
}

/// Base points of a session whose post-transition streak is `streak_after`.
fn session_base_points(kind: SessionKind, streak_after: u64) -> (base: i64)
    ensures
        base == spec_base_points(kind, streak_after as int),
{
    let reward = match kind {
        SessionKind::Focus => FOCUS_REWARD,
        SessionKind::Rest => REST_REWARD,
        SessionKind::Cancelled => CANCEL_PENALTY,
    };
    if matches!(kind, SessionKind::Focus) && streak_after % STREAK_BONUS_INTERVAL == 0 {
        reward + STREAK_BONUS
    } else {
        reward
    }
}

/// Records one reported work session against the caller's profile.
///
/// The call is all-or-nothing: on success every affected profile field is
/// updated and the returned record is the one the host persists at the next
/// sequence slot; on any error the profile is returned untouched and no
/// record exists. The outcome is exactly `spec_transition` of the inputs,
/// with the crate's configured asset identity.
pub fn record_session(
    profile: &mut UserProfile,
    input: SessionInput,
    balance: Option<BalanceProof>,
    now_ts: i64,
) -> (result: Result<SessionRecord, FronsError>)
    requires
        old(profile).wf(),
    ensures
        final(profile).wf(),
        // The transition, exactly: which inputs succeed, which error every
        // rejected input aborts with, and every committed field.
        ({
            let outcome = spec_transition(
                *old(profile),
                input,
                balance,
                FRON_SOL_ASSET_IDENTITY,
                now_ts,
            );
            match outcome {
                Ok(committed) => result matches Ok(rec) && *final(profile) == committed.0
                    && rec == committed.1,
                Err(e) => result == Err::<SessionRecord, FronsError>(e) && *final(profile)
                    == *old(profile),
            }
        }),
        // All-or-nothing: a failed call leaves no partial state.
        result is Err ==> *final(profile) == *old(profile),
        // Any rest or cancellation resets the streak, whatever it was.
        result is Ok && !(input.kind is Focus) ==> final(profile).focus_streak == 0,
        // A focus session extends the streak and keeps the high-water mark.
        result is Ok && input.kind is Focus ==> {
            &&& final(profile).focus_streak == old(profile).focus_streak + 1
            &&& final(profile).longest_focus_streak >= final(profile).focus_streak
        },
        // A cancellation is always a strict net penalty.
        result matches Ok(rec) ==> (input.kind is Cancelled ==> rec.points_delta <= -1),
        // Sequence bookkeeping: the record takes the pre-increment count as
        // its index, and the count advances by exactly one.
        result matches Ok(rec) ==> {
            &&& final(profile).session_count == old(profile).session_count + 1
            &&& rec.index == old(profile).session_count
            &&& rec.owner == old(profile).owner
            &&& final(profile).owner == old(profile).owner
            &&& final(profile).total_points == old(profile).total_points + rec.points_delta
            &&& final(profile).last_session_timestamp == now_ts
        },
        // Omitting the balance proof selects the default multiplier.
        result matches Ok(rec) ==> (balance is None ==> rec.multiplier_applied_bps
            == BASE_MULTIPLIER_BPS),
{
    if let Some(e) = validate_session(&input, now_ts) {
        return Err(e);
    }
    let p: UserProfile = *profile;
    let actual: Option<i64> = match input.end_ts {
        None => None,
        Some(end) => Some(end - input.start_ts),
    };
    let mut stats: UserProfile = p;
    match input.kind {
        SessionKind::Focus => {
            stats.focus_sessions = match p.focus_sessions.checked_add(1) {
                Some(v) => v,
                None => {
                    return Err(FronsError::MathOverflow);
                },
            };
            let new_streak = match p.focus_streak.checked_add(1) {
                Some(v) => v,
                None => {
                    return Err(FronsError::MathOverflow);
                },
            };
            stats.focus_streak = new_streak;
            if stats.longest_focus_streak < new_streak {
                stats.longest_focus_streak = new_streak;
            }
            if let Some(span) = actual {
                stats.total_focus_duration = match p.total_focus_duration.checked_add(span) {
                    Some(v) => v,
                    None => {
                        return Err(FronsError::MathOverflow);
                    },
                };
            }
        },
        SessionKind::Rest => {
            stats.rest_sessions = match p.rest_sessions.checked_add(1) {
                Some(v) => v,
                None => {
                    return Err(FronsError::MathOverflow);
                },
            };
            stats.focus_streak = 0;
            if let Some(span) = actual {
                stats.total_rest_duration = match p.total_rest_duration.checked_add(span) {
                    Some(v) => v,
                    None => {
                        return Err(FronsError::MathOverflow);
                    },
                };
            }
        },
        SessionKind::Cancelled => {
            stats.cancelled_sessions = match p.cancelled_sessions.checked_add(1) {
                Some(v) => v,
                None => {
                    return Err(FronsError::MathOverflow);
                },
            };
            stats.focus_streak = 0;
        },
    }
    let bps = match resolve_multiplier_bps(FRON_SOL_ASSET_IDENTITY, balance) {
        Ok(v) => v,
        Err(e) => {
            return Err(e);
        },
    };
    let base_points = session_base_points(input.kind, stats.focus_streak);
    let delta = match crate::rewards::compute_points_delta(input.kind, base_points, bps) {
        Ok(v) => v,
        Err(e) => {
            return Err(e);
        },
    };
    stats.total_points = match p.total_points.checked_add(delta) {
        Some(v) => v,
        None => {
            return Err(FronsError::MathOverflow);
        },
    };
    stats.session_count = match p.session_count.checked_add(1) {
        Some(v) => v,
        None => {
            return Err(FronsError::MathOverflow);
        },
    };
    stats.last_session_timestamp = now_ts;
    let record = SessionRecord {
        owner: p.owner,
        index: p.session_count,
        kind: input.kind,
        start_ts: input.start_ts,
        end_ts: input.end_ts,
        planned_duration_seconds: input.planned_duration_seconds,
        actual_duration_seconds: actual,
        points_delta: delta,
        multiplier_applied_bps: bps,
        recorded_at: now_ts,
    };
    *profile = stats;
    Ok(record)
}

} // verus!
