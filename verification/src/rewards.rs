use vstd::prelude::*;

use crate::errors::FronsError;
use crate::session::{BalanceProof, SessionKind};

verus! {

/// Base reward of a completed focus session, in points.
pub const FOCUS_REWARD: i64 = 100;

/// Base reward of a completed rest session, in points.
pub const REST_REWARD: i64 = 15;

/// Fixed penalty of a cancelled session, in points.
pub const CANCEL_PENALTY: i64 = -60;

/// Every how-many-th consecutive focus session earns the streak bonus.
pub const STREAK_BONUS_INTERVAL: u64 = 4;

/// Flat bonus added to the base reward on every fourth consecutive focus
/// session, before the multiplier is applied.
pub const STREAK_BONUS: i64 = 40;

/// Multiplier granted by a validated balance proof: 150 bps = 1.5x.
pub const FRON_SOL_MULTIPLIER_BPS: i64 = 150;

/// Default multiplier when no balance proof is presented: 100 bps = 1.0x.
pub const BASE_MULTIPLIER_BPS: i64 = 100;

/// The asset identity a balance proof must name. The zero value is the
/// documented "no identity configured" sentinel: while it is configured, the
/// identity check is deliberately bypassed and only the balance is examined.
pub const FRON_SOL_ASSET_IDENTITY: u64 = 0;

/// The sentinel meaning no asset identity is configured.
pub const NO_ASSET_IDENTITY: u64 = 0;

/// Base reward by session kind, before any streak bonus or multiplier.
pub open spec fn spec_base_reward(kind: SessionKind) -> int {
    match kind {
        SessionKind::Focus => FOCUS_REWARD as int,
        SessionKind::Rest => REST_REWARD as int,
        SessionKind::Cancelled => CANCEL_PENALTY as int,
    }
}

/// The streak bonus applies exactly when a focus session's post-increment
/// streak is a multiple of the bonus interval.
pub open spec fn spec_streak_bonus_applies(kind: SessionKind, streak_after: int) -> bool {
    kind is Focus && streak_after % (STREAK_BONUS_INTERVAL as int) == 0
}

/// Base points of a session whose post-transition streak is `streak_after`:
/// the kind's base reward, plus the flat streak bonus when it applies.
pub open spec fn spec_base_points(kind: SessionKind, streak_after: int) -> int {
    spec_base_reward(kind)
        + if spec_streak_bonus_applies(kind, streak_after) { STREAK_BONUS as int } else { 0 }
}

/// The multiplier resolved from an optional balance proof against the
/// configured asset identity: the default when no proof is presented; the
/// boosted multiplier when the proof names the configured asset (or none is
/// configured) and holds a strictly positive balance; otherwise the exact
/// rejection error.
pub open spec fn spec_multiplier(
    configured_asset: u64,
    balance: Option<BalanceProof>,
) -> Result<i64, FronsError> {
    match balance {
        None => Ok(BASE_MULTIPLIER_BPS),
        Some(b) => {
            if configured_asset != NO_ASSET_IDENTITY && b.asset_identity != configured_asset {
                Err(FronsError::InvalidFronSolAccount)
            } else if b.amount == 0 {
                Err(FronsError::EmptyFronSolAccount)
            } else {
                Ok(FRON_SOL_MULTIPLIER_BPS)
            }
        },
    }
}

/// Integer division truncating toward zero, as the executable `/` on signed
/// machine integers computes it; defined for positive divisors.
pub open spec fn div_trunc(a: int, b: int) -> int
    recommends
        b > 0,
{
    if a >= 0 {
        a / b
    } else {
        -((-a) / b)
    }
}

/// Base points scaled by a basis-points multiplier, truncated toward zero.
pub open spec fn spec_scaled_points(base_points: int, multiplier_bps: int) -> int {
    div_trunc(base_points * multiplier_bps, 100)
}

/// The points delta a session applies to the profile: the scaled points,
/// additionally clamped for cancelled sessions so a cancellation is always a
/// net penalty, even when truncation pulls the scaled value up to zero.
pub open spec fn spec_points_delta(kind: SessionKind, base_points: int, multiplier_bps: int) -> int {
    let scaled = spec_scaled_points(base_points, multiplier_bps);
    if kind is Cancelled && scaled > -1 {
        -1
    } else {
        scaled
    }
}

/// A cancelled session's delta is strictly negative whatever base points and
/// multiplier went into it: the clamp caps the scaled value at -1.
pub proof fn lemma_cancellation_always_penalty(base_points: int, multiplier_bps: int)
    ensures
        spec_points_delta(SessionKind::Cancelled, base_points, multiplier_bps) <= -1,
{
}

/// Resolves the basis-points multiplier from an optional balance proof.
///
/// A proof is accepted exactly when it names the configured asset (the check
/// is bypassed while no identity is configured) and holds a strictly positive
/// balance; an absent proof silently selects the default multiplier.
pub fn resolve_multiplier_bps(
    configured_asset: u64,
    balance: Option<BalanceProof>,
) -> (result: Result<i64, FronsError>)
    ensures
        result == spec_multiplier(configured_asset, balance),
{
    match balance {
        None => Ok(BASE_MULTIPLIER_BPS),
        Some(b) => {
            if configured_asset != NO_ASSET_IDENTITY && b.asset_identity != configured_asset {
                Err(FronsError::InvalidFronSolAccount)
            } else if b.amount == 0 {
                Err(FronsError::EmptyFronSolAccount)
            } else {
                Ok(FRON_SOL_MULTIPLIER_BPS)
            }
        },
    }
}

/// Applies a basis-points multiplier to base points, truncating toward zero,
/// and clamps a cancelled session's result to a strict penalty.
///
/// Fails with `MathOverflow` exactly when `base_points * multiplier_bps`
/// leaves the `i64` range; the truncated quotient itself always fits.
pub fn compute_points_delta(
    kind: SessionKind,
    base_points: i64,
    multiplier_bps: i64,
) -> (result: Result<i64, FronsError>)
    ensures
        result is Ok <==> i64::MIN <= base_points * multiplier_bps <= i64::MAX,
        result matches Ok(delta) ==> delta
            == spec_points_delta(kind, base_points as int, multiplier_bps as int),
        result is Err ==> result == Err::<i64, FronsError>(FronsError::MathOverflow),
{
    let scaled_total = match base_points.checked_mul(multiplier_bps) {
        Some(v) => v,
        None => {
            return Err(FronsError::MathOverflow);
        },
    };
    let scaled = scaled_total / 100;
    proof {
        lemma_i64_div_100_is_div_trunc(scaled_total);
    }
    if matches!(kind, SessionKind::Cancelled) && scaled > -1 {
        Ok(-1)
    } else {
        Ok(scaled)
    }
}

/// Machine division of an `i64` by 100 is `div_trunc` and stays in range.
proof fn lemma_i64_div_100_is_div_trunc(a: i64)
    ensures
        i64::MIN <= div_trunc(a as int, 100) <= i64::MAX,
{
    if a >= 0 {
        vstd::arithmetic::div_mod::lemma_div_nonincreasing(a as int, 100);
        vstd::arithmetic::div_mod::lemma_div_pos_is_pos(a as int, 100);
    } else {
        vstd::arithmetic::div_mod::lemma_div_nonincreasing(-(a as int), 100);
        vstd::arithmetic::div_mod::lemma_div_pos_is_pos(-(a as int), 100);
    }
}

} // verus!
