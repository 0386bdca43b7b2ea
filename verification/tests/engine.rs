use frons::engine::{initialize_user, record_session};
use frons::errors::FronsError;
use frons::profile::UserProfile;
use frons::rewards::{compute_points_delta, resolve_multiplier_bps};
use frons::session::{BalanceProof, SessionInput, SessionKind};

const NOW: i64 = 1_700_000_000;

fn focus_input() -> SessionInput {
    SessionInput {
        kind: SessionKind::Focus,
        start_ts: NOW - 1800,
        end_ts: Some(NOW - 300),
        planned_duration_seconds: 1500,
    }
}

fn bare_input(kind: SessionKind) -> SessionInput {
    SessionInput { kind, start_ts: NOW - 1800, end_ts: None, planned_duration_seconds: 1500 }
}

#[test]
fn initialize_user_zeroes_every_counter() {
    let p = initialize_user(42);
    assert_eq!(p.owner, 42);
    assert_eq!(p.total_points, 0);
    assert_eq!(p.focus_sessions, 0);
    assert_eq!(p.rest_sessions, 0);
    assert_eq!(p.cancelled_sessions, 0);
    assert_eq!(p.focus_streak, 0);
    assert_eq!(p.longest_focus_streak, 0);
    assert_eq!(p.session_count, 0);
    assert_eq!(p.last_session_timestamp, 0);
    assert_eq!(p.total_focus_duration, 0);
    assert_eq!(p.total_rest_duration, 0);
}

#[test]
fn first_focus_session_default_multiplier() {
    let mut p = initialize_user(42);
    let rec = record_session(&mut p, focus_input(), None, NOW).unwrap();
    assert_eq!(rec.points_delta, 100);
    assert_eq!(rec.multiplier_applied_bps, 100);
    assert_eq!(rec.index, 0);
    assert_eq!(rec.owner, 42);
    assert_eq!(rec.kind, SessionKind::Focus);
    assert_eq!(rec.start_ts, NOW - 1800);
    assert_eq!(rec.end_ts, Some(NOW - 300));
    assert_eq!(rec.actual_duration_seconds, Some(1500));
    assert_eq!(rec.planned_duration_seconds, 1500);
    assert_eq!(rec.recorded_at, NOW);
    assert_eq!(p.total_points, 100);
    assert_eq!(p.focus_sessions, 1);
    assert_eq!(p.focus_streak, 1);
    assert_eq!(p.longest_focus_streak, 1);
    assert_eq!(p.session_count, 1);
    assert_eq!(p.last_session_timestamp, NOW);
    assert_eq!(p.total_focus_duration, 1500);
}

#[test]
fn every_fourth_focus_session_adds_streak_bonus() {
    let mut p = initialize_user(7);
    let mut expected_total: i64 = 0;
    for n in 1..=8u64 {
        let rec = record_session(&mut p, bare_input(SessionKind::Focus), None, NOW).unwrap();
        let expected_delta = if n % 4 == 0 { 140 } else { 100 };
        assert_eq!(rec.points_delta, expected_delta, "session {n}");
        expected_total += expected_delta;
    }
    assert_eq!(p.total_points, expected_total);
    assert_eq!(p.focus_streak, 8);
    assert_eq!(p.longest_focus_streak, 8);
    assert_eq!(p.focus_sessions, 8);
}

#[test]
fn rest_resets_streak_and_accumulates_duration() {
    let mut p = initialize_user(7);
    for _ in 0..3 {
        record_session(&mut p, bare_input(SessionKind::Focus), None, NOW).unwrap();
    }
    assert_eq!(p.focus_streak, 3);
    let input = SessionInput {
        kind: SessionKind::Rest,
        start_ts: NOW - 900,
        end_ts: Some(NOW - 600),
        planned_duration_seconds: 300,
    };
    let rec = record_session(&mut p, input, None, NOW).unwrap();
    assert_eq!(rec.points_delta, 15);
    assert_eq!(p.focus_streak, 0);
    assert_eq!(p.longest_focus_streak, 3);
    assert_eq!(p.rest_sessions, 1);
    assert_eq!(p.total_rest_duration, 300);
    assert_eq!(p.total_focus_duration, 0);
}

#[test]
fn cancellation_resets_streak_and_costs_points() {
    let mut p = initialize_user(7);
    record_session(&mut p, bare_input(SessionKind::Focus), None, NOW).unwrap();
    let rec = record_session(&mut p, bare_input(SessionKind::Cancelled), None, NOW).unwrap();
    assert_eq!(rec.points_delta, -60);
    assert_eq!(p.focus_streak, 0);
    assert_eq!(p.cancelled_sessions, 1);
    assert_eq!(p.total_points, 40);
}

#[test]
fn boosted_cancellation_is_still_negative() {
    let mut p = initialize_user(7);
    let proof_input = Some(BalanceProof { asset_identity: 9, amount: 5 });
    let rec = record_session(&mut p, bare_input(SessionKind::Cancelled), proof_input, NOW).unwrap();
    assert_eq!(rec.multiplier_applied_bps, 150);
    assert_eq!(rec.points_delta, -90);
    assert_eq!(p.total_points, -90);
}

#[test]
fn zero_scaled_cancellation_clamps_to_minus_one() {
    assert_eq!(compute_points_delta(SessionKind::Cancelled, 0, 150), Ok(-1));
    assert_eq!(compute_points_delta(SessionKind::Cancelled, -60, 150), Ok(-90));
    assert_eq!(compute_points_delta(SessionKind::Focus, 0, 150), Ok(0));
}

#[test]
fn multiplier_truncates_toward_zero() {
    let mut p = initialize_user(7);
    let proof_input = Some(BalanceProof { asset_identity: 9, amount: 1 });
    let rec = record_session(&mut p, bare_input(SessionKind::Rest), proof_input, NOW).unwrap();
    // 15 * 150 / 100 = 22.5, truncated.
    assert_eq!(rec.points_delta, 22);
}

#[test]
fn three_sessions_take_consecutive_indices() {
    let mut p = initialize_user(42);
    let kinds = [SessionKind::Focus, SessionKind::Rest, SessionKind::Cancelled];
    let mut records = Vec::new();
    for kind in kinds {
        records.push(record_session(&mut p, bare_input(kind), None, NOW).unwrap());
    }
    assert_eq!(p.session_count, 3);
    for (i, rec) in records.iter().enumerate() {
        assert_eq!(rec.index, i as u64);
        assert_eq!(rec.owner, 42);
    }
}

#[test]
fn overflow_at_max_total_points_changes_nothing() {
    let mut p = initialize_user(42);
    p.total_points = i64::MAX;
    let before = p;
    let result = record_session(&mut p, bare_input(SessionKind::Focus), None, NOW);
    assert_eq!(result, Err(FronsError::MathOverflow));
    assert_eq!(p, before);
}

#[test]
fn streak_counter_overflow_fails_the_call() {
    let mut p = initialize_user(42);
    p.focus_streak = u64::MAX;
    p.longest_focus_streak = u64::MAX;
    let before = p;
    let result = record_session(&mut p, bare_input(SessionKind::Focus), None, NOW);
    assert_eq!(result, Err(FronsError::MathOverflow));
    assert_eq!(p, before);
}

#[test]
fn session_count_overflow_fails_the_call() {
    let mut p = initialize_user(42);
    p.session_count = u64::MAX;
    let before = p;
    let result = record_session(&mut p, bare_input(SessionKind::Rest), None, NOW);
    assert_eq!(result, Err(FronsError::MathOverflow));
    assert_eq!(p, before);
}

#[test]
fn empty_balance_proof_is_rejected_without_state_change() {
    let mut p = initialize_user(42);
    let before = p;
    let proof_input = Some(BalanceProof { asset_identity: 9, amount: 0 });
    let result = record_session(&mut p, bare_input(SessionKind::Focus), proof_input, NOW);
    assert_eq!(result, Err(FronsError::EmptyFronSolAccount));
    assert_eq!(p, before);
}

#[test]
fn missing_proof_silently_selects_default() {
    let mut p = initialize_user(42);
    let rec = record_session(&mut p, bare_input(SessionKind::Focus), None, NOW).unwrap();
    assert_eq!(rec.multiplier_applied_bps, 100);
}

#[test]
fn start_too_far_in_future_is_rejected() {
    let mut p = initialize_user(42);
    let before = p;
    let mut input = bare_input(SessionKind::Focus);
    input.start_ts = NOW + 61;
    let result = record_session(&mut p, input, None, NOW);
    assert_eq!(result, Err(FronsError::SessionStartInFuture));
    assert_eq!(p, before);
}

#[test]
fn start_within_skew_tolerance_is_accepted() {
    let mut p = initialize_user(42);
    let mut input = bare_input(SessionKind::Focus);
    input.start_ts = NOW + 60;
    assert!(record_session(&mut p, input, None, NOW).is_ok());
}

#[test]
fn non_positive_planned_duration_is_rejected() {
    let mut p = initialize_user(42);
    for planned in [0, -1] {
        let mut input = bare_input(SessionKind::Focus);
        input.planned_duration_seconds = planned;
        let result = record_session(&mut p, input, None, NOW);
        assert_eq!(result, Err(FronsError::InvalidPlannedDuration));
    }
    assert_eq!(p.session_count, 0);
}

#[test]
fn planned_duration_cap_is_inclusive() {
    let mut p = initialize_user(42);
    let mut input = bare_input(SessionKind::Focus);
    input.planned_duration_seconds = 10_800;
    assert!(record_session(&mut p, input, None, NOW).is_ok());
    input.planned_duration_seconds = 10_801;
    let result = record_session(&mut p, input, None, NOW);
    assert_eq!(result, Err(FronsError::InvalidPlannedDuration));
}

#[test]
fn end_before_start_is_rejected() {
    let mut p = initialize_user(42);
    let before = p;
    let mut input = bare_input(SessionKind::Focus);
    input.end_ts = Some(input.start_ts - 1);
    let result = record_session(&mut p, input, None, NOW);
    assert_eq!(result, Err(FronsError::InvalidEndTime));
    assert_eq!(p, before);
}

#[test]
fn recorded_span_cap_is_inclusive() {
    let mut p = initialize_user(42);
    let mut input = bare_input(SessionKind::Focus);
    input.start_ts = NOW - 30_000;
    input.end_ts = Some(input.start_ts + 21_600);
    assert!(record_session(&mut p, input, None, NOW).is_ok());
    input.end_ts = Some(input.start_ts + 21_601);
    let result = record_session(&mut p, input, None, NOW);
    assert_eq!(result, Err(FronsError::InvalidEndTime));
}

#[test]
fn enormous_span_is_rejected_not_wrapped() {
    let mut p = initialize_user(42);
    let input = SessionInput {
        kind: SessionKind::Focus,
        start_ts: i64::MIN,
        end_ts: Some(i64::MAX),
        planned_duration_seconds: 1500,
    };
    let result = record_session(&mut p, input, None, NOW);
    assert_eq!(result, Err(FronsError::InvalidEndTime));
}

#[test]
fn resolve_multiplier_checks_asset_identity_when_configured() {
    let held = Some(BalanceProof { asset_identity: 6, amount: 3 });
    assert_eq!(resolve_multiplier_bps(5, held), Err(FronsError::InvalidFronSolAccount));
    assert_eq!(resolve_multiplier_bps(6, held), Ok(150));
    // The zero sentinel means no identity is configured: the check is bypassed.
    assert_eq!(resolve_multiplier_bps(0, held), Ok(150));
    assert_eq!(resolve_multiplier_bps(0, None), Ok(100));
}
