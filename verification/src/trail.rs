use vstd::prelude::*;

use crate::engine::{fits_i64, spec_stats_update, spec_transition};
use crate::profile::UserProfile;
use crate::rewards::{spec_base_points, spec_points_delta, BASE_MULTIPLIER_BPS};
use crate::session::{BalanceProof, SessionInput, SessionRecord};
use crate::validate::spec_validation_error;

verus! {

/// Everything one `record_session` call consumes besides the profile: the
/// session report, the optional balance proof, and the trusted time the host
/// validated the call at.
pub struct StepInput {
    pub input: SessionInput,
    pub balance: Option<BalanceProof>,
    pub now_ts: i64,
}

/// The profile and the append-only record trail left by running a sequence
/// of calls in order, or `None` as soon as any call fails. Record `i` of the
/// trail is the one call `i` emitted.
pub open spec fn spec_run(
    p: UserProfile,
    steps: Seq<StepInput>,
    configured_asset: u64,
) -> Option<(UserProfile, Seq<SessionRecord>)>
    decreases steps.len(),
{
    if steps.len() == 0 {
        Some((p, Seq::empty()))
    } else {
        match spec_transition(p, steps[0].input, steps[0].balance, configured_asset, steps[0].now_ts) {
            Err(_) => None,
            Ok(committed) => match spec_run(committed.0, steps.drop_first(), configured_asset) {
                None => None,
                Some(rest) => Some((rest.0, seq![committed.1] + rest.1)),
            },
        }
    }
}

/// The audit trail is gapless: after any run of successful calls, the
/// session count has advanced by exactly the number of calls, the owner is
/// unchanged, and the records carry the consecutive indices starting at the
/// count the run began with — no gaps, no duplicates.
pub proof fn lemma_session_trail(p: UserProfile, steps: Seq<StepInput>, configured_asset: u64)
    requires
        spec_run(p, steps, configured_asset) is Some,
    ensures
        ({
            let end = spec_run(p, steps, configured_asset)->Some_0;
            &&& end.1.len() == steps.len()
            &&& end.0.session_count == p.session_count + steps.len()
            &&& end.0.owner == p.owner
            &&& forall|i: int|
                0 <= i < steps.len() ==> (#[trigger] end.1[i]).index == p.session_count + i
            &&& forall|i: int| 0 <= i < steps.len() ==> (#[trigger] end.1[i]).owner == p.owner
        }),
    decreases steps.len(),
{
    if steps.len() > 0 {
        let committed = spec_transition(
            p,
            steps[0].input,
            steps[0].balance,
            configured_asset,
            steps[0].now_ts,
        )->Ok_0;
        lemma_session_trail(committed.0, steps.drop_first(), configured_asset);
        let rest = spec_run(committed.0, steps.drop_first(), configured_asset)->Some_0;
        let end = spec_run(p, steps, configured_asset)->Some_0;
        assert(end.1 == seq![committed.1] + rest.1);
        assert forall|i: int| 0 <= i < steps.len() implies (#[trigger] end.1[i]).index
            == p.session_count + i && end.1[i].owner == p.owner by {
            if i > 0 {
                assert(end.1[i] == rest.1[i - 1]);
            }
        }
    }
}

/// Starting from a fresh profile, a run of `n` successful calls leaves
/// `session_count == n` and exactly the records indexed `0 .. n-1`.
pub proof fn lemma_trail_from_initialization(
    owner: u64,
    steps: Seq<StepInput>,
    configured_asset: u64,
)
    requires
        spec_run(UserProfile::spec_initialized(owner), steps, configured_asset) is Some,
    ensures
        ({
            let end = spec_run(UserProfile::spec_initialized(owner), steps, configured_asset)->Some_0;
            &&& end.0.session_count == steps.len()
            &&& end.1.len() == steps.len()
            &&& forall|i: int| 0 <= i < steps.len() ==> (#[trigger] end.1[i]).index == i
            &&& forall|i: int| 0 <= i < steps.len() ==> (#[trigger] end.1[i]).owner == owner
        }),
{
    lemma_session_trail(UserProfile::spec_initialized(owner), steps, configured_asset);
}

/// The streak bonus applies exactly on every fourth consecutive focus
/// session: a successful focus call drives the streak from `s` to `s + 1`,
/// and its points delta scales a base of the focus reward plus the flat
/// bonus when `(s + 1) % 4 == 0`, or of the bare focus reward otherwise.
pub proof fn lemma_focus_streak_bonus(
    p: UserProfile,
    input: SessionInput,
    balance: Option<BalanceProof>,
    configured_asset: u64,
    now_ts: i64,
)
    requires
        input.kind is Focus,
        spec_transition(p, input, balance, configured_asset, now_ts) is Ok,
    ensures
        ({
            let committed = spec_transition(p, input, balance, configured_asset, now_ts)->Ok_0;
            &&& committed.0.focus_streak == p.focus_streak + 1
            &&& committed.1.points_delta == crate::rewards::spec_scaled_points(
                crate::rewards::FOCUS_REWARD + if (p.focus_streak + 1) % (
                crate::rewards::STREAK_BONUS_INTERVAL as int) == 0 {
                    crate::rewards::STREAK_BONUS as int
                } else {
                    0
                },
                committed.1.multiplier_applied_bps as int,
            )
        }),
{
}

/// Omitting the balance proof is never an error in itself: when validation
/// passes and no counter or sum overflows, the call succeeds and the default
/// multiplier is the one applied.
pub proof fn lemma_no_proof_defaults_and_succeeds(
    p: UserProfile,
    input: SessionInput,
    configured_asset: u64,
    now_ts: i64,
)
    requires
        spec_validation_error(input, now_ts) is None,
        spec_stats_update(p, input.kind, input.spec_actual_duration()) is Some,
        ({
            let stats = spec_stats_update(p, input.kind, input.spec_actual_duration())->Some_0;
            fits_i64(
                p.total_points + spec_points_delta(
                    input.kind,
                    spec_base_points(input.kind, stats.focus_streak as int),
                    BASE_MULTIPLIER_BPS as int,
                ),
            )
        }),
        p.session_count < u64::MAX,
    ensures
        spec_transition(p, input, None, configured_asset, now_ts) is Ok,
        spec_transition(p, input, None, configured_asset, now_ts)->Ok_0.1.multiplier_applied_bps
            == BASE_MULTIPLIER_BPS,
{
}

} // verus!
