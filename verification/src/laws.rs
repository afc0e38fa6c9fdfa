//! Laws of the command surface, proved once over the model in
//! [`crate::model`]. Because every executable command is proved equal to
//! its transition function, each law here holds of the running service as
//! well.

use vstd::prelude::*;

use crate::model::ContractView;
use crate::model::active_goal_records;
use crate::model::next_review_date;
use crate::store::StoreView;
use crate::store::list_at;
use crate::store::records_of;
use crate::types::Address;
use crate::types::CarePlanStatus;
use crate::types::Error;
use crate::types::GoalStatus;
use crate::types::GoalView;
use crate::types::SummaryView;
use crate::types::goal_status_is_terminal;

verus! {

/// The empty dataset is well formed.
pub proof fn lemma_init_wf()
    ensures
        ContractView::init().store.wf(),
{
}

/// A call that cannot prove its principal has no effect at all: no id is
/// allocated, no record is saved, no index entry and no event is appended,
/// and the one outcome is the `Unauthorized` error. This holds of every
/// command, over every state and every choice of the other arguments.
pub proof fn lemma_unauthorized_calls_have_no_effect(
    s: ContractView,
    id: u64,
    principal: Address,
    other: Address,
    text_a: String,
    text_b: String,
    text_c: String,
    text_d: String,
    opt_text: Option<String>,
    texts: Seq<String>,
    more_texts: Seq<String>,
    hash: [u8; 32],
    date_a: u64,
    date_b: u64,
    freq: u32,
    flag: bool,
)
    ensures
        s.create_care_plan(principal, other, false, text_a, texts, more_texts, date_a, freq, date_b)
            == (s, Err::<u64, Error>(Error::Unauthorized)),
        s.add_care_goal(id, principal, false, text_a, opt_text, date_a, text_b, date_b) == (
            s,
            Err::<u64, Error>(Error::Unauthorized),
        ),
        s.add_intervention(id, principal, false, text_a, text_b, text_c, text_d, date_a) == (
            s,
            Err::<u64, Error>(Error::Unauthorized),
        ),
        s.record_goal_progress(id, principal, false, text_a, text_b, date_a) == (
            s,
            Err::<(), Error>(Error::Unauthorized),
        ),
        s.mark_goal_achieved(id, principal, false, date_a, text_a) == (
            s,
            Err::<(), Error>(Error::Unauthorized),
        ),
        s.add_barrier(id, principal, false, text_a, text_b, date_a) == (
            s,
            Err::<u64, Error>(Error::Unauthorized),
        ),
        s.resolve_barrier(id, principal, false, text_a, date_a) == (
            s,
            Err::<(), Error>(Error::Unauthorized),
        ),
        s.schedule_care_plan_review(id, principal, false, date_a, text_a) == (
            s,
            Err::<u64, Error>(Error::Unauthorized),
        ),
        s.conduct_care_plan_review(id, principal, false, hash, texts, flag, date_a) == (
            s,
            Err::<(), Error>(Error::Unauthorized),
        ),
        s.assign_care_team_member(id, principal, false, other, text_a, texts, date_a) == (
            s,
            Err::<(), Error>(Error::Unauthorized),
        ),
        s.get_care_plan_summary(id, false) == Err::<SummaryView, Error>(Error::Unauthorized),
{
}

/// Once a goal is marked achieved, marking it again or recording further
/// progress fails with the `GoalAlreadyAchieved` error, and the failed
/// call leaves the whole state, the goal's stored fields included, exactly
/// as it was.
pub proof fn lemma_achieved_goal_is_terminal(
    s: ContractView,
    goal_id: u64,
    provider_id: Address,
    achievement_date: u64,
    outcome_notes: String,
    later_provider: Address,
    later_date: u64,
    later_notes: String,
    patient_id: Address,
    current_value: String,
    progress_note: String,
    recorded_date: u64,
)
    requires
        s.store.wf(),
        s.mark_goal_achieved(goal_id, provider_id, true, achievement_date, outcome_notes).1
            is Ok,
    ensures
        ({
            let s1 = s.mark_goal_achieved(
                goal_id,
                provider_id,
                true,
                achievement_date,
                outcome_notes,
            ).0;
            &&& s1.mark_goal_achieved(goal_id, later_provider, true, later_date, later_notes)
                == (s1, Err::<(), Error>(Error::GoalAlreadyAchieved))
            &&& s1.record_goal_progress(
                goal_id,
                patient_id,
                true,
                current_value,
                progress_note,
                recorded_date,
            ) == (s1, Err::<(), Error>(Error::GoalAlreadyAchieved))
        }),
{
    assert(s.store.goals[goal_id].goal_id == goal_id);
}

/// A goal whose status is terminal, achieved or discontinued alike,
/// rejects both further progress and another achievement marking with the
/// matching error, and the rejected call changes nothing.
pub proof fn lemma_terminal_goal_rejects_mutation(
    s: ContractView,
    goal_id: u64,
    provider_id: Address,
    achievement_date: u64,
    outcome_notes: String,
    patient_id: Address,
    current_value: String,
    progress_note: String,
    recorded_date: u64,
)
    requires
        s.store.goals.contains_key(goal_id),
        goal_status_is_terminal(s.store.goals[goal_id].status),
    ensures
        ({
            let e = if s.store.goals[goal_id].status == GoalStatus::Achieved {
                Error::GoalAlreadyAchieved
            } else {
                Error::GoalDiscontinued
            };
            &&& s.mark_goal_achieved(goal_id, provider_id, true, achievement_date, outcome_notes)
                == (s, Err::<(), Error>(e))
            &&& s.record_goal_progress(
                goal_id,
                patient_id,
                true,
                current_value,
                progress_note,
                recorded_date,
            ) == (s, Err::<(), Error>(e))
        }),
{
}

/// Once a barrier is resolved, resolving it again fails with the
/// `BarrierAlreadyResolved` error and leaves the whole state, the stored
/// resolution included, exactly as it was.
pub proof fn lemma_resolved_barrier_is_final(
    s: ContractView,
    barrier_id: u64,
    provider_id: Address,
    resolution: String,
    resolution_date: u64,
    later_provider: Address,
    later_resolution: String,
    later_date: u64,
)
    requires
        s.store.wf(),
        s.resolve_barrier(barrier_id, provider_id, true, resolution, resolution_date).1 is Ok,
    ensures
        ({
            let s1 = s.resolve_barrier(
                barrier_id,
                provider_id,
                true,
                resolution,
                resolution_date,
            ).0;
            s1.resolve_barrier(barrier_id, later_provider, true, later_resolution, later_date)
                == (s1, Err::<(), Error>(Error::BarrierAlreadyResolved))
        }),
{
    assert(s.store.barriers[barrier_id].barrier_id == barrier_id);
}

/// Once a review is conducted, conducting it again fails with the
/// `ReviewAlreadyConducted` error and leaves the whole state, the stored
/// review record included, exactly as it was.
pub proof fn lemma_conducted_review_is_final(
    s: ContractView,
    review_id: u64,
    provider_id: Address,
    review_notes_hash: [u8; 32],
    plan_modifications: Seq<String>,
    continue_plan: bool,
    now: u64,
    later_hash: [u8; 32],
    later_modifications: Seq<String>,
    later_continue: bool,
    later_now: u64,
)
    requires
        s.store.wf(),
        s.conduct_care_plan_review(
            review_id,
            provider_id,
            true,
            review_notes_hash,
            plan_modifications,
            continue_plan,
            now,
        ).1 is Ok,
    ensures
        ({
            let s1 = s.conduct_care_plan_review(
                review_id,
                provider_id,
                true,
                review_notes_hash,
                plan_modifications,
                continue_plan,
                now,
            ).0;
            s1.conduct_care_plan_review(
                review_id,
                provider_id,
                true,
                later_hash,
                later_modifications,
                later_continue,
                later_now,
            ) == (s1, Err::<(), Error>(Error::ReviewAlreadyConducted))
        }),
{
    assert(s.store.reviews[review_id].review_id == review_id);
}

/// Marking a goal achieved preserves well-formedness.
pub proof fn lemma_mark_goal_achieved_preserves_wf(
    s: ContractView,
    goal_id: u64,
    provider_id: Address,
    provider_auth: bool,
    achievement_date: u64,
    outcome_notes: String,
)
    requires
        s.store.wf(),
    ensures
        s.mark_goal_achieved(
            goal_id,
            provider_id,
            provider_auth,
            achievement_date,
            outcome_notes,
        ).0.store.wf(),
{
}

/// Recording goal progress preserves well-formedness.
pub proof fn lemma_record_goal_progress_preserves_wf(
    s: ContractView,
    goal_id: u64,
    patient_id: Address,
    patient_auth: bool,
    current_value: String,
    progress_note: String,
    recorded_date: u64,
)
    requires
        s.store.wf(),
    ensures
        s.record_goal_progress(
            goal_id,
            patient_id,
            patient_auth,
            current_value,
            progress_note,
            recorded_date,
        ).0.store.wf(),
{
}

/// Resolving a barrier preserves well-formedness.
pub proof fn lemma_resolve_barrier_preserves_wf(
    s: ContractView,
    barrier_id: u64,
    provider_id: Address,
    provider_auth: bool,
    resolution: String,
    resolution_date: u64,
)
    requires
        s.store.wf(),
    ensures
        s.resolve_barrier(
            barrier_id,
            provider_id,
            provider_auth,
            resolution,
            resolution_date,
        ).0.store.wf(),
{
}

/// Conducting a review preserves well-formedness.
pub proof fn lemma_conduct_review_preserves_wf(
    s: ContractView,
    review_id: u64,
    provider_id: Address,
    provider_auth: bool,
    review_notes_hash: [u8; 32],
    plan_modifications: Seq<String>,
    continue_plan: bool,
    now: u64,
)
    requires
        s.store.wf(),
    ensures
        s.conduct_care_plan_review(
            review_id,
            provider_id,
            provider_auth,
            review_notes_hash,
            plan_modifications,
            continue_plan,
            now,
        ).0.store.wf(),
{
}

/// Assigning a care team member preserves well-formedness.
pub proof fn lemma_assign_team_member_preserves_wf(
    s: ContractView,
    care_plan_id: u64,
    coordinating_provider: Address,
    coordinator_auth: bool,
    team_member: Address,
    role: String,
    responsibilities: Seq<String>,
    now: u64,
)
    requires
        s.store.wf(),
    ensures
        s.assign_care_team_member(
            care_plan_id,
            coordinating_provider,
            coordinator_auth,
            team_member,
            role,
            responsibilities,
            now,
        ).0.store.wf(),
{
}

/// A successful plan creation allocates exactly the next id: one more than
/// the plan counter, never seen before. With well-formedness, the plan ids
/// in store afterwards are exactly `1..=counter+1`: consecutive, without
/// gaps and without reuse. The same then holds inductively of any run of
/// successful creations.
pub proof fn lemma_create_care_plan_allocates_sequential_id(
    s: ContractView,
    patient_id: Address,
    provider_id: Address,
    plan_type: String,
    conditions: Seq<String>,
    goals: Seq<String>,
    start_date: u64,
    review_frequency_days: u32,
    now: u64,
)
    requires
        s.store.wf(),
        s.store.care_plan_counter < u64::MAX,
    ensures
        ({
            let (s1, r) = s.create_care_plan(
                patient_id,
                provider_id,
                true,
                plan_type,
                conditions,
                goals,
                start_date,
                review_frequency_days,
                now,
            );
            let id = (s.store.care_plan_counter + 1) as u64;
            &&& r == Ok::<u64, Error>(id)
            &&& !s.store.plans.contains_key(id)
            &&& s1.store.plans.contains_key(id)
            &&& s1.store.care_plan_counter == id
            &&& s1.store.wf()
        }),
{
}

/// The state after `n` consecutive successful plan creations from `s`,
/// all with the same inputs (the allocated id does not depend on them).
pub open spec fn after_n_plan_creations(
    s: ContractView,
    patient_id: Address,
    provider_id: Address,
    plan_type: String,
    conditions: Seq<String>,
    goals: Seq<String>,
    start_date: u64,
    review_frequency_days: u32,
    now: u64,
    n: nat,
) -> ContractView
    decreases n,
{
    if n == 0 {
        s
    } else {
        after_n_plan_creations(
            s,
            patient_id,
            provider_id,
            plan_type,
            conditions,
            goals,
            start_date,
            review_frequency_days,
            now,
            (n - 1) as nat,
        ).create_care_plan(
            patient_id,
            provider_id,
            true,
            plan_type,
            conditions,
            goals,
            start_date,
            review_frequency_days,
            now,
        ).0
    }
}

/// `n` consecutive successful creations from a well-formed store whose
/// counter is `c` return the ids `c+1, c+2, ..., c+n`, in order, with no
/// gap and no repetition; afterwards the stored plan ids are exactly
/// `1..=c+n`. From a fresh store (`c == 0`) the ids are `1, 2, ..., n`.
pub proof fn lemma_n_creations_yield_consecutive_ids(
    s: ContractView,
    patient_id: Address,
    provider_id: Address,
    plan_type: String,
    conditions: Seq<String>,
    goals: Seq<String>,
    start_date: u64,
    review_frequency_days: u32,
    now: u64,
    n: nat,
)
    requires
        s.store.wf(),
        s.store.care_plan_counter + n <= u64::MAX,
    ensures
        ({
            let sn = after_n_plan_creations(
                s,
                patient_id,
                provider_id,
                plan_type,
                conditions,
                goals,
                start_date,
                review_frequency_days,
                now,
                n,
            );
            &&& sn.store.wf()
            &&& sn.store.care_plan_counter == s.store.care_plan_counter + n
        }),
        forall|k: int|
            0 <= k < n ==> #[trigger] after_n_plan_creations(
                s,
                patient_id,
                provider_id,
                plan_type,
                conditions,
                goals,
                start_date,
                review_frequency_days,
                now,
                k as nat,
            ).create_care_plan(
                patient_id,
                provider_id,
                true,
                plan_type,
                conditions,
                goals,
                start_date,
                review_frequency_days,
                now,
            ).1 == Ok::<u64, Error>((s.store.care_plan_counter + k + 1) as u64),
    decreases n,
{
    if n > 0 {
        lemma_n_creations_yield_consecutive_ids(
            s,
            patient_id,
            provider_id,
            plan_type,
            conditions,
            goals,
            start_date,
            review_frequency_days,
            now,
            (n - 1) as nat,
        );
        let sp = after_n_plan_creations(
            s,
            patient_id,
            provider_id,
            plan_type,
            conditions,
            goals,
            start_date,
            review_frequency_days,
            now,
            (n - 1) as nat,
        );
        lemma_create_care_plan_allocates_sequential_id(
            sp,
            patient_id,
            provider_id,
            plan_type,
            conditions,
            goals,
            start_date,
            review_frequency_days,
            now,
        );
    }
}

/// A successful goal creation allocates exactly the next goal id and
/// preserves well-formedness.
pub proof fn lemma_add_care_goal_allocates_sequential_id(
    s: ContractView,
    care_plan_id: u64,
    provider_id: Address,
    goal_description: String,
    target_value: Option<String>,
    target_date: u64,
    priority: String,
    now: u64,
)
    requires
        s.store.wf(),
        s.store.goal_counter < u64::MAX,
        s.store.plans.contains_key(care_plan_id),
    ensures
        ({
            let (s1, r) = s.add_care_goal(
                care_plan_id,
                provider_id,
                true,
                goal_description,
                target_value,
                target_date,
                priority,
                now,
            );
            let id = (s.store.goal_counter + 1) as u64;
            &&& r == Ok::<u64, Error>(id)
            &&& !s.store.goals.contains_key(id)
            &&& s1.store.goals.contains_key(id)
            &&& s1.store.goal_counter == id
            &&& s1.store.wf()
        }),
{
}

/// A successful intervention creation allocates exactly the next
/// intervention id and preserves well-formedness.
pub proof fn lemma_add_intervention_allocates_sequential_id(
    s: ContractView,
    care_plan_id: u64,
    provider_id: Address,
    intervention_type: String,
    description: String,
    frequency: String,
    responsible_party: String,
    now: u64,
)
    requires
        s.store.wf(),
        s.store.intervention_counter < u64::MAX,
        s.store.plans.contains_key(care_plan_id),
    ensures
        ({
            let (s1, r) = s.add_intervention(
                care_plan_id,
                provider_id,
                true,
                intervention_type,
                description,
                frequency,
                responsible_party,
                now,
            );
            let id = (s.store.intervention_counter + 1) as u64;
            &&& r == Ok::<u64, Error>(id)
            &&& !s.store.interventions.contains_key(id)
            &&& s1.store.interventions.contains_key(id)
            &&& s1.store.intervention_counter == id
            &&& s1.store.wf()
        }),
{
}

/// A successful barrier report allocates exactly the next barrier id and
/// preserves well-formedness.
pub proof fn lemma_add_barrier_allocates_sequential_id(
    s: ContractView,
    care_plan_id: u64,
    reporter: Address,
    barrier_type: String,
    description: String,
    identified_date: u64,
)
    requires
        s.store.wf(),
        s.store.barrier_counter < u64::MAX,
        s.store.plans.contains_key(care_plan_id),
    ensures
        ({
            let (s1, r) = s.add_barrier(
                care_plan_id,
                reporter,
                true,
                barrier_type,
                description,
                identified_date,
            );
            let id = (s.store.barrier_counter + 1) as u64;
            &&& r == Ok::<u64, Error>(id)
            &&& !s.store.barriers.contains_key(id)
            &&& s1.store.barriers.contains_key(id)
            &&& s1.store.barrier_counter == id
            &&& s1.store.wf()
        }),
{
}

/// A successful review scheduling allocates exactly the next review id and
/// preserves well-formedness.
pub proof fn lemma_schedule_review_allocates_sequential_id(
    s: ContractView,
    care_plan_id: u64,
    provider_id: Address,
    review_date: u64,
    review_type: String,
)
    requires
        s.store.wf(),
        s.store.review_counter < u64::MAX,
        s.store.plans.contains_key(care_plan_id),
    ensures
        ({
            let (s1, r) = s.schedule_care_plan_review(
                care_plan_id,
                provider_id,
                true,
                review_date,
                review_type,
            );
            let id = (s.store.review_counter + 1) as u64;
            &&& r == Ok::<u64, Error>(id)
            &&& !s.store.reviews.contains_key(id)
            &&& s1.store.reviews.contains_key(id)
            &&& s1.store.review_counter == id
            &&& s1.store.wf()
        }),
{
}

/// Conducting a review cascades into the owning plan: its last review date
/// becomes the conduct time, its next review date is recomputed from it,
/// and a review that does not continue the plan completes it.
pub proof fn lemma_conduct_review_cascades_into_plan(
    s: ContractView,
    review_id: u64,
    provider_id: Address,
    review_notes_hash: [u8; 32],
    plan_modifications: Seq<String>,
    continue_plan: bool,
    now: u64,
)
    requires
        s.store.wf(),
        s.store.reviews.contains_key(review_id),
        !s.store.reviews[review_id].conducted,
        s.store.plans.contains_key(s.store.reviews[review_id].care_plan_id),
    ensures
        ({
            let s1 = s.conduct_care_plan_review(
                review_id,
                provider_id,
                true,
                review_notes_hash,
                plan_modifications,
                continue_plan,
                now,
            ).0;
            let p = s.store.reviews[review_id].care_plan_id;
            &&& s1.store.plans[p].last_review_date == Some(now)
            &&& s1.store.plans[p].next_review_date == next_review_date(
                now,
                s.store.plans[p].review_frequency_days,
            )
            &&& s1.store.plans[p].status == if continue_plan {
                s.store.plans[p].status
            } else {
                CarePlanStatus::Completed
            }
            &&& s1.store.reviews[review_id].conducted
        }),
{
    assert(s.store.plans[s.store.reviews[review_id].care_plan_id].care_plan_id
        == s.store.reviews[review_id].care_plan_id);
    assert(s.store.reviews[review_id].review_id == review_id);
}

/// Round trip: a summary taken right after a plan is created returns the
/// plan's own id, patient, plan type and review dates, with no goals,
/// interventions, team members or barriers yet.
pub proof fn lemma_create_then_summary_round_trip(
    s: ContractView,
    patient_id: Address,
    provider_id: Address,
    plan_type: String,
    conditions: Seq<String>,
    goals: Seq<String>,
    start_date: u64,
    review_frequency_days: u32,
    now: u64,
)
    requires
        s.store.wf(),
        s.store.care_plan_counter < u64::MAX,
    ensures
        ({
            let s1 = s.create_care_plan(
                patient_id,
                provider_id,
                true,
                plan_type,
                conditions,
                goals,
                start_date,
                review_frequency_days,
                now,
            ).0;
            let id = (s.store.care_plan_counter + 1) as u64;
            s1.get_care_plan_summary(id, true) == Ok::<SummaryView, Error>(
                SummaryView {
                    care_plan_id: id,
                    patient_id: patient_id,
                    plan_type: plan_type,
                    active_goals: Seq::empty(),
                    interventions: Seq::empty(),
                    care_team: Seq::empty(),
                    barriers: Seq::empty(),
                    last_review_date: None,
                    next_review_date: next_review_date(start_date, review_frequency_days),
                },
            )
        }),
{
    let s1 = s.create_care_plan(
        patient_id,
        provider_id,
        true,
        plan_type,
        conditions,
        goals,
        start_date,
        review_frequency_days,
        now,
    ).0;
    let id = (s.store.care_plan_counter + 1) as u64;
    assert(!s1.store.plan_goals.contains_key(id));
    assert(!s1.store.plan_interventions.contains_key(id));
    assert(!s1.store.plan_barriers.contains_key(id));
    assert(!s1.store.plan_care_team.contains_key(id));
    assert(list_at(s1.store.plan_goals, id) =~= Seq::<u64>::empty());
    assert(list_at(s1.store.plan_interventions, id) =~= Seq::<u64>::empty());
    assert(list_at(s1.store.plan_barriers, id) =~= Seq::<u64>::empty());
    assert(s1.store.summary_of(id) =~~= SummaryView {
        care_plan_id: id,
        patient_id: patient_id,
        plan_type: plan_type,
        active_goals: Seq::empty(),
        interventions: Seq::empty(),
        care_team: Seq::empty(),
        barriers: Seq::empty(),
        last_review_date: None,
        next_review_date: next_review_date(start_date, review_frequency_days),
    });
}

/// The summary keeps only open goals: every goal it lists has a
/// non-terminal status, and every listed goal id whose stored record is
/// still open contributes that record.
pub proof fn lemma_summary_goals_are_filtered(s: StoreView, care_plan_id: u64)
    ensures
        forall|j: int|
            0 <= j < s.active_goals_of(care_plan_id).len() ==> !goal_status_is_terminal(
                #[trigger] s.active_goals_of(care_plan_id)[j].status,
            ),
        forall|j: int|
            0 <= j < list_at(s.plan_goals, care_plan_id).len() && s.goals.contains_key(
                #[trigger] list_at(s.plan_goals, care_plan_id)[j],
            ) && !goal_status_is_terminal(
                s.goals[list_at(s.plan_goals, care_plan_id)[j]].status,
            ) ==> s.active_goals_of(care_plan_id).contains(
                s.goals[list_at(s.plan_goals, care_plan_id)[j]],
            ),
{
    lemma_active_goal_records_props(s.goals, list_at(s.plan_goals, care_plan_id));
}

/// The summary does not filter barriers: every listed barrier id whose
/// record is stored contributes that record, resolved or not.
pub proof fn lemma_summary_barriers_are_unfiltered(s: StoreView, care_plan_id: u64)
    ensures
        forall|j: int|
            0 <= j < list_at(s.plan_barriers, care_plan_id).len() && s.barriers.contains_key(
                #[trigger] list_at(s.plan_barriers, care_plan_id)[j],
            ) ==> s.barriers_of(care_plan_id).contains(
                s.barriers[list_at(s.plan_barriers, care_plan_id)[j]],
            ),
{
    lemma_records_of_complete(s.barriers, list_at(s.plan_barriers, care_plan_id));
}

/// Every record of [`active_goal_records`] is open, and every open stored
/// record among `ids` appears.
proof fn lemma_active_goal_records_props(
    m: Map<u64, GoalView>,
    ids: Seq<u64>,
)
    ensures
        forall|j: int|
            0 <= j < active_goal_records(m, ids).len() ==> !goal_status_is_terminal(
                #[trigger] active_goal_records(m, ids)[j].status,
            ),
        forall|j: int|
            0 <= j < ids.len() && m.contains_key(#[trigger] ids[j]) && !goal_status_is_terminal(
                m[ids[j]].status,
            ) ==> active_goal_records(m, ids).contains(m[ids[j]]),
    decreases ids.len(),
{
    if ids.len() > 0 {
        lemma_active_goal_records_props(m, ids.drop_last());
        let rest = active_goal_records(m, ids.drop_last());
        let full = active_goal_records(m, ids);
        assert forall|j: int|
            0 <= j < ids.len() && m.contains_key(#[trigger] ids[j]) && !goal_status_is_terminal(
                m[ids[j]].status,
            ) implies full.contains(m[ids[j]]) by {
            if j < ids.len() - 1 {
                assert(ids.drop_last()[j] == ids[j]);
                assert(rest.contains(m[ids[j]]));
                let w = choose|w: int| 0 <= w < rest.len() && rest[w] == m[ids[j]];
                assert(full[w] == m[ids[j]]);
            } else {
                assert(full[full.len() - 1] == m[ids[j]]);
            }
        }
    }
}

/// Every stored record among `ids` appears in [`records_of`].
proof fn lemma_records_of_complete<T>(m: Map<u64, T>, ids: Seq<u64>)
    ensures
        forall|j: int|
            0 <= j < ids.len() && m.contains_key(#[trigger] ids[j]) ==> records_of(
                m,
                ids,
            ).contains(m[ids[j]]),
    decreases ids.len(),
{
    if ids.len() > 0 {
        lemma_records_of_complete(m, ids.drop_last());
        let rest = records_of(m, ids.drop_last());
        let full = records_of(m, ids);
        assert forall|j: int|
            0 <= j < ids.len() && m.contains_key(#[trigger] ids[j]) implies full.contains(
            m[ids[j]],
        ) by {
            if j < ids.len() - 1 {
                assert(ids.drop_last()[j] == ids[j]);
                assert(rest.contains(m[ids[j]]));
                let w = choose|w: int| 0 <= w < rest.len() && rest[w] == m[ids[j]];
                assert(full[w] == m[ids[j]]);
            } else {
                assert(full[full.len() - 1] == m[ids[j]]);
            }
        }
    }
}

} // verus!
