//! The mathematical model of the command surface.
//!
//! Each command of [`crate::service::CarePlanContract`] has a transition
//! function here, from the abstract state and the command's inputs to the
//! next abstract state and the command's typed outcome. A failed
//! authorization or precondition leaves the state exactly as it was; a
//! successful command performs all of its writes and records one event.
//! The executable service is proved to equal these functions, so every
//! property of the model carries over to the running code.

use vstd::prelude::*;

use crate::store::StoreView;
use crate::store::list_at;
use crate::store::records_of;
use crate::types::Address;
use crate::types::Barrier;
use crate::types::CarePlanStatus;
use crate::types::DomainEvent;
use crate::types::Error;
use crate::types::GoalStatus;
use crate::types::GoalView;
use crate::types::Intervention;
use crate::types::PlanView;
use crate::types::ProgressEntry;
use crate::types::ReviewView;
use crate::types::SummaryView;
use crate::types::TeamMemberView;
use crate::types::goal_status_is_terminal;

verus! {

/// Abstract state of the whole service: the persistent dataset plus the
/// ordered log of events handed to the external observer.
#[verifier::ext_equal]
pub struct ContractView {
    pub store: StoreView,
    pub events: Seq<DomainEvent>,
}

/// A review falls due `review_frequency_days` days after `from`, at 86400
/// seconds per day.
pub open spec fn next_review_date(from: u64, review_frequency_days: u32) -> u64 {
    (from + review_frequency_days * 86400) as u64
}

/// Ids of an entity namespace are exactly `1..=counter`: allocation starts
/// at 1, increments by one, and every allocated id is saved in the same
/// atomic unit.
pub open spec fn ids_dense<T>(m: Map<u64, T>, counter: u64) -> bool {
    forall|id: u64| #[trigger] m.contains_key(id) <==> 1 <= id <= counter
}

/// A relationship index keyed by plan id mentions only plan ids that were
/// ever allocated.
pub open spec fn index_keys_bounded<T>(m: Map<u64, T>, counter: u64) -> bool {
    forall|p: u64| #[trigger] m.contains_key(p) ==> 1 <= p <= counter
}

/// The goal records of `m` selected by `ids`, in index order, skipping ids
/// that resolve to no record and keeping exactly the goals whose status is
/// neither achieved nor discontinued.
pub open spec fn active_goal_records(m: Map<u64, GoalView>, ids: Seq<u64>) -> Seq<GoalView>
    decreases ids.len(),
{
    if ids.len() == 0 {
        Seq::empty()
    } else {
        let rest = active_goal_records(m, ids.drop_last());
        let id = ids.last();
        if m.contains_key(id) && !goal_status_is_terminal(m[id].status) {
            rest.push(m[id])
        } else {
            rest
        }
    }
}

/// Walking one more id through [`active_goal_records`] appends that id's
/// record exactly when the id resolves to a goal that is still open.
pub proof fn lemma_active_goal_records_extend(m: Map<u64, GoalView>, ids: Seq<u64>, i: int)
    requires
        0 <= i < ids.len(),
    ensures
        active_goal_records(m, ids.subrange(0, i + 1)) == if m.contains_key(ids[i])
            && !goal_status_is_terminal(m[ids[i]].status) {
            active_goal_records(m, ids.subrange(0, i)).push(m[ids[i]])
        } else {
            active_goal_records(m, ids.subrange(0, i))
        },
{
    assert(ids.subrange(0, i + 1).drop_last() =~= ids.subrange(0, i));
    assert(ids.subrange(0, i + 1).last() == ids[i]);
}

impl StoreView {
    /// Well-formedness of the dataset, established by the empty store and
    /// preserved by every command.
    pub open spec fn wf(self) -> bool {
        &&& ids_dense(self.plans, self.care_plan_counter)
        &&& ids_dense(self.goals, self.goal_counter)
        &&& ids_dense(self.interventions, self.intervention_counter)
        &&& ids_dense(self.barriers, self.barrier_counter)
        &&& ids_dense(self.reviews, self.review_counter)
        &&& index_keys_bounded(self.plan_goals, self.care_plan_counter)
        &&& index_keys_bounded(self.plan_interventions, self.care_plan_counter)
        &&& index_keys_bounded(self.plan_barriers, self.care_plan_counter)
        &&& index_keys_bounded(self.plan_reviews, self.care_plan_counter)
        &&& index_keys_bounded(self.plan_care_team, self.care_plan_counter)
        &&& forall|id: u64| #[trigger]
            self.plans.contains_key(id) ==> self.plans[id].care_plan_id == id
        &&& forall|id: u64| #[trigger] self.goals.contains_key(id) ==> self.goals[id].goal_id == id
        &&& forall|id: u64| #[trigger]
            self.interventions.contains_key(id) ==> self.interventions[id].intervention_id == id
        &&& forall|id: u64| #[trigger]
            self.barriers.contains_key(id) ==> self.barriers[id].barrier_id == id
        &&& forall|id: u64| #[trigger]
            self.reviews.contains_key(id) ==> self.reviews[id].review_id == id
    }

    /// The goals of a plan that are still open: the plan's goal ids in
    /// index order, resolved to records, keeping exactly those whose
    /// status is neither achieved nor discontinued.
    pub open spec fn active_goals_of(self, care_plan_id: u64) -> Seq<GoalView> {
        active_goal_records(self.goals, list_at(self.plan_goals, care_plan_id))
    }

    /// All interventions of a plan, in index order, unfiltered.
    pub open spec fn interventions_of(self, care_plan_id: u64) -> Seq<Intervention> {
        records_of(self.interventions, list_at(self.plan_interventions, care_plan_id))
    }

    /// All barriers of a plan, resolved and unresolved alike, in index
    /// order.
    pub open spec fn barriers_of(self, care_plan_id: u64) -> Seq<Barrier> {
        records_of(self.barriers, list_at(self.plan_barriers, care_plan_id))
    }

    /// The aggregation returned for an existing plan: goals filtered to the
    /// open ones, interventions, roster and barriers unfiltered, and the
    /// plan's review dates.
    pub open spec fn summary_of(self, care_plan_id: u64) -> SummaryView
        recommends
            self.plans.contains_key(care_plan_id),
    {
        let plan = self.plans[care_plan_id];
        SummaryView {
            care_plan_id: care_plan_id,
            patient_id: plan.patient_id,
            plan_type: plan.plan_type,
            active_goals: self.active_goals_of(care_plan_id),
            interventions: self.interventions_of(care_plan_id),
            care_team: list_at(self.plan_care_team, care_plan_id),
            barriers: self.barriers_of(care_plan_id),
            last_review_date: plan.last_review_date,
            next_review_date: plan.next_review_date,
        }
    }
}

impl ContractView {
    /// The state when the service is set up: empty dataset, no events.
    pub open spec fn init() -> ContractView {
        ContractView { store: crate::store::initial_store(), events: Seq::empty() }
    }

    /// Creates a care plan: allocates the next plan id, stores the plan
    /// with status `Active` and its first review date computed from the
    /// start date, indexes it under the patient, and records the event.
    pub open spec fn create_care_plan(
        self,
        patient_id: Address,
        provider_id: Address,
        provider_auth: bool,
        plan_type: String,
        conditions: Seq<String>,
        goals: Seq<String>,
        start_date: u64,
        review_frequency_days: u32,
        now: u64,
    ) -> (ContractView, Result<u64, Error>) {
        if !provider_auth {
            (self, Err(Error::Unauthorized))
        } else {
            let id = (self.store.care_plan_counter + 1) as u64;
            let plan = PlanView {
                care_plan_id: id,
                patient_id: patient_id,
                provider_id: provider_id,
                plan_type: plan_type,
                conditions: conditions,
                goals: goals,
                start_date: start_date,
                review_frequency_days: review_frequency_days,
                status: CarePlanStatus::Active,
                next_review_date: next_review_date(start_date, review_frequency_days),
                last_review_date: None,
                created_at: now,
            };
            let store = StoreView {
                care_plan_counter: id,
                plans: self.store.plans.insert(id, plan),
                patient_plans: self.store.patient_plans.insert(
                    patient_id.id,
                    list_at(self.store.patient_plans, patient_id.id).push(id),
                ),
                ..self.store
            };
            let ev = DomainEvent::CarePlanCreated {
                care_plan_id: id,
                patient_id: patient_id,
                provider_id: provider_id,
            };
            (ContractView { store: store, events: self.events.push(ev) }, Ok(id))
        }
    }

    /// Adds a goal to an existing plan: allocates the next goal id, stores
    /// the goal with status `Active` and no progress yet, and indexes it
    /// under the plan.
    pub open spec fn add_care_goal(
        self,
        care_plan_id: u64,
        provider_id: Address,
        provider_auth: bool,
        goal_description: String,
        target_value: Option<String>,
        target_date: u64,
        priority: String,
        now: u64,
    ) -> (ContractView, Result<u64, Error>) {
        if !provider_auth {
            (self, Err(Error::Unauthorized))
        } else if !self.store.plans.contains_key(care_plan_id) {
            (self, Err(Error::CarePlanNotFound))
        } else {
            let id = (self.store.goal_counter + 1) as u64;
            let goal = GoalView {
                goal_id: id,
                care_plan_id: care_plan_id,
                description: goal_description,
                target_value: target_value,
                target_date: target_date,
                priority: priority,
                status: GoalStatus::Active,
                progress_entries: Seq::empty(),
                achievement_date: None,
                outcome_notes: None,
                created_by: provider_id,
                created_at: now,
            };
            let store = StoreView {
                goal_counter: id,
                goals: self.store.goals.insert(id, goal),
                plan_goals: self.store.plan_goals.insert(
                    care_plan_id,
                    list_at(self.store.plan_goals, care_plan_id).push(id),
                ),
                ..self.store
            };
            let ev = DomainEvent::GoalAdded { care_plan_id: care_plan_id, goal_id: id };
            (ContractView { store: store, events: self.events.push(ev) }, Ok(id))
        }
    }

    /// Adds an intervention to an existing plan.
    pub open spec fn add_intervention(
        self,
        care_plan_id: u64,
        provider_id: Address,
        provider_auth: bool,
        intervention_type: String,
        description: String,
        frequency: String,
        responsible_party: String,
        now: u64,
    ) -> (ContractView, Result<u64, Error>) {
        if !provider_auth {
            (self, Err(Error::Unauthorized))
        } else if !self.store.plans.contains_key(care_plan_id) {
            (self, Err(Error::CarePlanNotFound))
        } else {
            let id = (self.store.intervention_counter + 1) as u64;
            let intervention = Intervention {
                intervention_id: id,
                care_plan_id: care_plan_id,
                intervention_type: intervention_type,
                description: description,
                frequency: frequency,
                responsible_party: responsible_party,
                assigned_by: provider_id,
                created_at: now,
            };
            let store = StoreView {
                intervention_counter: id,
                interventions: self.store.interventions.insert(id, intervention),
                plan_interventions: self.store.plan_interventions.insert(
                    care_plan_id,
                    list_at(self.store.plan_interventions, care_plan_id).push(id),
                ),
                ..self.store
            };
            let ev = DomainEvent::InterventionAdded {
                care_plan_id: care_plan_id,
                intervention_id: id,
            };
            (ContractView { store: store, events: self.events.push(ev) }, Ok(id))
        }
    }

    /// Appends a progress entry to a goal that is still open. A goal
    /// already achieved or discontinued rejects the entry and stays
    /// unchanged.
    pub open spec fn record_goal_progress(
        self,
        goal_id: u64,
        patient_id: Address,
        patient_auth: bool,
        current_value: String,
        progress_note: String,
        recorded_date: u64,
    ) -> (ContractView, Result<(), Error>) {
        if !patient_auth {
            (self, Err(Error::Unauthorized))
        } else if !self.store.goals.contains_key(goal_id) {
            (self, Err(Error::GoalNotFound))
        } else if self.store.goals[goal_id].status == GoalStatus::Achieved {
            (self, Err(Error::GoalAlreadyAchieved))
        } else if self.store.goals[goal_id].status == GoalStatus::Discontinued {
            (self, Err(Error::GoalDiscontinued))
        } else {
            let entry = ProgressEntry {
                goal_id: goal_id,
                patient_id: patient_id,
                current_value: current_value,
                progress_note: progress_note,
                recorded_date: recorded_date,
            };
            let goal = GoalView {
                progress_entries: self.store.goals[goal_id].progress_entries.push(entry),
                ..self.store.goals[goal_id]
            };
            let store = StoreView {
                goals: self.store.goals.insert(goal.goal_id, goal),
                ..self.store
            };
            let ev = DomainEvent::GoalProgressRecorded {
                goal_id: goal_id,
                patient_id: patient_id,
            };
            (ContractView { store: store, events: self.events.push(ev) }, Ok(()))
        }
    }

    /// Marks an open goal achieved, setting the achievement date and the
    /// outcome notes once. A goal already achieved or discontinued rejects
    /// the marking and stays unchanged.
    pub open spec fn mark_goal_achieved(
        self,
        goal_id: u64,
        provider_id: Address,
        provider_auth: bool,
        achievement_date: u64,
        outcome_notes: String,
    ) -> (ContractView, Result<(), Error>) {
        if !provider_auth {
            (self, Err(Error::Unauthorized))
        } else if !self.store.goals.contains_key(goal_id) {
            (self, Err(Error::GoalNotFound))
        } else if self.store.goals[goal_id].status == GoalStatus::Achieved {
            (self, Err(Error::GoalAlreadyAchieved))
        } else if self.store.goals[goal_id].status == GoalStatus::Discontinued {
            (self, Err(Error::GoalDiscontinued))
        } else {
            let goal = GoalView {
                status: GoalStatus::Achieved,
                achievement_date: Some(achievement_date),
                outcome_notes: Some(outcome_notes),
                ..self.store.goals[goal_id]
            };
            let store = StoreView {
                goals: self.store.goals.insert(goal.goal_id, goal),
                ..self.store
            };
            let ev = DomainEvent::GoalAchieved { goal_id: goal_id, provider_id: provider_id };
            (ContractView { store: store, events: self.events.push(ev) }, Ok(()))
        }
    }

    /// Reports a barrier against an existing plan: allocates the next
    /// barrier id and stores it unresolved.
    pub open spec fn add_barrier(
        self,
        care_plan_id: u64,
        reporter: Address,
        reporter_auth: bool,
        barrier_type: String,
        description: String,
        identified_date: u64,
    ) -> (ContractView, Result<u64, Error>) {
        if !reporter_auth {
            (self, Err(Error::Unauthorized))
        } else if !self.store.plans.contains_key(care_plan_id) {
            (self, Err(Error::CarePlanNotFound))
        } else {
            let id = (self.store.barrier_counter + 1) as u64;
            let barrier = Barrier {
                barrier_id: id,
                care_plan_id: care_plan_id,
                reporter: reporter,
                barrier_type: barrier_type,
                description: description,
                identified_date: identified_date,
                resolved: false,
                resolution: None,
                resolution_date: None,
                resolved_by: None,
            };
            let store = StoreView {
                barrier_counter: id,
                barriers: self.store.barriers.insert(id, barrier),
                plan_barriers: self.store.plan_barriers.insert(
                    care_plan_id,
                    list_at(self.store.plan_barriers, care_plan_id).push(id),
                ),
                ..self.store
            };
            let ev = DomainEvent::BarrierAdded { care_plan_id: care_plan_id, barrier_id: id };
            (ContractView { store: store, events: self.events.push(ev) }, Ok(id))
        }
    }

    /// Resolves an open barrier, setting the resolution text, date and
    /// resolver once, together with the one-way `resolved` flag.
    pub open spec fn resolve_barrier(
        self,
        barrier_id: u64,
        provider_id: Address,
        provider_auth: bool,
        resolution: String,
        resolution_date: u64,
    ) -> (ContractView, Result<(), Error>) {
        if !provider_auth {
            (self, Err(Error::Unauthorized))
        } else if !self.store.barriers.contains_key(barrier_id) {
            (self, Err(Error::BarrierNotFound))
        } else if self.store.barriers[barrier_id].resolved {
            (self, Err(Error::BarrierAlreadyResolved))
        } else {
            let barrier = Barrier {
                resolved: true,
                resolution: Some(resolution),
                resolution_date: Some(resolution_date),
                resolved_by: Some(provider_id),
                ..self.store.barriers[barrier_id]
            };
            let store = StoreView {
                barriers: self.store.barriers.insert(barrier.barrier_id, barrier),
                ..self.store
            };
            let ev = DomainEvent::BarrierResolved {
                barrier_id: barrier_id,
                provider_id: provider_id,
            };
            (ContractView { store: store, events: self.events.push(ev) }, Ok(()))
        }
    }

    /// Schedules a review for an existing plan: allocates the next review
    /// id and stores it unconducted.
    pub open spec fn schedule_care_plan_review(
        self,
        care_plan_id: u64,
        provider_id: Address,
        provider_auth: bool,
        review_date: u64,
        review_type: String,
    ) -> (ContractView, Result<u64, Error>) {
        if !provider_auth {
            (self, Err(Error::Unauthorized))
        } else if !self.store.plans.contains_key(care_plan_id) {
            (self, Err(Error::CarePlanNotFound))
        } else {
            let id = (self.store.review_counter + 1) as u64;
            let review = ReviewView {
                review_id: id,
                care_plan_id: care_plan_id,
                scheduled_by: provider_id,
                review_date: review_date,
                review_type: review_type,
                conducted: false,
                review_notes_hash: None,
                plan_modifications: Seq::empty(),
                continue_plan: true,
                conducted_by: None,
                conducted_at: None,
            };
            let store = StoreView {
                review_counter: id,
                reviews: self.store.reviews.insert(id, review),
                plan_reviews: self.store.plan_reviews.insert(
                    care_plan_id,
                    list_at(self.store.plan_reviews, care_plan_id).push(id),
                ),
                ..self.store
            };
            let ev = DomainEvent::ReviewScheduled {
                care_plan_id: care_plan_id,
                review_id: id,
                review_date: review_date,
            };
            (ContractView { store: store, events: self.events.push(ev) }, Ok(id))
        }
    }

    /// Conducts an unconducted review, setting its record once, and
    /// cascades into the owning plan when it still exists: the last review
    /// date becomes `now`, the next review date is recomputed from `now`,
    /// and a review that does not continue the plan completes it.
    pub open spec fn conduct_care_plan_review(
        self,
        review_id: u64,
        provider_id: Address,
        provider_auth: bool,
        review_notes_hash: [u8; 32],
        plan_modifications: Seq<String>,
        continue_plan: bool,
        now: u64,
    ) -> (ContractView, Result<(), Error>) {
        if !provider_auth {
            (self, Err(Error::Unauthorized))
        } else if !self.store.reviews.contains_key(review_id) {
            (self, Err(Error::ReviewNotFound))
        } else if self.store.reviews[review_id].conducted {
            (self, Err(Error::ReviewAlreadyConducted))
        } else {
            let care_plan_id = self.store.reviews[review_id].care_plan_id;
            let review = ReviewView {
                conducted: true,
                review_notes_hash: Some(review_notes_hash),
                plan_modifications: plan_modifications,
                continue_plan: continue_plan,
                conducted_by: Some(provider_id),
                conducted_at: Some(now),
                ..self.store.reviews[review_id]
            };
            let plans = if self.store.plans.contains_key(care_plan_id) {
                let plan = PlanView {
                    last_review_date: Some(now),
                    next_review_date: next_review_date(
                        now,
                        self.store.plans[care_plan_id].review_frequency_days,
                    ),
                    status: if continue_plan {
                        self.store.plans[care_plan_id].status
                    } else {
                        CarePlanStatus::Completed
                    },
                    ..self.store.plans[care_plan_id]
                };
                self.store.plans.insert(plan.care_plan_id, plan)
            } else {
                self.store.plans
            };
            let store = StoreView {
                plans: plans,
                reviews: self.store.reviews.insert(review.review_id, review),
                ..self.store
            };
            let ev = DomainEvent::ReviewConducted {
                review_id: review_id,
                provider_id: provider_id,
                continue_plan: continue_plan,
            };
            (ContractView { store: store, events: self.events.push(ev) }, Ok(()))
        }
    }

    /// Appends a member to the care-team roster of an existing plan.
    pub open spec fn assign_care_team_member(
        self,
        care_plan_id: u64,
        coordinating_provider: Address,
        coordinator_auth: bool,
        team_member: Address,
        role: String,
        responsibilities: Seq<String>,
        now: u64,
    ) -> (ContractView, Result<(), Error>) {
        if !coordinator_auth {
            (self, Err(Error::Unauthorized))
        } else if !self.store.plans.contains_key(care_plan_id) {
            (self, Err(Error::CarePlanNotFound))
        } else {
            let member = TeamMemberView {
                care_plan_id: care_plan_id,
                team_member: team_member,
                role: role,
                responsibilities: responsibilities,
                assigned_by: coordinating_provider,
                assigned_at: now,
            };
            let store = StoreView {
                plan_care_team: self.store.plan_care_team.insert(
                    care_plan_id,
                    list_at(self.store.plan_care_team, care_plan_id).push(member),
                ),
                ..self.store
            };
            let ev = DomainEvent::TeamMemberAssigned {
                care_plan_id: care_plan_id,
                team_member: team_member,
            };
            (ContractView { store: store, events: self.events.push(ev) }, Ok(()))
        }
    }

    /// The read-only aggregation: no state change, no event. Fails without
    /// authorization or when the plan does not exist.
    pub open spec fn get_care_plan_summary(
        self,
        care_plan_id: u64,
        requester_auth: bool,
    ) -> Result<SummaryView, Error> {
        if !requester_auth {
            Err(Error::Unauthorized)
        } else if !self.store.plans.contains_key(care_plan_id) {
            Err(Error::CarePlanNotFound)
        } else {
            Ok(self.store.summary_of(care_plan_id))
        }
    }
}

} // verus!
