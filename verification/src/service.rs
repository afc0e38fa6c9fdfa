//! The command surface of the care-plan service.
//!
//! Every command takes the acting principal together with the yes/no
//! authorization gate for it (identity verification is an external
//! collaborator), performs its storage work, and records one domain event
//! on success. Each command is proved equal to its transition function in
//! [`crate::model`]: the pair of the state after the call and the returned
//! outcome is exactly what the model computes from the state before the
//! call, for every input.

use vstd::prelude::*;

use crate::model::ContractView;
use crate::store::Store;
use crate::store::goal_views;
use crate::store::lemma_goal_views_push;
use crate::model::active_goal_records;
use crate::model::lemma_active_goal_records_extend;
use crate::store::lemma_records_of_extend;
use crate::store::list_at;
use crate::store::records_of;
use crate::types::Address;
use crate::types::CareGoal;
use crate::types::CarePlan;
use crate::types::CarePlanStatus;
use crate::types::CarePlanSummary;
use crate::types::DomainEvent;
use crate::types::Error;
use crate::types::GoalStatus;
use crate::types::Intervention;
use crate::types::Barrier;
use crate::types::CareReview;
use crate::types::CareTeamMember;
use crate::types::ProgressEntry;

verus! {

/// The care-plan service: the persistent dataset plus the ordered log of
/// domain events recorded for the external observer.
pub struct CarePlanContract {
    pub store: Store,
    pub events: Vec<DomainEvent>,
}

impl View for CarePlanContract {
    type V = ContractView;

    open spec fn view(&self) -> ContractView {
        ContractView { store: self.store@, events: self.events@ }
    }
}

impl CarePlanContract {
    /// Sets the service up over an empty dataset.
    pub fn new() -> (r: Self)
        ensures
            r@ == ContractView::init(),
    {
        let r = CarePlanContract { store: Store::new(), events: Vec::new() };
        proof {
            assert(r@ =~= ContractView::init());
        }
        r
    }

    /// Create a new care plan for a patient.
    pub fn create_care_plan(
        &mut self,
        patient_id: Address,
        provider_id: Address,
        provider_auth: bool,
        plan_type: String,
        conditions: Vec<String>,
        goals: Vec<String>,
        start_date: u64,
        review_frequency_days: u32,
        now: u64,
    ) -> (r: Result<u64, Error>)
        requires
            provider_auth ==> old(self)@.store.care_plan_counter < u64::MAX,
            provider_auth ==> start_date + review_frequency_days * 86400 <= u64::MAX,
        ensures
            final(self)@ == old(self)@.create_care_plan(
                patient_id,
                provider_id,
                provider_auth,
                plan_type,
                conditions@,
                goals@,
                start_date,
                review_frequency_days,
                now,
            ).0,
            r == old(self)@.create_care_plan(
                patient_id,
                provider_id,
                provider_auth,
                plan_type,
                conditions@,
                goals@,
                start_date,
                review_frequency_days,
                now,
            ).1,
    {
        if !provider_auth {
            return Err(Error::Unauthorized);
        }
        let care_plan_id = self.store.next_care_plan_id();
        let next_review = start_date + (review_frequency_days as u64) * 86400;

        let plan = CarePlan {
            care_plan_id,
            patient_id,
            provider_id,
            plan_type,
            conditions,
            goals,
            start_date,
            review_frequency_days,
            status: CarePlanStatus::Active,
            next_review_date: next_review,
            last_review_date: None,
            created_at: now,
        };

        self.store.save_care_plan(plan);
        self.store.add_patient_plan(&patient_id, care_plan_id);
        self.events.push(
            DomainEvent::CarePlanCreated { care_plan_id, patient_id, provider_id },
        );

        proof {
            assert(self@ =~= old(self)@.create_care_plan(
                patient_id,
                provider_id,
                provider_auth,
                plan_type,
                conditions@,
                goals@,
                start_date,
                review_frequency_days,
                now,
            ).0);
        }
        Ok(care_plan_id)
    }

    /// Add a goal to an existing care plan.
    pub fn add_care_goal(
        &mut self,
        care_plan_id: u64,
        provider_id: Address,
        provider_auth: bool,
        goal_description: String,
        target_value: Option<String>,
        target_date: u64,
        priority: String,
        now: u64,
    ) -> (r: Result<u64, Error>)
        requires
            provider_auth ==> old(self)@.store.goal_counter < u64::MAX,
        ensures
            final(self)@ == old(self)@.add_care_goal(
                care_plan_id,
                provider_id,
                provider_auth,
                goal_description,
                target_value,
                target_date,
                priority,
                now,
            ).0,
            r == old(self)@.add_care_goal(
                care_plan_id,
                provider_id,
                provider_auth,
                goal_description,
                target_value,
                target_date,
                priority,
                now,
            ).1,
    {
        if !provider_auth {
            return Err(Error::Unauthorized);
        }
        if self.store.load_care_plan(care_plan_id).is_none() {
            return Err(Error::CarePlanNotFound);
        }

        let goal_id = self.store.next_goal_id();

        let goal = CareGoal {
            goal_id,
            care_plan_id,
            description: goal_description,
            target_value,
            target_date,
            priority,
            status: GoalStatus::Active,
            progress_entries: Vec::new(),
            achievement_date: None,
            outcome_notes: None,
            created_by: provider_id,
            created_at: now,
        };

        self.store.save_goal(goal);
        self.store.add_plan_goal(care_plan_id, goal_id);
        self.events.push(DomainEvent::GoalAdded { care_plan_id, goal_id });

        proof {
            assert(self@ =~= old(self)@.add_care_goal(
                care_plan_id,
                provider_id,
                provider_auth,
                goal_description,
                target_value,
                target_date,
                priority,
                now,
            ).0);
        }
        Ok(goal_id)
    }

    /// Mark a care goal as achieved.
    pub fn mark_goal_achieved(
        &mut self,
        goal_id: u64,
        provider_id: Address,
        provider_auth: bool,
        achievement_date: u64,
        outcome_notes: String,
    ) -> (r: Result<(), Error>)
        ensures
            final(self)@ == old(self)@.mark_goal_achieved(
                goal_id,
                provider_id,
                provider_auth,
                achievement_date,
                outcome_notes,
            ).0,
            r == old(self)@.mark_goal_achieved(
                goal_id,
                provider_id,
                provider_auth,
                achievement_date,
                outcome_notes,
            ).1,
    {
        if !provider_auth {
            return Err(Error::Unauthorized);
        }
        let mut goal = match self.store.load_goal(goal_id) {
            Some(g) => g,
            None => {
                return Err(Error::GoalNotFound);
            },
        };

        if goal.status == GoalStatus::Achieved {
            return Err(Error::GoalAlreadyAchieved);
        }
        if goal.status == GoalStatus::Discontinued {
            return Err(Error::GoalDiscontinued);
        }

        goal.status = GoalStatus::Achieved;
        goal.achievement_date = Some(achievement_date);
        goal.outcome_notes = Some(outcome_notes);

        self.store.save_goal(goal);
        self.events.push(DomainEvent::GoalAchieved { goal_id, provider_id });

        proof {
            assert(self@ =~~= old(self)@.mark_goal_achieved(
                goal_id,
                provider_id,
                provider_auth,
                achievement_date,
                outcome_notes,
            ).0);
        }
        Ok(())
    }

    /// Add an intervention to a care plan.
    pub fn add_intervention(
        &mut self,
        care_plan_id: u64,
        provider_id: Address,
        provider_auth: bool,
        intervention_type: String,
        description: String,
        frequency: String,
        responsible_party: String,
        now: u64,
    ) -> (r: Result<u64, Error>)
        requires
            provider_auth ==> old(self)@.store.intervention_counter < u64::MAX,
        ensures
            final(self)@ == old(self)@.add_intervention(
                care_plan_id,
                provider_id,
                provider_auth,
                intervention_type,
                description,
                frequency,
                responsible_party,
                now,
            ).0,
            r == old(self)@.add_intervention(
                care_plan_id,
                provider_id,
                provider_auth,
                intervention_type,
                description,
                frequency,
                responsible_party,
                now,
            ).1,
    {
        if !provider_auth {
            return Err(Error::Unauthorized);
        }
        if self.store.load_care_plan(care_plan_id).is_none() {
            return Err(Error::CarePlanNotFound);
        }

        let intervention_id = self.store.next_intervention_id();

        let intervention = Intervention {
            intervention_id,
            care_plan_id,
            intervention_type,
            description,
            frequency,
            responsible_party,
            assigned_by: provider_id,
            created_at: now,
        };

        self.store.save_intervention(intervention);
        self.store.add_plan_intervention(care_plan_id, intervention_id);
        self.events.push(DomainEvent::InterventionAdded { care_plan_id, intervention_id });

        proof {
            assert(self@ =~= old(self)@.add_intervention(
                care_plan_id,
                provider_id,
                provider_auth,
                intervention_type,
                description,
                frequency,
                responsible_party,
                now,
            ).0);
        }
        Ok(intervention_id)
    }

    /// Record progress against a care goal.
    pub fn record_goal_progress(
        &mut self,
        goal_id: u64,
        patient_id: Address,
        patient_auth: bool,
        current_value: String,
        progress_note: String,
        recorded_date: u64,
    ) -> (r: Result<(), Error>)
        ensures
            final(self)@ == old(self)@.record_goal_progress(
                goal_id,
                patient_id,
                patient_auth,
                current_value,
                progress_note,
                recorded_date,
            ).0,
            r == old(self)@.record_goal_progress(
                goal_id,
                patient_id,
                patient_auth,
                current_value,
                progress_note,
                recorded_date,
            ).1,
    {
        if !patient_auth {
            return Err(Error::Unauthorized);
        }
        let mut goal = match self.store.load_goal(goal_id) {
            Some(g) => g,
            None => {
                return Err(Error::GoalNotFound);
            },
        };

        if goal.status == GoalStatus::Achieved {
            return Err(Error::GoalAlreadyAchieved);
        }
        if goal.status == GoalStatus::Discontinued {
            return Err(Error::GoalDiscontinued);
        }

        let entry = ProgressEntry {
            goal_id,
            patient_id,
            current_value,
            progress_note,
            recorded_date,
        };

        goal.progress_entries.push(entry);
        self.store.save_goal(goal);
        self.events.push(DomainEvent::GoalProgressRecorded { goal_id, patient_id });

        proof {
            assert(self@ =~~= old(self)@.record_goal_progress(
                goal_id,
                patient_id,
                patient_auth,
                current_value,
                progress_note,
                recorded_date,
            ).0);
        }
        Ok(())
    }

    /// Add a barrier to a care plan.
    pub fn add_barrier(
        &mut self,
        care_plan_id: u64,
        reporter: Address,
        reporter_auth: bool,
        barrier_type: String,
        description: String,
        identified_date: u64,
    ) -> (r: Result<u64, Error>)
        requires
            reporter_auth ==> old(self)@.store.barrier_counter < u64::MAX,
        ensures
            final(self)@ == old(self)@.add_barrier(
                care_plan_id,
                reporter,
                reporter_auth,
                barrier_type,
                description,
                identified_date,
            ).0,
            r == old(self)@.add_barrier(
                care_plan_id,
                reporter,
                reporter_auth,
                barrier_type,
                description,
                identified_date,
            ).1,
    {
        if !reporter_auth {
            return Err(Error::Unauthorized);
        }
        if self.store.load_care_plan(care_plan_id).is_none() {
            return Err(Error::CarePlanNotFound);
        }

        let barrier_id = self.store.next_barrier_id();

        let barrier = Barrier {
            barrier_id,
            care_plan_id,
            reporter,
            barrier_type,
            description,
            identified_date,
            resolved: false,
            resolution: None,
            resolution_date: None,
            resolved_by: None,
        };

        self.store.save_barrier(barrier);
        self.store.add_plan_barrier(care_plan_id, barrier_id);
        self.events.push(DomainEvent::BarrierAdded { care_plan_id, barrier_id });

        proof {
            assert(self@ =~= old(self)@.add_barrier(
                care_plan_id,
                reporter,
                reporter_auth,
                barrier_type,
                description,
                identified_date,
            ).0);
        }
        Ok(barrier_id)
    }

    /// Resolve a barrier.
    pub fn resolve_barrier(
        &mut self,
        barrier_id: u64,
        provider_id: Address,
        provider_auth: bool,
        resolution: String,
        resolution_date: u64,
    ) -> (r: Result<(), Error>)
        ensures
            final(self)@ == old(self)@.resolve_barrier(
                barrier_id,
                provider_id,
                provider_auth,
                resolution,
                resolution_date,
            ).0,
            r == old(self)@.resolve_barrier(
                barrier_id,
                provider_id,
                provider_auth,
                resolution,
                resolution_date,
            ).1,
    {
        if !provider_auth {
            return Err(Error::Unauthorized);
        }
        let mut barrier = match self.store.load_barrier(barrier_id) {
            Some(b) => b,
            None => {
                return Err(Error::BarrierNotFound);
            },
        };

        if barrier.resolved {
            return Err(Error::BarrierAlreadyResolved);
        }

        barrier.resolved = true;
        barrier.resolution = Some(resolution);
        barrier.resolution_date = Some(resolution_date);
        barrier.resolved_by = Some(provider_id);

        self.store.save_barrier(barrier);
        self.events.push(DomainEvent::BarrierResolved { barrier_id, provider_id });

        proof {
            assert(self@ =~~= old(self)@.resolve_barrier(
                barrier_id,
                provider_id,
                provider_auth,
                resolution,
                resolution_date,
            ).0);
        }
        Ok(())
    }

    /// Schedule a review for a care plan.
    pub fn schedule_care_plan_review(
        &mut self,
        care_plan_id: u64,
        provider_id: Address,
        provider_auth: bool,
        review_date: u64,
        review_type: String,
    ) -> (r: Result<u64, Error>)
        requires
            provider_auth ==> old(self)@.store.review_counter < u64::MAX,
        ensures
            final(self)@ == old(self)@.schedule_care_plan_review(
                care_plan_id,
                provider_id,
                provider_auth,
                review_date,
                review_type,
            ).0,
            r == old(self)@.schedule_care_plan_review(
                care_plan_id,
                provider_id,
                provider_auth,
                review_date,
                review_type,
            ).1,
    {
        if !provider_auth {
            return Err(Error::Unauthorized);
        }
        if self.store.load_care_plan(care_plan_id).is_none() {
            return Err(Error::CarePlanNotFound);
        }

        let review_id = self.store.next_review_id();

        let review = CareReview {
            review_id,
            care_plan_id,
            scheduled_by: provider_id,
            review_date,
            review_type,
            conducted: false,
            review_notes_hash: None,
            plan_modifications: Vec::new(),
            continue_plan: true,
            conducted_by: None,
            conducted_at: None,
        };

        self.store.save_review(review);
        self.store.add_plan_review(care_plan_id, review_id);
        self.events.push(
            DomainEvent::ReviewScheduled { care_plan_id, review_id, review_date },
        );

        proof {
            assert(self@ =~~= old(self)@.schedule_care_plan_review(
                care_plan_id,
                provider_id,
                provider_auth,
                review_date,
                review_type,
            ).0);
        }
        Ok(review_id)
    }

    /// Conduct a previously scheduled care plan review: set the review
    /// record once and cascade the review dates, and possibly completion,
    /// into the owning plan.
    pub fn conduct_care_plan_review(
        &mut self,
        review_id: u64,
        provider_id: Address,
        provider_auth: bool,
        review_notes_hash: [u8; 32],
        plan_modifications: Vec<String>,
        continue_plan: bool,
        now: u64,
    ) -> (r: Result<(), Error>)
        requires
            ({
                let s = old(self)@.store;
                provider_auth && s.reviews.contains_key(review_id)
                    && !s.reviews[review_id].conducted && s.plans.contains_key(
                    s.reviews[review_id].care_plan_id,
                ) ==> now + s.plans[s.reviews[review_id].care_plan_id].review_frequency_days
                    * 86400 <= u64::MAX
            }),
        ensures
            final(self)@ == old(self)@.conduct_care_plan_review(
                review_id,
                provider_id,
                provider_auth,
                review_notes_hash,
                plan_modifications@,
                continue_plan,
                now,
            ).0,
            r == old(self)@.conduct_care_plan_review(
                review_id,
                provider_id,
                provider_auth,
                review_notes_hash,
                plan_modifications@,
                continue_plan,
                now,
            ).1,
    {
        if !provider_auth {
            return Err(Error::Unauthorized);
        }
        let mut review = match self.store.load_review(review_id) {
            Some(v) => v,
            None => {
                return Err(Error::ReviewNotFound);
            },
        };

        if review.conducted {
            return Err(Error::ReviewAlreadyConducted);
        }

        review.conducted = true;
        review.review_notes_hash = Some(review_notes_hash);
        review.plan_modifications = plan_modifications;
        review.continue_plan = continue_plan;
        review.conducted_by = Some(provider_id);
        review.conducted_at = Some(now);

        // Update the parent care plan's last/next review dates
        match self.store.load_care_plan(review.care_plan_id) {
            Some(mut plan) => {
                plan.last_review_date = Some(now);
                plan.next_review_date = now + (plan.review_frequency_days as u64) * 86400;
                if !continue_plan {
                    plan.status = CarePlanStatus::Completed;
                }
                self.store.save_care_plan(plan);
            },
            None => (),
        }

        self.store.save_review(review);
        self.events.push(
            DomainEvent::ReviewConducted { review_id, provider_id, continue_plan },
        );

        proof {
            assert(self@ =~~= old(self)@.conduct_care_plan_review(
                review_id,
                provider_id,
                provider_auth,
                review_notes_hash,
                plan_modifications@,
                continue_plan,
                now,
            ).0);
        }
        Ok(())
    }

    /// Assign a care team member to a care plan.
    pub fn assign_care_team_member(
        &mut self,
        care_plan_id: u64,
        coordinating_provider: Address,
        coordinator_auth: bool,
        team_member: Address,
        role: String,
        responsibilities: Vec<String>,
        now: u64,
    ) -> (r: Result<(), Error>)
        ensures
            final(self)@ == old(self)@.assign_care_team_member(
                care_plan_id,
                coordinating_provider,
                coordinator_auth,
                team_member,
                role,
                responsibilities@,
                now,
            ).0,
            r == old(self)@.assign_care_team_member(
                care_plan_id,
                coordinating_provider,
                coordinator_auth,
                team_member,
                role,
                responsibilities@,
                now,
            ).1,
    {
        if !coordinator_auth {
            return Err(Error::Unauthorized);
        }
        if self.store.load_care_plan(care_plan_id).is_none() {
            return Err(Error::CarePlanNotFound);
        }

        let mut team = self.store.load_care_team(care_plan_id);

        let member = CareTeamMember {
            care_plan_id,
            team_member,
            role,
            responsibilities,
            assigned_by: coordinating_provider,
            assigned_at: now,
        };

        team.push(member);
        self.store.save_care_team(care_plan_id, team);
        self.events.push(DomainEvent::TeamMemberAssigned { care_plan_id, team_member });

        proof {
            assert(self@ =~~= old(self)@.assign_care_team_member(
                care_plan_id,
                coordinating_provider,
                coordinator_auth,
                team_member,
                role,
                responsibilities@,
                now,
            ).0);
        }
        Ok(())
    }

    /// Get a summary of a care plan: the identifying fields, the goals
    /// still open, all interventions, the full roster, all barriers, and
    /// the review dates. Read-only: no state change and no event.
    #[allow(unused_variables)]
    pub fn get_care_plan_summary(
        &self,
        care_plan_id: u64,
        requester: Address,
        requester_auth: bool,
    ) -> (r: Result<CarePlanSummary, Error>)
        ensures
            self@.get_care_plan_summary(care_plan_id, requester_auth) is Ok <==> r is Ok,
            r is Ok ==> r->Ok_0@ == self@.get_care_plan_summary(
                care_plan_id,
                requester_auth,
            )->Ok_0,
            r is Err ==> r->Err_0 == self@.get_care_plan_summary(
                care_plan_id,
                requester_auth,
            )->Err_0,
    {
        if !requester_auth {
            return Err(Error::Unauthorized);
        }

        let plan = match self.store.load_care_plan(care_plan_id) {
            Some(p) => p,
            None => {
                return Err(Error::CarePlanNotFound);
            },
        };

        // Collect the goals that are still open
        let goal_ids = self.store.load_plan_goals(care_plan_id);
        let ghost gids = list_at(self@.store.plan_goals, care_plan_id);
        let mut active_goals: Vec<CareGoal> = Vec::new();
        let mut i: usize = 0;
        while i < goal_ids.len()
            invariant
                i <= goal_ids.len(),
                goal_ids@ == gids,
                goal_views(active_goals@) == active_goal_records(
                    self@.store.goals,
                    gids.subrange(0, i as int),
                ),
            decreases goal_ids.len() - i,
        {
            proof {
                lemma_active_goal_records_extend(self@.store.goals, gids, i as int);
            }
            match self.store.load_goal(goal_ids[i]) {
                Some(g) => {
                    if !(g.status == GoalStatus::Achieved || g.status == GoalStatus::Discontinued) {
                        let ghost prev = active_goals@;
                        let ghost gv = g@;
                        active_goals.push(g);
                        proof {
                            lemma_goal_views_push(prev, active_goals@.last());
                            assert(goal_views(active_goals@) == goal_views(prev).push(gv));
                        }
                    }
                },
                None => (),
            }
            i = i + 1;
        }
        proof {
            assert(gids.subrange(0, gids.len() as int) =~= gids);
        }

        // Collect all interventions
        let intervention_ids = self.store.load_plan_interventions(care_plan_id);
        let ghost iids = list_at(self@.store.plan_interventions, care_plan_id);
        let mut interventions: Vec<Intervention> = Vec::new();
        let mut k: usize = 0;
        while k < intervention_ids.len()
            invariant
                k <= intervention_ids.len(),
                intervention_ids@ == iids,
                interventions@ == records_of(
                    self@.store.interventions,
                    iids.subrange(0, k as int),
                ),
            decreases intervention_ids.len() - k,
        {
            proof {
                lemma_records_of_extend(self@.store.interventions, iids, k as int);
            }
            match self.store.load_intervention(intervention_ids[k]) {
                Some(v) => interventions.push(v),
                None => (),
            }
            k = k + 1;
        }
        proof {
            assert(iids.subrange(0, iids.len() as int) =~= iids);
        }

        let care_team = self.store.load_care_team(care_plan_id);
        let barriers = self.store.load_plan_barriers(care_plan_id);

        let summary = CarePlanSummary {
            care_plan_id,
            patient_id: plan.patient_id,
            plan_type: plan.plan_type,
            active_goals,
            interventions,
            care_team,
            barriers,
            last_review_date: plan.last_review_date,
            next_review_date: plan.next_review_date,
        };

        proof {
            assert(summary@ =~~= self@.store.summary_of(care_plan_id));
        }
        Ok(summary)
    }
}

} // verus!
