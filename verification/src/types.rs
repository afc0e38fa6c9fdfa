//! Entity records of the care-plan domain, their abstract views, and the
//! error and event types shared by every command.

use vstd::prelude::*;

verus! {

/// An authenticated principal: a provider, a patient, or another reporter.
/// Identity verification itself is an external collaborator; the commands
/// only consume a yes/no authorization gate per principal per call.
#[derive(Clone, Copy, Debug, PartialEq, Eq, Hash, Structural)]
pub struct Address {
    pub id: u64,
}

/// Typed outcome of a failed command. Every error aborts the whole
/// operation; no partial write is ever observable.
#[derive(Clone, Copy, Debug, PartialEq, Eq, Structural)]
pub enum Error {
    Unauthorized,
    CarePlanNotFound,
    GoalNotFound,
    InterventionNotFound,
    BarrierNotFound,
    ReviewNotFound,
    GoalAlreadyAchieved,
    GoalDiscontinued,
    BarrierAlreadyResolved,
    ReviewAlreadyConducted,
}

/// Lifecycle status of a care goal. `Achieved` and `Discontinued` are
/// terminal: once reached, no further progress or achievement marking is
/// accepted.
#[derive(Clone, Copy, Debug, PartialEq, Eq, Structural)]
pub enum GoalStatus {
    /// Goal is active and being worked on.
    Active,
    /// Goal is progressing as expected.
    OnTrack,
    /// Goal is at risk of not being met.
    AtRisk,
    /// Goal has been successfully achieved.
    Achieved,
    /// Goal has been discontinued.
    Discontinued,
}

/// Lifecycle status of a care plan.
#[derive(Clone, Copy, Debug, PartialEq, Eq, Structural)]
pub enum CarePlanStatus {
    /// Care plan is active.
    Active,
    /// Care plan is under review.
    UnderReview,
    /// Care plan has been completed.
    Completed,
    /// Care plan has been discontinued.
    Discontinued,
}

/// True exactly when a goal accepts no further mutation.
pub open spec fn goal_status_is_terminal(s: GoalStatus) -> bool {
    s == GoalStatus::Achieved || s == GoalStatus::Discontinued
}

/// A single progress entry logged against a care goal. Immutable once
/// appended.
#[derive(Debug, PartialEq, Eq)]
pub struct ProgressEntry {
    pub goal_id: u64,
    pub patient_id: Address,
    pub current_value: String,
    pub progress_note: String,
    pub recorded_date: u64,
}

impl View for ProgressEntry {
    type V = ProgressEntry;

    open spec fn view(&self) -> ProgressEntry {
        *self
    }
}

impl Clone for ProgressEntry {
    fn clone(&self) -> (res: Self)
        ensures
            res == *self,
    {
        ProgressEntry {
            goal_id: self.goal_id,
            patient_id: self.patient_id,
            current_value: self.current_value.clone(),
            progress_note: self.progress_note.clone(),
            recorded_date: self.recorded_date,
        }
    }
}

/// A care goal associated with a care plan.
#[derive(Debug, PartialEq, Eq)]
pub struct CareGoal {
    pub goal_id: u64,
    pub care_plan_id: u64,
    pub description: String,
    pub target_value: Option<String>,
    pub target_date: u64,
    pub priority: String,
    pub status: GoalStatus,
    pub progress_entries: Vec<ProgressEntry>,
    pub achievement_date: Option<u64>,
    pub outcome_notes: Option<String>,
    pub created_by: Address,
    pub created_at: u64,
}

/// Abstract value of a [`CareGoal`]: the progress list as a sequence.
#[verifier::ext_equal]
pub struct GoalView {
    pub goal_id: u64,
    pub care_plan_id: u64,
    pub description: String,
    pub target_value: Option<String>,
    pub target_date: u64,
    pub priority: String,
    pub status: GoalStatus,
    pub progress_entries: Seq<ProgressEntry>,
    pub achievement_date: Option<u64>,
    pub outcome_notes: Option<String>,
    pub created_by: Address,
    pub created_at: u64,
}

impl View for CareGoal {
    type V = GoalView;

    open spec fn view(&self) -> GoalView {
        GoalView {
            goal_id: self.goal_id,
            care_plan_id: self.care_plan_id,
            description: self.description,
            target_value: self.target_value,
            target_date: self.target_date,
            priority: self.priority,
            status: self.status,
            progress_entries: self.progress_entries@,
            achievement_date: self.achievement_date,
            outcome_notes: self.outcome_notes,
            created_by: self.created_by,
            created_at: self.created_at,
        }
    }
}

/// An intervention associated with a care plan. Fully immutable after
/// creation.
#[derive(Debug, PartialEq, Eq)]
pub struct Intervention {
    pub intervention_id: u64,
    pub care_plan_id: u64,
    pub intervention_type: String,
    pub description: String,
    pub frequency: String,
    /// patient | provider | caregiver
    pub responsible_party: String,
    pub assigned_by: Address,
    pub created_at: u64,
}

impl View for Intervention {
    type V = Intervention;

    open spec fn view(&self) -> Intervention {
        *self
    }
}

/// A barrier to care plan progress, open until resolved. `resolved` moves
/// one way only, and the resolution fields are set once, together with it.
#[derive(Debug, PartialEq, Eq)]
pub struct Barrier {
    pub barrier_id: u64,
    pub care_plan_id: u64,
    pub reporter: Address,
    pub barrier_type: String,
    pub description: String,
    pub identified_date: u64,
    pub resolved: bool,
    pub resolution: Option<String>,
    pub resolution_date: Option<u64>,
    pub resolved_by: Option<Address>,
}

impl View for Barrier {
    type V = Barrier;

    open spec fn view(&self) -> Barrier {
        *self
    }
}

/// A scheduled review of a care plan, conducted at most once. Conducting it
/// sets the notes fingerprint, the modification list and the conducting
/// principal and timestamp, all together with the `conducted` flag.
#[derive(Debug, PartialEq, Eq)]
pub struct CareReview {
    pub review_id: u64,
    pub care_plan_id: u64,
    pub scheduled_by: Address,
    pub review_date: u64,
    pub review_type: String,
    pub conducted: bool,
    pub review_notes_hash: Option<[u8; 32]>,
    pub plan_modifications: Vec<String>,
    pub continue_plan: bool,
    pub conducted_by: Option<Address>,
    pub conducted_at: Option<u64>,
}

/// Abstract value of a [`CareReview`].
#[verifier::ext_equal]
pub struct ReviewView {
    pub review_id: u64,
    pub care_plan_id: u64,
    pub scheduled_by: Address,
    pub review_date: u64,
    pub review_type: String,
    pub conducted: bool,
    pub review_notes_hash: Option<[u8; 32]>,
    pub plan_modifications: Seq<String>,
    pub continue_plan: bool,
    pub conducted_by: Option<Address>,
    pub conducted_at: Option<u64>,
}

impl View for CareReview {
    type V = ReviewView;

    open spec fn view(&self) -> ReviewView {
        ReviewView {
            review_id: self.review_id,
            care_plan_id: self.care_plan_id,
            scheduled_by: self.scheduled_by,
            review_date: self.review_date,
            review_type: self.review_type,
            conducted: self.conducted,
            review_notes_hash: self.review_notes_hash,
            plan_modifications: self.plan_modifications@,
            continue_plan: self.continue_plan,
            conducted_by: self.conducted_by,
            conducted_at: self.conducted_at,
        }
    }
}

/// A care team member assigned to a care plan. The roster is a simple
/// append list; there is no removal or role update.
#[derive(Debug, PartialEq, Eq)]
pub struct CareTeamMember {
    pub care_plan_id: u64,
    pub team_member: Address,
    pub role: String,
    pub responsibilities: Vec<String>,
    pub assigned_by: Address,
    pub assigned_at: u64,
}

/// Abstract value of a [`CareTeamMember`].
#[verifier::ext_equal]
pub struct TeamMemberView {
    pub care_plan_id: u64,
    pub team_member: Address,
    pub role: String,
    pub responsibilities: Seq<String>,
    pub assigned_by: Address,
    pub assigned_at: u64,
}

impl View for CareTeamMember {
    type V = TeamMemberView;

    open spec fn view(&self) -> TeamMemberView {
        TeamMemberView {
            care_plan_id: self.care_plan_id,
            team_member: self.team_member,
            role: self.role,
            responsibilities: self.responsibilities@,
            assigned_by: self.assigned_by,
            assigned_at: self.assigned_at,
        }
    }
}

/// The top-level care plan record.
#[derive(Debug, PartialEq, Eq)]
pub struct CarePlan {
    pub care_plan_id: u64,
    pub patient_id: Address,
    pub provider_id: Address,
    /// chronic_disease | post_op | preventive | palliative
    pub plan_type: String,
    pub conditions: Vec<String>,
    pub goals: Vec<String>,
    pub start_date: u64,
    pub review_frequency_days: u32,
    pub status: CarePlanStatus,
    pub next_review_date: u64,
    pub last_review_date: Option<u64>,
    pub created_at: u64,
}

/// Abstract value of a [`CarePlan`].
#[verifier::ext_equal]
pub struct PlanView {
    pub care_plan_id: u64,
    pub patient_id: Address,
    pub provider_id: Address,
    pub plan_type: String,
    pub conditions: Seq<String>,
    pub goals: Seq<String>,
    pub start_date: u64,
    pub review_frequency_days: u32,
    pub status: CarePlanStatus,
    pub next_review_date: u64,
    pub last_review_date: Option<u64>,
    pub created_at: u64,
}

impl View for CarePlan {
    type V = PlanView;

    open spec fn view(&self) -> PlanView {
        PlanView {
            care_plan_id: self.care_plan_id,
            patient_id: self.patient_id,
            provider_id: self.provider_id,
            plan_type: self.plan_type,
            conditions: self.conditions@,
            goals: self.goals@,
            start_date: self.start_date,
            review_frequency_days: self.review_frequency_days,
            status: self.status,
            next_review_date: self.next_review_date,
            last_review_date: self.last_review_date,
            created_at: self.created_at,
        }
    }
}

/// Read-only aggregation of a plan's current state: goals filtered to those
/// still open, interventions, roster and barriers unfiltered, and the
/// plan's review dates.
#[derive(Debug, PartialEq, Eq)]
pub struct CarePlanSummary {
    pub care_plan_id: u64,
    pub patient_id: Address,
    pub plan_type: String,
    pub active_goals: Vec<CareGoal>,
    pub interventions: Vec<Intervention>,
    pub care_team: Vec<CareTeamMember>,
    pub barriers: Vec<Barrier>,
    pub last_review_date: Option<u64>,
    pub next_review_date: u64,
}

/// Abstract value of a [`CarePlanSummary`].
#[verifier::ext_equal]
pub struct SummaryView {
    pub care_plan_id: u64,
    pub patient_id: Address,
    pub plan_type: String,
    pub active_goals: Seq<GoalView>,
    pub interventions: Seq<Intervention>,
    pub care_team: Seq<TeamMemberView>,
    pub barriers: Seq<Barrier>,
    pub last_review_date: Option<u64>,
    pub next_review_date: u64,
}

impl View for CarePlanSummary {
    type V = SummaryView;

    open spec fn view(&self) -> SummaryView {
        SummaryView {
            care_plan_id: self.care_plan_id,
            patient_id: self.patient_id,
            plan_type: self.plan_type,
            active_goals: self.active_goals@.map_values(|g: CareGoal| g@),
            interventions: self.interventions@,
            care_team: self.care_team@.map_values(|m: CareTeamMember| m@),
            barriers: self.barriers@,
            last_review_date: self.last_review_date,
            next_review_date: self.next_review_date,
        }
    }
}

/// One domain event, recorded by each successful mutating command and
/// carrying the primary identifiers involved together with the acting
/// principal. Consumed by an external observer; never read back by the
/// commands themselves.
#[derive(Clone, Copy, Debug, PartialEq, Eq, Structural)]
pub enum DomainEvent {
    CarePlanCreated { care_plan_id: u64, patient_id: Address, provider_id: Address },
    GoalAdded { care_plan_id: u64, goal_id: u64 },
    InterventionAdded { care_plan_id: u64, intervention_id: u64 },
    GoalProgressRecorded { goal_id: u64, patient_id: Address },
    GoalAchieved { goal_id: u64, provider_id: Address },
    BarrierAdded { care_plan_id: u64, barrier_id: u64 },
    BarrierResolved { barrier_id: u64, provider_id: Address },
    ReviewScheduled { care_plan_id: u64, review_id: u64, review_date: u64 },
    ReviewConducted { review_id: u64, provider_id: Address, continue_plan: bool },
    TeamMemberAssigned { care_plan_id: u64, team_member: Address },
}

/// Clones an optional note or value, preserving it exactly.
fn clone_opt_string(o: &Option<String>) -> (r: Option<String>)
    ensures
        r == *o,
{
    match o {
        Some(s) => Some(s.clone()),
        None => None,
    }
}

/// Clones a list of strings, preserving its abstract value.
fn clone_strings(v: &Vec<String>) -> (r: Vec<String>)
    ensures
        r@ == v@,
{
    let mut r: Vec<String> = Vec::new();
    let mut i: usize = 0;
    while i < v.len()
        invariant
            i <= v.len(),
            r@ =~= v@.subrange(0, i as int),
        decreases v.len() - i,
    {
        r.push(v[i].clone());
        i = i + 1;
        proof {
            assert(r@ =~= v@.subrange(0, i as int));
        }
    }
    proof {
        assert(v@.subrange(0, v@.len() as int) =~= v@);
    }
    r
}

/// Clones the progress list of a goal, preserving its abstract value.
fn clone_progress_entries(v: &Vec<ProgressEntry>) -> (r: Vec<ProgressEntry>)
    ensures
        r@ == v@,
{
    let mut r: Vec<ProgressEntry> = Vec::new();
    let mut i: usize = 0;
    while i < v.len()
        invariant
            i <= v.len(),
            r@ =~= v@.subrange(0, i as int),
        decreases v.len() - i,
    {
        r.push(v[i].clone());
        i = i + 1;
        proof {
            assert(r@ =~= v@.subrange(0, i as int));
        }
    }
    proof {
        assert(v@.subrange(0, v@.len() as int) =~= v@);
    }
    r
}

impl Clone for CareGoal {
    fn clone(&self) -> (res: Self)
        ensures
            res@ == self@,
    {
        let res = CareGoal {
            goal_id: self.goal_id,
            care_plan_id: self.care_plan_id,
            description: self.description.clone(),
            target_value: clone_opt_string(&self.target_value),
            target_date: self.target_date,
            priority: self.priority.clone(),
            status: self.status,
            progress_entries: clone_progress_entries(&self.progress_entries),
            achievement_date: self.achievement_date,
            outcome_notes: clone_opt_string(&self.outcome_notes),
            created_by: self.created_by,
            created_at: self.created_at,
        };
        proof {
            assert(res@ =~= self@);
        }
        res
    }
}

impl Clone for Intervention {
    fn clone(&self) -> (res: Self)
        ensures
            res == *self,
    {
        Intervention {
            intervention_id: self.intervention_id,
            care_plan_id: self.care_plan_id,
            intervention_type: self.intervention_type.clone(),
            description: self.description.clone(),
            frequency: self.frequency.clone(),
            responsible_party: self.responsible_party.clone(),
            assigned_by: self.assigned_by,
            created_at: self.created_at,
        }
    }
}

impl Clone for Barrier {
    fn clone(&self) -> (res: Self)
        ensures
            res == *self,
    {
        Barrier {
            barrier_id: self.barrier_id,
            care_plan_id: self.care_plan_id,
            reporter: self.reporter,
            barrier_type: self.barrier_type.clone(),
            description: self.description.clone(),
            identified_date: self.identified_date,
            resolved: self.resolved,
            resolution: clone_opt_string(&self.resolution),
            resolution_date: self.resolution_date,
            resolved_by: self.resolved_by,
        }
    }
}

impl Clone for CareReview {
    fn clone(&self) -> (res: Self)
        ensures
            res@ == self@,
    {
        let res = CareReview {
            review_id: self.review_id,
            care_plan_id: self.care_plan_id,
            scheduled_by: self.scheduled_by,
            review_date: self.review_date,
            review_type: self.review_type.clone(),
            conducted: self.conducted,
            review_notes_hash: self.review_notes_hash,
            plan_modifications: clone_strings(&self.plan_modifications),
            continue_plan: self.continue_plan,
            conducted_by: self.conducted_by,
            conducted_at: self.conducted_at,
        };
        proof {
            assert(res@ =~= self@);
        }
        res
    }
}

impl Clone for CareTeamMember {
    fn clone(&self) -> (res: Self)
        ensures
            res@ == self@,
    {
        let res = CareTeamMember {
            care_plan_id: self.care_plan_id,
            team_member: self.team_member,
            role: self.role.clone(),
            responsibilities: clone_strings(&self.responsibilities),
            assigned_by: self.assigned_by,
            assigned_at: self.assigned_at,
        };
        proof {
            assert(res@ =~= self@);
        }
        res
    }
}

impl Clone for CarePlan {
    fn clone(&self) -> (res: Self)
        ensures
            res@ == self@,
    {
        let res = CarePlan {
            care_plan_id: self.care_plan_id,
            patient_id: self.patient_id,
            provider_id: self.provider_id,
            plan_type: self.plan_type.clone(),
            conditions: clone_strings(&self.conditions),
            goals: clone_strings(&self.goals),
            start_date: self.start_date,
            review_frequency_days: self.review_frequency_days,
            status: self.status,
            next_review_date: self.next_review_date,
            last_review_date: self.last_review_date,
            created_at: self.created_at,
        };
        proof {
            assert(res@ =~= self@);
        }
        res
    }
}

} // verus!
