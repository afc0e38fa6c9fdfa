//! The persistent layer: per-type identifier counters, one durable
//! id-to-record namespace per entity type, and append-only relationship
//! indices keyed by a parent id.
//!
//! [`Store`] bundles the whole dataset and exposes exactly the counter,
//! load, save and index operations that the command surface needs. Its
//! abstract value is a [`StoreView`].

use vstd::prelude::*;
use std::collections::HashMap;

use crate::types::Barrier;
use crate::types::CareGoal;
use crate::types::CarePlan;
use crate::types::CareReview;
use crate::types::CareTeamMember;
use crate::types::GoalView;
use crate::types::Intervention;
use crate::types::PlanView;
use crate::types::ReviewView;
use crate::types::TeamMemberView;
use crate::types::Address;

verus! {

/// A durable id-to-record namespace with full-record get and set, no
/// delete. Abstractly a finite map from id to the record's view.
pub struct Table<V> {
    map: HashMap<u64, V>,
}

impl<V: View> View for Table<V> {
    type V = Map<u64, <V as View>::V>;

    closed spec fn view(&self) -> Map<u64, <V as View>::V> {
        self.map@.map_values(|v: V| v@)
    }
}

impl<V: View> Table<V> {
    pub fn new() -> (r: Self)
        ensures
            r@ == Map::<u64, <V as View>::V>::empty(),
    {
        let r = Table { map: HashMap::new() };
        proof {
            assert(r@ =~= Map::<u64, <V as View>::V>::empty());
        }
        r
    }

    /// Unconditional overwrite of the full record under `id`.
    pub fn save(&mut self, id: u64, v: V)
        ensures
            final(self)@ == old(self)@.insert(id, v@),
    {
        self.map.insert(id, v);
        proof {
            assert(self@ =~= old(self)@.insert(id, v@));
        }
    }

    /// Full-record read; `None` when `id` was never saved.
    pub fn get(&self, id: u64) -> (r: Option<&V>)
        ensures
            match r {
                Some(v) => self@.contains_key(id) && v@ == self@[id],
                None => !self@.contains_key(id),
            },
    {
        self.map.get(&id)
    }
}

/// An append-only list index: parent id to the ordered list of values
/// recorded under it. Abstractly a finite map from parent id to a sequence
/// of value views; a parent that never had an entry maps to nothing, which
/// readers treat as the empty sequence (see [`list_at`]).
pub struct ListTable<V> {
    map: HashMap<u64, Vec<V>>,
}

impl<V: View> View for ListTable<V> {
    type V = Map<u64, Seq<<V as View>::V>>;

    closed spec fn view(&self) -> Map<u64, Seq<<V as View>::V>> {
        self.map@.map_values(|l: Vec<V>| l@.map_values(|v: V| v@))
    }
}

/// The list stored under `k`, or the empty sequence when `k` has none.
pub open spec fn list_at<T>(m: Map<u64, Seq<T>>, k: u64) -> Seq<T> {
    if m.contains_key(k) {
        m[k]
    } else {
        Seq::empty()
    }
}

impl<V: View> ListTable<V> {
    pub fn new() -> (r: Self)
        ensures
            r@ == Map::<u64, Seq<<V as View>::V>>::empty(),
    {
        let r = ListTable { map: HashMap::new() };
        proof {
            assert(r@ =~= Map::<u64, Seq<<V as View>::V>>::empty());
        }
        r
    }

    /// Appends `v` at the end of the list under `k`, creating the list when
    /// `k` had none.
    pub fn append(&mut self, k: u64, v: V)
        ensures
            final(self)@ == old(self)@.insert(k, list_at(old(self)@, k).push(v@)),
    {
        let mut list: Vec<V> = match self.map.remove(&k) {
            Some(l) => l,
            None => Vec::new(),
        };
        list.push(v);
        self.map.insert(k, list);
        proof {
            assert(self@ =~~= old(self)@.insert(k, list_at(old(self)@, k).push(v@)));
        }
    }

    /// Replaces the whole list under `k`.
    pub fn set(&mut self, k: u64, l: Vec<V>)
        ensures
            final(self)@ == old(self)@.insert(k, l@.map_values(|v: V| v@)),
    {
        self.map.insert(k, l);
        proof {
            assert(self@ =~= old(self)@.insert(k, l@.map_values(|v: V| v@)));
        }
    }

    /// The list under `k`; `None` when `k` never had an entry.
    pub fn get(&self, k: u64) -> (r: Option<&Vec<V>>)
        ensures
            match r {
                Some(l) => self@.contains_key(k) && l@.map_values(|v: V| v@) == self@[k],
                None => !self@.contains_key(k),
            },
    {
        self.map.get(&k)
    }
}

/// The abstract values of a roster list, in order.
pub open spec fn member_views(s: Seq<CareTeamMember>) -> Seq<TeamMemberView> {
    s.map_values(|m: CareTeamMember| m@)
}

/// The abstract values of a goal list, in order.
pub open spec fn goal_views(s: Seq<CareGoal>) -> Seq<GoalView> {
    s.map_values(|g: CareGoal| g@)
}

/// Appending a goal appends its abstract value.
pub proof fn lemma_goal_views_push(s: Seq<CareGoal>, g: CareGoal)
    ensures
        goal_views(s.push(g)) == goal_views(s).push(g@),
{
    assert(goal_views(s.push(g)) =~= goal_views(s).push(g@));
}

/// The records of `m` selected by `ids`, in index order, skipping ids that
/// resolve to no record.
pub open spec fn records_of<T>(m: Map<u64, T>, ids: Seq<u64>) -> Seq<T>
    decreases ids.len(),
{
    if ids.len() == 0 {
        Seq::empty()
    } else {
        let rest = records_of(m, ids.drop_last());
        if m.contains_key(ids.last()) {
            rest.push(m[ids.last()])
        } else {
            rest
        }
    }
}

/// Walking one more id through [`records_of`] appends that id's record
/// exactly when the id resolves.
pub proof fn lemma_records_of_extend<T>(m: Map<u64, T>, ids: Seq<u64>, i: int)
    requires
        0 <= i < ids.len(),
    ensures
        records_of(m, ids.subrange(0, i + 1)) == if m.contains_key(ids[i]) {
            records_of(m, ids.subrange(0, i)).push(m[ids[i]])
        } else {
            records_of(m, ids.subrange(0, i))
        },
{
    assert(ids.subrange(0, i + 1).drop_last() =~= ids.subrange(0, i));
    assert(ids.subrange(0, i + 1).last() == ids[i]);
}

/// [`records_of`] over no ids selects no records.
pub proof fn lemma_records_of_nil<T>(m: Map<u64, T>)
    ensures
        records_of(m, Seq::<u64>::empty()) == Seq::<T>::empty(),
{
}

/// Abstract value of the whole dataset: five auto-increment counters, one
/// record namespace per entity type, and the relationship indices.
#[verifier::ext_equal]
pub struct StoreView {
    pub care_plan_counter: u64,
    pub goal_counter: u64,
    pub intervention_counter: u64,
    pub barrier_counter: u64,
    pub review_counter: u64,
    pub plans: Map<u64, PlanView>,
    pub goals: Map<u64, GoalView>,
    pub interventions: Map<u64, Intervention>,
    pub barriers: Map<u64, Barrier>,
    pub reviews: Map<u64, ReviewView>,
    pub plan_goals: Map<u64, Seq<u64>>,
    pub plan_interventions: Map<u64, Seq<u64>>,
    pub plan_barriers: Map<u64, Seq<u64>>,
    pub plan_reviews: Map<u64, Seq<u64>>,
    pub plan_care_team: Map<u64, Seq<TeamMemberView>>,
    pub patient_plans: Map<u64, Seq<u64>>,
}

/// The dataset before any command ran: all counters zero, nothing stored.
pub open spec fn initial_store() -> StoreView {
    StoreView {
        care_plan_counter: 0,
        goal_counter: 0,
        intervention_counter: 0,
        barrier_counter: 0,
        review_counter: 0,
        plans: Map::empty(),
        goals: Map::empty(),
        interventions: Map::empty(),
        barriers: Map::empty(),
        reviews: Map::empty(),
        plan_goals: Map::empty(),
        plan_interventions: Map::empty(),
        plan_barriers: Map::empty(),
        plan_reviews: Map::empty(),
        plan_care_team: Map::empty(),
        patient_plans: Map::empty(),
    }
}

/// The whole persistent dataset of the care-plan domain.
pub struct Store {
    care_plan_counter: u64,
    goal_counter: u64,
    intervention_counter: u64,
    barrier_counter: u64,
    review_counter: u64,
    plans: Table<CarePlan>,
    goals: Table<CareGoal>,
    interventions: Table<Intervention>,
    barriers: Table<Barrier>,
    reviews: Table<CareReview>,
    plan_goals: ListTable<u64>,
    plan_interventions: ListTable<u64>,
    plan_barriers: ListTable<u64>,
    plan_reviews: ListTable<u64>,
    plan_care_team: ListTable<CareTeamMember>,
    patient_plans: ListTable<u64>,
}

impl View for Store {
    type V = StoreView;

    closed spec fn view(&self) -> StoreView {
        StoreView {
            care_plan_counter: self.care_plan_counter,
            goal_counter: self.goal_counter,
            intervention_counter: self.intervention_counter,
            barrier_counter: self.barrier_counter,
            review_counter: self.review_counter,
            plans: self.plans@,
            goals: self.goals@,
            interventions: self.interventions@,
            barriers: self.barriers@,
            reviews: self.reviews@,
            plan_goals: self.plan_goals@,
            plan_interventions: self.plan_interventions@,
            plan_barriers: self.plan_barriers@,
            plan_reviews: self.plan_reviews@,
            plan_care_team: self.plan_care_team@,
            patient_plans: self.patient_plans@,
        }
    }
}

/// Copies a list of ids.
fn copy_ids(v: &Vec<u64>) -> (r: Vec<u64>)
    ensures
        r@ == v@,
{
    let mut r: Vec<u64> = Vec::new();
    let mut i: usize = 0;
    while i < v.len()
        invariant
            i <= v.len(),
            r@ =~= v@.subrange(0, i as int),
        decreases v.len() - i,
    {
        r.push(v[i]);
        i = i + 1;
        proof {
            assert(r@ =~= v@.subrange(0, i as int));
        }
    }
    proof {
        assert(v@.subrange(0, v@.len() as int) =~= v@);
    }
    r
}

impl Store {
    pub fn new() -> (r: Self)
        ensures
            r@ == initial_store(),
    {
        let r = Store {
            care_plan_counter: 0,
            goal_counter: 0,
            intervention_counter: 0,
            barrier_counter: 0,
            review_counter: 0,
            plans: Table::new(),
            goals: Table::new(),
            interventions: Table::new(),
            barriers: Table::new(),
            reviews: Table::new(),
            plan_goals: ListTable::new(),
            plan_interventions: ListTable::new(),
            plan_barriers: ListTable::new(),
            plan_reviews: ListTable::new(),
            plan_care_team: ListTable::new(),
            patient_plans: ListTable::new(),
        };
        proof {
            assert(r@ =~= initial_store());
        }
        r
    }

    /// The number of care plans ever created.
    pub fn care_plan_count(&self) -> (r: u64)
        ensures
            r == self@.care_plan_counter,
    {
        self.care_plan_counter
    }

    /// The number of goals ever created.
    pub fn goal_count(&self) -> (r: u64)
        ensures
            r == self@.goal_counter,
    {
        self.goal_counter
    }

    /// The number of interventions ever created.
    pub fn intervention_count(&self) -> (r: u64)
        ensures
            r == self@.intervention_counter,
    {
        self.intervention_counter
    }

    /// The number of barriers ever reported.
    pub fn barrier_count(&self) -> (r: u64)
        ensures
            r == self@.barrier_counter,
    {
        self.barrier_counter
    }

    /// The number of reviews ever scheduled.
    pub fn review_count(&self) -> (r: u64)
        ensures
            r == self@.review_counter,
    {
        self.review_counter
    }

    /// Allocates the next care-plan id: increments the counter and returns
    /// it. Ids start at 1 and are never reused.
    pub fn next_care_plan_id(&mut self) -> (id: u64)
        requires
            old(self)@.care_plan_counter < u64::MAX,
        ensures
            id == old(self)@.care_plan_counter + 1,
            final(self)@ == (StoreView { care_plan_counter: id, ..old(self)@ }),
    {
        self.care_plan_counter = self.care_plan_counter + 1;
        self.care_plan_counter
    }

    /// Allocates the next goal id.
    pub fn next_goal_id(&mut self) -> (id: u64)
        requires
            old(self)@.goal_counter < u64::MAX,
        ensures
            id == old(self)@.goal_counter + 1,
            final(self)@ == (StoreView { goal_counter: id, ..old(self)@ }),
    {
        self.goal_counter = self.goal_counter + 1;
        self.goal_counter
    }

    /// Allocates the next intervention id.
    pub fn next_intervention_id(&mut self) -> (id: u64)
        requires
            old(self)@.intervention_counter < u64::MAX,
        ensures
            id == old(self)@.intervention_counter + 1,
            final(self)@ == (StoreView { intervention_counter: id, ..old(self)@ }),
    {
        self.intervention_counter = self.intervention_counter + 1;
        self.intervention_counter
    }

    /// Allocates the next barrier id.
    pub fn next_barrier_id(&mut self) -> (id: u64)
        requires
            old(self)@.barrier_counter < u64::MAX,
        ensures
            id == old(self)@.barrier_counter + 1,
            final(self)@ == (StoreView { barrier_counter: id, ..old(self)@ }),
    {
        self.barrier_counter = self.barrier_counter + 1;
        self.barrier_counter
    }

    /// Allocates the next review id.
    pub fn next_review_id(&mut self) -> (id: u64)
        requires
            old(self)@.review_counter < u64::MAX,
        ensures
            id == old(self)@.review_counter + 1,
            final(self)@ == (StoreView { review_counter: id, ..old(self)@ }),
    {
        self.review_counter = self.review_counter + 1;
        self.review_counter
    }

    /// Saves a care plan under its own id, overwriting any earlier record.
    pub fn save_care_plan(&mut self, plan: CarePlan)
        ensures
            final(self)@ == (StoreView {
                plans: old(self)@.plans.insert(plan.care_plan_id, plan@),
                ..old(self)@
            }),
    {
        let id = plan.care_plan_id;
        self.plans.save(id, plan);
    }

    /// Loads the care plan stored under `care_plan_id`.
    pub fn load_care_plan(&self, care_plan_id: u64) -> (r: Option<CarePlan>)
        ensures
            match r {
                Some(p) => self@.plans.contains_key(care_plan_id) && p@ == self@.plans[
                    care_plan_id
                ],
                None => !self@.plans.contains_key(care_plan_id),
            },
    {
        match self.plans.get(care_plan_id) {
            Some(p) => Some(p.clone()),
            None => None,
        }
    }

    /// Appends a plan id to the patient's plan list.
    pub fn add_patient_plan(&mut self, patient_id: &Address, care_plan_id: u64)
        ensures
            final(self)@ == (StoreView {
                patient_plans: old(self)@.patient_plans.insert(
                    patient_id.id,
                    list_at(old(self)@.patient_plans, patient_id.id).push(care_plan_id),
                ),
                ..old(self)@
            }),
    {
        self.patient_plans.append(patient_id.id, care_plan_id);
    }

    /// Saves a goal under its own id.
    pub fn save_goal(&mut self, goal: CareGoal)
        ensures
            final(self)@ == (StoreView {
                goals: old(self)@.goals.insert(goal.goal_id, goal@),
                ..old(self)@
            }),
    {
        let id = goal.goal_id;
        self.goals.save(id, goal);
    }

    /// Loads the goal stored under `goal_id`.
    pub fn load_goal(&self, goal_id: u64) -> (r: Option<CareGoal>)
        ensures
            match r {
                Some(g) => self@.goals.contains_key(goal_id) && g@ == self@.goals[goal_id],
                None => !self@.goals.contains_key(goal_id),
            },
    {
        match self.goals.get(goal_id) {
            Some(g) => Some(g.clone()),
            None => None,
        }
    }

    /// Appends a goal id to the plan's goal list.
    pub fn add_plan_goal(&mut self, care_plan_id: u64, goal_id: u64)
        ensures
            final(self)@ == (StoreView {
                plan_goals: old(self)@.plan_goals.insert(
                    care_plan_id,
                    list_at(old(self)@.plan_goals, care_plan_id).push(goal_id),
                ),
                ..old(self)@
            }),
    {
        self.plan_goals.append(care_plan_id, goal_id);
    }

    /// The ordered goal ids of a plan; empty when the plan never had one.
    pub fn load_plan_goals(&self, care_plan_id: u64) -> (r: Vec<u64>)
        ensures
            r@ == list_at(self@.plan_goals, care_plan_id),
    {
        match self.plan_goals.get(care_plan_id) {
            Some(l) => copy_ids(l),
            None => {
                let r: Vec<u64> = Vec::new();
                proof {
                    assert(r@ =~= list_at(self@.plan_goals, care_plan_id));
                }
                r
            },
        }
    }

    /// Saves an intervention under its own id.
    pub fn save_intervention(&mut self, intervention: Intervention)
        ensures
            final(self)@ == (StoreView {
                interventions: old(self)@.interventions.insert(
                    intervention.intervention_id,
                    intervention@,
                ),
                ..old(self)@
            }),
    {
        let id = intervention.intervention_id;
        self.interventions.save(id, intervention);
    }

    /// Loads the intervention stored under `intervention_id`.
    pub fn load_intervention(&self, intervention_id: u64) -> (r: Option<Intervention>)
        ensures
            match r {
                Some(v) => self@.interventions.contains_key(intervention_id) && v
                    == self@.interventions[intervention_id],
                None => !self@.interventions.contains_key(intervention_id),
            },
    {
        match self.interventions.get(intervention_id) {
            Some(v) => Some(v.clone()),
            None => None,
        }
    }

    /// Appends an intervention id to the plan's intervention list.
    pub fn add_plan_intervention(&mut self, care_plan_id: u64, intervention_id: u64)
        ensures
            final(self)@ == (StoreView {
                plan_interventions: old(self)@.plan_interventions.insert(
                    care_plan_id,
                    list_at(old(self)@.plan_interventions, care_plan_id).push(intervention_id),
                ),
                ..old(self)@
            }),
    {
        self.plan_interventions.append(care_plan_id, intervention_id);
    }

    /// The ordered intervention ids of a plan.
    pub fn load_plan_interventions(&self, care_plan_id: u64) -> (r: Vec<u64>)
        ensures
            r@ == list_at(self@.plan_interventions, care_plan_id),
    {
        match self.plan_interventions.get(care_plan_id) {
            Some(l) => copy_ids(l),
            None => {
                let r: Vec<u64> = Vec::new();
                proof {
                    assert(r@ =~= list_at(self@.plan_interventions, care_plan_id));
                }
                r
            },
        }
    }

    /// Saves a barrier under its own id.
    pub fn save_barrier(&mut self, barrier: Barrier)
        ensures
            final(self)@ == (StoreView {
                barriers: old(self)@.barriers.insert(barrier.barrier_id, barrier@),
                ..old(self)@
            }),
    {
        let id = barrier.barrier_id;
        self.barriers.save(id, barrier);
    }

    /// Loads the barrier stored under `barrier_id`.
    pub fn load_barrier(&self, barrier_id: u64) -> (r: Option<Barrier>)
        ensures
            match r {
                Some(b) => self@.barriers.contains_key(barrier_id) && b == self@.barriers[
                    barrier_id
                ],
                None => !self@.barriers.contains_key(barrier_id),
            },
    {
        match self.barriers.get(barrier_id) {
            Some(b) => Some(b.clone()),
            None => None,
        }
    }

    /// Appends a barrier id to the plan's barrier list.
    pub fn add_plan_barrier(&mut self, care_plan_id: u64, barrier_id: u64)
        ensures
            final(self)@ == (StoreView {
                plan_barriers: old(self)@.plan_barriers.insert(
                    care_plan_id,
                    list_at(old(self)@.plan_barriers, care_plan_id).push(barrier_id),
                ),
                ..old(self)@
            }),
    {
        self.plan_barriers.append(care_plan_id, barrier_id);
    }

    /// The full barrier records of a plan, resolved and unresolved alike,
    /// in the order they were reported.
    pub fn load_plan_barriers(&self, care_plan_id: u64) -> (r: Vec<Barrier>)
        ensures
            r@ == records_of(self@.barriers, list_at(self@.plan_barriers, care_plan_id)),
    {
        let ghost ids_seq = list_at(self@.plan_barriers, care_plan_id);
        let mut out: Vec<Barrier> = Vec::new();
        match self.plan_barriers.get(care_plan_id) {
            None => {
                proof {
                    lemma_records_of_nil::<Barrier>(self@.barriers);
                    assert(ids_seq =~= Seq::<u64>::empty());
                }
            },
            Some(ids) => {
                let mut i: usize = 0;
                while i < ids.len()
                    invariant
                        i <= ids.len(),
                        ids@ == ids_seq,
                        out@ == records_of(self@.barriers, ids_seq.subrange(0, i as int)),
                    decreases ids.len() - i,
                {
                    proof {
                        lemma_records_of_extend(self@.barriers, ids_seq, i as int);
                    }
                    match self.barriers.get(ids[i]) {
                        Some(b) => out.push(b.clone()),
                        None => (),
                    }
                    i = i + 1;
                }
                proof {
                    assert(ids_seq.subrange(0, ids_seq.len() as int) =~= ids_seq);
                }
            },
        }
        out
    }

    /// Saves a review under its own id.
    pub fn save_review(&mut self, review: CareReview)
        ensures
            final(self)@ == (StoreView {
                reviews: old(self)@.reviews.insert(review.review_id, review@),
                ..old(self)@
            }),
    {
        let id = review.review_id;
        self.reviews.save(id, review);
    }

    /// Loads the review stored under `review_id`.
    pub fn load_review(&self, review_id: u64) -> (r: Option<CareReview>)
        ensures
            match r {
                Some(v) => self@.reviews.contains_key(review_id) && v@ == self@.reviews[review_id],
                None => !self@.reviews.contains_key(review_id),
            },
    {
        match self.reviews.get(review_id) {
            Some(v) => Some(v.clone()),
            None => None,
        }
    }

    /// Appends a review id to the plan's review list.
    pub fn add_plan_review(&mut self, care_plan_id: u64, review_id: u64)
        ensures
            final(self)@ == (StoreView {
                plan_reviews: old(self)@.plan_reviews.insert(
                    care_plan_id,
                    list_at(old(self)@.plan_reviews, care_plan_id).push(review_id),
                ),
                ..old(self)@
            }),
    {
        self.plan_reviews.append(care_plan_id, review_id);
    }

    /// The full care-team roster of a plan, in assignment order.
    pub fn load_care_team(&self, care_plan_id: u64) -> (r: Vec<CareTeamMember>)
        ensures
            member_views(r@) == list_at(self@.plan_care_team, care_plan_id),
    {
        let ghost roster = list_at(self@.plan_care_team, care_plan_id);
        let mut out: Vec<CareTeamMember> = Vec::new();
        match self.plan_care_team.get(care_plan_id) {
            None => {
                proof {
                    assert(member_views(out@) =~= roster);
                }
            },
            Some(members) => {
                proof {
                    assert(member_views(members@) =~= members@.map_values(
                        |v: CareTeamMember| v@,
                    ));
                }
                let mut i: usize = 0;
                while i < members.len()
                    invariant
                        i <= members.len(),
                        member_views(members@) == roster,
                        member_views(out@) =~= roster.subrange(0, i as int),
                    decreases members.len() - i,
                {
                    let ghost prev = out@;
                    let c = members[i].clone();
                    out.push(c);
                    proof {
                        assert(member_views(prev).len() == prev.len());
                        assert(prev.len() == i as int);
                        assert(out@ == prev.push(c));
                        assert(roster[i as int] == members@[i as int]@);
                        assert(c@ == roster[i as int]);
                        assert forall|j: int| 0 <= j <= i as int implies member_views(out@)[j]
                            == roster[j] by {
                            assert(member_views(out@)[j] == out@[j]@);
                            if j < i as int {
                                assert(out@[j] == prev[j]);
                                assert(member_views(prev)[j] == prev[j]@);
                                assert(member_views(prev)[j] == roster.subrange(0, i as int)[j]);
                            } else {
                                assert(out@[j] == c);
                            }
                        }
                        assert(member_views(out@) =~= roster.subrange(0, i as int + 1));
                    }
                    i = i + 1;
                }
                proof {
                    assert(roster.subrange(0, roster.len() as int) =~= roster);
                }
            },
        }
        out
    }

    /// Replaces the whole care-team roster of a plan.
    pub fn save_care_team(&mut self, care_plan_id: u64, team: Vec<CareTeamMember>)
        ensures
            final(self)@ == (StoreView {
                plan_care_team: old(self)@.plan_care_team.insert(
                    care_plan_id,
                    member_views(team@),
                ),
                ..old(self)@
            }),
    {
        let ghost views = member_views(team@);
        self.plan_care_team.set(care_plan_id, team);
        proof {
            assert(views =~= team@.map_values(|v: CareTeamMember| v@));
            assert(self@ =~= (StoreView {
                plan_care_team: old(self)@.plan_care_team.insert(care_plan_id, views),
                ..old(self)@
            }));
        }
    }
}

} // verus!
