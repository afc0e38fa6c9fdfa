use care_plan::types::{CarePlanStatus, DomainEvent, GoalStatus};
use care_plan::{Address, CarePlanContract, Error};

fn s(x: &str) -> String {
    x.to_string()
}

fn provider() -> Address {
    Address { id: 10 }
}

fn patient() -> Address {
    Address { id: 20 }
}

fn new_plan(c: &mut CarePlanContract, start_date: u64, review_frequency_days: u32) -> u64 {
    c.create_care_plan(
        patient(),
        provider(),
        true,
        s("chronic_disease"),
        vec![s("diabetes")],
        vec![s("lower HbA1c")],
        start_date,
        review_frequency_days,
        50,
    )
    .unwrap()
}

fn new_goal(c: &mut CarePlanContract, plan: u64) -> u64 {
    c.add_care_goal(
        plan,
        provider(),
        true,
        s("walk daily"),
        Some(s("30 minutes")),
        9_000,
        s("high"),
        60,
    )
    .unwrap()
}

#[test]
fn test_create_care_plan_computes_next_review_date() {
    let mut c = CarePlanContract::new();
    let plan = new_plan(&mut c, 1_000, 7);
    assert_eq!(plan, 1);
    let summary = c.get_care_plan_summary(plan, provider(), true).unwrap();
    assert_eq!(summary.next_review_date, 1_000 + 7 * 86_400);
    assert_eq!(summary.next_review_date, 605_800);
    assert_eq!(summary.last_review_date, None);
}

#[test]
fn test_identifier_monotonicity() {
    let mut c = CarePlanContract::new();
    assert_eq!(new_plan(&mut c, 1_000, 7), 1);
    assert_eq!(new_plan(&mut c, 2_000, 14), 2);
    assert_eq!(new_plan(&mut c, 3_000, 30), 3);
    assert_eq!(new_goal(&mut c, 1), 1);
    assert_eq!(new_goal(&mut c, 2), 2);
    assert_eq!(new_goal(&mut c, 1), 3);
    let b1 = c
        .add_barrier(1, patient(), true, s("transport"), s("no car"), 70)
        .unwrap();
    let b2 = c
        .add_barrier(2, patient(), true, s("cost"), s("copay"), 71)
        .unwrap();
    assert_eq!((b1, b2), (1, 2));
    assert_eq!(c.store.care_plan_count(), 3);
    assert_eq!(c.store.goal_count(), 3);
    assert_eq!(c.store.barrier_count(), 2);
}

#[test]
fn test_mark_goal_achieved_is_terminal() {
    let mut c = CarePlanContract::new();
    let plan = new_plan(&mut c, 1_000, 7);
    let goal = new_goal(&mut c, plan);

    assert_eq!(
        c.mark_goal_achieved(goal, provider(), true, 500, s("done")),
        Ok(())
    );
    assert_eq!(
        c.mark_goal_achieved(goal, provider(), true, 600, s("again")),
        Err(Error::GoalAlreadyAchieved)
    );
    assert_eq!(
        c.record_goal_progress(goal, patient(), true, s("25 minutes"), s("nearly"), 700),
        Err(Error::GoalAlreadyAchieved)
    );

    // the failed calls left the stored goal exactly as the marking wrote it
    let stored = c.store.load_goal(goal).unwrap();
    assert_eq!(stored.status, GoalStatus::Achieved);
    assert_eq!(stored.achievement_date, Some(500));
    assert_eq!(stored.outcome_notes, Some(s("done")));
    assert_eq!(stored.progress_entries.len(), 0);
}

#[test]
fn test_discontinued_goal_rejects_all_mutation() {
    let mut c = CarePlanContract::new();
    let plan = new_plan(&mut c, 1_000, 7);
    let goal = new_goal(&mut c, plan);

    let mut g = c.store.load_goal(goal).unwrap();
    g.status = GoalStatus::Discontinued;
    c.store.save_goal(g);

    assert_eq!(
        c.record_goal_progress(goal, patient(), true, s("x"), s("y"), 1),
        Err(Error::GoalDiscontinued)
    );
    assert_eq!(
        c.mark_goal_achieved(goal, provider(), true, 2, s("z")),
        Err(Error::GoalDiscontinued)
    );
}

#[test]
fn test_conduct_review_cascade_completes_plan() {
    let mut c = CarePlanContract::new();
    let plan = new_plan(&mut c, 1_000, 7);
    let review = c
        .schedule_care_plan_review(plan, provider(), true, 5_000, s("quarterly"))
        .unwrap();

    let t = 2_000u64;
    assert_eq!(
        c.conduct_care_plan_review(review, provider(), true, [7u8; 32], vec![s("adjust dose")], false, t),
        Ok(())
    );

    let stored_plan = c.store.load_care_plan(plan).unwrap();
    assert_eq!(stored_plan.status, CarePlanStatus::Completed);
    assert_eq!(stored_plan.last_review_date, Some(t));
    assert_eq!(stored_plan.next_review_date, t + 604_800);

    let stored_review = c.store.load_review(review).unwrap();
    assert!(stored_review.conducted);
    assert_eq!(stored_review.review_notes_hash, Some([7u8; 32]));
    assert_eq!(stored_review.conducted_by, Some(provider()));
    assert_eq!(stored_review.conducted_at, Some(t));
    assert_eq!(stored_review.plan_modifications, vec![s("adjust dose")]);
}

#[test]
fn test_conduct_review_cascade_continue_keeps_status() {
    let mut c = CarePlanContract::new();
    let plan = new_plan(&mut c, 1_000, 7);
    let review = c
        .schedule_care_plan_review(plan, provider(), true, 5_000, s("quarterly"))
        .unwrap();

    assert_eq!(
        c.conduct_care_plan_review(review, provider(), true, [0u8; 32], vec![], true, 3_000),
        Ok(())
    );

    let stored_plan = c.store.load_care_plan(plan).unwrap();
    assert_eq!(stored_plan.status, CarePlanStatus::Active);
    assert_eq!(stored_plan.last_review_date, Some(3_000));
    assert_eq!(stored_plan.next_review_date, 3_000 + 7 * 86_400);
}

#[test]
fn test_conduct_review_twice_rejected() {
    let mut c = CarePlanContract::new();
    let plan = new_plan(&mut c, 1_000, 7);
    let review = c
        .schedule_care_plan_review(plan, provider(), true, 5_000, s("annual"))
        .unwrap();
    assert_eq!(
        c.conduct_care_plan_review(review, provider(), true, [1u8; 32], vec![], true, 100),
        Ok(())
    );
    assert_eq!(
        c.conduct_care_plan_review(review, provider(), true, [2u8; 32], vec![], false, 200),
        Err(Error::ReviewAlreadyConducted)
    );
    // the rejected second call changed nothing
    let stored_review = c.store.load_review(review).unwrap();
    assert_eq!(stored_review.review_notes_hash, Some([1u8; 32]));
    assert_eq!(stored_review.conducted_at, Some(100));
}

#[test]
fn test_round_trip_summary_after_create() {
    let mut c = CarePlanContract::new();
    let plan = c
        .create_care_plan(
            patient(),
            provider(),
            true,
            s("post_op"),
            vec![s("hip replacement")],
            vec![s("mobility")],
            1_000,
            7,
            50,
        )
        .unwrap();

    let summary = c.get_care_plan_summary(plan, patient(), true).unwrap();
    assert_eq!(summary.care_plan_id, plan);
    assert_eq!(summary.patient_id, patient());
    assert_eq!(summary.plan_type, s("post_op"));
    assert_eq!(summary.next_review_date, 605_800);
    assert_eq!(summary.last_review_date, None);
    assert!(summary.active_goals.is_empty());
    assert!(summary.interventions.is_empty());
    assert!(summary.care_team.is_empty());
    assert!(summary.barriers.is_empty());
}

#[test]
fn test_summary_filters_goals_but_not_barriers() {
    let mut c = CarePlanContract::new();
    let plan = new_plan(&mut c, 1_000, 7);
    let achieved = new_goal(&mut c, plan);
    let active = new_goal(&mut c, plan);
    c.mark_goal_achieved(achieved, provider(), true, 100, s("done"))
        .unwrap();

    let resolved = c
        .add_barrier(plan, patient(), true, s("transport"), s("no car"), 70)
        .unwrap();
    let open = c
        .add_barrier(plan, patient(), true, s("cost"), s("copay"), 71)
        .unwrap();
    c.resolve_barrier(resolved, provider(), true, s("bus pass"), 80)
        .unwrap();

    let summary = c.get_care_plan_summary(plan, provider(), true).unwrap();
    assert_eq!(summary.active_goals.len(), 1);
    assert_eq!(summary.active_goals[0].goal_id, active);
    assert_eq!(summary.active_goals[0].status, GoalStatus::Active);

    assert_eq!(summary.barriers.len(), 2);
    assert_eq!(summary.barriers[0].barrier_id, resolved);
    assert!(summary.barriers[0].resolved);
    assert_eq!(summary.barriers[1].barrier_id, open);
    assert!(!summary.barriers[1].resolved);
}

#[test]
fn test_unauthorized_calls_leave_state_untouched() {
    let mut c = CarePlanContract::new();
    let plan = new_plan(&mut c, 1_000, 7);
    let events_before = c.events.len();

    assert_eq!(
        c.create_care_plan(patient(), provider(), false, s("x"), vec![], vec![], 1, 1, 2),
        Err(Error::Unauthorized)
    );
    assert_eq!(
        c.add_care_goal(plan, provider(), false, s("g"), None, 1, s("low"), 2),
        Err(Error::Unauthorized)
    );
    assert_eq!(
        c.add_intervention(plan, provider(), false, s("t"), s("d"), s("daily"), s("patient"), 2),
        Err(Error::Unauthorized)
    );
    assert_eq!(
        c.record_goal_progress(1, patient(), false, s("v"), s("n"), 2),
        Err(Error::Unauthorized)
    );
    assert_eq!(
        c.mark_goal_achieved(1, provider(), false, 1, s("n")),
        Err(Error::Unauthorized)
    );
    assert_eq!(
        c.add_barrier(plan, patient(), false, s("t"), s("d"), 1),
        Err(Error::Unauthorized)
    );
    assert_eq!(
        c.resolve_barrier(1, provider(), false, s("r"), 1),
        Err(Error::Unauthorized)
    );
    assert_eq!(
        c.schedule_care_plan_review(plan, provider(), false, 1, s("t")),
        Err(Error::Unauthorized)
    );
    assert_eq!(
        c.conduct_care_plan_review(1, provider(), false, [0u8; 32], vec![], true, 1),
        Err(Error::Unauthorized)
    );
    assert_eq!(
        c.assign_care_team_member(plan, provider(), false, patient(), s("r"), vec![], 1),
        Err(Error::Unauthorized)
    );
    assert_eq!(
        c.get_care_plan_summary(plan, provider(), false).unwrap_err(),
        Error::Unauthorized
    );

    // no id allocated, no record saved, no index or event appended
    assert_eq!(c.store.care_plan_count(), 1);
    assert_eq!(c.store.goal_count(), 0);
    assert_eq!(c.store.intervention_count(), 0);
    assert_eq!(c.store.barrier_count(), 0);
    assert_eq!(c.store.review_count(), 0);
    assert!(c.store.load_plan_goals(plan).is_empty());
    assert!(c.store.load_plan_interventions(plan).is_empty());
    assert!(c.store.load_plan_barriers(plan).is_empty());
    assert!(c.store.load_care_team(plan).is_empty());
    assert_eq!(c.events.len(), events_before);
}

#[test]
fn test_missing_plan_is_reported() {
    let mut c = CarePlanContract::new();
    assert_eq!(
        c.add_care_goal(42, provider(), true, s("g"), None, 1, s("low"), 2),
        Err(Error::CarePlanNotFound)
    );
    assert_eq!(
        c.add_intervention(42, provider(), true, s("t"), s("d"), s("daily"), s("patient"), 2),
        Err(Error::CarePlanNotFound)
    );
    assert_eq!(
        c.add_barrier(42, patient(), true, s("t"), s("d"), 1),
        Err(Error::CarePlanNotFound)
    );
    assert_eq!(
        c.schedule_care_plan_review(42, provider(), true, 1, s("t")),
        Err(Error::CarePlanNotFound)
    );
    assert_eq!(
        c.assign_care_team_member(42, provider(), true, patient(), s("r"), vec![], 1),
        Err(Error::CarePlanNotFound)
    );
    assert_eq!(
        c.get_care_plan_summary(42, provider(), true).unwrap_err(),
        Error::CarePlanNotFound
    );
}

#[test]
fn test_missing_goal_barrier_review_are_reported() {
    let mut c = CarePlanContract::new();
    assert_eq!(
        c.record_goal_progress(9, patient(), true, s("v"), s("n"), 2),
        Err(Error::GoalNotFound)
    );
    assert_eq!(
        c.mark_goal_achieved(9, provider(), true, 1, s("n")),
        Err(Error::GoalNotFound)
    );
    assert_eq!(
        c.resolve_barrier(9, provider(), true, s("r"), 1),
        Err(Error::BarrierNotFound)
    );
    assert_eq!(
        c.conduct_care_plan_review(9, provider(), true, [0u8; 32], vec![], true, 1),
        Err(Error::ReviewNotFound)
    );
}

#[test]
fn test_record_goal_progress_appends_in_order() {
    let mut c = CarePlanContract::new();
    let plan = new_plan(&mut c, 1_000, 7);
    let goal = new_goal(&mut c, plan);

    c.record_goal_progress(goal, patient(), true, s("10 minutes"), s("started"), 100)
        .unwrap();
    c.record_goal_progress(goal, patient(), true, s("20 minutes"), s("better"), 200)
        .unwrap();

    let stored = c.store.load_goal(goal).unwrap();
    assert_eq!(stored.progress_entries.len(), 2);
    assert_eq!(stored.progress_entries[0].current_value, s("10 minutes"));
    assert_eq!(stored.progress_entries[0].recorded_date, 100);
    assert_eq!(stored.progress_entries[1].current_value, s("20 minutes"));
    assert_eq!(stored.progress_entries[1].progress_note, s("better"));
    assert_eq!(stored.progress_entries[1].patient_id, patient());
}

#[test]
fn test_resolve_barrier_sets_resolution_once() {
    let mut c = CarePlanContract::new();
    let plan = new_plan(&mut c, 1_000, 7);
    let barrier = c
        .add_barrier(plan, patient(), true, s("transport"), s("no car"), 70)
        .unwrap();

    assert_eq!(
        c.resolve_barrier(barrier, provider(), true, s("bus pass issued"), 90),
        Ok(())
    );
    let stored = c.store.load_barrier(barrier).unwrap();
    assert!(stored.resolved);
    assert_eq!(stored.resolution, Some(s("bus pass issued")));
    assert_eq!(stored.resolution_date, Some(90));
    assert_eq!(stored.resolved_by, Some(provider()));

    assert_eq!(
        c.resolve_barrier(barrier, provider(), true, s("again"), 91),
        Err(Error::BarrierAlreadyResolved)
    );
    // the rejected call changed nothing
    assert_eq!(c.store.load_barrier(barrier).unwrap().resolution_date, Some(90));
}

#[test]
fn test_intervention_is_stored_and_listed() {
    let mut c = CarePlanContract::new();
    let plan = new_plan(&mut c, 1_000, 7);
    let i1 = c
        .add_intervention(plan, provider(), true, s("medication"), s("metformin"), s("twice daily"), s("patient"), 60)
        .unwrap();
    let i2 = c
        .add_intervention(plan, provider(), true, s("exercise"), s("walking"), s("daily"), s("caregiver"), 61)
        .unwrap();
    assert_eq!((i1, i2), (1, 2));

    let summary = c.get_care_plan_summary(plan, provider(), true).unwrap();
    assert_eq!(summary.interventions.len(), 2);
    assert_eq!(summary.interventions[0].description, s("metformin"));
    assert_eq!(summary.interventions[1].intervention_type, s("exercise"));
    assert_eq!(summary.interventions[1].assigned_by, provider());
}

#[test]
fn test_care_team_roster_appends_in_order() {
    let mut c = CarePlanContract::new();
    let plan = new_plan(&mut c, 1_000, 7);
    let nurse = Address { id: 31 };
    let dietician = Address { id: 32 };

    c.assign_care_team_member(plan, provider(), true, nurse, s("nurse"), vec![s("vitals")], 60)
        .unwrap();
    c.assign_care_team_member(
        plan,
        provider(),
        true,
        dietician,
        s("dietician"),
        vec![s("meal plan"), s("follow-up")],
        61,
    )
    .unwrap();

    let roster = c.store.load_care_team(plan);
    assert_eq!(roster.len(), 2);
    assert_eq!(roster[0].team_member, nurse);
    assert_eq!(roster[0].role, s("nurse"));
    assert_eq!(roster[1].team_member, dietician);
    assert_eq!(roster[1].responsibilities, vec![s("meal plan"), s("follow-up")]);
    assert_eq!(roster[1].assigned_by, provider());
}

#[test]
fn test_events_are_recorded_in_order() {
    let mut c = CarePlanContract::new();
    let plan = new_plan(&mut c, 1_000, 7);
    let goal = new_goal(&mut c, plan);
    c.mark_goal_achieved(goal, provider(), true, 500, s("done"))
        .unwrap();

    assert_eq!(
        c.events,
        vec![
            DomainEvent::CarePlanCreated {
                care_plan_id: plan,
                patient_id: patient(),
                provider_id: provider(),
            },
            DomainEvent::GoalAdded { care_plan_id: plan, goal_id: goal },
            DomainEvent::GoalAchieved { goal_id: goal, provider_id: provider() },
        ]
    );
}

#[test]
fn test_plans_are_indexed_under_patient() {
    let mut c = CarePlanContract::new();
    let p1 = new_plan(&mut c, 1_000, 7);
    let other_patient = Address { id: 21 };
    let p2 = c
        .create_care_plan(
            other_patient,
            provider(),
            true,
            s("preventive"),
            vec![],
            vec![],
            2_000,
            30,
            51,
        )
        .unwrap();
    let p3 = new_plan(&mut c, 3_000, 14);

    let first = c.store.load_care_plan(p1).unwrap();
    assert_eq!(first.patient_id, patient());
    let second = c.store.load_care_plan(p2).unwrap();
    assert_eq!(second.patient_id, other_patient);
    let third = c.store.load_care_plan(p3).unwrap();
    assert_eq!(third.patient_id, patient());
    assert_eq!(third.review_frequency_days, 14);
}
