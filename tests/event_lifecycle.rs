use std::collections::HashSet;

use interventions::event::{
    event_check, event_reaction, mark_scheduled, prepare_restart, prepare_restarts,
    record_deregistration,
    record_execution, record_job, releases_timer, runs_script, Event, EventReaction, EventStatus, FirePlan,
};
use interventions::feed::Action;

fn sample(active: bool, status: Option<EventStatus>, job_id: Option<u128>) -> Event {
    Event {
        id: "events:nightly".to_string(),
        active,
        script: "RETURN 1;".to_string(),
        status,
        job_id,
        schedule: "0 0 * * * *".to_string(),
        since: None,
        until: None,
    }
}

#[test]
fn status_labels_round_trip() {
    for s in [EventStatus::Scheduled, EventStatus::Running, EventStatus::Done, EventStatus::Failed] {
        assert_eq!(EventStatus::parse(&s.to_label()), Some(s));
    }
    assert_eq!(EventStatus::Scheduled.to_label(), "scheduled");
    assert_eq!(EventStatus::Failed.to_label(), "failed");
    assert_eq!(EventStatus::parse("paused"), None);
    assert_eq!(EventStatus::parse(""), None);
}

#[test]
fn create_notification_registers() {
    let e = sample(false, None, None);
    assert_eq!(event_reaction(Action::Create, &e), EventReaction::Register);
}

#[test]
fn update_without_timer_registers_only_when_active() {
    assert_eq!(event_reaction(Action::Update, &sample(true, None, None)), EventReaction::Register);
    assert_eq!(event_reaction(Action::Update, &sample(false, None, None)), EventReaction::Ignore);
}

#[test]
fn update_with_timer_inactive_and_no_status_marks_scheduled() {
    let e = sample(false, None, Some(7));
    assert_eq!(event_reaction(Action::Update, &e), EventReaction::MarkScheduled);
    let e = sample(false, Some(EventStatus::Running), Some(7));
    assert_eq!(event_reaction(Action::Update, &e), EventReaction::Ignore);
    let e = sample(true, None, Some(7));
    assert_eq!(event_reaction(Action::Update, &e), EventReaction::Ignore);
}

#[test]
fn delete_releases_the_timer() {
    assert_eq!(
        event_reaction(Action::Delete, &sample(true, None, Some(42))),
        EventReaction::Deregister(42)
    );
    assert_eq!(event_reaction(Action::Delete, &sample(true, None, None)), EventReaction::Ignore);
    assert_eq!(event_reaction(Action::Other, &sample(true, None, None)), EventReaction::Ignore);
}

#[test]
fn registering_records_handle_and_status() {
    let mut e = sample(true, None, None);
    record_job(&mut e, 99);
    assert_eq!(e.job_id, Some(99));
    assert_eq!(e.status, Some(EventStatus::Scheduled));
    assert!(e.active);

    let mut e = sample(false, None, Some(3));
    mark_scheduled(&mut e);
    assert_eq!(e.status, Some(EventStatus::Scheduled));
    assert_eq!(e.job_id, Some(3));
}

#[test]
fn restart_resumes_only_unfinished_events() {
    let mut e = sample(true, Some(EventStatus::Running), Some(5));
    assert!(prepare_restart(&mut e));
    assert_eq!(e.job_id, None);
    assert_eq!(e.status, Some(EventStatus::Running));

    let mut e = sample(true, Some(EventStatus::Scheduled), Some(5));
    assert!(prepare_restart(&mut e));

    let mut e = sample(false, Some(EventStatus::Done), Some(5));
    assert!(!prepare_restart(&mut e));
    assert_eq!(e.job_id, None);

    let mut e = sample(false, Some(EventStatus::Failed), None);
    assert!(!prepare_restart(&mut e));

    let mut e = sample(true, None, Some(5));
    assert!(prepare_restart(&mut e));
    assert_eq!(e.job_id, None);
    assert_eq!(e.status, None);
}

#[test]
fn inactive_firing_idles() {
    let mut e = sample(false, Some(EventStatus::Running), Some(1));
    assert_eq!(event_check(&mut e, true, 1_000), FirePlan::Idle);
    assert_eq!(e.status, Some(EventStatus::Scheduled));
    assert!(!e.active);
    assert_eq!(e.job_id, Some(1));
}

#[test]
fn firing_before_since_changes_nothing() {
    let mut e = sample(true, Some(EventStatus::Scheduled), Some(1));
    e.since = Some(5_000);
    assert_eq!(event_check(&mut e, true, 4_999), FirePlan::Skip);
    assert_eq!(e.status, Some(EventStatus::Scheduled));
    assert!(e.active);
    assert_eq!(event_check(&mut e, true, 4_999), FirePlan::Skip);
    assert_eq!(e.status, Some(EventStatus::Scheduled));
    assert!(e.active);
}

#[test]
fn last_firing_before_since_ends_the_event() {
    let mut e = sample(true, Some(EventStatus::Scheduled), Some(1));
    e.since = Some(100);
    let plan = event_check(&mut e, false, 0);
    assert_eq!(plan, FirePlan::Finish);
    assert_eq!(e.status, Some(EventStatus::Done));
    assert!(!e.active);
    assert!(!runs_script(plan));
    assert!(releases_timer(plan, true));
    record_deregistration(&mut e, true);
    assert_eq!(e.job_id, None);
    assert!(!prepare_restart(&mut e));
}

#[test]
fn firing_at_since_runs() {
    let mut e = sample(true, Some(EventStatus::Scheduled), Some(1));
    e.since = Some(5_000);
    assert_eq!(event_check(&mut e, true, 5_000), FirePlan::Run);
    assert_eq!(e.status, Some(EventStatus::Running));
}

#[test]
fn firing_after_until_finishes_even_with_more_firings() {
    let mut e = sample(true, Some(EventStatus::Running), Some(1));
    e.until = Some(10_000);
    assert_eq!(event_check(&mut e, true, 10_001), FirePlan::Finish);
    assert_eq!(e.status, Some(EventStatus::Done));
    assert!(!e.active);
    assert!(releases_timer(FirePlan::Finish, true));
}

#[test]
fn firing_at_until_still_runs() {
    let mut e = sample(true, Some(EventStatus::Running), Some(1));
    e.until = Some(10_000);
    assert_eq!(event_check(&mut e, true, 10_000), FirePlan::Run);
    assert_eq!(e.status, Some(EventStatus::Running));
    assert!(e.active);
}

#[test]
fn last_firing_ends_done_and_is_not_resumed() {
    let mut e = sample(true, Some(EventStatus::Scheduled), Some(8));
    let plan = event_check(&mut e, false, 0);
    assert_eq!(plan, FirePlan::RunLast);
    assert_eq!(e.status, Some(EventStatus::Done));
    assert!(!e.active);
    record_execution(&mut e, true);
    assert!(releases_timer(plan, true));
    record_deregistration(&mut e, true);
    assert_eq!(e.job_id, None);
    assert_eq!(e.status, Some(EventStatus::Done));
    assert_eq!(event_reaction(Action::Update, &e), EventReaction::Ignore);
    let mut again = e.clone();
    assert!(!prepare_restart(&mut again));
}

#[test]
fn failed_script_is_final() {
    let mut e = sample(true, Some(EventStatus::Scheduled), Some(4));
    let plan = event_check(&mut e, true, 0);
    assert_eq!(plan, FirePlan::Run);
    record_execution(&mut e, false);
    assert_eq!(e.status, Some(EventStatus::Failed));
    assert!(!e.active);
    assert!(releases_timer(plan, false));
    assert!(!releases_timer(plan, true));
    record_deregistration(&mut e, false);
    assert_eq!(e.job_id, Some(4));
    record_deregistration(&mut e, true);
    assert_eq!(e.job_id, None);
}

#[test]
fn running_status_stays_running() {
    let mut e = sample(true, Some(EventStatus::Running), Some(4));
    assert_eq!(event_check(&mut e, true, 0), FirePlan::Run);
    assert_eq!(e.status, Some(EventStatus::Running));
    record_execution(&mut e, true);
    assert_eq!(e.status, Some(EventStatus::Running));
    assert!(!releases_timer(FirePlan::Run, true));
    assert!(!releases_timer(FirePlan::Idle, false));
    assert!(!releases_timer(FirePlan::Skip, false));
    assert!(runs_script(FirePlan::Run));
    assert!(runs_script(FirePlan::RunLast));
    assert!(!runs_script(FirePlan::Idle));
    assert!(!runs_script(FirePlan::Skip));
}

fn agrees(e: &Event, live: &HashSet<u128>) -> bool {
    match e.job_id {
        Some(j) => live.len() == 1 && live.contains(&j),
        None => live.is_empty(),
    }
}

#[test]
fn handle_and_timers_agree_through_a_lifecycle() {
    let mut live: HashSet<u128> = HashSet::new();
    let mut e = sample(true, None, None);

    assert_eq!(event_reaction(Action::Create, &e), EventReaction::Register);
    live.insert(11);
    record_job(&mut e, 11);
    assert!(agrees(&e, &live));

    // a restart drops every timer
    live.clear();
    assert!(prepare_restart(&mut e));
    assert!(agrees(&e, &live));
    live.insert(12);
    record_job(&mut e, 12);
    assert!(agrees(&e, &live));

    // an ordinary firing
    let plan = event_check(&mut e, true, 0);
    record_execution(&mut e, true);
    assert!(!releases_timer(plan, true));
    assert!(agrees(&e, &live));

    // the last firing releases the timer
    let plan = event_check(&mut e, false, 0);
    record_execution(&mut e, true);
    assert!(releases_timer(plan, true));
    live.remove(&12);
    record_deregistration(&mut e, true);
    assert!(agrees(&e, &live));
    assert_eq!(e.status, Some(EventStatus::Done));
}

#[test]
fn restart_pass_clears_every_handle() {
    let mut events = vec![
        sample(true, Some(EventStatus::Running), Some(1)),
        sample(false, Some(EventStatus::Done), Some(2)),
        sample(true, None, None),
        sample(false, Some(EventStatus::Failed), Some(3)),
    ];
    let register = prepare_restarts(&mut events);
    assert_eq!(register, vec![true, false, true, false]);
    assert!(events.iter().all(|e| e.job_id.is_none()));
    assert_eq!(events[1].status, Some(EventStatus::Done));
    assert!(prepare_restarts(&mut Vec::new()).is_empty());
}
