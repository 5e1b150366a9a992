use vstd::prelude::*;
use vstd::string::StringExecFns;

use crate::feed::Action;
use crate::user::same_text;

verus! {

/// Where an event stands in its lifecycle.
#[derive(Debug, Clone, Copy, PartialEq, Eq, Structural)]
pub enum EventStatus {
    Scheduled,
    Running,
    Done,
    Failed,
}

impl EventStatus {
    /// The label under which the status is stored.
    pub open spec fn label(self) -> Seq<char> {
        match self {
            EventStatus::Scheduled => "scheduled"@,
            EventStatus::Running => "running"@,
            EventStatus::Done => "done"@,
            EventStatus::Failed => "failed"@,
        }
    }

    /// The status a stored label stands for, if any.
    pub open spec fn from_label(s: Seq<char>) -> Option<EventStatus> {
        if s == "scheduled"@ {
            Some(EventStatus::Scheduled)
        } else if s == "running"@ {
            Some(EventStatus::Running)
        } else if s == "done"@ {
            Some(EventStatus::Done)
        } else if s == "failed"@ {
            Some(EventStatus::Failed)
        } else {
            None
        }
    }

    /// Done and failed events are never scheduled again.
    pub open spec fn is_final(self) -> bool {
        self == EventStatus::Done || self == EventStatus::Failed
    }

    /// The stored label of the status.
    pub fn to_label(self) -> (r: String)
        ensures
            r@ == self.label(),
    {
        match self {
            EventStatus::Scheduled => String::from_str("scheduled"),
            EventStatus::Running => String::from_str("running"),
            EventStatus::Done => String::from_str("done"),
            EventStatus::Failed => String::from_str("failed"),
        }
    }

    /// Reads a stored label; `None` for a label of no status.
    pub fn parse(s: &str) -> (r: Option<EventStatus>)
        ensures
            r == EventStatus::from_label(s@),
    {
        if same_text(s, "scheduled") {
            Some(EventStatus::Scheduled)
        } else if same_text(s, "running") {
            Some(EventStatus::Running)
        } else if same_text(s, "done") {
            Some(EventStatus::Done)
        } else if same_text(s, "failed") {
            Some(EventStatus::Failed)
        } else {
            None
        }
    }
}

/// A tenant's declarative recurring task.
///
/// `job_id` is the handle of the timer registered for the event, `since` and
/// `until` bound the window (in milliseconds since the epoch) in which it runs.
#[derive(Debug, Clone)]
pub struct Event {
    pub id: String,
    pub active: bool,
    pub script: String,
    pub status: Option<EventStatus>,
    pub job_id: Option<u128>,
    pub schedule: String,
    pub since: Option<i64>,
    pub until: Option<i64>,
}

/// The event once a timer with handle `job` is registered for it.
pub open spec fn with_job(e: Event, job: u128) -> Event {
    Event { job_id: Some(job), status: Some(EventStatus::Scheduled), ..e }
}

/// The event with its status set back to scheduled.
pub open spec fn marked_scheduled(e: Event) -> Event {
    Event { status: Some(EventStatus::Scheduled), ..e }
}

/// The event deactivated with a final status.
pub open spec fn closed(e: Event, status: EventStatus) -> Event {
    Event { status: Some(status), active: false, ..e }
}

/// The event once its timer is gone.
pub open spec fn without_job(e: Event) -> Event {
    Event { job_id: None, ..e }
}

/// What a change notification on the events collection asks for.
#[derive(Debug, Clone, Copy, PartialEq, Eq, Structural)]
pub enum EventReaction {
    /// Register a timer for the event, record its handle and persist the event.
    Register,
    /// Persist the event with its status set to scheduled.
    MarkScheduled,
    /// Remove the timer with this handle.
    Deregister(u128),
    Ignore,
}

/// The reaction to a notification `action` about event `e`.
pub open spec fn reaction(action: Action, e: Event) -> EventReaction {
    match action {
        Action::Create => EventReaction::Register,
        Action::Update => {
            if e.job_id is None && e.active {
                EventReaction::Register
            } else if e.job_id is Some && !e.active && e.status is None {
                EventReaction::MarkScheduled
            } else {
                EventReaction::Ignore
            }
        },
        Action::Delete => match e.job_id {
            Some(j) => EventReaction::Deregister(j),
            None => EventReaction::Ignore,
        },
        Action::Other => EventReaction::Ignore,
    }
}

/// Decides how the events handler reacts to a notification about `event`.
pub fn event_reaction(action: Action, event: &Event) -> (r: EventReaction)
    ensures
        r == reaction(action, *event),
{
    match action {
        Action::Create => EventReaction::Register,
        Action::Update => {
            if event.job_id.is_none() && event.active {
                EventReaction::Register
            } else if event.job_id.is_some() && !event.active && event.status.is_none() {
                EventReaction::MarkScheduled
            } else {
                EventReaction::Ignore
            }
        },
        Action::Delete => match event.job_id {
            Some(j) => EventReaction::Deregister(j),
            None => EventReaction::Ignore,
        },
        Action::Other => EventReaction::Ignore,
    }
}

/// Records that the timer `job` now runs the event.
pub fn record_job(event: &mut Event, job: u128)
    ensures
        *final(event) == with_job(*old(event), job),
{
    event.job_id = Some(job);
    event.status = Some(EventStatus::Scheduled);
}

/// Sets the event's status back to scheduled.
pub fn mark_scheduled(event: &mut Event)
    ensures
        *final(event) == marked_scheduled(*old(event)),
{
    event.status = Some(EventStatus::Scheduled);
}

/// Whether a persisted event gets its timer back when the handler starts:
/// every event that is neither done nor failed does.
pub open spec fn resumes(e: Event) -> bool {
    match e.status {
        Some(s) => !s.is_final(),
        None => true,
    }
}

/// Prepares a persisted event for a start of the handler: no timer survives
/// a restart, so the handle is cleared; the result tells whether a timer is
/// to be registered again.
pub fn prepare_restart(event: &mut Event) -> (register: bool)
    ensures
        *final(event) == without_job(*old(event)),
        register == resumes(*old(event)),
{
    event.job_id = None;
    match event.status {
        Some(s) => !(s == EventStatus::Done || s == EventStatus::Failed),
        None => true,
    }
}

/// Prepares every persisted event of a tenant for a start of the handler; the
/// flag at each position tells whether the event there gets a timer again.
pub fn prepare_restarts(events: &mut Vec<Event>) -> (register: Vec<bool>)
    ensures
        final(events)@.len() == old(events)@.len(),
        register@.len() == old(events)@.len(),
        forall|i: int|
            0 <= i < old(events)@.len() ==> #[trigger] final(events)@[i] == without_job(
                old(events)@[i],
            ) && register@[i] == resumes(old(events)@[i]),
{
    let ghost before = events@;
    let mut register: Vec<bool> = Vec::new();
    let mut i: usize = 0;
    while i < events.len()
        invariant
            i <= events@.len(),
            events@.len() == before.len(),
            register@.len() == i,
            forall|k: int|
                0 <= k < i ==> #[trigger] events@[k] == without_job(before[k]) && register@[k]
                    == resumes(before[k]),
            forall|k: int| i <= k < events@.len() ==> #[trigger] events@[k] == before[k],
        decreases events@.len() - i,
    {
        let r = prepare_restart(&mut events[i]);
        register.push(r);
        i = i + 1;
    }
    register
}

/// What a timer firing leads to.
#[derive(Debug, Clone, Copy, PartialEq, Eq, Structural)]
pub enum FirePlan {
    /// The event is inactive: persist it, run nothing.
    Idle,
    /// The window has not opened yet: nothing changes, nothing runs.
    Skip,
    /// The window has closed, or no firing falls in it any more: release the
    /// timer and persist, run nothing.
    Finish,
    /// Run the script; more firings follow.
    Run,
    /// Run the script for the last time, then release the timer.
    RunLast,
}

/// The window has not opened yet at `now`.
pub open spec fn before_window(e: Event, now: i64) -> bool {
    match e.since {
        Some(since) => now < since,
        None => false,
    }
}

/// The window has closed before `now`.
pub open spec fn after_window(e: Event, now: i64) -> bool {
    match e.until {
        Some(until) => now > until,
        None => false,
    }
}

/// The plan for a firing at `now`; `has_next` is false only where the
/// scheduler reports that no firing of the timer follows. A firing before the
/// window opens is skipped, unless none follows: the event could then never
/// run, and ends.
pub open spec fn fire_plan(e: Event, has_next: bool, now: i64) -> FirePlan {
    if !e.active {
        FirePlan::Idle
    } else if before_window(e, now) {
        if has_next {
            FirePlan::Skip
        } else {
            FirePlan::Finish
        }
    } else if after_window(e, now) {
        FirePlan::Finish
    } else if !has_next {
        FirePlan::RunLast
    } else {
        FirePlan::Run
    }
}

/// The event as a firing leaves it before its script runs.
pub open spec fn checked(e: Event, has_next: bool, now: i64) -> Event {
    match fire_plan(e, has_next, now) {
        FirePlan::Idle => marked_scheduled(e),
        FirePlan::Skip => e,
        FirePlan::Finish => closed(e, EventStatus::Done),
        FirePlan::RunLast => closed(e, EventStatus::Done),
        FirePlan::Run => if e.status == Some(EventStatus::Scheduled) {
            Event { status: Some(EventStatus::Running), ..e }
        } else {
            e
        },
    }
}

/// Applies a firing at `now` to the event as just read from the store.
pub fn event_check(event: &mut Event, has_next: bool, now: i64) -> (plan: FirePlan)
    ensures
        plan == fire_plan(*old(event), has_next, now),
        *final(event) == checked(*old(event), has_next, now),
{
    if !event.active {
        event.status = Some(EventStatus::Scheduled);
        return FirePlan::Idle;
    }
    if let Some(since) = event.since {
        if now < since {
            if has_next {
                return FirePlan::Skip;
            }
            event.status = Some(EventStatus::Done);
            event.active = false;
            return FirePlan::Finish;
        }
    }
    if let Some(until) = event.until {
        if now > until {
            event.status = Some(EventStatus::Done);
            event.active = false;
            return FirePlan::Finish;
        }
    }
    if !has_next {
        event.status = Some(EventStatus::Done);
        event.active = false;
        return FirePlan::RunLast;
    }
    if event.status == Some(EventStatus::Scheduled) {
        event.status = Some(EventStatus::Running);
    }
    FirePlan::Run
}

/// The event after its script ran, successfully or not.
pub open spec fn executed(e: Event, ok: bool) -> Event {
    if ok {
        e
    } else {
        closed(e, EventStatus::Failed)
    }
}

/// Records the outcome of running the event's script: a failure is final.
pub fn record_execution(event: &mut Event, ok: bool)
    ensures
        *final(event) == executed(*old(event), ok),
{
    if !ok {
        event.status = Some(EventStatus::Failed);
        event.active = false;
    }
}

/// Whether the script runs on this plan.
pub open spec fn runs(plan: FirePlan) -> bool {
    plan == FirePlan::Run || plan == FirePlan::RunLast
}

/// Whether the script runs on this plan.
pub fn runs_script(plan: FirePlan) -> (r: bool)
    ensures
        r == runs(plan),
{
    plan == FirePlan::Run || plan == FirePlan::RunLast
}

/// Whether the firing timer is to be removed once the plan is carried out;
/// `ok` is the outcome of the script where it ran.
pub open spec fn releases(plan: FirePlan, ok: bool) -> bool {
    match plan {
        FirePlan::Finish => true,
        FirePlan::RunLast => true,
        FirePlan::Run => !ok,
        _ => false,
    }
}

/// Whether the firing timer is to be removed once the plan is carried out.
pub fn releases_timer(plan: FirePlan, ok: bool) -> (r: bool)
    ensures
        r == releases(plan, ok),
{
    match plan {
        FirePlan::Finish => true,
        FirePlan::RunLast => true,
        FirePlan::Run => !ok,
        _ => false,
    }
}

/// The event after an attempt to remove its timer.
pub open spec fn deregistered(e: Event, removed: bool) -> Event {
    if removed {
        without_job(e)
    } else {
        e
    }
}

/// Records the outcome of removing the event's timer: the handle is cleared
/// only where the scheduler removed it.
pub fn record_deregistration(event: &mut Event, removed: bool)
    ensures
        *final(event) == deregistered(*old(event), removed),
{
    if removed {
        event.job_id = None;
    }
}

} // verus!
