use vstd::prelude::*;

use crate::event::{
    after_window, before_window, checked, closed, deregistered, executed, fire_plan, marked_scheduled,
    reaction, releases, resumes, runs, with_job, without_job, Event, EventReaction, EventStatus,
    FirePlan,
};
use crate::feed::Action;

verus! {

/// The event's handle and the timers registered for it agree: a handle is
/// recorded exactly when one timer, the one it names, is live.
pub open spec fn agrees(e: Event, live: Set<u128>) -> bool {
    match e.job_id {
        Some(j) => live == set![j],
        None => live.is_empty(),
    }
}

/// The live timers after an attempt to remove `t`.
pub open spec fn after_removal(live: Set<u128>, t: u128, removed: bool) -> Set<u128> {
    if removed {
        live.remove(t)
    } else {
        live
    }
}

/// The event once a firing is carried out: checked, its script run where the
/// plan says so (with outcome `ok`), its timer released where the plan says so
/// (with outcome `removed`).
pub open spec fn after_firing(e: Event, has_next: bool, now: i64, ok: bool, removed: bool) -> Event {
    let plan = fire_plan(e, has_next, now);
    let e1 = checked(e, has_next, now);
    let e2 = if runs(plan) { executed(e1, ok) } else { e1 };
    if releases(plan, ok) { deregistered(e2, removed) } else { e2 }
}

/// The live timers once a firing of timer `t` is carried out.
pub open spec fn live_after_firing(
    e: Event,
    live: Set<u128>,
    t: u128,
    has_next: bool,
    now: i64,
    ok: bool,
    removed: bool,
) -> Set<u128> {
    if releases(fire_plan(e, has_next, now), ok) { after_removal(live, t, removed) } else { live }
}

/// A reaction to a change notification keeps handle and timers in agreement.
/// A new record has no timer yet; `j` is the handle a new registration gets,
/// and `removed` the outcome of a removal.
pub proof fn lemma_reaction_keeps_agreement(
    action: Action,
    e: Event,
    live: Set<u128>,
    j: u128,
    removed: bool,
)
    requires
        if action == Action::Create { live.is_empty() } else { agrees(e, live) },
        !live.contains(j),
    ensures
        match reaction(action, e) {
            EventReaction::Register => agrees(with_job(e, j), live.insert(j)),
            EventReaction::MarkScheduled => agrees(marked_scheduled(e), live),
            EventReaction::Deregister(t) => removed ==> after_removal(live, t, removed).is_empty(),
            EventReaction::Ignore => agrees(e, live),
        },
{
    match reaction(action, e) {
        EventReaction::Register => {
            assert(live.insert(j) =~= set![j]);
        },
        EventReaction::Deregister(t) => {
            assert(live.remove(t) =~= Set::<u128>::empty());
        },
        _ => {},
    }
}

/// A start of the handler keeps handle and timers in agreement: no timer is
/// live after a restart, the handle is cleared, and an event that resumes gets
/// one new timer `j` and its handle.
pub proof fn lemma_restart_keeps_agreement(e: Event, j: u128)
    ensures
        agrees(without_job(e), Set::<u128>::empty()),
        resumes(e) ==> agrees(with_job(without_job(e), j), set![j]),
{
}

/// A restart pass over a tenant's events (as `prepare_restarts` performs it),
/// with timer `handles[i]` registered for each event that resumes, leaves
/// every event in agreement with the timers registered for it; a done or
/// failed event gets no timer and keeps all but its cleared handle.
pub proof fn lemma_restart_pass_keeps_agreement(before: Seq<Event>, handles: Seq<u128>)
    requires
        handles.len() == before.len(),
    ensures
        forall|i: int|
            0 <= i < before.len() ==> (if resumes(#[trigger] before[i]) {
                agrees(with_job(without_job(before[i]), handles[i]), set![handles[i]])
            } else {
                agrees(without_job(before[i]), Set::<u128>::empty())
            }),
        forall|i: int|
            0 <= i < before.len() && (#[trigger] before[i]).status is Some
                && before[i].status.unwrap().is_final() ==> !resumes(before[i]),
{
    assert forall|i: int| 0 <= i < before.len() implies (if resumes(#[trigger] before[i]) {
        agrees(with_job(without_job(before[i]), handles[i]), set![handles[i]])
    } else {
        agrees(without_job(before[i]), Set::<u128>::empty())
    }) by {
        lemma_restart_keeps_agreement(before[i], handles[i]);
    }
}

/// A firing of the event's timer `t` keeps handle and timers in agreement,
/// whatever the script and the removal of the timer come to.
pub proof fn lemma_firing_keeps_agreement(
    e: Event,
    live: Set<u128>,
    t: u128,
    has_next: bool,
    now: i64,
    ok: bool,
    removed: bool,
)
    requires
        agrees(e, live),
        live.contains(t),
    ensures
        agrees(
            after_firing(e, has_next, now, ok, removed),
            live_after_firing(e, live, t, has_next, now, ok, removed),
        ),
{
    assert(e.job_id == Some(t));
    if removed {
        assert(live.remove(t) =~= Set::<u128>::empty());
    }
}

/// An active event whose timer has no further firing ends done and inactive,
/// its timer released, and is not scheduled again: neither by a restart nor
/// by a later update notification.
pub proof fn lemma_last_firing_ends_event(e: Event, now: i64, ok: bool, removed: bool)
    requires
        e.active,
    ensures
        checked(e, false, now).status == Some(EventStatus::Done),
        !checked(e, false, now).active,
        releases(fire_plan(e, false, now), ok),
        !resumes(after_firing(e, false, now, ok, removed)),
        !after_firing(e, false, now, ok, removed).active,
        reaction(Action::Update, after_firing(e, false, now, ok, removed))
            != EventReaction::Register,
{
}

/// A firing before the window opens, with further firings to come, changes
/// nothing and runs nothing.
pub proof fn lemma_firing_before_window_is_skipped(e: Event, has_next: bool, now: i64)
    requires
        e.active,
        before_window(e, now),
        has_next,
    ensures
        fire_plan(e, has_next, now) == FirePlan::Skip,
        checked(e, has_next, now) == e,
        !runs(fire_plan(e, has_next, now)),
{
}

/// A firing after the window closed ends the event done and inactive, even
/// where the scheduler reports further firings.
pub proof fn lemma_firing_after_window_ends_event(e: Event, has_next: bool, now: i64)
    requires
        e.active,
        !before_window(e, now),
        after_window(e, now),
    ensures
        fire_plan(e, has_next, now) == FirePlan::Finish,
        checked(e, has_next, now) == closed(e, EventStatus::Done),
        releases(fire_plan(e, has_next, now), true),
{
}

} // verus!
