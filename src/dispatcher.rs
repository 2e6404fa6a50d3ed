//! The watchdog dispatcher: one sleeping loop that polices the deadlines of
//! any number of monitors.
//!
//! The loop itself, with its sleep, is run by the caller: these functions
//! are its decisions. `start` gives every periodic monitor its first
//! deadline; `collect_activations` schedules the sporadic monitors whose task
//! reported an activation; `next_wakeup` names the instant to sleep until,
//! the earliest pending deadline; `service` checks every monitor that has a
//! deadline, each of which does nothing until its own deadline has come.
use vstd::prelude::*;
use crate::deadline::{ActivationKind, DeadlineCheck, DeadlineModel, DeadlineProtectedObject};

verus! {

/// The models of a sequence of monitors.
pub open spec fn models(v: Seq<DeadlineProtectedObject>) -> Seq<DeadlineModel> {
    Seq::new(v.len(), |i: int| v[i]@)
}

/// `r` is the earliest pending deadline of `ms`, or `None` when no monitor
/// of `ms` has one.
pub open spec fn is_earliest(ms: Seq<DeadlineModel>, r: Option<u64>) -> bool {
    match r {
        None => forall|i: int| 0 <= i < ms.len() ==> ms[i].next_deadline is None,
        Some(d) => {
            &&& exists|i: int| 0 <= i < ms.len() && ms[i].next_deadline == Some(d)
            &&& forall|i: int|
                0 <= i < ms.len() ==> (#[trigger] ms[i].next_deadline matches Some(e) ==> d <= e)
        },
    }
}

/// A monitor after `start` at `origin`.
pub open spec fn started(m: DeadlineModel, origin: u64) -> DeadlineModel {
    if m.kind == ActivationKind::Periodic {
        m.schedule(origin)
    } else {
        m
    }
}

/// A monitor after `service` at `now`, and the outcome reported for it.
pub open spec fn serviced(m: DeadlineModel, now: u64) -> (DeadlineModel, DeadlineCheck) {
    if m.next_deadline is Some {
        m.check(now)
    } else {
        (m, DeadlineCheck::NotDue)
    }
}

/// Watchdog minimality. Woken at the earliest pending deadline `d`, the
/// dispatcher finds at least one monitor due; every monitor whose deadline
/// lies after `d` is left as it was; and afterwards every pending deadline
/// lies after `d`, so the next sleep target is later than this one.
/// (Periods are taken to be positive.)
pub proof fn lemma_watchdog_minimality(ms: Seq<DeadlineModel>, d: u64)
    requires
        forall|i: int|
            0 <= i < ms.len() ==> #[trigger] ms[i].can_advance() && ms[i].period
                > 0,
        is_earliest(ms, Some(d)),
    ensures
        exists|i: int| 0 <= i < ms.len() && #[trigger] serviced(ms[i], d).1 != DeadlineCheck::NotDue,
        forall|i: int|
            0 <= i < ms.len() ==> (ms[i].next_deadline matches Some(e) && d < e
                ==> #[trigger] serviced(ms[i], d) == (ms[i], DeadlineCheck::NotDue)),
        forall|i: int|
            0 <= i < ms.len() ==> (#[trigger] serviced(ms[i], d).0.next_deadline matches Some(e)
                ==> d < e),
{
    let k = choose|k: int| 0 <= k < ms.len() && ms[k].next_deadline == Some(d);
    assert(serviced(ms[k], d).1 != DeadlineCheck::NotDue);
    assert forall|i: int|
        0 <= i < ms.len() implies (#[trigger] serviced(ms[i], d).0.next_deadline matches Some(e)
        ==> d < e) by {
        assert(ms[i].can_advance());
        if let Some(e) = ms[i].next_deadline {
            assert(d <= e);
        }
    }
}

/// The earliest pending deadline among `monitors`: the instant that the
/// dispatcher sleeps until. `None` when no monitor has a deadline, sporadic
/// monitors without a reported activation being left out.
pub fn next_wakeup(monitors: &Vec<DeadlineProtectedObject>) -> (r: Option<u64>)
    ensures
        is_earliest(models(monitors@), r),
{
    let ghost ms = models(monitors@);
    let mut best: Option<u64> = None;
    let mut i: usize = 0;
    while i < monitors.len()
        invariant
            i <= monitors@.len(),
            ms == models(monitors@),
            is_earliest(ms.take(i as int), best),
        decreases monitors@.len() - i,
    {
        let candidate = monitors[i].next_deadline();
        proof {
            assert(ms.take(i + 1) == ms.take(i as int).push(ms[i as int]));
        }
        match candidate {
            Some(e) => {
                match best {
                    Some(d) => {
                        if e < d {
                            best = Some(e);
                        }
                    },
                    None => {
                        best = Some(e);
                    },
                }
            },
            None => {},
        }
        proof {
            let t = ms.take(i + 1);
            match best {
                Some(d) => {
                    assert forall|j: int| 0 <= j < t.len() implies (#[trigger] t[j].next_deadline matches Some(
                        e,
                    ) ==> d <= e) by {
                        if j < i {
                            assert(t[j] == ms.take(i as int)[j]);
                        }
                    }
                    if candidate == Some(d) {
                        assert(t[i as int].next_deadline == Some(d));
                    } else {
                        let k = choose|k: int|
                            0 <= k < i && ms.take(i as int)[k].next_deadline == Some(d);
                        assert(t[k] == ms.take(i as int)[k]);
                    }
                },
                None => {
                    assert forall|j: int| 0 <= j < t.len() implies t[j].next_deadline is None by {
                        if j < i {
                            assert(t[j] == ms.take(i as int)[j]);
                        }
                    }
                },
            }
        }
        i = i + 1;
    }
    proof {
        assert(ms.take(i as int) == ms);
    }
    best
}

/// The dispatcher's first step: schedules every periodic monitor from the
/// start-of-time instant `origin`. Returns whether any monitor is
/// registered; with none, there is nothing to police and the dispatcher
/// sleeps for good.
pub fn start(monitors: &mut Vec<DeadlineProtectedObject>, origin: u64) -> (r: bool)
    requires
        forall|i: int|
            0 <= i < old(monitors)@.len() ==> (#[trigger] old(monitors)@[i]@.kind
                == ActivationKind::Periodic ==> old(monitors)@[i]@.can_schedule(origin)),
    ensures
        r == (old(monitors)@.len() > 0),
        final(monitors)@.len() == old(monitors)@.len(),
        forall|i: int|
            0 <= i < final(monitors)@.len() ==> #[trigger] final(monitors)@[i]@ == started(
                old(monitors)@[i]@,
                origin,
            ) && final(monitors)@[i].name_spec() == old(monitors)@[i].name_spec(),
{
    let ghost before = monitors@;
    let mut i: usize = 0;
    while i < monitors.len()
        invariant
            i <= monitors@.len(),
            monitors@.len() == before.len(),
            forall|j: int|
                0 <= j < before.len() ==> (#[trigger] before[j]@.kind == ActivationKind::Periodic
                    ==> before[j]@.can_schedule(origin)),
            forall|j: int|
                0 <= j < i ==> #[trigger] monitors@[j]@ == started(before[j]@, origin)
                    && monitors@[j].name_spec() == before[j].name_spec(),
            forall|j: int| i <= j < before.len() ==> #[trigger] monitors@[j] == before[j],
        decreases before.len() - i,
    {
        if monitors[i].kind() == ActivationKind::Periodic {
            monitors[i].schedule(origin);
        }
        i = i + 1;
    }
    monitors.len() > 0
}

/// Schedules the deadline of every monitor whose task reported an
/// activation since the last call.
pub fn collect_activations(monitors: &mut Vec<DeadlineProtectedObject>)
    requires
        forall|i: int|
            0 <= i < old(monitors)@.len() ==> (#[trigger] old(monitors)@[i]@.activation matches Some(
                t,
            ) ==> old(monitors)@[i]@.can_schedule(t)),
    ensures
        final(monitors)@.len() == old(monitors)@.len(),
        forall|i: int|
            0 <= i < final(monitors)@.len() ==> #[trigger] final(monitors)@[i]@ == old(
                monitors,
            )@[i]@.collect() && final(monitors)@[i].name_spec() == old(monitors)@[i].name_spec(),
{
    let ghost before = monitors@;
    let mut i: usize = 0;
    while i < monitors.len()
        invariant
            i <= monitors@.len(),
            monitors@.len() == before.len(),
            forall|j: int|
                0 <= j < before.len() ==> (#[trigger] before[j]@.activation matches Some(t)
                    ==> before[j]@.can_schedule(t)),
            forall|j: int|
                0 <= j < i ==> #[trigger] monitors@[j]@ == before[j]@.collect()
                    && monitors@[j].name_spec() == before[j].name_spec(),
            forall|j: int| i <= j < before.len() ==> #[trigger] monitors@[j] == before[j],
        decreases before.len() - i,
    {
        let _ = monitors[i].collect_activation();
        i = i + 1;
    }
}

/// Checks every monitor that has a pending deadline against `now`; a
/// monitor whose deadline has not come is left as it is. Returns the
/// outcome for each monitor, in order (`NotDue` for one without a deadline).
pub fn service(monitors: &mut Vec<DeadlineProtectedObject>, now: u64) -> (r: Vec<DeadlineCheck>)
    requires
        forall|i: int| 0 <= i < old(monitors)@.len() ==> #[trigger] old(monitors)@[i]@.can_advance(),
    ensures
        final(monitors)@.len() == old(monitors)@.len(),
        r@.len() == old(monitors)@.len(),
        forall|i: int|
            0 <= i < final(monitors)@.len() ==> (#[trigger] final(monitors)@[i]@, r@[i])
                == serviced(old(monitors)@[i]@, now) && final(monitors)@[i].name_spec() == old(
                monitors,
            )@[i].name_spec(),
{
    let ghost before = monitors@;
    let mut outcomes: Vec<DeadlineCheck> = Vec::new();
    let mut i: usize = 0;
    while i < monitors.len()
        invariant
            i <= monitors@.len(),
            monitors@.len() == before.len(),
            outcomes@.len() == i,
            forall|j: int| 0 <= j < before.len() ==> #[trigger] before[j]@.can_advance(),
            forall|j: int|
                0 <= j < i ==> (monitors@[j]@, #[trigger] outcomes@[j]) == serviced(
                    before[j]@,
                    now,
                ) && monitors@[j].name_spec() == before[j].name_spec(),
            forall|j: int| i <= j < before.len() ==> #[trigger] monitors@[j] == before[j],
        decreases before.len() - i,
    {
        let outcome = if monitors[i].next_deadline().is_some() {
            monitors[i].check_and_reschedule(now)
        } else {
            DeadlineCheck::NotDue
        };
        let ghost prev = outcomes@;
        outcomes.push(outcome);
        proof {
            assert forall|j: int| 0 <= j < i implies outcomes@[j] == prev[j] by {}
        }
        i = i + 1;
    }
    outcomes
}

} // verus!
