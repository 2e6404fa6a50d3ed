use rt_monitor::deadline::{ActivationKind, DeadlineCheck, DeadlineProtectedObject, Stopper};
use rt_monitor::deadline_miss_handler::DeadlineMissHandlerObject;
use rt_monitor::dispatcher::{collect_activations, next_wakeup, service, start};
use rt_monitor::request_buffer::RequestBuffer;
use rt_monitor::tasks::{
    monitors, regular_producer_release, ACTIVATION_LOG_READER, EXTERNAL_EVENT_SERVER,
    ON_CALL_PRODUCER, ON_CALL_PRODUCER_WORKLOAD, REGULAR_PRODUCER,
};

fn periodic(name: &'static str, period: u64) -> DeadlineProtectedObject {
    DeadlineProtectedObject::new(name, ActivationKind::Periodic, period)
}

#[test]
fn done_before_deadline_is_no_miss() {
    let mut m = periodic("T", 1_000);
    let mut s = Stopper::new();
    m.schedule(0);
    assert_eq!(m.next_deadline(), Some(1_000));
    assert_eq!(m.activations(), 1);
    s.done(&mut m);
    assert_eq!(m.check_and_reschedule(999), DeadlineCheck::NotDue);
    assert_eq!(m.check_and_reschedule(1_000), DeadlineCheck::Met);
    assert_eq!(m.misses(), 0);
    assert_eq!(m.next_deadline(), Some(2_000));
    assert_eq!(m.activations(), 2);
}

#[test]
fn no_done_is_exactly_one_miss() {
    let mut m = periodic("T", 500);
    m.schedule(100);
    assert_eq!(m.check_and_reschedule(600), DeadlineCheck::Missed);
    assert_eq!(m.misses(), 1);
    assert_eq!(m.next_deadline(), Some(1_100));
}

#[test]
fn schedule_epochs_increase_and_drop_stale_reports() {
    let mut m = periodic("T", 10);
    let mut s = Stopper::new();
    let mut seen = Vec::new();
    for t in 0..5u64 {
        m.schedule(t);
        seen.push(m.activations());
    }
    assert_eq!(seen, vec![1, 2, 3, 4, 5]);
    // a report of epoch 1 is stale once epoch 5 is expected
    s.done(&mut m);
    assert_eq!(s.completions(), 1);
    assert_eq!(m.check_and_reschedule(14), DeadlineCheck::Missed);
    assert_eq!(m.misses(), 1);
    // schedule drops a report left over from before
    m.cancel_deadline(m.activations() + 1);
    m.schedule(20);
    assert_eq!(m.check_and_reschedule(30), DeadlineCheck::Missed);
    assert_eq!(m.misses(), 2);
}

#[test]
fn latest_report_wins_at_the_deadline() {
    let mut m = periodic("T", 10);
    m.schedule(0);
    m.cancel_deadline(1);
    m.cancel_deadline(7);
    assert_eq!(m.check_and_reschedule(10), DeadlineCheck::Missed);
    m.cancel_deadline(9);
    m.cancel_deadline(2);
    assert_eq!(m.check_and_reschedule(20), DeadlineCheck::Met);
    assert_eq!(m.misses(), 1);
}

#[test]
fn sporadic_deadline_follows_reported_activation() {
    let mut m = DeadlineProtectedObject::new("S", ActivationKind::Sporadic, 100);
    let mut s = Stopper::new();
    assert_eq!(m.name(), "S");
    assert_eq!(m.kind(), ActivationKind::Sporadic);
    assert_eq!(m.period(), 100);
    assert!(!m.collect_activation());
    assert_eq!(m.next_deadline(), None);
    m.report_activation(1_234);
    assert!(m.collect_activation());
    assert_eq!(m.next_deadline(), Some(1_334));
    s.done(&mut m);
    assert_eq!(m.check_and_reschedule(1_334), DeadlineCheck::Met);
    assert_eq!(m.next_deadline(), None);
    // the verdict ended epoch 1; the next activation belongs to epoch 2
    assert_eq!(m.activations(), 2);
    m.report_activation(2_000);
    assert!(m.collect_activation());
    assert_eq!(m.activations(), 2);
    assert_eq!(m.check_and_reschedule(2_100), DeadlineCheck::Missed);
    assert_eq!(m.misses(), 1);
}

#[test]
fn miss_detected_directly() {
    let mut m = periodic("T", 10);
    m.schedule(0);
    assert_eq!(m.activations(), 1);
    assert!(m.deadline_miss_detected());
    assert_eq!(m.misses(), 1);
    assert_eq!(m.activations(), 2);
    m.cancel_deadline(2);
    assert!(!m.deadline_miss_detected());
    assert_eq!(m.misses(), 1);
    assert_eq!(m.activations(), 3);
    // a report of an epoch already judged is stale
    m.cancel_deadline(2);
    assert!(m.deadline_miss_detected());
    assert_eq!(m.misses(), 2);
}

#[test]
fn unreported_verdicts_count_without_bound() {
    let mut m = periodic("T", 10);
    m.schedule(0);
    for k in 1..=7u64 {
        assert!(m.deadline_miss_detected());
        assert_eq!(m.misses(), k);
        assert_eq!(m.activations(), 1 + k);
    }
}

#[test]
fn sporadic_epoch_rises_once_per_activation() {
    let mut m = DeadlineProtectedObject::new("S", ActivationKind::Sporadic, 100);
    let mut s = Stopper::new();
    for k in 1..=5u64 {
        let at = k * 1_000;
        m.report_activation(at);
        assert!(m.collect_activation());
        assert_eq!(m.activations(), k);
        s.done(&mut m);
        assert_eq!(s.completions(), k);
        assert_eq!(m.check_and_reschedule(at + 100), DeadlineCheck::Met);
    }
    assert_eq!(m.misses(), 0);
}

#[test]
fn monitor_names() {
    let ms = monitors();
    assert_eq!(ms[EXTERNAL_EVENT_SERVER].name(), "External_Event_Server");
    assert_eq!(ms[ACTIVATION_LOG_READER].name(), "Activation_Log_Reader");
    assert_eq!(ms[ON_CALL_PRODUCER].name(), "On_Call_Producer");
    assert_eq!(ms[REGULAR_PRODUCER].name(), "Regular_Producer");
}

#[test]
fn overflow_guards() {
    let mut m = periodic("T", 10);
    assert!(m.can_schedule(0));
    assert!(!m.can_schedule(u64::MAX - 5));
    assert!(m.can_advance());
    m.schedule(u64::MAX - 15);
    assert!(!m.can_advance());
}

#[test]
fn can_advance_needs_room_for_a_miss_only_when_one_is_due() {
    let mut m = periodic("T", 10);
    m.schedule(0);
    for _ in 0..3 {
        m.deadline_miss_detected();
    }
    assert_eq!(m.activations(), 4);
    m.cancel_deadline(4);
    assert!(m.can_advance());
}

#[test]
fn watchdog_wakes_at_earliest_deadline() {
    let mut ms = vec![periodic("A", 300), periodic("B", 100), periodic("C", 200)];
    assert!(start(&mut ms, 0));
    assert_eq!(next_wakeup(&ms), Some(100));
    let out = service(&mut ms, 100);
    assert_eq!(
        out,
        vec![DeadlineCheck::NotDue, DeadlineCheck::Missed, DeadlineCheck::NotDue]
    );
    assert_eq!(ms[0].next_deadline(), Some(300));
    assert_eq!(ms[1].next_deadline(), Some(200));
    assert_eq!(ms[2].next_deadline(), Some(200));
    assert_eq!(next_wakeup(&ms), Some(200));
    let out = service(&mut ms, 200);
    assert_eq!(
        out,
        vec![DeadlineCheck::NotDue, DeadlineCheck::Missed, DeadlineCheck::Missed]
    );
    assert_eq!(next_wakeup(&ms), Some(300));
    assert_eq!(ms[0].misses(), 0);
}

#[test]
fn watchdog_with_no_monitors_sleeps_for_good() {
    let mut ms: Vec<DeadlineProtectedObject> = Vec::new();
    assert!(!start(&mut ms, 0));
    assert_eq!(next_wakeup(&ms), None);
    assert_eq!(service(&mut ms, 10), Vec::new());
}

#[test]
fn watchdog_leaves_unactivated_sporadic_out() {
    let mut ms = monitors();
    assert!(start(&mut ms, 0));
    assert_eq!(ms[EXTERNAL_EVENT_SERVER].next_deadline(), None);
    assert_eq!(ms[ACTIVATION_LOG_READER].next_deadline(), None);
    assert_eq!(ms[ON_CALL_PRODUCER].next_deadline(), None);
    assert_eq!(ms[REGULAR_PRODUCER].next_deadline(), Some(1_000));
    assert_eq!(next_wakeup(&ms), Some(1_000));
    ms[EXTERNAL_EVENT_SERVER].report_activation(400);
    collect_activations(&mut ms);
    assert_eq!(next_wakeup(&ms), Some(500));
    let out = service(&mut ms, 500);
    assert_eq!(out[EXTERNAL_EVENT_SERVER], DeadlineCheck::Missed);
    assert_eq!(out[REGULAR_PRODUCER], DeadlineCheck::NotDue);
    assert_eq!(next_wakeup(&ms), Some(1_000));
}

#[test]
fn end_to_end_periodic_monitor() {
    let mut ms = vec![periodic("Regular_Producer", 1_000)];
    let mut stopper = Stopper::new();
    assert!(start(&mut ms, 0));
    for _ in 0..10 {
        let deadline = next_wakeup(&ms).unwrap();
        // the task finishes 5 ms before its deadline
        let _finish = deadline - 5;
        stopper.done(&mut ms[0]);
        let out = service(&mut ms, deadline);
        assert_eq!(out, vec![DeadlineCheck::Met]);
    }
    assert_eq!(ms[0].misses(), 0);
    // the eleventh completion never comes
    let deadline = next_wakeup(&ms).unwrap();
    assert_eq!(deadline, 11_000);
    let out = service(&mut ms, deadline);
    assert_eq!(out, vec![DeadlineCheck::Missed]);
    assert_eq!(ms[0].misses(), 1);
}

#[test]
fn miss_handler_object() {
    let mut h = DeadlineMissHandlerObject::new("T");
    assert_eq!(h.name(), "T");
    assert!(h.deadline_miss_detected());
    h.cancel_deadline_handler();
    assert!(!h.deadline_miss_detected());
}

#[test]
fn cyclic_producer_release_decisions() {
    let mut requests: usize = 0;
    let mut runs: usize = 0;
    let mut buffer = RequestBuffer::new();
    let first = regular_producer_release(&mut requests, &mut runs, &mut buffer);
    assert_eq!(first.deposit, None);
    assert!(!first.signal_log_reader);
    let second = regular_producer_release(&mut requests, &mut runs, &mut buffer);
    assert_eq!(second.deposit, Some(true));
    assert!(!second.signal_log_reader);
    let third = regular_producer_release(&mut requests, &mut runs, &mut buffer);
    assert_eq!(third.deposit, None);
    assert!(third.signal_log_reader);
    assert_eq!(buffer.extract(), ON_CALL_PRODUCER_WORKLOAD);
}

#[test]
fn collect_guard_reads_pending_activation() {
    let mut m = DeadlineProtectedObject::new("S", ActivationKind::Sporadic, 100);
    assert!(m.can_collect());
    m.report_activation(u64::MAX - 10);
    assert!(!m.can_collect());
    m.report_activation(50);
    assert!(m.can_collect());
    assert!(m.collect_activation());
    assert_eq!(m.next_deadline(), Some(150));
}
