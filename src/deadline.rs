//! Race-free deadline-miss detection for one task.
//!
//! A `DeadlineProtectedObject` is the monitor of one task: it knows the task's
//! allowed latency, the activation epoch it expects a completion report for,
//! the misses seen so far and the pending deadline instant, if any. The task
//! keeps a `Stopper`, which counts its completions and reports each one into
//! the monitor's report mailbox. At the deadline the monitor takes the report
//! out: a report of the expected epoch means that the task finished in time;
//! no report, or one of another epoch, is a miss. Either way the verdict
//! ends the epoch, and the next one is expected.
//!
//! Instants and periods are in milliseconds.
use vstd::prelude::*;
use crate::mailbox::MailboxCell;

verus! {

/// How a monitored task is released.
#[derive(Clone, Copy, Debug, PartialEq, Eq, Structural)]
pub enum ActivationKind {
    /// Self-clocked: each deadline follows the previous one by one period.
    Periodic,
    /// Released by events: a deadline exists only once an activation instant
    /// has been reported.
    Sporadic,
}

/// What one check of a monitor found.
#[derive(Clone, Copy, Debug, PartialEq, Eq, Structural)]
pub enum DeadlineCheck {
    /// The deadline has not come yet; nothing changed.
    NotDue,
    /// The completion of the expected epoch was reported in time.
    Met,
    /// No report of the expected epoch had come by the deadline.
    Missed,
}

/// The state of a monitor as its contracts describe it.
pub struct DeadlineModel {
    pub kind: ActivationKind,
    pub period: u64,
    /// The epoch whose completion report is expected.
    pub epoch: u64,
    pub misses: u64,
    pub next_deadline: Option<u64>,
    /// What the report mailbox holds.
    pub report: Option<u64>,
    /// What the activation mailbox holds.
    pub activation: Option<u64>,
}

impl DeadlineModel {
    /// Whether `schedule(start)` stays within the integer types.
    pub open spec fn can_schedule(self, start: u64) -> bool {
        &&& self.epoch < u64::MAX
        &&& start + self.period <= u64::MAX
    }

    /// Whether the next check stays within the integer types.
    pub open spec fn can_advance(self) -> bool {
        &&& self.epoch < u64::MAX
        &&& !self.met() ==> self.misses < u64::MAX
        &&& self.next_deadline matches Some(d) ==> d + self.period <= u64::MAX
    }

    /// Whether the expected epoch was begun by a verdict and still waits
    /// for its deadline (a sporadic monitor between activations).
    pub open spec fn awaiting(self) -> bool {
        self.next_deadline is None && self.epoch > 0
    }

    /// The state after `schedule(start)`: a deadline one period after
    /// `start`, and no stale report. The deadline belongs to a new epoch,
    /// unless the expected epoch is still waiting for one.
    pub open spec fn schedule(self, start: u64) -> DeadlineModel {
        DeadlineModel {
            next_deadline: Some((start + self.period) as u64),
            epoch: if self.awaiting() { self.epoch } else { (self.epoch + 1) as u64 },
            report: None,
            ..self
        }
    }

    /// The state after the stopper reports the completion of `epoch`.
    pub open spec fn report_done(self, epoch: u64) -> DeadlineModel {
        DeadlineModel { report: Some(epoch), ..self }
    }

    /// The state after the task reports that it was activated at `instant`.
    pub open spec fn report_activation(self, instant: u64) -> DeadlineModel {
        DeadlineModel { activation: Some(instant), ..self }
    }

    /// Whether the report mailbox holds the completion of the expected epoch.
    pub open spec fn met(self) -> bool {
        self.report == Some(self.epoch)
    }

    /// The state after the verdict on the expected epoch: the report is
    /// taken out, a miss counted unless it was the expected one, and the
    /// epoch ended, so that the next one is expected.
    pub open spec fn judge(self) -> DeadlineModel {
        DeadlineModel {
            misses: if self.met() { self.misses } else { (self.misses + 1) as u64 },
            epoch: (self.epoch + 1) as u64,
            report: None,
            ..self
        }
    }

    /// The state after `check_and_reschedule(now)`, and what it returns.
    pub open spec fn check(self, now: u64) -> (DeadlineModel, DeadlineCheck) {
        let d = self.next_deadline->Some_0;
        if now < d {
            (self, DeadlineCheck::NotDue)
        } else {
            let judged = self.judge();
            let outcome = if self.met() { DeadlineCheck::Met } else { DeadlineCheck::Missed };
            match self.kind {
                ActivationKind::Periodic => (DeadlineModel {
                    next_deadline: Some((d + self.period) as u64),
                    ..judged
                }, outcome),
                ActivationKind::Sporadic => (DeadlineModel { next_deadline: None, ..judged }, outcome),
            }
        }
    }

    /// The state after `collect_activation()`: a reported activation
    /// schedules the deadline from its instant.
    pub open spec fn collect(self) -> DeadlineModel {
        match self.activation {
            Some(t) => DeadlineModel { activation: None, ..self }.schedule(t),
            None => self,
        }
    }
}

/// The state after `schedule` at each instant of `starts`, in order.
pub open spec fn schedule_all(m: DeadlineModel, starts: Seq<u64>) -> DeadlineModel
    decreases starts.len(),
{
    if starts.len() == 0 {
        m
    } else {
        schedule_all(m.schedule(starts[0]), starts.drop_first())
    }
}

/// Deadline correctness. At a deadline that has come, a report of the
/// expected epoch that arrived before it means no miss: the miss counter is
/// unchanged. No report at all (as right after `schedule`, or after the
/// previous check, when the task never called `done`) means exactly one
/// more miss. Either way the epoch ends and the next one is expected.
pub proof fn lemma_deadline_correctness(m: DeadlineModel, now: u64)
    requires
        m.can_advance(),
        m.next_deadline matches Some(d) && d <= now,
    ensures
        m.report_done(m.epoch).check(now).1 == DeadlineCheck::Met,
        m.report_done(m.epoch).check(now).0.misses == m.misses,
        m.report_done(m.epoch).check(now).0.epoch == m.epoch + 1,
        m.report is None ==> m.check(now).1 == DeadlineCheck::Missed,
        m.report is None ==> m.check(now).0.misses == m.misses + 1,
        m.check(now).0.epoch == m.epoch + 1,
        m.check(now).0.report is None,
{
}

/// Epoch monotonicity. Every `schedule` after the first of a run begins an
/// epoch one above the last, so repeated calls give strictly increasing
/// epochs, and none ever lowers it; and a report of any other epoch, a stale
/// one from before in particular, is judged a miss at the deadline, never a
/// completion.
pub proof fn lemma_epoch_monotonicity(m: DeadlineModel, starts: Seq<u64>, stale: u64, now: u64)
    requires
        m.epoch + starts.len() <= u64::MAX,
    ensures
        starts.len() > 0 ==> m.epoch <= m.schedule(starts[0]).epoch,
        starts.len() > 0 ==> schedule_all(m, starts).epoch == m.schedule(starts[0]).epoch
            + starts.len() - 1,
        forall|j: int, k: int|
            1 <= j < k <= starts.len() ==> #[trigger] schedule_all(m, starts.take(j)).epoch
                < #[trigger] schedule_all(m, starts.take(k)).epoch,
        m.report_done(stale).can_advance() && stale != m.epoch && (m.next_deadline matches Some(d) && d
            <= now) ==> m.report_done(stale).check(now).1 == DeadlineCheck::Missed
            && m.report_done(stale).check(now).0.misses == m.misses + 1,
{
    if starts.len() > 0 {
        lemma_schedule_all_epoch(m, starts);
    }
    assert forall|j: int, k: int|
        1 <= j < k <= starts.len() implies #[trigger] schedule_all(m, starts.take(j)).epoch
            < #[trigger] schedule_all(m, starts.take(k)).epoch by {
        assert(starts.take(j)[0] == starts[0]);
        assert(starts.take(k)[0] == starts[0]);
        lemma_schedule_all_epoch(m, starts.take(j));
        lemma_schedule_all_epoch(m, starts.take(k));
    }
}

proof fn lemma_schedule_all_epoch(m: DeadlineModel, starts: Seq<u64>)
    requires
        starts.len() > 0,
        m.epoch + starts.len() <= u64::MAX,
    ensures
        schedule_all(m, starts).epoch == m.schedule(starts[0]).epoch + starts.len() - 1,
    decreases starts.len(),
{
    let rest = starts.drop_first();
    let next = m.schedule(starts[0]);
    assert(schedule_all(m, starts) == schedule_all(next, rest));
    if rest.len() > 0 {
        lemma_schedule_all_epoch(next, rest);
        assert(!next.awaiting());
    } else {
        assert(schedule_all(next, rest) == next);
    }
}

/// The state after `k` verdicts in a row with no report in between.
pub open spec fn judge_n(m: DeadlineModel, k: nat) -> DeadlineModel
    decreases k,
{
    if k == 0 {
        m
    } else {
        judge_n(m.judge(), (k - 1) as nat)
    }
}

/// Failing loud: when the task stops reporting, every verdict counts a
/// miss, without bound: `k` verdicts raise both the misses and the epoch
/// by `k`.
pub proof fn lemma_unreported_verdicts(m: DeadlineModel, k: nat)
    requires
        m.report is None,
        m.epoch + k <= u64::MAX,
        m.misses + k <= u64::MAX,
    ensures
        judge_n(m, k).misses == m.misses + k,
        judge_n(m, k).epoch == m.epoch + k,
        judge_n(m, k).report is None,
    decreases k,
{
    if k > 0 {
        lemma_unreported_verdicts(m.judge(), (k - 1) as nat);
    }
}

/// The deadline monitor of one task, shared between the task (through its
/// stopper) and the watchdog dispatcher.
pub struct DeadlineProtectedObject {
    name: &'static str,
    kind: ActivationKind,
    period: u64,
    activations: u64,
    misses: u64,
    next_deadline: Option<u64>,
    reports: MailboxCell<u64>,
    activation_reports: MailboxCell<u64>,
}

impl View for DeadlineProtectedObject {
    type V = DeadlineModel;

    closed spec fn view(&self) -> DeadlineModel {
        DeadlineModel {
            kind: self.kind,
            period: self.period,
            epoch: self.activations,
            misses: self.misses,
            next_deadline: self.next_deadline,
            report: self.reports@,
            activation: self.activation_reports@,
        }
    }
}

impl DeadlineProtectedObject {
    /// A monitor for the task `name`, released as `kind`, whose completion
    /// is due `period` milliseconds after each activation. Nothing is
    /// scheduled yet and no epoch has begun.
    pub fn new(name: &'static str, kind: ActivationKind, period: u64) -> (r: Self)
        ensures
            r@ == (DeadlineModel {
                kind,
                period,
                epoch: 0,
                misses: 0,
                next_deadline: None,
                report: None,
                activation: None,
            }),
            r.name_spec() == name,
    {
        DeadlineProtectedObject {
            name,
            kind,
            period,
            activations: 0,
            misses: 0,
            next_deadline: None,
            reports: MailboxCell::new(),
            activation_reports: MailboxCell::new(),
        }
    }

    /// The monitored task's name.
    pub fn name(&self) -> (r: &'static str)
        ensures
            r == self.name_spec(),
    {
        self.name
    }

    /// The monitored task's name, in contracts.
    pub closed spec fn name_spec(&self) -> &'static str {
        self.name
    }

    /// Gives the expected epoch a deadline one period after `start_instant`,
    /// and drops any report left over from before. A new epoch begins first,
    /// unless the expected one was begun by a verdict and has no deadline
    /// yet: a fresh monitor starts at epoch 1, and each later call is one
    /// epoch on.
    pub fn schedule(&mut self, start_instant: u64)
        requires
            old(self)@.can_schedule(start_instant),
        ensures
            final(self)@ == old(self)@.schedule(start_instant),
            final(self).name_spec() == old(self).name_spec(),
    {
        if self.activations == 0 || self.next_deadline.is_some() {
            self.activations = self.activations + 1;
        }
        self.next_deadline = Some(start_instant + self.period);
        let _stale = self.reports.try_read();
    }

    /// Reports that the task finished the activation numbered `activation_id`.
    /// Only a report of the expected epoch, still pending at the deadline,
    /// counts as a completion in time.
    pub fn cancel_deadline(&mut self, activation_id: u64)
        ensures
            final(self)@ == old(self)@.report_done(activation_id),
            final(self).name_spec() == old(self).name_spec(),
    {
        self.reports.write(activation_id);
    }

    /// Reports that the task was activated at `instant`; the dispatcher
    /// schedules a sporadic task's deadline from it.
    pub fn report_activation(&mut self, instant: u64)
        ensures
            final(self)@ == old(self)@.report_activation(instant),
            final(self).name_spec() == old(self).name_spec(),
    {
        self.activation_reports.write(instant);
    }

    /// Schedules the deadline of a reported activation, if one is pending;
    /// returns whether one was.
    pub fn collect_activation(&mut self) -> (r: bool)
        requires
            old(self)@.activation matches Some(t) ==> old(self)@.can_schedule(t),
        ensures
            r == old(self)@.activation is Some,
            final(self)@ == old(self)@.collect(),
            final(self).name_spec() == old(self).name_spec(),
    {
        match self.activation_reports.try_read() {
            Some(t) => {
                self.schedule(t);
                true
            },
            None => false,
        }
    }

    /// The verdict on the expected epoch: takes the pending report out,
    /// counts a miss unless it is the completion of that epoch, and ends the
    /// epoch. Returns whether a miss was counted.
    pub fn deadline_miss_detected(&mut self) -> (r: bool)
        requires
            old(self)@.epoch < u64::MAX,
            !old(self)@.met() ==> old(self)@.misses < u64::MAX,
        ensures
            r == !old(self)@.met(),
            final(self)@ == old(self)@.judge(),
            final(self).name_spec() == old(self).name_spec(),
    {
        let met = match self.reports.try_read() {
            Some(epoch) => epoch == self.activations,
            None => false,
        };
        if !met {
            self.misses = self.misses + 1;
        }
        self.activations = self.activations + 1;
        !met
    }

    /// Does nothing before the pending deadline. From it on, judges the
    /// expected epoch, which ends it; then a periodic monitor moves its
    /// deadline one period on, for the next epoch, and a sporadic one drops
    /// its deadline until the next activation is reported.
    pub fn check_and_reschedule(&mut self, now: u64) -> (r: DeadlineCheck)
        requires
            old(self)@.can_advance(),
            old(self)@.next_deadline is Some,
        ensures
            (final(self)@, r) == old(self)@.check(now),
            final(self).name_spec() == old(self).name_spec(),
    {
        let deadline = match self.next_deadline {
            Some(d) => d,
            None => 0,
        };
        if now < deadline {
            return DeadlineCheck::NotDue;
        }
        let missed = self.deadline_miss_detected();
        match self.kind {
            ActivationKind::Periodic => {
                self.next_deadline = Some(deadline + self.period);
            },
            ActivationKind::Sporadic => {
                self.next_deadline = None;
            },
        }
        if missed {
            DeadlineCheck::Missed
        } else {
            DeadlineCheck::Met
        }
    }

    /// Whether the next `schedule(start_instant)` stays within the integer
    /// types.
    pub fn can_schedule(&self, start_instant: u64) -> (r: bool)
        ensures
            r == self@.can_schedule(start_instant),
    {
        self.activations < u64::MAX && start_instant <= u64::MAX - self.period
    }

    /// Whether the next `collect_activation()` stays within the integer
    /// types.
    pub fn can_collect(&self) -> (r: bool)
        ensures
            r == (self@.activation matches Some(t) ==> self@.can_schedule(t)),
    {
        match self.activation_reports.peek() {
            Some(t) => self.can_schedule(t),
            None => true,
        }
    }

    /// Whether the next check stays within the integer types.
    pub fn can_advance(&self) -> (r: bool)
        ensures
            r == self@.can_advance(),
    {
        let met = match self.reports.peek() {
            Some(epoch) => epoch == self.activations,
            None => false,
        };
        self.activations < u64::MAX && (met || self.misses < u64::MAX) && match self.next_deadline {
            Some(d) => d <= u64::MAX - self.period,
            None => true,
        }
    }

    /// The allowed latency, in milliseconds.
    pub fn period(&self) -> (r: u64)
        ensures
            r == self@.period,
    {
        self.period
    }

    /// How the task is released.
    pub fn kind(&self) -> (r: ActivationKind)
        ensures
            r == self@.kind,
    {
        self.kind
    }

    /// The epoch whose completion report is expected.
    pub fn activations(&self) -> (r: u64)
        ensures
            r == self@.epoch,
    {
        self.activations
    }

    /// The misses counted so far.
    pub fn misses(&self) -> (r: u64)
        ensures
            r == self@.misses,
    {
        self.misses
    }

    /// The pending deadline instant, if one is scheduled.
    pub fn next_deadline(&self) -> (r: Option<u64>)
        ensures
            r == self@.next_deadline,
    {
        self.next_deadline
    }
}

/// The completion-reporting half of a monitor, kept by the monitored task.
pub struct Stopper {
    completions: u64,
}

impl View for Stopper {
    type V = u64;

    closed spec fn view(&self) -> u64 {
        self.completions
    }
}

impl Stopper {
    /// A stopper that has reported nothing yet.
    pub fn new() -> (r: Self)
        ensures
            r@ == 0,
    {
        Stopper { completions: 0 }
    }

    /// Counts one more completion and reports its number to `monitor`. Call
    /// once per activation, when the time-critical work is finished.
    pub fn done(&mut self, monitor: &mut DeadlineProtectedObject)
        requires
            old(self)@ < u64::MAX,
        ensures
            final(self)@ == old(self)@ + 1,
            final(monitor)@ == old(monitor)@.report_done(final(self)@),
            final(monitor).name_spec() == old(monitor).name_spec(),
    {
        self.completions = self.completions + 1;
        monitor.cancel_deadline(self.completions);
    }

    /// The completions reported so far.
    pub fn completions(&self) -> (r: u64)
        ensures
            r == self@,
    {
        self.completions
    }
}

} // verus!
