//! The application's task set: the deadlines of its four tasks, the
//! monitors that police them, and the release decisions of the cyclic
//! producer.
use vstd::prelude::*;
use crate::auxiliary::{check_due, due_activation, next_count, CHECK_DUE_FACTOR, CHECK_DUE_MOD, DUE_ACTIVATION_MOD};
use crate::deadline::{ActivationKind, DeadlineModel, DeadlineProtectedObject};
use crate::request_buffer::RequestBuffer;

verus! {

/// Period of the cyclic producer, which is also its deadline (ms).
pub const REGULAR_PRODUCER_PERIOD: u64 = 1_000;

/// Deadline of the event server after each event (ms).
pub const EXTERNAL_EVENT_SERVER_DEADLINE: u64 = 100;

/// Deadline of the on-call producer after each release (ms).
pub const ON_CALL_PRODUCER_DEADLINE: u64 = 800;

/// Deadline of the log reader after each release (ms).
pub const ACTIVATION_LOG_READER_DEADLINE: u64 = 1_000;

/// Workload of one cycle of the cyclic producer.
pub const REGULAR_PRODUCER_WORKLOAD: u32 = 756;

/// Workload that a cycle deposits for the on-call producer.
pub const ON_CALL_PRODUCER_WORKLOAD: u32 = 278;

/// Workload of one release of the log reader.
pub const ACTIVATION_LOG_READER_WORKLOAD: u32 = 1_000;

/// The residue of the request count on which a cycle releases the on-call
/// producer.
pub const ACTIVATION_CONDITION: usize = 2;

/// Index of each task's monitor in `monitors()`.
pub const EXTERNAL_EVENT_SERVER: usize = 0;

pub const ACTIVATION_LOG_READER: usize = 1;

pub const ON_CALL_PRODUCER: usize = 2;

pub const REGULAR_PRODUCER: usize = 3;

/// A fresh monitor's model.
pub open spec fn fresh(kind: ActivationKind, period: u64) -> DeadlineModel {
    DeadlineModel {
        kind,
        period,
        epoch: 0,
        misses: 0,
        next_deadline: None,
        report: None,
        activation: None,
    }
}

/// The monitors of the four tasks, in the order of the indices above: three
/// sporadic tasks and the cyclic producer.
pub fn monitors() -> (r: Vec<DeadlineProtectedObject>)
    ensures
        r@.len() == 4,
        r@[EXTERNAL_EVENT_SERVER as int]@ == fresh(ActivationKind::Sporadic, EXTERNAL_EVENT_SERVER_DEADLINE),
        r@[ACTIVATION_LOG_READER as int]@ == fresh(ActivationKind::Sporadic, ACTIVATION_LOG_READER_DEADLINE),
        r@[ON_CALL_PRODUCER as int]@ == fresh(ActivationKind::Sporadic, ON_CALL_PRODUCER_DEADLINE),
        r@[REGULAR_PRODUCER as int]@ == fresh(ActivationKind::Periodic, REGULAR_PRODUCER_PERIOD),
        r@[EXTERNAL_EVENT_SERVER as int].name_spec() == "External_Event_Server",
        r@[ACTIVATION_LOG_READER as int].name_spec() == "Activation_Log_Reader",
        r@[ON_CALL_PRODUCER as int].name_spec() == "On_Call_Producer",
        r@[REGULAR_PRODUCER as int].name_spec() == "Regular_Producer",
{
    let mut r: Vec<DeadlineProtectedObject> = Vec::new();
    r.push(DeadlineProtectedObject::new("External_Event_Server", ActivationKind::Sporadic, EXTERNAL_EVENT_SERVER_DEADLINE));
    r.push(DeadlineProtectedObject::new("Activation_Log_Reader", ActivationKind::Sporadic, ACTIVATION_LOG_READER_DEADLINE));
    r.push(DeadlineProtectedObject::new("On_Call_Producer", ActivationKind::Sporadic, ON_CALL_PRODUCER_DEADLINE));
    r.push(DeadlineProtectedObject::new("Regular_Producer", ActivationKind::Periodic, REGULAR_PRODUCER_PERIOD));
    r
}

/// What one cycle of the cyclic producer releases.
pub struct CyclicRelease {
    /// `Some(accepted)` when the cycle deposited work for the on-call
    /// producer, with whether the buffer took it; `None` when it did not try.
    pub deposit: Option<bool>,
    /// Whether the cycle releases the log reader.
    pub signal_log_reader: bool,
}

/// The release decisions of one cycle of the cyclic producer: when the
/// request predicate is due, deposit `ON_CALL_PRODUCER_WORKLOAD` for the
/// on-call producer; when the run predicate is due, release the log reader.
/// Each predicate counts the call in its own counter.
pub fn regular_producer_release(
    request_counter: &mut usize,
    run_counter: &mut usize,
    buffer: &mut RequestBuffer,
) -> (r: CyclicRelease)
    ensures
        *final(request_counter) == next_count(*old(request_counter)),
        *final(run_counter) == next_count(*old(run_counter)),
        *final(request_counter) % DUE_ACTIVATION_MOD == ACTIVATION_CONDITION % DUE_ACTIVATION_MOD
            ==> r.deposit == Some(old(buffer)@.deposit(ON_CALL_PRODUCER_WORKLOAD).1)
            && final(buffer)@ == old(buffer)@.deposit(ON_CALL_PRODUCER_WORKLOAD).0,
        *final(request_counter) % DUE_ACTIVATION_MOD != ACTIVATION_CONDITION % DUE_ACTIVATION_MOD
            ==> r.deposit is None && final(buffer)@ == old(buffer)@,
        r.signal_log_reader == ((*final(run_counter) % CHECK_DUE_MOD) % CHECK_DUE_FACTOR == 0),
{
    let deposit = if due_activation(request_counter, ACTIVATION_CONDITION) {
        Some(buffer.deposit(ON_CALL_PRODUCER_WORKLOAD))
    } else {
        None
    };
    let signal_log_reader = check_due(run_counter);
    CyclicRelease { deposit, signal_log_reader }
}

} // verus!
