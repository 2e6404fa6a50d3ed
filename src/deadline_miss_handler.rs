//! A one-shot deadline-miss handler: the task cancels it when it finishes;
//! when the handler's timer fires, an uncancelled handler means a miss.
use vstd::prelude::*;

verus! {

/// The state of a one-shot deadline-miss handler.
pub struct DeadlineMissHandlerObject {
    name: &'static str,
    cancelled: bool,
}

impl DeadlineMissHandlerObject {
    /// An armed handler for the task `name`.
    pub fn new(name: &'static str) -> (r: Self)
        ensures
            !r.is_cancelled(),
            r.name_spec() == name,
    {
        DeadlineMissHandlerObject { name, cancelled: false }
    }

    /// Whether the task has cancelled the handler.
    pub closed spec fn is_cancelled(&self) -> bool {
        self.cancelled
    }

    /// The task's name, in contracts.
    pub closed spec fn name_spec(&self) -> &'static str {
        self.name
    }

    /// The task's name.
    pub fn name(&self) -> (r: &'static str)
        ensures
            r == self.name_spec(),
    {
        self.name
    }

    /// The verdict when the handler fires: a miss unless it was cancelled.
    pub fn deadline_miss_detected(&self) -> (r: bool)
        ensures
            r == !self.is_cancelled(),
    {
        !self.cancelled
    }

    /// Cancels the handler: the task finished in time.
    pub fn cancel_deadline_handler(&mut self)
        ensures
            final(self).is_cancelled(),
            final(self).name_spec() == old(self).name_spec(),
    {
        self.cancelled = true;
    }
}

} // verus!
