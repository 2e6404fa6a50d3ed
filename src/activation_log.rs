//! The activation log: how many times the event server was activated,
//! counted modulo `ACTIVATION_MOD`, and the instant of the last activation.
use vstd::prelude::*;

verus! {

/// The activation counter wraps to zero at this bound.
pub const ACTIVATION_MOD: u32 = 100;

/// Activation count and last activation instant (in milliseconds).
pub struct ActivationLog {
    activation_counter: u32,
    last_activation_time: Option<u64>,
}

impl View for ActivationLog {
    type V = (u32, Option<u64>);

    closed spec fn view(&self) -> (u32, Option<u64>) {
        (self.activation_counter, self.last_activation_time)
    }
}

impl ActivationLog {
    /// A log with no activation recorded.
    pub fn new() -> (r: Self)
        ensures
            r@ == (0u32, None::<u64>),
    {
        ActivationLog { activation_counter: 0, last_activation_time: None }
    }

    /// Records an activation at instant `now`.
    pub fn write(&mut self, now: u64)
        ensures
            final(self)@ == (((old(self)@.0 + 1) % (ACTIVATION_MOD as int)) as u32, Some(now)),
    {
        self.activation_counter = ((self.activation_counter as u64 + 1) % (ACTIVATION_MOD as u64)) as u32;
        self.last_activation_time = Some(now);
    }

    /// The activation count and the instant of the last activation, if any.
    pub fn read(&self) -> (r: (u32, Option<u64>))
        ensures
            r == self@,
    {
        (self.activation_counter, self.last_activation_time)
    }
}

} // verus!
