//! First-activation instants: each task waits until a fixed offset after
//! the instant it starts, so that tasks released on the same tick do not all
//! run at once. Instants are in milliseconds.
use vstd::prelude::*;

verus! {

/// How long after start-up each task is first released, in milliseconds.
pub const RELATIVE_OFFSET: u64 = 1_000;

/// The first-activation instant of a task that starts at `now`.
pub fn activation_time(now: u64) -> (r: u64)
    requires
        now + RELATIVE_OFFSET <= u64::MAX,
    ensures
        r == now + RELATIVE_OFFSET,
{
    now + RELATIVE_OFFSET
}

} // verus!
