//! Release predicates of the cyclic producer. Each one counts its calls and
//! decides from the count, modulo fixed constants, whether this cycle also
//! releases a sporadic task. The caller keeps each predicate's counter.
use vstd::prelude::*;

verus! {

pub const DUE_ACTIVATION_MOD: usize = 5;

pub const CHECK_DUE_MOD: usize = 1000;

pub const CHECK_DUE_FACTOR: usize = 3;

/// A call counter after one more call; it wraps to zero past `usize::MAX`.
pub open spec fn next_count(counter: usize) -> usize {
    if counter == usize::MAX {
        0
    } else {
        (counter + 1) as usize
    }
}

fn count_call(counter: &mut usize)
    ensures
        *final(counter) == next_count(*old(counter)),
{
    if *counter == usize::MAX {
        *counter = 0;
    } else {
        *counter = *counter + 1;
    }
}

/// Counts a call; true when the new count and `param` agree modulo
/// `DUE_ACTIVATION_MOD`.
pub fn due_activation(counter: &mut usize, param: usize) -> (r: bool)
    ensures
        *final(counter) == next_count(*old(counter)),
        r == (*final(counter) % DUE_ACTIVATION_MOD == param % DUE_ACTIVATION_MOD),
{
    count_call(counter);
    *counter % DUE_ACTIVATION_MOD == param % DUE_ACTIVATION_MOD
}

/// Counts a call; true when the new count modulo `CHECK_DUE_MOD` is a
/// multiple of `CHECK_DUE_FACTOR`.
pub fn check_due(counter: &mut usize) -> (r: bool)
    ensures
        *final(counter) == next_count(*old(counter)),
        r == ((*final(counter) % CHECK_DUE_MOD) % CHECK_DUE_FACTOR == 0),
{
    count_call(counter);
    (*counter % CHECK_DUE_MOD) % CHECK_DUE_FACTOR == 0
}

} // verus!
