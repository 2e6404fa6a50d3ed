//! A single-slot, overwrite-on-write value cell.
//!
//! The cell holds at most one pending value. A write always succeeds and
//! replaces whatever was not read yet (latest value wins); a read takes the
//! pending value out and leaves the cell empty.
use vstd::prelude::*;

verus! {

/// A single-slot mailbox: empty, or one pending value.
pub struct MailboxCell<T> {
    slot: Option<T>,
}

impl<T> View for MailboxCell<T> {
    type V = Option<T>;

    closed spec fn view(&self) -> Option<T> {
        self.slot
    }
}

impl<T> MailboxCell<T> {
    /// An empty cell.
    pub fn new() -> (r: Self)
        ensures
            r@ == None::<T>,
    {
        MailboxCell { slot: None }
    }

    /// Stores `value`, replacing any value that was not read yet.
    pub fn write(&mut self, value: T)
        ensures
            final(self)@ == Some(value),
    {
        self.slot = Some(value);
    }

    /// Takes the pending value out of the cell, or reports that none is
    /// pending; never waits.
    pub fn try_read(&mut self) -> (r: Option<T>)
        ensures
            r == old(self)@,
            final(self)@ == None::<T>,
    {
        self.slot.take()
    }

    /// Whether a value is pending; the cell is left as it is.
    pub fn is_pending(&self) -> (r: bool)
        ensures
            r == self@.is_some(),
    {
        self.slot.is_some()
    }
}

impl<T: Copy> MailboxCell<T> {
    /// The pending value, if any, left in the cell.
    pub fn peek(&self) -> (r: Option<T>)
        ensures
            r == self@,
    {
        self.slot
    }
}

/// What a cell holding `cell` holds after the writes of `values`, in order.
pub open spec fn after_writes<T>(cell: Option<T>, values: Seq<T>) -> Option<T>
    decreases values.len(),
{
    if values.len() == 0 {
        cell
    } else {
        after_writes(Some(values[0]), values.drop_first())
    }
}

/// Latest value wins: after one or more writes, the cell holds the last
/// value written, whatever it held before and whatever was written in
/// between; a read then returns that value. With no write since the last
/// read, the cell stays empty.
pub proof fn lemma_latest_value_wins<T>(cell: Option<T>, values: Seq<T>)
    ensures
        values.len() > 0 ==> after_writes(cell, values) == Some(values.last()),
        values.len() == 0 ==> after_writes(cell, values) == cell,
    decreases values.len(),
{
    if values.len() > 0 {
        let rest = values.drop_first();
        lemma_latest_value_wins(Some(values[0]), rest);
        if rest.len() > 0 {
            assert(rest.last() == values.last());
        }
    }
}

} // verus!
