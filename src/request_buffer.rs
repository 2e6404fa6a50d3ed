//! The bounded producer/consumer request buffer.
//!
//! Five logical slots, of which one is kept free so that a full buffer and an
//! empty one differ by their indices alone: at most four items are held.
//! Extraction is gated by a barrier flag that a deposit raises and an
//! extraction lowers. Items leave in the order in which they came (ring
//! buffer order): the storage is a fixed-capacity deque, and the insert and
//! extract indices are kept in step with it.
use vstd::prelude::*;

verus! {

/// Number of logical slots; one of them always stays free.
pub const REQUEST_BUFFER_RANGE: usize = 5;

/// What `extract` returns when no deposit is waiting to be taken.
pub const NO_DATA: u32 = 1;

#[verifier::external_type_specification]
#[verifier::external_body]
#[verifier::reject_recursive_types(T)]
pub struct ExDeque<T, const N: usize>(heapless::Deque<T, N>);

/// The items held by a deque of the buffer's storage, front first.
pub uninterp spec fn deque_items(d: heapless::Deque<u32, REQUEST_BUFFER_RANGE>) -> Seq<u32>;

/// Relies on `heapless::Deque::new`: a deque that holds no item.
#[verifier::external_body]
fn storage_new() -> (r: heapless::Deque<u32, REQUEST_BUFFER_RANGE>)
    ensures
        deque_items(r) == Seq::<u32>::empty(),
{
    heapless::Deque::new()
}

/// Relies on `heapless::Deque::push_back`: below capacity the item is
/// appended at the back and `Ok` returned; at capacity the deque is left
/// as it is and the item handed back in `Err`.
#[verifier::external_body]
fn storage_push_back(d: &mut heapless::Deque<u32, REQUEST_BUFFER_RANGE>, item: u32) -> (r: Result<(), u32>)
    ensures
        deque_items(*old(d)).len() < REQUEST_BUFFER_RANGE ==> (r is Ok)
            && deque_items(*final(d)) == deque_items(*old(d)).push(item),
        deque_items(*old(d)).len() >= REQUEST_BUFFER_RANGE ==> (r matches Err(i) && i == item)
            && deque_items(*final(d)) == deque_items(*old(d)),
{
    d.push_back(item)
}

/// Relies on `heapless::Deque::pop_front`: removes and returns the front
/// item, or returns `None` and leaves an empty deque as it is.
#[verifier::external_body]
fn storage_pop_front(d: &mut heapless::Deque<u32, REQUEST_BUFFER_RANGE>) -> (r: Option<u32>)
    ensures
        deque_items(*old(d)).len() == 0 ==> r == None::<u32>
            && deque_items(*final(d)) == deque_items(*old(d)),
        deque_items(*old(d)).len() > 0 ==> r == Some(deque_items(*old(d))[0])
            && deque_items(*final(d)) == deque_items(*old(d)).drop_first(),
{
    d.pop_front()
}

/// A slot position of the buffer, always below `REQUEST_BUFFER_RANGE`.
#[derive(Clone, Copy, Debug, PartialEq, Eq, Structural)]
pub struct RequestBufferIndex(pub usize);

impl RequestBufferIndex {
    /// The first slot.
    pub fn first() -> (r: Self)
        ensures
            r.0 == 0,
    {
        RequestBufferIndex(0)
    }

    /// The last slot.
    pub fn last() -> (r: Self)
        ensures
            r.0 == REQUEST_BUFFER_RANGE - 1,
    {
        RequestBufferIndex(REQUEST_BUFFER_RANGE - 1)
    }

    /// Moves to the next slot, wrapping from the last to the first.
    pub fn advance(&mut self)
        requires
            old(self).0 < REQUEST_BUFFER_RANGE,
        ensures
            final(self).0 == (old(self).0 + 1) % (REQUEST_BUFFER_RANGE as int),
    {
        self.0 = (self.0 + 1) % REQUEST_BUFFER_RANGE;
    }
}

/// What a request buffer holds, as a reader of its contracts sees it: the
/// items not yet extracted, oldest first, and the barrier flag.
pub struct RequestBufferModel {
    pub items: Seq<u32>,
    pub barrier: bool,
}

/// Most items the buffer holds at once: one slot is always left free.
pub open spec fn usable_slots() -> nat {
    (REQUEST_BUFFER_RANGE - 1) as nat
}

impl RequestBufferModel {
    /// The invariant of every buffer: at most `usable_slots()` items, and a
    /// raised barrier only over a waiting item.
    pub open spec fn wf(self) -> bool {
        &&& self.items.len() <= usable_slots()
        &&& self.barrier ==> self.items.len() > 0
    }

    /// Whether a deposit is accepted.
    pub open spec fn accepts(self) -> bool {
        self.items.len() < usable_slots()
    }

    /// The state after `deposit(item)`, and what it returns.
    pub open spec fn deposit(self, item: u32) -> (RequestBufferModel, bool) {
        if self.accepts() {
            (RequestBufferModel { items: self.items.push(item), barrier: true }, true)
        } else {
            (self, false)
        }
    }

    /// The state after `extract()`, and what it returns.
    pub open spec fn extract(self) -> (RequestBufferModel, u32) {
        if self.barrier {
            (RequestBufferModel { items: self.items.drop_first(), barrier: false }, self.items[0])
        } else {
            (self, NO_DATA)
        }
    }
}

/// Capacity: a deposit is accepted exactly while fewer than
/// `usable_slots()` items are held, so that a well-formed buffer never holds
/// more; and an extraction right after an accepted deposit returns a
/// deposited item, the oldest one held, never `NO_DATA` in its place.
pub proof fn lemma_deposit_then_extract(b: RequestBufferModel, item: u32)
    requires
        b.wf(),
    ensures
        b.deposit(item).1 == (b.items.len() < usable_slots()),
        b.deposit(item).0.wf(),
        b.deposit(item).1 ==> ({
            let (after, got) = b.deposit(item).0.extract();
            &&& got == b.items.push(item)[0]
            &&& b.items.push(item).contains(got)
            &&& after.items == b.items.push(item).drop_first()
        }),
{
    if b.deposit(item).1 {
        assert(b.items.push(item).contains(b.items.push(item)[0]));
    }
}

/// The bounded request buffer shared by the cyclic producer, which deposits,
/// and the on-call producer, which extracts.
pub struct RequestBuffer {
    storage: heapless::Deque<u32, REQUEST_BUFFER_RANGE>,
    insert_index: RequestBufferIndex,
    extract_index: RequestBufferIndex,
    current_size: usize,
    barrier: bool,
}

impl View for RequestBuffer {
    type V = RequestBufferModel;

    closed spec fn view(&self) -> RequestBufferModel {
        RequestBufferModel { items: deque_items(self.storage), barrier: self.barrier }
    }
}

impl RequestBuffer {
    /// The buffer's invariant: the model's, with the size and both indices
    /// in step with the stored items.
    #[verifier::type_invariant]
    spec fn inv(&self) -> bool {
        &&& self@.wf()
        &&& self.current_size == deque_items(self.storage).len()
        &&& self.insert_index.0 < REQUEST_BUFFER_RANGE
        &&& self.extract_index.0 < REQUEST_BUFFER_RANGE
        &&& self.insert_index.0 == (self.extract_index.0 + self.current_size) % (
        REQUEST_BUFFER_RANGE as int)
    }

    /// An empty buffer with the barrier lowered.
    pub fn new() -> (r: Self)
        ensures
            r@.wf(),
            r@.items == Seq::<u32>::empty(),
            !r@.barrier,
    {
        RequestBuffer {
            storage: storage_new(),
            insert_index: RequestBufferIndex::first(),
            extract_index: RequestBufferIndex::first(),
            current_size: 0,
            barrier: false,
        }
    }

    /// Stores `activation_parameter` and raises the barrier, unless the
    /// buffer already holds `usable_slots()` items: then it returns `false`
    /// and leaves the buffer unchanged.
    pub fn deposit(&mut self, activation_parameter: u32) -> (r: bool)
        ensures
            old(self)@.wf(),
            final(self)@.wf(),
            (final(self)@, r) == old(self)@.deposit(activation_parameter),
    {
        proof {
            use_type_invariant(&*self);
        }
        if self.current_size < RequestBufferIndex::last().0 {
            let mut prev = RequestBuffer::new();
            std::mem::swap(&mut prev, self);
            proof {
                use_type_invariant(&prev);
            }
            let RequestBuffer { mut storage, mut insert_index, extract_index, current_size, .. } =
                prev;
            let pushed = storage_push_back(&mut storage, activation_parameter);
            assert(pushed is Ok);
            insert_index.advance();
            *self = RequestBuffer {
                storage,
                insert_index,
                extract_index,
                current_size: current_size + 1,
                barrier: true,
            };
            true
        } else {
            false
        }
    }

    /// With the barrier raised, removes the oldest item, lowers the barrier
    /// and returns the item; otherwise returns `NO_DATA` and changes nothing.
    pub fn extract(&mut self) -> (r: u32)
        ensures
            old(self)@.wf(),
            final(self)@.wf(),
            (final(self)@, r) == old(self)@.extract(),
    {
        proof {
            use_type_invariant(&*self);
        }
        if !self.barrier {
            NO_DATA
        } else {
            let mut prev = RequestBuffer::new();
            std::mem::swap(&mut prev, self);
            proof {
                use_type_invariant(&prev);
            }
            let RequestBuffer { mut storage, insert_index, mut extract_index, current_size, .. } =
                prev;
            let item = storage_pop_front(&mut storage);
            extract_index.advance();
            *self = RequestBuffer {
                storage,
                insert_index,
                extract_index,
                current_size: current_size - 1,
                barrier: false,
            };
            match item {
                Some(item) => item,
                None => NO_DATA,
            }
        }
    }
}

} // verus!
