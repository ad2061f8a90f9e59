use vstd::prelude::*;

use ic_stable_structures::cell::{Cell, ValueError};
use ic_stable_structures::DefaultMemoryImpl;

verus! {

#[verifier::external_type_specification]
#[verifier::external_body]
pub struct ExValueError(ValueError);

/// A `u64` kept in a stable memory cell, so that it outlives the heap.
#[verifier::external_body]
pub struct StableCounter {
    cell: Cell<u64, DefaultMemoryImpl>,
}

/// The value a stable counter holds.
pub uninterp spec fn counter_value(c: StableCounter) -> u64;

/// Relies on `Cell::new`: on success the cell holds the value it was made with.
#[verifier::external_body]
fn counter_new(value: u64) -> (r: Result<StableCounter, ValueError>)
    ensures
        r matches Ok(c) ==> counter_value(c) == value,
{
    Cell::new(DefaultMemoryImpl::default(), value).map(|cell| StableCounter { cell })
}

/// Relies on `Cell::get`: the value the cell holds.
#[verifier::external_body]
fn counter_get(c: &StableCounter) -> (r: u64)
    ensures
        r == counter_value(*c),
{
    *c.cell.get()
}

/// Relies on `Cell::set`: the cell then holds `value` and the old value is
/// returned. `set` fails only when the encoded value does not fit in the
/// pages the cell's memory already has and the memory cannot grow; a `u64`
/// encodes to 8 bytes, and `Cell::new` already gave the memory a page, which
/// never shrinks, so on a counter cell it succeeds.
#[verifier::external_body]
fn counter_set(c: &mut StableCounter, value: u64) -> (r: Result<u64, ValueError>)
    ensures
        r matches Ok(prev) && prev == counter_value(*old(c)),
        counter_value(*final(c)) == value,
{
    c.cell.set(value)
}

/// The counter's value fits in a `u64`.
pub broadcast proof fn lemma_last_issued_bounded(a: &IdAllocator)
    ensures
        #[trigger] a.last_issued() <= u64::MAX,
{
}

/// Issues record identifiers: a counter, kept in stable memory, that only
/// moves forward and is shared by every kind of record, so that no two
/// records ever carry the same id.
pub struct IdAllocator {
    counter: StableCounter,
}

impl IdAllocator {
    /// The last identifier handed out (0 before the first one).
    pub closed spec fn last_issued(&self) -> nat {
        counter_value(self.counter) as nat
    }

    /// A counter at 0; `None` when the stable memory cannot hold it.
    pub fn new() -> (r: Option<IdAllocator>)
        ensures
            r matches Some(a) ==> a.last_issued() == 0,
    {
        match counter_new(0) {
            Ok(counter) => Some(IdAllocator { counter }),
            Err(_) => None,
        }
    }

    /// The last identifier handed out.
    pub fn last(&self) -> (r: u64)
        ensures
            r == self.last_issued(),
    {
        counter_get(&self.counter)
    }

    /// Advances the counter by one and returns its new value; `None`, with
    /// the counter unchanged, when it is already at `u64::MAX`.
    pub fn next_id(&mut self) -> (r: Option<u64>)
        ensures
            old(self).last_issued() == u64::MAX ==> r is None,
            old(self).last_issued() < u64::MAX ==> r is Some,
            r matches Some(v) ==> v == old(self).last_issued() + 1 && final(self).last_issued() == v,
            r is None ==> final(self).last_issued() == old(self).last_issued(),
    {
        let current = counter_get(&self.counter);
        if current == u64::MAX {
            return None;
        }
        match counter_set(&mut self.counter, current + 1) {
            Ok(_) => Some(current + 1),
            Err(_) => None,
        }
    }
}

} // verus!
