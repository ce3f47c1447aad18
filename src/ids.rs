use vstd::prelude::*;
use ic_stable_structures::cell::{InitError, ValueError};
use ic_stable_structures::{Cell, DefaultMemoryImpl};
use crate::records::Error;

verus! {

/// A `u64` held in stable memory by ic_stable_structures::Cell.  Verus
/// cannot declare `Cell` itself (its parameters carry outside trait bounds),
/// so the cell stays in a field that Verus does not read.
#[verifier::external_body]
pub struct StableCounter {
    cell: Cell<u64, DefaultMemoryImpl>,
}

/// ic_stable_structures' error for a value that does not fit in its memory,
/// carried through opaquely.
#[verifier::external_type_specification]
#[verifier::external_body]
pub struct ExValueError(ValueError);

/// The value held by a stable counter cell.
pub uninterp spec fn cell_value(c: StableCounter) -> u64;

/// ic_stable_structures' error for a cell whose memory holds an unknown
/// layout version or has no room, carried through opaquely.
#[verifier::external_type_specification]
#[verifier::external_body]
pub struct ExInitError(InitError);

/// Relies on ic_stable_structures::Cell::init over the default memory: the
/// cell takes the value already stored there, or `default` when the memory
/// holds no cell.  What it holds depends on the memory, so nothing is stated
/// of it.
#[verifier::external_body]
fn cell_init(default: u64) -> (r: Result<StableCounter, InitError>) {
    match Cell::init(DefaultMemoryImpl::default(), default) {
        Ok(cell) => Ok(StableCounter { cell }),
        Err(e) => Err(e),
    }
}

/// Relies on ic_stable_structures::Cell::get: the value the cell holds.
#[verifier::external_body]
fn cell_get(c: &StableCounter) -> (r: u64)
    ensures
        r == cell_value(*c),
{
    *c.cell.get()
}

/// Relies on ic_stable_structures::Cell::set: the cell then holds the new
/// value and the old one is returned.  Its only failure is a value that does
/// not fit in the memory; `Cell::new` and `Cell::init` leave at least one
/// page, which always has room for the eight bytes of a `u64`.
#[verifier::external_body]
fn cell_set(c: &mut StableCounter, value: u64) -> (r: Result<u64, ValueError>)
    ensures
        r matches Ok(prev) && prev == cell_value(*old(c)),
        cell_value(*final(c)) == value,
{
    c.cell.set(value)
}

/// Issues identifiers in strictly increasing order, never the same one twice.
/// The counter is a cell at the start of the default stable memory; each
/// advance is written there before the identifier is handed out, and a new
/// generator resumes from the value stored there.
pub struct IdGenerator {
    counter: StableCounter,
}

impl IdGenerator {
    /// The identifier that the next successful call of `next` returns.
    pub closed spec fn peek(&self) -> u64 {
        cell_value(self.counter)
    }

    /// A counter that resumes from the default stable memory, or starts at
    /// zero when that memory holds none; fails when the memory holds a cell
    /// of another layout or cannot grow.
    pub fn new() -> (r: Result<Self, Error>)
        ensures
            r matches Err(e) ==> e matches Error::InvalidPayload { .. },
    {
        match cell_init(0) {
            Ok(counter) => Ok(IdGenerator { counter }),
            Err(_) => Err(Error::invalid_payload("cannot create the identifier counter")),
        }
    }

    /// Returns the current counter value and advances the counter.  Fails,
    /// leaving the counter as it was, once the identifier space is spent.
    pub fn next(&mut self) -> (r: Result<u64, Error>)
        ensures
            match r {
                Ok(id) => id == old(self).peek() && final(self).peek() == old(self).peek() + 1,
                Err(e) => final(self).peek() == old(self).peek() && e matches Error::InvalidPayload { .. },
            },
            r.is_ok() <==> old(self).peek() < u64::MAX,
    {
        let current = cell_get(&self.counter);
        if current == u64::MAX {
            return Err(Error::invalid_payload("identifier space exhausted"));
        }
        match cell_set(&mut self.counter, current + 1) {
            Ok(_) => Ok(current),
            Err(_) => Err(Error::invalid_payload("cannot persist the identifier counter")),
        }
    }
}

} // verus!
