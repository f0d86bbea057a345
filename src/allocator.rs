//! Strictly increasing 64-bit identifiers drawn from a counter.
use vstd::prelude::*;

use crate::error::RegistryError;

verus! {

/// The result of one allocation from a counter whose next value is `next`:
/// that value, or `None` when no value after it fits in a `u64`.
pub open spec fn allocation(next: u64) -> Option<u64> {
    if next == u64::MAX {
        None
    } else {
        Some(next)
    }
}

/// A counter that hands out each `u64` below its ceiling at most once, in
/// increasing order.
#[derive(Clone, Copy, Debug, PartialEq, Eq, Structural)]
pub struct IdAllocator {
    pub next: u64,
}

impl IdAllocator {
    /// A counter whose first identifier is 0.
    pub fn new() -> (r: IdAllocator)
        ensures
            r.next == 0,
    {
        IdAllocator { next: 0 }
    }

    /// A counter whose first identifier is `start`.
    pub fn starting_at(start: u64) -> (r: IdAllocator)
        ensures
            r.next == start,
    {
        IdAllocator { next: start }
    }

    /// The identifier that the next successful allocation returns.
    pub fn peek(&self) -> (r: u64)
        ensures
            r == self.next,
    {
        self.next
    }

    /// Returns the counter's current value and advances it by one. Fails with
    /// `Overflow`, leaving the counter as it was, when the counter stands at
    /// the largest `u64`.
    pub fn allocate_next(&mut self) -> (r: Result<u64, RegistryError>)
        ensures
            match allocation(old(self).next) {
                Some(id) => r == Ok::<u64, RegistryError>(id) && final(self).next == id + 1,
                None => r == Err::<u64, RegistryError>(RegistryError::Overflow)
                    && *final(self) == *old(self),
            },
    {
        match self.next.checked_add(1) {
            Some(n) => {
                let id = self.next;
                self.next = n;
                Ok(id)
            },
            None => Err(RegistryError::Overflow),
        }
    }
}

} // verus!
