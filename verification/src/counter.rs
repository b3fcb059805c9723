//! The shared counter state: one integer behind one atomic operation.

use vstd::prelude::*;

verus! {

/// The largest value the counter can hold.
pub const COUNTER_LIMIT: i32 = 2147483647;

/// A counter that starts at zero and only ever grows, one step at a time.
///
/// The stored integer is private: the only way to change it is
/// [`Counter::increment_and_read`], which needs exclusive access, so two
/// callers can never interleave inside one read-modify-write. A program that
/// shares the counter between tasks keeps it under a lock and holds the lock
/// for that one operation.
pub struct Counter {
    value: i32,
}

impl View for Counter {
    type V = int;

    closed spec fn view(&self) -> int {
        self.value as int
    }
}

impl Counter {
    /// The counter never holds less than it started with.
    #[verifier::type_invariant]
    spec fn never_negative(self) -> bool {
        self.value >= 0
    }

    /// A fresh counter, holding zero.
    pub fn new() -> (counter: Counter)
        ensures
            counter@ == 0,
    {
        Counter { value: 0 }
    }

    /// Whether the counter has reached [`COUNTER_LIMIT`] and cannot be
    /// incremented any further.
    pub fn is_exhausted(&self) -> (exhausted: bool)
        ensures
            exhausted == (self@ >= COUNTER_LIMIT),
    {
        self.value == COUNTER_LIMIT
    }

    /// Adds one to the stored value and returns the new value.
    pub fn increment_and_read(&mut self) -> (value: i32)
        requires
            old(self)@ < COUNTER_LIMIT,
        ensures
            final(self)@ == old(self)@ + 1,
            value == final(self)@,
            value >= 1,
    {
        proof {
            use_type_invariant(&*self);
        }
        self.value = self.value + 1;
        self.value
    }
}

} // verus!
