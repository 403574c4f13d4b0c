//! A trivial service counter kept for interface compatibility: read, set,
//! and increment.
use vstd::prelude::*;

verus! {

/// An owned counter. The service keeps one instance.
pub struct Counter {
    value: u64,
}

impl View for Counter {
    type V = u64;

    closed spec fn view(&self) -> u64 {
        self.value
    }
}

impl Counter {
    /// A fresh counter at zero.
    pub fn new() -> (r: Counter)
        ensures
            r@ == 0,
    {
        Counter { value: 0 }
    }

    /// Adds one and returns the new value.
    pub fn increment(&mut self) -> (r: u64)
        requires
            old(self)@ < u64::MAX,
        ensures
            final(self)@ == old(self)@ + 1,
            r == final(self)@,
    {
        self.value = self.value + 1;
        self.value
    }

    /// The current value.
    pub fn get_count(&self) -> (r: u64)
        ensures
            r == self@,
    {
        self.value
    }

    /// Overwrites the value and returns it.
    pub fn set_count(&mut self, value: u64) -> (r: u64)
        ensures
            final(self)@ == value,
            r == value,
    {
        self.value = value;
        value
    }
}

} // verus!
