//! The shared counter: a single 64-bit slot, written only by the classifier's
//! matched path and read by the controller. It only ever grows while the
//! classifier stays attached; a fresh attachment starts it at zero.

use vstd::prelude::*;

verus! {

/// One non-negative 64-bit count of classified frames.
pub struct Counter {
    value: u64,
}

impl View for Counter {
    type V = u64;

    closed spec fn view(&self) -> u64 {
        self.value
    }
}

impl Counter {
    /// A fresh counter, as created when the classifier is attached.
    pub fn new() -> (c: Counter)
        ensures
            c@ == 0,
    {
        Counter { value: 0 }
    }

    /// Adds exactly one to the slot; called once per classified frame.
    pub fn increment(&mut self)
        requires
            old(self)@ < u64::MAX,
        ensures
            final(self)@ == old(self)@ + 1,
    {
        self.value = self.value + 1;
    }

    /// The current count, as the controller samples it.
    pub fn read(&self) -> (r: u64)
        ensures
            r == self@,
    {
        self.value
    }
}

} // verus!
