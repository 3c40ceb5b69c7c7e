//! The shutdown signal: a flag that goes from unset to set once and is never
//! reset.

use vstd::prelude::*;

verus! {

/// A one-shot notification. Its view is `true` once it has fired.
pub struct ShutdownSignal {
    fired: bool,
}

impl View for ShutdownSignal {
    type V = bool;

    closed spec fn view(&self) -> bool {
        self.fired
    }
}

impl ShutdownSignal {
    /// A signal that has not fired.
    pub fn new() -> (signal: Self)
        ensures
            !signal@,
    {
        ShutdownSignal { fired: false }
    }

    /// Records a trigger. The signal is set afterwards, whatever it was
    /// before; the result tells the first trigger from a redundant one.
    pub fn fire(&mut self) -> (first: bool)
        ensures
            final(self)@,
            first == !old(self)@,
    {
        let first = !self.fired;
        self.fired = true;
        first
    }

    /// Whether the signal has fired.
    pub fn is_terminated(&self) -> (fired: bool)
        ensures
            fired == self@,
    {
        self.fired
    }
}

} // verus!
