//! The crate's own offset: a span of whole milliseconds.

use vstd::prelude::*;

verus! {

/// A non-negative span of time in whole milliseconds.
#[derive(Clone, Copy, Debug, PartialEq, Eq, Hash, Structural)]
pub struct Duration {
    millis: u64,
}

impl View for Duration {
    type V = nat;

    /// The span in milliseconds.
    closed spec fn view(&self) -> nat {
        self.millis as nat
    }
}

impl Duration {
    /// The span of `millis` milliseconds.
    pub fn from_millis(millis: u64) -> (d: Self)
        ensures
            d@ == millis,
    {
        Duration { millis }
    }

    /// The span in milliseconds.
    pub fn as_millis(&self) -> (millis: u64)
        ensures
            millis == self@,
    {
        self.millis
    }
}

} // verus!
