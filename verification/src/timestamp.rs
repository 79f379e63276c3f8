//! Logical clock values.

use vstd::prelude::*;

verus! {

/// A value of the logical clock that the timestamp authority issues.
///
/// Timestamps are totally ordered by their number. Zero is never issued: it
/// stands for "no timestamp applies".
#[derive(Clone, Copy, Debug, PartialEq, Eq, Structural, PartialOrd, Ord, Hash)]
pub struct TimeStamp(pub u64);

impl View for TimeStamp {
    type V = nat;

    open spec fn view(&self) -> nat {
        self.0 as nat
    }
}

impl TimeStamp {
    /// The sentinel, as a specification value.
    pub open spec fn spec_zero() -> TimeStamp {
        TimeStamp(0)
    }

    pub open spec fn spec_is_zero(self) -> bool {
        self.0 == 0
    }

    /// The timestamp with the given number.
    pub fn new(ts: u64) -> (t: TimeStamp)
        ensures
            t == TimeStamp(ts),
            t@ == ts,
    {
        TimeStamp(ts)
    }

    /// The sentinel that means "not applicable".
    #[verifier::when_used_as_spec(spec_zero)]
    pub fn zero() -> (t: TimeStamp)
        ensures
            t == TimeStamp::spec_zero(),
            t@ == 0,
    {
        TimeStamp(0)
    }

    /// Whether this is the sentinel.
    #[verifier::when_used_as_spec(spec_is_zero)]
    pub fn is_zero(self) -> (z: bool)
        ensures
            z == (self@ == 0),
            z == self.spec_is_zero(),
    {
        self.0 == 0
    }

    /// The number of this timestamp.
    pub fn into_inner(self) -> (n: u64)
        ensures
            n == self.0,
            n == self@,
    {
        self.0
    }
}

impl Default for TimeStamp {
    /// The default timestamp is the sentinel.
    fn default() -> (t: TimeStamp)
        ensures
            t == TimeStamp::spec_zero(),
    {
        TimeStamp(0)
    }
}

} // verus!
