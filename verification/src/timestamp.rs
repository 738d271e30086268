//! A point in time, kept in UTC.

use chrono::NaiveDateTime;
use vstd::prelude::*;
use vstd::std_specs::cmp::PartialEqSpecImpl;

verus! {

/// A date and time of day in UTC.
///
/// The offset is fixed by the type, so only the date and time are stored.
#[derive(Debug, Clone, Copy)]
pub struct UtcDateTime {
    naive_utc: NaiveDateTime,
}

impl UtcDateTime {
    /// The stored date and time, read as UTC.
    pub closed spec fn spec_naive_utc(self) -> NaiveDateTime {
        self.naive_utc
    }

    /// Takes a date and time that is already expressed in UTC.
    pub fn from_naive_utc(naive_utc: NaiveDateTime) -> (t: UtcDateTime)
        ensures
            t.spec_naive_utc() == naive_utc,
    {
        UtcDateTime { naive_utc }
    }

    /// The date and time in UTC, without the zone.
    #[verifier::when_used_as_spec(spec_naive_utc)]
    pub fn naive_utc(self) -> (naive: NaiveDateTime)
        ensures
            naive == self.spec_naive_utc(),
    {
        self.naive_utc
    }

    /// Two timestamps with the same date and time are the same timestamp.
    pub proof fn lemma_determined_by_naive_utc(a: UtcDateTime, b: UtcDateTime)
        requires
            a.spec_naive_utc() == b.spec_naive_utc(),
        ensures
            a == b,
    {
    }
}

impl PartialEq for UtcDateTime {
    fn eq(&self, other: &UtcDateTime) -> (equal: bool) {
        self.naive_utc == other.naive_utc
    }
}

impl PartialEqSpecImpl for UtcDateTime {
    open spec fn obeys_eq_spec() -> bool {
        true
    }

    open spec fn eq_spec(&self, other: &UtcDateTime) -> bool {
        *self == *other
    }
}

} // verus!
