//! Conversion failures.

use vstd::prelude::*;
use vstd::std_specs::cmp::PartialEqSpecImpl;

verus! {

/// Why a stored value could not be handed out as the requested type.
#[derive(Debug)]
pub enum ConvertError {
    /// The stored type, named by the first label, cannot be converted to the
    /// requested type, named by the second.
    NotSupported(String, String),
}

impl ConvertError {
    /// The label of the type that was stored.
    pub open spec fn actual(self) -> Seq<char> {
        match self {
            ConvertError::NotSupported(actual, _) => actual@,
        }
    }

    /// The label of the type that was asked for.
    pub open spec fn requested(self) -> Seq<char> {
        match self {
            ConvertError::NotSupported(_, requested) => requested@,
        }
    }

    /// The failure to convert a stored `actual` into a `requested`.
    pub fn not_supported(actual: &str, requested: &str) -> (e: ConvertError)
        ensures
            e.actual() == actual@,
            e.requested() == requested@,
    {
        ConvertError::NotSupported(actual.to_owned(), requested.to_owned())
    }
}

impl PartialEq for ConvertError {
    fn eq(&self, other: &ConvertError) -> (equal: bool) {
        match (self, other) {
            (ConvertError::NotSupported(a, r), ConvertError::NotSupported(b, s)) => *a == *b
                && *r == *s,
        }
    }
}

impl PartialEqSpecImpl for ConvertError {
    open spec fn obeys_eq_spec() -> bool {
        true
    }

    /// Two errors are equal when they name the same two types.
    open spec fn eq_spec(&self, other: &ConvertError) -> bool {
        self.actual() == other.actual() && self.requested() == other.requested()
    }
}

impl Clone for ConvertError {
    fn clone(&self) -> (e: ConvertError)
        ensures
            e == *self,
    {
        match self {
            ConvertError::NotSupported(actual, requested) => ConvertError::NotSupported(
                actual.clone(),
                requested.clone(),
            ),
        }
    }
}

} // verus!
