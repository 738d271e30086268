//! The forward protocol: native values into [`Value`].
//!
//! Every supported type converts in three forms: owned, borrowed, and
//! borrowed optional. None of them can fail. An owned value is wrapped as it
//! is; a borrowed one is copied, so the result never borrows from the
//! caller; an absent optional becomes [`Value::Nil`].

use crate::float::{Float32, Float64};
use crate::timestamp::UtcDateTime;
use crate::value::{Value, ValueView};
use chrono::NaiveDate;
use uuid::Uuid;
use vstd::prelude::*;
use vstd::std_specs::convert::FromSpecImpl;

verus! {

/// A boolean, owned, is stored as `Bool`.
impl From<bool> for Value {
    fn from(f: bool) -> (v: Value)
        ensures
            v@ == ValueView::Bool(f),
    {
        Value::Bool(f)
    }
}

impl FromSpecImpl<bool> for Value {
    open spec fn obeys_from_spec() -> bool {
        true
    }

    open spec fn from_spec(f: bool) -> Value {
        Value::Bool(f)
    }
}

/// A boolean, borrowed, is copied into `Bool`.
impl<'a> From<&'a bool> for Value {
    fn from(f: &'a bool) -> (v: Value)
        ensures
            v@ == ValueView::Bool(*f),
    {
        Value::Bool(*f)
    }
}

impl<'a> FromSpecImpl<&'a bool> for Value {
    open spec fn obeys_from_spec() -> bool {
        true
    }

    open spec fn from_spec(f: &'a bool) -> Value {
        Value::Bool(*f)
    }
}

/// An absent value is stored as `Nil`, a present one as `Bool`.
impl<'a> From<&'a Option<bool>> for Value {
    fn from(f: &'a Option<bool>) -> (v: Value)
        ensures
            v@ == match *f {
                Some(x) => ValueView::Bool(x),
                None => ValueView::Nil,
            },
    {
        match f {
            Some(x) => Value::from(x),
            None => Value::Nil,
        }
    }
}

impl<'a> FromSpecImpl<&'a Option<bool>> for Value {
    open spec fn obeys_from_spec() -> bool {
        true
    }

    open spec fn from_spec(f: &'a Option<bool>) -> Value {
        match *f {
            Some(x) => Value::Bool(x),
            None => Value::Nil,
        }
    }
}

/// An 8-bit integer, owned, is stored as `Tinyint`.
impl From<i8> for Value {
    fn from(f: i8) -> (v: Value)
        ensures
            v@ == ValueView::Tinyint(f),
    {
        Value::Tinyint(f)
    }
}

impl FromSpecImpl<i8> for Value {
    open spec fn obeys_from_spec() -> bool {
        true
    }

    open spec fn from_spec(f: i8) -> Value {
        Value::Tinyint(f)
    }
}

/// An 8-bit integer, borrowed, is copied into `Tinyint`.
impl<'a> From<&'a i8> for Value {
    fn from(f: &'a i8) -> (v: Value)
        ensures
            v@ == ValueView::Tinyint(*f),
    {
        Value::Tinyint(*f)
    }
}

impl<'a> FromSpecImpl<&'a i8> for Value {
    open spec fn obeys_from_spec() -> bool {
        true
    }

    open spec fn from_spec(f: &'a i8) -> Value {
        Value::Tinyint(*f)
    }
}

/// An absent value is stored as `Nil`, a present one as `Tinyint`.
impl<'a> From<&'a Option<i8>> for Value {
    fn from(f: &'a Option<i8>) -> (v: Value)
        ensures
            v@ == match *f {
                Some(x) => ValueView::Tinyint(x),
                None => ValueView::Nil,
            },
    {
        match f {
            Some(x) => Value::from(x),
            None => Value::Nil,
        }
    }
}

impl<'a> FromSpecImpl<&'a Option<i8>> for Value {
    open spec fn obeys_from_spec() -> bool {
        true
    }

    open spec fn from_spec(f: &'a Option<i8>) -> Value {
        match *f {
            Some(x) => Value::Tinyint(x),
            None => Value::Nil,
        }
    }
}

/// A 16-bit integer, owned, is stored as `Smallint`.
impl From<i16> for Value {
    fn from(f: i16) -> (v: Value)
        ensures
            v@ == ValueView::Smallint(f),
    {
        Value::Smallint(f)
    }
}

impl FromSpecImpl<i16> for Value {
    open spec fn obeys_from_spec() -> bool {
        true
    }

    open spec fn from_spec(f: i16) -> Value {
        Value::Smallint(f)
    }
}

/// A 16-bit integer, borrowed, is copied into `Smallint`.
impl<'a> From<&'a i16> for Value {
    fn from(f: &'a i16) -> (v: Value)
        ensures
            v@ == ValueView::Smallint(*f),
    {
        Value::Smallint(*f)
    }
}

impl<'a> FromSpecImpl<&'a i16> for Value {
    open spec fn obeys_from_spec() -> bool {
        true
    }

    open spec fn from_spec(f: &'a i16) -> Value {
        Value::Smallint(*f)
    }
}

/// An absent value is stored as `Nil`, a present one as `Smallint`.
impl<'a> From<&'a Option<i16>> for Value {
    fn from(f: &'a Option<i16>) -> (v: Value)
        ensures
            v@ == match *f {
                Some(x) => ValueView::Smallint(x),
                None => ValueView::Nil,
            },
    {
        match f {
            Some(x) => Value::from(x),
            None => Value::Nil,
        }
    }
}

impl<'a> FromSpecImpl<&'a Option<i16>> for Value {
    open spec fn obeys_from_spec() -> bool {
        true
    }

    open spec fn from_spec(f: &'a Option<i16>) -> Value {
        match *f {
            Some(x) => Value::Smallint(x),
            None => Value::Nil,
        }
    }
}

/// A 32-bit integer, owned, is stored as `Int`.
impl From<i32> for Value {
    fn from(f: i32) -> (v: Value)
        ensures
            v@ == ValueView::Int(f),
    {
        Value::Int(f)
    }
}

impl FromSpecImpl<i32> for Value {
    open spec fn obeys_from_spec() -> bool {
        true
    }

    open spec fn from_spec(f: i32) -> Value {
        Value::Int(f)
    }
}

/// A 32-bit integer, borrowed, is copied into `Int`.
impl<'a> From<&'a i32> for Value {
    fn from(f: &'a i32) -> (v: Value)
        ensures
            v@ == ValueView::Int(*f),
    {
        Value::Int(*f)
    }
}

impl<'a> FromSpecImpl<&'a i32> for Value {
    open spec fn obeys_from_spec() -> bool {
        true
    }

    open spec fn from_spec(f: &'a i32) -> Value {
        Value::Int(*f)
    }
}

/// An absent value is stored as `Nil`, a present one as `Int`.
impl<'a> From<&'a Option<i32>> for Value {
    fn from(f: &'a Option<i32>) -> (v: Value)
        ensures
            v@ == match *f {
                Some(x) => ValueView::Int(x),
                None => ValueView::Nil,
            },
    {
        match f {
            Some(x) => Value::from(x),
            None => Value::Nil,
        }
    }
}

impl<'a> FromSpecImpl<&'a Option<i32>> for Value {
    open spec fn obeys_from_spec() -> bool {
        true
    }

    open spec fn from_spec(f: &'a Option<i32>) -> Value {
        match *f {
            Some(x) => Value::Int(x),
            None => Value::Nil,
        }
    }
}

/// A 64-bit integer, owned, is stored as `Bigint`.
impl From<i64> for Value {
    fn from(f: i64) -> (v: Value)
        ensures
            v@ == ValueView::Bigint(f),
    {
        Value::Bigint(f)
    }
}

impl FromSpecImpl<i64> for Value {
    open spec fn obeys_from_spec() -> bool {
        true
    }

    open spec fn from_spec(f: i64) -> Value {
        Value::Bigint(f)
    }
}

/// A 64-bit integer, borrowed, is copied into `Bigint`.
impl<'a> From<&'a i64> for Value {
    fn from(f: &'a i64) -> (v: Value)
        ensures
            v@ == ValueView::Bigint(*f),
    {
        Value::Bigint(*f)
    }
}

impl<'a> FromSpecImpl<&'a i64> for Value {
    open spec fn obeys_from_spec() -> bool {
        true
    }

    open spec fn from_spec(f: &'a i64) -> Value {
        Value::Bigint(*f)
    }
}

/// An absent value is stored as `Nil`, a present one as `Bigint`.
impl<'a> From<&'a Option<i64>> for Value {
    fn from(f: &'a Option<i64>) -> (v: Value)
        ensures
            v@ == match *f {
                Some(x) => ValueView::Bigint(x),
                None => ValueView::Nil,
            },
    {
        match f {
            Some(x) => Value::from(x),
            None => Value::Nil,
        }
    }
}

impl<'a> FromSpecImpl<&'a Option<i64>> for Value {
    open spec fn obeys_from_spec() -> bool {
        true
    }

    open spec fn from_spec(f: &'a Option<i64>) -> Value {
        match *f {
            Some(x) => Value::Bigint(x),
            None => Value::Nil,
        }
    }
}

/// A single-precision number, owned, is stored as `Float`.
impl From<Float32> for Value {
    fn from(f: Float32) -> (v: Value)
        ensures
            v@ == ValueView::Float(f),
    {
        Value::Float(f)
    }
}

impl FromSpecImpl<Float32> for Value {
    open spec fn obeys_from_spec() -> bool {
        true
    }

    open spec fn from_spec(f: Float32) -> Value {
        Value::Float(f)
    }
}

/// A single-precision number, borrowed, is copied into `Float`.
impl<'a> From<&'a Float32> for Value {
    fn from(f: &'a Float32) -> (v: Value)
        ensures
            v@ == ValueView::Float(*f),
    {
        Value::Float(*f)
    }
}

impl<'a> FromSpecImpl<&'a Float32> for Value {
    open spec fn obeys_from_spec() -> bool {
        true
    }

    open spec fn from_spec(f: &'a Float32) -> Value {
        Value::Float(*f)
    }
}

/// An absent value is stored as `Nil`, a present one as `Float`.
impl<'a> From<&'a Option<Float32>> for Value {
    fn from(f: &'a Option<Float32>) -> (v: Value)
        ensures
            v@ == match *f {
                Some(x) => ValueView::Float(x),
                None => ValueView::Nil,
            },
    {
        match f {
            Some(x) => Value::from(x),
            None => Value::Nil,
        }
    }
}

impl<'a> FromSpecImpl<&'a Option<Float32>> for Value {
    open spec fn obeys_from_spec() -> bool {
        true
    }

    open spec fn from_spec(f: &'a Option<Float32>) -> Value {
        match *f {
            Some(x) => Value::Float(x),
            None => Value::Nil,
        }
    }
}

/// A double-precision number, owned, is stored as `Double`.
impl From<Float64> for Value {
    fn from(f: Float64) -> (v: Value)
        ensures
            v@ == ValueView::Double(f),
    {
        Value::Double(f)
    }
}

impl FromSpecImpl<Float64> for Value {
    open spec fn obeys_from_spec() -> bool {
        true
    }

    open spec fn from_spec(f: Float64) -> Value {
        Value::Double(f)
    }
}

/// A double-precision number, borrowed, is copied into `Double`.
impl<'a> From<&'a Float64> for Value {
    fn from(f: &'a Float64) -> (v: Value)
        ensures
            v@ == ValueView::Double(*f),
    {
        Value::Double(*f)
    }
}

impl<'a> FromSpecImpl<&'a Float64> for Value {
    open spec fn obeys_from_spec() -> bool {
        true
    }

    open spec fn from_spec(f: &'a Float64) -> Value {
        Value::Double(*f)
    }
}

/// An absent value is stored as `Nil`, a present one as `Double`.
impl<'a> From<&'a Option<Float64>> for Value {
    fn from(f: &'a Option<Float64>) -> (v: Value)
        ensures
            v@ == match *f {
                Some(x) => ValueView::Double(x),
                None => ValueView::Nil,
            },
    {
        match f {
            Some(x) => Value::from(x),
            None => Value::Nil,
        }
    }
}

impl<'a> FromSpecImpl<&'a Option<Float64>> for Value {
    open spec fn obeys_from_spec() -> bool {
        true
    }

    open spec fn from_spec(f: &'a Option<Float64>) -> Value {
        match *f {
            Some(x) => Value::Double(x),
            None => Value::Nil,
        }
    }
}

/// A byte sequence, owned, is stored as `Blob`.
impl From<Vec<u8>> for Value {
    fn from(f: Vec<u8>) -> (v: Value)
        ensures
            v@ == ValueView::Blob(f@),
    {
        Value::Blob(f)
    }
}

impl FromSpecImpl<Vec<u8>> for Value {
    open spec fn obeys_from_spec() -> bool {
        true
    }

    open spec fn from_spec(f: Vec<u8>) -> Value {
        Value::Blob(f)
    }
}

/// A byte sequence, borrowed, is copied into `Blob`.
///
/// The copy is a second vector that holds the same bytes, so the result is
/// stated by `from` itself, on the view, and not as a spec-level value.
impl<'a> From<&'a Vec<u8>> for Value {
    fn from(f: &'a Vec<u8>) -> (v: Value)
        ensures
            v@ == ValueView::Blob(f@),
    {
        Value::Blob(f.clone())
    }
}

impl<'a> FromSpecImpl<&'a Vec<u8>> for Value {
    open spec fn obeys_from_spec() -> bool {
        false
    }

    open spec fn from_spec(f: &'a Vec<u8>) -> Value {
        Value::Blob(*f)
    }
}

/// An absent value is stored as `Nil`, a present one as `Blob`.
impl<'a> From<&'a Option<Vec<u8>>> for Value {
    fn from(f: &'a Option<Vec<u8>>) -> (v: Value)
        ensures
            v@ == match *f {
                Some(x) => ValueView::Blob(x@),
                None => ValueView::Nil,
            },
    {
        match f {
            Some(x) => Value::from(x),
            None => Value::Nil,
        }
    }
}

impl<'a> FromSpecImpl<&'a Option<Vec<u8>>> for Value {
    open spec fn obeys_from_spec() -> bool {
        false
    }

    open spec fn from_spec(f: &'a Option<Vec<u8>>) -> Value {
        match *f {
            Some(x) => Value::Blob(x),
            None => Value::Nil,
        }
    }
}

/// A string, owned, is stored as `Text`.
impl From<String> for Value {
    fn from(f: String) -> (v: Value)
        ensures
            v@ == ValueView::Text(f@),
    {
        Value::Text(f)
    }
}

impl FromSpecImpl<String> for Value {
    open spec fn obeys_from_spec() -> bool {
        true
    }

    open spec fn from_spec(f: String) -> Value {
        Value::Text(f)
    }
}

/// A string, borrowed, is copied into `Text`.
impl<'a> From<&'a String> for Value {
    fn from(f: &'a String) -> (v: Value)
        ensures
            v@ == ValueView::Text(f@),
    {
        Value::Text(f.clone())
    }
}

impl<'a> FromSpecImpl<&'a String> for Value {
    open spec fn obeys_from_spec() -> bool {
        true
    }

    open spec fn from_spec(f: &'a String) -> Value {
        Value::Text(*f)
    }
}

/// An absent value is stored as `Nil`, a present one as `Text`.
impl<'a> From<&'a Option<String>> for Value {
    fn from(f: &'a Option<String>) -> (v: Value)
        ensures
            v@ == match *f {
                Some(x) => ValueView::Text(x@),
                None => ValueView::Nil,
            },
    {
        match f {
            Some(x) => Value::from(x),
            None => Value::Nil,
        }
    }
}

impl<'a> FromSpecImpl<&'a Option<String>> for Value {
    open spec fn obeys_from_spec() -> bool {
        true
    }

    open spec fn from_spec(f: &'a Option<String>) -> Value {
        match *f {
            Some(x) => Value::Text(x),
            None => Value::Nil,
        }
    }
}

/// A string slice of process lifetime, owned, is stored as `Str`.
impl From<&'static str> for Value {
    fn from(f: &'static str) -> (v: Value)
        ensures
            v@ == ValueView::Str(f@),
    {
        Value::Str(f)
    }
}

impl FromSpecImpl<&'static str> for Value {
    open spec fn obeys_from_spec() -> bool {
        true
    }

    open spec fn from_spec(f: &'static str) -> Value {
        Value::Str(f)
    }
}

/// A string slice of process lifetime, borrowed, is copied into `Str`.
impl<'a> From<&'a &'static str> for Value {
    fn from(f: &'a &'static str) -> (v: Value)
        ensures
            v@ == ValueView::Str(f@),
    {
        Value::Str(*f)
    }
}

impl<'a> FromSpecImpl<&'a &'static str> for Value {
    open spec fn obeys_from_spec() -> bool {
        true
    }

    open spec fn from_spec(f: &'a &'static str) -> Value {
        Value::Str(*f)
    }
}

/// An absent value is stored as `Nil`, a present one as `Str`.
impl<'a> From<&'a Option<&'static str>> for Value {
    fn from(f: &'a Option<&'static str>) -> (v: Value)
        ensures
            v@ == match *f {
                Some(x) => ValueView::Str(x@),
                None => ValueView::Nil,
            },
    {
        match f {
            Some(x) => Value::from(x),
            None => Value::Nil,
        }
    }
}

impl<'a> FromSpecImpl<&'a Option<&'static str>> for Value {
    open spec fn obeys_from_spec() -> bool {
        true
    }

    open spec fn from_spec(f: &'a Option<&'static str>) -> Value {
        match *f {
            Some(x) => Value::Str(x),
            None => Value::Nil,
        }
    }
}

/// An identifier, owned, is stored as `Uuid`.
impl From<Uuid> for Value {
    fn from(f: Uuid) -> (v: Value)
        ensures
            v@ == ValueView::Uuid(f),
    {
        Value::Uuid(f)
    }
}

impl FromSpecImpl<Uuid> for Value {
    open spec fn obeys_from_spec() -> bool {
        true
    }

    open spec fn from_spec(f: Uuid) -> Value {
        Value::Uuid(f)
    }
}

/// An identifier, borrowed, is copied into `Uuid`.
impl<'a> From<&'a Uuid> for Value {
    fn from(f: &'a Uuid) -> (v: Value)
        ensures
            v@ == ValueView::Uuid(*f),
    {
        Value::Uuid(*f)
    }
}

impl<'a> FromSpecImpl<&'a Uuid> for Value {
    open spec fn obeys_from_spec() -> bool {
        true
    }

    open spec fn from_spec(f: &'a Uuid) -> Value {
        Value::Uuid(*f)
    }
}

/// An absent value is stored as `Nil`, a present one as `Uuid`.
impl<'a> From<&'a Option<Uuid>> for Value {
    fn from(f: &'a Option<Uuid>) -> (v: Value)
        ensures
            v@ == match *f {
                Some(x) => ValueView::Uuid(x),
                None => ValueView::Nil,
            },
    {
        match f {
            Some(x) => Value::from(x),
            None => Value::Nil,
        }
    }
}

impl<'a> FromSpecImpl<&'a Option<Uuid>> for Value {
    open spec fn obeys_from_spec() -> bool {
        true
    }

    open spec fn from_spec(f: &'a Option<Uuid>) -> Value {
        match *f {
            Some(x) => Value::Uuid(x),
            None => Value::Nil,
        }
    }
}

/// A calendar date, owned, is stored as `Date`.
impl From<NaiveDate> for Value {
    fn from(f: NaiveDate) -> (v: Value)
        ensures
            v@ == ValueView::Date(f),
    {
        Value::Date(f)
    }
}

impl FromSpecImpl<NaiveDate> for Value {
    open spec fn obeys_from_spec() -> bool {
        true
    }

    open spec fn from_spec(f: NaiveDate) -> Value {
        Value::Date(f)
    }
}

/// A calendar date, borrowed, is copied into `Date`.
impl<'a> From<&'a NaiveDate> for Value {
    fn from(f: &'a NaiveDate) -> (v: Value)
        ensures
            v@ == ValueView::Date(*f),
    {
        Value::Date(*f)
    }
}

impl<'a> FromSpecImpl<&'a NaiveDate> for Value {
    open spec fn obeys_from_spec() -> bool {
        true
    }

    open spec fn from_spec(f: &'a NaiveDate) -> Value {
        Value::Date(*f)
    }
}

/// An absent value is stored as `Nil`, a present one as `Date`.
impl<'a> From<&'a Option<NaiveDate>> for Value {
    fn from(f: &'a Option<NaiveDate>) -> (v: Value)
        ensures
            v@ == match *f {
                Some(x) => ValueView::Date(x),
                None => ValueView::Nil,
            },
    {
        match f {
            Some(x) => Value::from(x),
            None => Value::Nil,
        }
    }
}

impl<'a> FromSpecImpl<&'a Option<NaiveDate>> for Value {
    open spec fn obeys_from_spec() -> bool {
        true
    }

    open spec fn from_spec(f: &'a Option<NaiveDate>) -> Value {
        match *f {
            Some(x) => Value::Date(x),
            None => Value::Nil,
        }
    }
}

/// A timestamp, owned, is stored as `Timestamp`.
impl From<UtcDateTime> for Value {
    fn from(f: UtcDateTime) -> (v: Value)
        ensures
            v@ == ValueView::Timestamp(f),
    {
        Value::Timestamp(f)
    }
}

impl FromSpecImpl<UtcDateTime> for Value {
    open spec fn obeys_from_spec() -> bool {
        true
    }

    open spec fn from_spec(f: UtcDateTime) -> Value {
        Value::Timestamp(f)
    }
}

/// A timestamp, borrowed, is copied into `Timestamp`.
impl<'a> From<&'a UtcDateTime> for Value {
    fn from(f: &'a UtcDateTime) -> (v: Value)
        ensures
            v@ == ValueView::Timestamp(*f),
    {
        Value::Timestamp(*f)
    }
}

impl<'a> FromSpecImpl<&'a UtcDateTime> for Value {
    open spec fn obeys_from_spec() -> bool {
        true
    }

    open spec fn from_spec(f: &'a UtcDateTime) -> Value {
        Value::Timestamp(*f)
    }
}

/// An absent value is stored as `Nil`, a present one as `Timestamp`.
impl<'a> From<&'a Option<UtcDateTime>> for Value {
    fn from(f: &'a Option<UtcDateTime>) -> (v: Value)
        ensures
            v@ == match *f {
                Some(x) => ValueView::Timestamp(x),
                None => ValueView::Nil,
            },
    {
        match f {
            Some(x) => Value::from(x),
            None => Value::Nil,
        }
    }
}

impl<'a> FromSpecImpl<&'a Option<UtcDateTime>> for Value {
    open spec fn obeys_from_spec() -> bool {
        true
    }

    open spec fn from_spec(f: &'a Option<UtcDateTime>) -> Value {
        match *f {
            Some(x) => Value::Timestamp(x),
            None => Value::Nil,
        }
    }
}

} // verus!
