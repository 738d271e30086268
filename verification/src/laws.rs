//! What holds of the two protocols together.
//!
//! Each statement is about the values that `Value::from` produces
//! (`from_spec`) and about what `try_from` accepts (the `as_` functions of
//! [`ValueView`]).

use crate::float::{Float32, Float64};
use crate::timestamp::UtcDateTime;
use crate::value::{Value, ValueView};
use chrono::NaiveDate;
use uuid::Uuid;
use vstd::prelude::*;
use vstd::std_specs::convert::FromSpec;

verus! {

/// A boolean that was stored is handed back unchanged, whether it was given
/// owned, borrowed, or as a present optional.
pub proof fn lemma_round_trip_bool(x: bool)
    ensures
        <Value as FromSpec<bool>>::from_spec(x)@.as_bool() == Some(x),
        <Value as FromSpec<&bool>>::from_spec(&x)@.as_bool() == Some(x),
        <Value as FromSpec<&Option<bool>>>::from_spec(&Some(x))@.as_bool() == Some(x),
{
}

/// An 8-bit integer that was stored is handed back unchanged.
pub proof fn lemma_round_trip_i8(x: i8)
    ensures
        <Value as FromSpec<i8>>::from_spec(x)@.as_i8() == Some(x),
        <Value as FromSpec<&i8>>::from_spec(&x)@.as_i8() == Some(x),
        <Value as FromSpec<&Option<i8>>>::from_spec(&Some(x))@.as_i8() == Some(x),
{
}

/// A 16-bit integer that was stored is handed back unchanged.
pub proof fn lemma_round_trip_i16(x: i16)
    ensures
        <Value as FromSpec<i16>>::from_spec(x)@.as_i16() == Some(x),
        <Value as FromSpec<&i16>>::from_spec(&x)@.as_i16() == Some(x),
        <Value as FromSpec<&Option<i16>>>::from_spec(&Some(x))@.as_i16() == Some(x),
{
}

/// A 32-bit integer that was stored is handed back unchanged.
pub proof fn lemma_round_trip_i32(x: i32)
    ensures
        <Value as FromSpec<i32>>::from_spec(x)@.as_i32() == Some(x),
        <Value as FromSpec<&i32>>::from_spec(&x)@.as_i32() == Some(x),
        <Value as FromSpec<&Option<i32>>>::from_spec(&Some(x))@.as_i32() == Some(x),
{
}

/// A 64-bit integer that was stored is handed back unchanged.
pub proof fn lemma_round_trip_i64(x: i64)
    ensures
        <Value as FromSpec<i64>>::from_spec(x)@.as_i64() == Some(x),
        <Value as FromSpec<&i64>>::from_spec(&x)@.as_i64() == Some(x),
        <Value as FromSpec<&Option<i64>>>::from_spec(&Some(x))@.as_i64() == Some(x),
{
}

/// A single-precision number that was stored is handed back bit for bit.
pub proof fn lemma_round_trip_float32(x: Float32)
    ensures
        <Value as FromSpec<Float32>>::from_spec(x)@.as_float32() == Some(x),
        <Value as FromSpec<&Float32>>::from_spec(&x)@.as_float32() == Some(x),
        <Value as FromSpec<&Option<Float32>>>::from_spec(&Some(x))@.as_float32() == Some(x),
{
}

/// A double-precision number that was stored is handed back bit for bit.
pub proof fn lemma_round_trip_float64(x: Float64)
    ensures
        <Value as FromSpec<Float64>>::from_spec(x)@.as_float64() == Some(x),
        <Value as FromSpec<&Float64>>::from_spec(&x)@.as_float64() == Some(x),
        <Value as FromSpec<&Option<Float64>>>::from_spec(&Some(x))@.as_float64() == Some(x),
{
}

/// Bytes that were stored are handed back as the same bytes. The borrowed
/// forms store a copy, so for them the statement is about any value that
/// holds these bytes as a `Blob`.
pub proof fn lemma_round_trip_blob(x: Vec<u8>, copied: Value)
    requires
        copied@ == ValueView::Blob(x@),
    ensures
        <Value as FromSpec<Vec<u8>>>::from_spec(x)@.as_blob() == Some(x@),
        copied@.as_blob() == Some(x@),
{
}

/// Owned text that was stored is handed back as the same text.
pub proof fn lemma_round_trip_text(x: String)
    ensures
        <Value as FromSpec<String>>::from_spec(x)@.as_text() == Some(x@),
        <Value as FromSpec<&String>>::from_spec(&x)@.as_text() == Some(x@),
        <Value as FromSpec<&Option<String>>>::from_spec(&Some(x))@.as_text() == Some(x@),
{
}

/// Process-lifetime text that was stored is handed back as the same text.
pub proof fn lemma_round_trip_static_str(x: &'static str)
    ensures
        <Value as FromSpec<&'static str>>::from_spec(x)@.as_static_str() == Some(x@),
        <Value as FromSpec<&&'static str>>::from_spec(&x)@.as_static_str() == Some(x@),
        <Value as FromSpec<&Option<&'static str>>>::from_spec(&Some(x))@.as_static_str()
            == Some(x@),
{
}

/// An identifier that was stored is handed back unchanged.
pub proof fn lemma_round_trip_uuid(x: Uuid)
    ensures
        <Value as FromSpec<Uuid>>::from_spec(x)@.as_uuid() == Some(x),
        <Value as FromSpec<&Uuid>>::from_spec(&x)@.as_uuid() == Some(x),
        <Value as FromSpec<&Option<Uuid>>>::from_spec(&Some(x))@.as_uuid() == Some(x),
{
}

/// A calendar date that was stored is handed back unchanged.
pub proof fn lemma_round_trip_date(x: NaiveDate)
    ensures
        <Value as FromSpec<NaiveDate>>::from_spec(x)@.as_date() == Some(x),
        <Value as FromSpec<&NaiveDate>>::from_spec(&x)@.as_date() == Some(x),
        <Value as FromSpec<&Option<NaiveDate>>>::from_spec(&Some(x))@.as_date() == Some(x),
{
}

/// A timestamp that was stored is handed back unchanged.
pub proof fn lemma_round_trip_timestamp(x: UtcDateTime)
    ensures
        <Value as FromSpec<UtcDateTime>>::from_spec(x)@.as_timestamp() == Some(x),
        <Value as FromSpec<&UtcDateTime>>::from_spec(&x)@.as_timestamp() == Some(x),
        <Value as FromSpec<&Option<UtcDateTime>>>::from_spec(&Some(x))@.as_timestamp() == Some(
            x,
        ),
{
}

/// An absent optional is stored as `Nil`, whatever its type, and `Nil` is
/// accepted by no requested type.
pub proof fn lemma_absent_is_nil()
    ensures
        <Value as FromSpec<&Option<bool>>>::from_spec(&None) == Value::Nil,
        <Value as FromSpec<&Option<i8>>>::from_spec(&None) == Value::Nil,
        <Value as FromSpec<&Option<i16>>>::from_spec(&None) == Value::Nil,
        <Value as FromSpec<&Option<i32>>>::from_spec(&None) == Value::Nil,
        <Value as FromSpec<&Option<i64>>>::from_spec(&None) == Value::Nil,
        <Value as FromSpec<&Option<Float32>>>::from_spec(&None) == Value::Nil,
        <Value as FromSpec<&Option<Float64>>>::from_spec(&None) == Value::Nil,
        <Value as FromSpec<&Option<Vec<u8>>>>::from_spec(&None) == Value::Nil,
        <Value as FromSpec<&Option<String>>>::from_spec(&None) == Value::Nil,
        <Value as FromSpec<&Option<&'static str>>>::from_spec(&None) == Value::Nil,
        <Value as FromSpec<&Option<Uuid>>>::from_spec(&None) == Value::Nil,
        <Value as FromSpec<&Option<NaiveDate>>>::from_spec(&None) == Value::Nil,
        <Value as FromSpec<&Option<UtcDateTime>>>::from_spec(&None) == Value::Nil,
        ValueView::Nil.as_bool() is None,
        ValueView::Nil.as_i8() is None,
        ValueView::Nil.as_i16() is None,
        ValueView::Nil.as_i32() is None,
        ValueView::Nil.as_i64() is None,
        ValueView::Nil.as_float32() is None,
        ValueView::Nil.as_float64() is None,
        ValueView::Nil.as_blob() is None,
        ValueView::Nil.as_text() is None,
        ValueView::Nil.as_static_str() is None,
        ValueView::Nil.as_uuid() is None,
        ValueView::Nil.as_date() is None,
        ValueView::Nil.as_timestamp() is None,
{
}

/// The integer policy in one rule: a requested integer type accepts exactly
/// the integer variants that are no wider than itself, and hands back the
/// number that was stored.
pub proof fn lemma_integer_policy(stored: ValueView)
    ensures
        stored.as_i8() is Some <==> stored.integer_width() is Some && stored.integer_width()->0
            <= 8,
        stored.as_i16() is Some <==> stored.integer_width() is Some && stored.integer_width()->0
            <= 16,
        stored.as_i32() is Some <==> stored.integer_width() is Some && stored.integer_width()->0
            <= 32,
        stored.as_i64() is Some <==> stored.integer_width() is Some && stored.integer_width()->0
            <= 64,
        stored.as_i8() matches Some(x) ==> stored.integer() == Some(x as int),
        stored.as_i16() matches Some(x) ==> stored.integer() == Some(x as int),
        stored.as_i32() matches Some(x) ==> stored.integer() == Some(x as int),
        stored.as_i64() matches Some(x) ==> stored.integer() == Some(x as int),
{
}

/// An 8-bit integer that was stored can be requested as any wider integer
/// and keeps its number.
pub proof fn lemma_widening_from_i8(x: i8)
    ensures
        <Value as FromSpec<i8>>::from_spec(x)@.as_i16() == Some(x as i16),
        <Value as FromSpec<i8>>::from_spec(x)@.as_i32() == Some(x as i32),
        <Value as FromSpec<i8>>::from_spec(x)@.as_i64() == Some(x as i64),
        x as i16 == x as int,
        x as i32 == x as int,
        x as i64 == x as int,
{
}

/// A 16-bit integer that was stored can be requested as any wider integer
/// and keeps its number.
pub proof fn lemma_widening_from_i16(x: i16)
    ensures
        <Value as FromSpec<i16>>::from_spec(x)@.as_i32() == Some(x as i32),
        <Value as FromSpec<i16>>::from_spec(x)@.as_i64() == Some(x as i64),
        x as i32 == x as int,
        x as i64 == x as int,
{
}

/// A 32-bit integer that was stored can be requested as a 64-bit integer
/// and keeps its number.
pub proof fn lemma_widening_from_i32(x: i32)
    ensures
        <Value as FromSpec<i32>>::from_spec(x)@.as_i64() == Some(x as i64),
        x as i64 == x as int,
{
}

/// A stored integer is refused by every narrower requested type, whatever
/// number it holds: a number that would fit is refused like any other.
pub proof fn lemma_narrowing_is_refused(a: i64, b: i32, c: i16)
    ensures
        <Value as FromSpec<i64>>::from_spec(a)@.as_i32() is None,
        <Value as FromSpec<i64>>::from_spec(a)@.as_i16() is None,
        <Value as FromSpec<i64>>::from_spec(a)@.as_i8() is None,
        <Value as FromSpec<i32>>::from_spec(b)@.as_i16() is None,
        <Value as FromSpec<i32>>::from_spec(b)@.as_i8() is None,
        <Value as FromSpec<i16>>::from_spec(c)@.as_i8() is None,
{
}

/// The float policy: a stored single-precision number can be requested in
/// double precision and is widened exactly; a stored double-precision number
/// is refused in single precision.
pub proof fn lemma_float_policy(x: Float32, y: Float64)
    ensures
        <Value as FromSpec<Float32>>::from_spec(x)@.as_float64() == Some(x.widen_spec()),
        <Value as FromSpec<Float64>>::from_spec(y)@.as_float32() is None,
{
}

/// A requested type that is not a number accepts its own variant and no
/// other; the two float types accept no variant that is not a float, and the
/// integer types none that is not an integer.
pub proof fn lemma_exact_variant_policy(stored: ValueView)
    ensures
        stored.as_bool() is Some <==> stored is Bool,
        stored.as_blob() is Some <==> stored is Blob,
        stored.as_text() is Some <==> stored is Text,
        stored.as_static_str() is Some <==> stored is Str,
        stored.as_uuid() is Some <==> stored is Uuid,
        stored.as_date() is Some <==> stored is Date,
        stored.as_timestamp() is Some <==> stored is Timestamp,
        stored.as_float32() is Some <==> stored is Float,
        stored.as_float64() is Some <==> stored is Float || stored is Double,
        stored.as_i64() is Some <==> stored.integer() is Some,
{
}

} // verus!
