//! The backward protocol: [`Value`] into native values.
//!
//! Whether a conversion succeeds is decided by the stored variant alone,
//! never by the stored number. Each requested type has its own short list of
//! accepted variants; any other variant, `Nil` included, is refused with
//! [`ConvertError::NotSupported`], which names the stored and the requested
//! type. Requesting an `Option` reads `Nil` as `None`.
//!
//! A contract here is stated on `try_from` itself. The error owns its two
//! labels as strings, and no spec expression builds a string, so the
//! `try_from_spec` of each impl says what is accepted and leaves the error
//! open; no impl claims to obey it.

use crate::error::ConvertError;
use crate::float::{Float32, Float64};
use crate::timestamp::UtcDateTime;
use crate::value::{Value, ValueView};
use chrono::NaiveDate;
use uuid::Uuid;
use vstd::prelude::*;
use vstd::std_specs::convert::TryFromSpecImpl;

verus! {

impl ValueView {
    /// A boolean is accepted from `Bool` alone.
    pub open spec fn as_bool(self) -> Option<bool> {
        match self {
            ValueView::Bool(v) => Some(v),
            _ => None,
        }
    }

    /// An 8-bit integer is accepted from `Tinyint` alone.
    pub open spec fn as_i8(self) -> Option<i8> {
        match self {
            ValueView::Tinyint(v) => Some(v),
            _ => None,
        }
    }

    /// A 16-bit integer is accepted from `Tinyint` and `Smallint`.
    pub open spec fn as_i16(self) -> Option<i16> {
        match self {
            ValueView::Tinyint(v) => Some(v as i16),
            ValueView::Smallint(v) => Some(v),
            _ => None,
        }
    }

    /// A 32-bit integer is accepted from `Tinyint`, `Smallint` and `Int`.
    pub open spec fn as_i32(self) -> Option<i32> {
        match self {
            ValueView::Tinyint(v) => Some(v as i32),
            ValueView::Smallint(v) => Some(v as i32),
            ValueView::Int(v) => Some(v),
            _ => None,
        }
    }

    /// A 64-bit integer is accepted from every integer variant.
    pub open spec fn as_i64(self) -> Option<i64> {
        match self {
            ValueView::Tinyint(v) => Some(v as i64),
            ValueView::Smallint(v) => Some(v as i64),
            ValueView::Int(v) => Some(v as i64),
            ValueView::Bigint(v) => Some(v),
            _ => None,
        }
    }

    /// A single-precision number is accepted from `Float` alone.
    pub open spec fn as_float32(self) -> Option<Float32> {
        match self {
            ValueView::Float(v) => Some(v),
            _ => None,
        }
    }

    /// A double-precision number is accepted from `Float`, which is widened
    /// exactly, and from `Double`.
    pub open spec fn as_float64(self) -> Option<Float64> {
        match self {
            ValueView::Float(v) => Some(v.widen_spec()),
            ValueView::Double(v) => Some(v),
            _ => None,
        }
    }

    /// Bytes are accepted from `Blob` alone.
    pub open spec fn as_blob(self) -> Option<Seq<u8>> {
        match self {
            ValueView::Blob(v) => Some(v),
            _ => None,
        }
    }

    /// Owned text is accepted from `Text` alone.
    pub open spec fn as_text(self) -> Option<Seq<char>> {
        match self {
            ValueView::Text(v) => Some(v),
            _ => None,
        }
    }

    /// Process-lifetime text is accepted from `Str` alone.
    pub open spec fn as_static_str(self) -> Option<Seq<char>> {
        match self {
            ValueView::Str(v) => Some(v),
            _ => None,
        }
    }

    /// An identifier is accepted from `Uuid` alone.
    pub open spec fn as_uuid(self) -> Option<Uuid> {
        match self {
            ValueView::Uuid(v) => Some(v),
            _ => None,
        }
    }

    /// A calendar date is accepted from `Date` alone.
    pub open spec fn as_date(self) -> Option<NaiveDate> {
        match self {
            ValueView::Date(v) => Some(v),
            _ => None,
        }
    }

    /// A timestamp is accepted from `Timestamp` alone.
    pub open spec fn as_timestamp(self) -> Option<UtcDateTime> {
        match self {
            ValueView::Timestamp(v) => Some(v),
            _ => None,
        }
    }
}

impl ConvertError {
    /// The error names the type that `stored` holds and the type that was
    /// requested.
    pub open spec fn reports(self, stored: ValueView, requested: Seq<char>) -> bool {
        self.actual() == stored.label() && self.requested() == requested
    }
}

impl<'a> TryFrom<&'a Value> for bool {
    type Error = ConvertError;

    /// A boolean is accepted from `Bool` alone.
    fn try_from(value: &'a Value) -> (r: Result<bool, ConvertError>)
        ensures
            match r {
                Ok(x) => value@.as_bool() == Some(x),
                Err(e) => value@.as_bool() is None && e.reports(value@, "bool"@),
            },
    {
        match value {
            Value::Bool(v) => Ok(*v),
            _ => Err(ConvertError::not_supported(value.get_type_name(), "bool")),
        }
    }
}

impl<'a> TryFromSpecImpl<&'a Value> for bool {
    open spec fn obeys_try_from_spec() -> bool {
        false
    }

    open spec fn try_from_spec(value: &'a Value) -> Result<bool, ConvertError> {
        match *value {
            Value::Bool(v) => Ok(v),
            _ => Err(arbitrary()),
        }
    }
}

impl<'a> TryFrom<&'a Value> for Option<bool> {
    type Error = ConvertError;

    /// `Nil` is read as `None`; any other value converts as for `bool`.
    fn try_from(value: &'a Value) -> (r: Result<Option<bool>, ConvertError>)
        ensures
            match r {
                Ok(None) => value@ is Nil,
                Ok(Some(x)) => value@.as_bool() == Some(x),
                Err(e) => !(value@ is Nil) && value@.as_bool() is None && e.reports(
                    value@,
                    "bool"@,
                ),
            },
    {
        match value {
            Value::Nil => Ok(None),
            _ => match bool::try_from(value) {
                Ok(x) => Ok(Some(x)),
                Err(e) => Err(e),
            },
        }
    }
}

impl<'a> TryFromSpecImpl<&'a Value> for Option<bool> {
    open spec fn obeys_try_from_spec() -> bool {
        false
    }

    open spec fn try_from_spec(value: &'a Value) -> Result<Option<bool>, ConvertError> {
        match *value {
            Value::Nil => Ok(None),
            Value::Bool(v) => Ok(Some(v)),
            _ => Err(arbitrary()),
        }
    }
}

impl<'a> TryFrom<&'a Value> for i8 {
    type Error = ConvertError;

    /// An 8-bit integer is accepted from `Tinyint` alone.
    fn try_from(value: &'a Value) -> (r: Result<i8, ConvertError>)
        ensures
            match r {
                Ok(x) => value@.as_i8() == Some(x),
                Err(e) => value@.as_i8() is None && e.reports(value@, "i8"@),
            },
    {
        match value {
            Value::Tinyint(v) => Ok(*v),
            _ => Err(ConvertError::not_supported(value.get_type_name(), "i8")),
        }
    }
}

impl<'a> TryFromSpecImpl<&'a Value> for i8 {
    open spec fn obeys_try_from_spec() -> bool {
        false
    }

    open spec fn try_from_spec(value: &'a Value) -> Result<i8, ConvertError> {
        match *value {
            Value::Tinyint(v) => Ok(v),
            _ => Err(arbitrary()),
        }
    }
}

impl<'a> TryFrom<&'a Value> for Option<i8> {
    type Error = ConvertError;

    /// `Nil` is read as `None`; any other value converts as for `i8`.
    fn try_from(value: &'a Value) -> (r: Result<Option<i8>, ConvertError>)
        ensures
            match r {
                Ok(None) => value@ is Nil,
                Ok(Some(x)) => value@.as_i8() == Some(x),
                Err(e) => !(value@ is Nil) && value@.as_i8() is None && e.reports(
                    value@,
                    "i8"@,
                ),
            },
    {
        match value {
            Value::Nil => Ok(None),
            _ => match i8::try_from(value) {
                Ok(x) => Ok(Some(x)),
                Err(e) => Err(e),
            },
        }
    }
}

impl<'a> TryFromSpecImpl<&'a Value> for Option<i8> {
    open spec fn obeys_try_from_spec() -> bool {
        false
    }

    open spec fn try_from_spec(value: &'a Value) -> Result<Option<i8>, ConvertError> {
        match *value {
            Value::Nil => Ok(None),
            Value::Tinyint(v) => Ok(Some(v)),
            _ => Err(arbitrary()),
        }
    }
}

impl<'a> TryFrom<&'a Value> for i16 {
    type Error = ConvertError;

    /// A 16-bit integer is accepted from `Tinyint` and `Smallint`.
    fn try_from(value: &'a Value) -> (r: Result<i16, ConvertError>)
        ensures
            match r {
                Ok(x) => value@.as_i16() == Some(x),
                Err(e) => value@.as_i16() is None && e.reports(value@, "i16"@),
            },
    {
        match value {
            Value::Tinyint(v) => Ok(*v as i16),
            Value::Smallint(v) => Ok(*v),
            _ => Err(ConvertError::not_supported(value.get_type_name(), "i16")),
        }
    }
}

impl<'a> TryFromSpecImpl<&'a Value> for i16 {
    open spec fn obeys_try_from_spec() -> bool {
        false
    }

    open spec fn try_from_spec(value: &'a Value) -> Result<i16, ConvertError> {
        match *value {
            Value::Tinyint(v) => Ok(v as i16),
            Value::Smallint(v) => Ok(v),
            _ => Err(arbitrary()),
        }
    }
}

impl<'a> TryFrom<&'a Value> for Option<i16> {
    type Error = ConvertError;

    /// `Nil` is read as `None`; any other value converts as for `i16`.
    fn try_from(value: &'a Value) -> (r: Result<Option<i16>, ConvertError>)
        ensures
            match r {
                Ok(None) => value@ is Nil,
                Ok(Some(x)) => value@.as_i16() == Some(x),
                Err(e) => !(value@ is Nil) && value@.as_i16() is None && e.reports(
                    value@,
                    "i16"@,
                ),
            },
    {
        match value {
            Value::Nil => Ok(None),
            _ => match i16::try_from(value) {
                Ok(x) => Ok(Some(x)),
                Err(e) => Err(e),
            },
        }
    }
}

impl<'a> TryFromSpecImpl<&'a Value> for Option<i16> {
    open spec fn obeys_try_from_spec() -> bool {
        false
    }

    open spec fn try_from_spec(value: &'a Value) -> Result<Option<i16>, ConvertError> {
        match *value {
            Value::Nil => Ok(None),
            Value::Tinyint(v) => Ok(Some(v as i16)),
            Value::Smallint(v) => Ok(Some(v)),
            _ => Err(arbitrary()),
        }
    }
}

impl<'a> TryFrom<&'a Value> for i32 {
    type Error = ConvertError;

    /// A 32-bit integer is accepted from `Tinyint`, `Smallint` and `Int`.
    fn try_from(value: &'a Value) -> (r: Result<i32, ConvertError>)
        ensures
            match r {
                Ok(x) => value@.as_i32() == Some(x),
                Err(e) => value@.as_i32() is None && e.reports(value@, "i32"@),
            },
    {
        match value {
            Value::Tinyint(v) => Ok(*v as i32),
            Value::Smallint(v) => Ok(*v as i32),
            Value::Int(v) => Ok(*v),
            _ => Err(ConvertError::not_supported(value.get_type_name(), "i32")),
        }
    }
}

impl<'a> TryFromSpecImpl<&'a Value> for i32 {
    open spec fn obeys_try_from_spec() -> bool {
        false
    }

    open spec fn try_from_spec(value: &'a Value) -> Result<i32, ConvertError> {
        match *value {
            Value::Tinyint(v) => Ok(v as i32),
            Value::Smallint(v) => Ok(v as i32),
            Value::Int(v) => Ok(v),
            _ => Err(arbitrary()),
        }
    }
}

impl<'a> TryFrom<&'a Value> for Option<i32> {
    type Error = ConvertError;

    /// `Nil` is read as `None`; any other value converts as for `i32`.
    fn try_from(value: &'a Value) -> (r: Result<Option<i32>, ConvertError>)
        ensures
            match r {
                Ok(None) => value@ is Nil,
                Ok(Some(x)) => value@.as_i32() == Some(x),
                Err(e) => !(value@ is Nil) && value@.as_i32() is None && e.reports(
                    value@,
                    "i32"@,
                ),
            },
    {
        match value {
            Value::Nil => Ok(None),
            _ => match i32::try_from(value) {
                Ok(x) => Ok(Some(x)),
                Err(e) => Err(e),
            },
        }
    }
}

impl<'a> TryFromSpecImpl<&'a Value> for Option<i32> {
    open spec fn obeys_try_from_spec() -> bool {
        false
    }

    open spec fn try_from_spec(value: &'a Value) -> Result<Option<i32>, ConvertError> {
        match *value {
            Value::Nil => Ok(None),
            Value::Tinyint(v) => Ok(Some(v as i32)),
            Value::Smallint(v) => Ok(Some(v as i32)),
            Value::Int(v) => Ok(Some(v)),
            _ => Err(arbitrary()),
        }
    }
}

impl<'a> TryFrom<&'a Value> for i64 {
    type Error = ConvertError;

    /// A 64-bit integer is accepted from every integer variant.
    fn try_from(value: &'a Value) -> (r: Result<i64, ConvertError>)
        ensures
            match r {
                Ok(x) => value@.as_i64() == Some(x),
                Err(e) => value@.as_i64() is None && e.reports(value@, "i64"@),
            },
    {
        match value {
            Value::Tinyint(v) => Ok(*v as i64),
            Value::Smallint(v) => Ok(*v as i64),
            Value::Int(v) => Ok(*v as i64),
            Value::Bigint(v) => Ok(*v),
            _ => Err(ConvertError::not_supported(value.get_type_name(), "i64")),
        }
    }
}

impl<'a> TryFromSpecImpl<&'a Value> for i64 {
    open spec fn obeys_try_from_spec() -> bool {
        false
    }

    open spec fn try_from_spec(value: &'a Value) -> Result<i64, ConvertError> {
        match *value {
            Value::Tinyint(v) => Ok(v as i64),
            Value::Smallint(v) => Ok(v as i64),
            Value::Int(v) => Ok(v as i64),
            Value::Bigint(v) => Ok(v),
            _ => Err(arbitrary()),
        }
    }
}

impl<'a> TryFrom<&'a Value> for Option<i64> {
    type Error = ConvertError;

    /// `Nil` is read as `None`; any other value converts as for `i64`.
    fn try_from(value: &'a Value) -> (r: Result<Option<i64>, ConvertError>)
        ensures
            match r {
                Ok(None) => value@ is Nil,
                Ok(Some(x)) => value@.as_i64() == Some(x),
                Err(e) => !(value@ is Nil) && value@.as_i64() is None && e.reports(
                    value@,
                    "i64"@,
                ),
            },
    {
        match value {
            Value::Nil => Ok(None),
            _ => match i64::try_from(value) {
                Ok(x) => Ok(Some(x)),
                Err(e) => Err(e),
            },
        }
    }
}

impl<'a> TryFromSpecImpl<&'a Value> for Option<i64> {
    open spec fn obeys_try_from_spec() -> bool {
        false
    }

    open spec fn try_from_spec(value: &'a Value) -> Result<Option<i64>, ConvertError> {
        match *value {
            Value::Nil => Ok(None),
            Value::Tinyint(v) => Ok(Some(v as i64)),
            Value::Smallint(v) => Ok(Some(v as i64)),
            Value::Int(v) => Ok(Some(v as i64)),
            Value::Bigint(v) => Ok(Some(v)),
            _ => Err(arbitrary()),
        }
    }
}

impl<'a> TryFrom<&'a Value> for Float32 {
    type Error = ConvertError;

    /// A single-precision number is accepted from `Float` alone.
    fn try_from(value: &'a Value) -> (r: Result<Float32, ConvertError>)
        ensures
            match r {
                Ok(x) => value@.as_float32() == Some(x),
                Err(e) => value@.as_float32() is None && e.reports(value@, "f32"@),
            },
    {
        match value {
            Value::Float(v) => Ok(*v),
            _ => Err(ConvertError::not_supported(value.get_type_name(), "f32")),
        }
    }
}

impl<'a> TryFromSpecImpl<&'a Value> for Float32 {
    open spec fn obeys_try_from_spec() -> bool {
        false
    }

    open spec fn try_from_spec(value: &'a Value) -> Result<Float32, ConvertError> {
        match *value {
            Value::Float(v) => Ok(v),
            _ => Err(arbitrary()),
        }
    }
}

impl<'a> TryFrom<&'a Value> for Option<Float32> {
    type Error = ConvertError;

    /// `Nil` is read as `None`; any other value converts as for `f32`.
    fn try_from(value: &'a Value) -> (r: Result<Option<Float32>, ConvertError>)
        ensures
            match r {
                Ok(None) => value@ is Nil,
                Ok(Some(x)) => value@.as_float32() == Some(x),
                Err(e) => !(value@ is Nil) && value@.as_float32() is None && e.reports(
                    value@,
                    "f32"@,
                ),
            },
    {
        match value {
            Value::Nil => Ok(None),
            _ => match Float32::try_from(value) {
                Ok(x) => Ok(Some(x)),
                Err(e) => Err(e),
            },
        }
    }
}

impl<'a> TryFromSpecImpl<&'a Value> for Option<Float32> {
    open spec fn obeys_try_from_spec() -> bool {
        false
    }

    open spec fn try_from_spec(value: &'a Value) -> Result<Option<Float32>, ConvertError> {
        match *value {
            Value::Nil => Ok(None),
            Value::Float(v) => Ok(Some(v)),
            _ => Err(arbitrary()),
        }
    }
}

impl<'a> TryFrom<&'a Value> for Float64 {
    type Error = ConvertError;

    /// A double-precision number is accepted from `Float`, which is widened
    /// exactly, and from `Double`.
    fn try_from(value: &'a Value) -> (r: Result<Float64, ConvertError>)
        ensures
            match r {
                Ok(x) => value@.as_float64() == Some(x),
                Err(e) => value@.as_float64() is None && e.reports(value@, "f64"@),
            },
    {
        match value {
            Value::Float(v) => Ok(v.widen()),
            Value::Double(v) => Ok(*v),
            _ => Err(ConvertError::not_supported(value.get_type_name(), "f64")),
        }
    }
}

impl<'a> TryFromSpecImpl<&'a Value> for Float64 {
    open spec fn obeys_try_from_spec() -> bool {
        false
    }

    open spec fn try_from_spec(value: &'a Value) -> Result<Float64, ConvertError> {
        match *value {
            Value::Float(v) => Ok(v.widen_spec()),
            Value::Double(v) => Ok(v),
            _ => Err(arbitrary()),
        }
    }
}

impl<'a> TryFrom<&'a Value> for Option<Float64> {
    type Error = ConvertError;

    /// `Nil` is read as `None`; any other value converts as for `f64`.
    fn try_from(value: &'a Value) -> (r: Result<Option<Float64>, ConvertError>)
        ensures
            match r {
                Ok(None) => value@ is Nil,
                Ok(Some(x)) => value@.as_float64() == Some(x),
                Err(e) => !(value@ is Nil) && value@.as_float64() is None && e.reports(
                    value@,
                    "f64"@,
                ),
            },
    {
        match value {
            Value::Nil => Ok(None),
            _ => match Float64::try_from(value) {
                Ok(x) => Ok(Some(x)),
                Err(e) => Err(e),
            },
        }
    }
}

impl<'a> TryFromSpecImpl<&'a Value> for Option<Float64> {
    open spec fn obeys_try_from_spec() -> bool {
        false
    }

    open spec fn try_from_spec(value: &'a Value) -> Result<Option<Float64>, ConvertError> {
        match *value {
            Value::Nil => Ok(None),
            Value::Float(v) => Ok(Some(v.widen_spec())),
            Value::Double(v) => Ok(Some(v)),
            _ => Err(arbitrary()),
        }
    }
}

impl<'a> TryFrom<&'a Value> for Vec<u8> {
    type Error = ConvertError;

    /// Bytes are accepted from `Blob` alone.
    fn try_from(value: &'a Value) -> (r: Result<Vec<u8>, ConvertError>)
        ensures
            match r {
                Ok(x) => value@.as_blob() == Some(x@),
                Err(e) => value@.as_blob() is None && e.reports(value@, "Vec<u8>"@),
            },
    {
        match value {
            Value::Blob(v) => Ok(v.clone()),
            _ => Err(ConvertError::not_supported(value.get_type_name(), "Vec<u8>")),
        }
    }
}

impl<'a> TryFromSpecImpl<&'a Value> for Vec<u8> {
    open spec fn obeys_try_from_spec() -> bool {
        false
    }

    open spec fn try_from_spec(value: &'a Value) -> Result<Vec<u8>, ConvertError> {
        match *value {
            Value::Blob(v) => Ok(v),
            _ => Err(arbitrary()),
        }
    }
}

impl<'a> TryFrom<&'a Value> for Option<Vec<u8>> {
    type Error = ConvertError;

    /// `Nil` is read as `None`; any other value converts as for `Vec<u8>`.
    fn try_from(value: &'a Value) -> (r: Result<Option<Vec<u8>>, ConvertError>)
        ensures
            match r {
                Ok(None) => value@ is Nil,
                Ok(Some(x)) => value@.as_blob() == Some(x@),
                Err(e) => !(value@ is Nil) && value@.as_blob() is None && e.reports(
                    value@,
                    "Vec<u8>"@,
                ),
            },
    {
        match value {
            Value::Nil => Ok(None),
            _ => match Vec::<u8>::try_from(value) {
                Ok(x) => Ok(Some(x)),
                Err(e) => Err(e),
            },
        }
    }
}

impl<'a> TryFromSpecImpl<&'a Value> for Option<Vec<u8>> {
    open spec fn obeys_try_from_spec() -> bool {
        false
    }

    open spec fn try_from_spec(value: &'a Value) -> Result<Option<Vec<u8>>, ConvertError> {
        match *value {
            Value::Nil => Ok(None),
            Value::Blob(v) => Ok(Some(v)),
            _ => Err(arbitrary()),
        }
    }
}

impl<'a> TryFrom<&'a Value> for String {
    type Error = ConvertError;

    /// Owned text is accepted from `Text` alone.
    fn try_from(value: &'a Value) -> (r: Result<String, ConvertError>)
        ensures
            match r {
                Ok(x) => value@.as_text() == Some(x@),
                Err(e) => value@.as_text() is None && e.reports(value@, "String"@),
            },
    {
        match value {
            Value::Text(v) => Ok(v.clone()),
            _ => Err(ConvertError::not_supported(value.get_type_name(), "String")),
        }
    }
}

impl<'a> TryFromSpecImpl<&'a Value> for String {
    open spec fn obeys_try_from_spec() -> bool {
        false
    }

    open spec fn try_from_spec(value: &'a Value) -> Result<String, ConvertError> {
        match *value {
            Value::Text(v) => Ok(v),
            _ => Err(arbitrary()),
        }
    }
}

impl<'a> TryFrom<&'a Value> for Option<String> {
    type Error = ConvertError;

    /// `Nil` is read as `None`; any other value converts as for `String`.
    fn try_from(value: &'a Value) -> (r: Result<Option<String>, ConvertError>)
        ensures
            match r {
                Ok(None) => value@ is Nil,
                Ok(Some(x)) => value@.as_text() == Some(x@),
                Err(e) => !(value@ is Nil) && value@.as_text() is None && e.reports(
                    value@,
                    "String"@,
                ),
            },
    {
        match value {
            Value::Nil => Ok(None),
            _ => match String::try_from(value) {
                Ok(x) => Ok(Some(x)),
                Err(e) => Err(e),
            },
        }
    }
}

impl<'a> TryFromSpecImpl<&'a Value> for Option<String> {
    open spec fn obeys_try_from_spec() -> bool {
        false
    }

    open spec fn try_from_spec(value: &'a Value) -> Result<Option<String>, ConvertError> {
        match *value {
            Value::Nil => Ok(None),
            Value::Text(v) => Ok(Some(v)),
            _ => Err(arbitrary()),
        }
    }
}

impl<'a> TryFrom<&'a Value> for &'static str {
    type Error = ConvertError;

    /// Process-lifetime text is accepted from `Str` alone.
    fn try_from(value: &'a Value) -> (r: Result<&'static str, ConvertError>)
        ensures
            match r {
                Ok(x) => value@.as_static_str() == Some(x@),
                Err(e) => value@.as_static_str() is None && e.reports(value@, "&'static str"@),
            },
    {
        match value {
            Value::Str(v) => Ok(*v),
            _ => Err(ConvertError::not_supported(value.get_type_name(), "&'static str")),
        }
    }
}

impl<'a> TryFromSpecImpl<&'a Value> for &'static str {
    open spec fn obeys_try_from_spec() -> bool {
        false
    }

    open spec fn try_from_spec(value: &'a Value) -> Result<&'static str, ConvertError> {
        match *value {
            Value::Str(v) => Ok(v),
            _ => Err(arbitrary()),
        }
    }
}

impl<'a> TryFrom<&'a Value> for Option<&'static str> {
    type Error = ConvertError;

    /// `Nil` is read as `None`; any other value converts as for `&'static str`.
    fn try_from(value: &'a Value) -> (r: Result<Option<&'static str>, ConvertError>)
        ensures
            match r {
                Ok(None) => value@ is Nil,
                Ok(Some(x)) => value@.as_static_str() == Some(x@),
                Err(e) => !(value@ is Nil) && value@.as_static_str() is None && e.reports(
                    value@,
                    "&'static str"@,
                ),
            },
    {
        match value {
            Value::Nil => Ok(None),
            _ => match <&'static str>::try_from(value) {
                Ok(x) => Ok(Some(x)),
                Err(e) => Err(e),
            },
        }
    }
}

impl<'a> TryFromSpecImpl<&'a Value> for Option<&'static str> {
    open spec fn obeys_try_from_spec() -> bool {
        false
    }

    open spec fn try_from_spec(value: &'a Value) -> Result<Option<&'static str>, ConvertError> {
        match *value {
            Value::Nil => Ok(None),
            Value::Str(v) => Ok(Some(v)),
            _ => Err(arbitrary()),
        }
    }
}

impl<'a> TryFrom<&'a Value> for Uuid {
    type Error = ConvertError;

    /// An identifier is accepted from `Uuid` alone.
    fn try_from(value: &'a Value) -> (r: Result<Uuid, ConvertError>)
        ensures
            match r {
                Ok(x) => value@.as_uuid() == Some(x),
                Err(e) => value@.as_uuid() is None && e.reports(value@, "Uuid"@),
            },
    {
        match value {
            Value::Uuid(v) => Ok(*v),
            _ => Err(ConvertError::not_supported(value.get_type_name(), "Uuid")),
        }
    }
}

impl<'a> TryFromSpecImpl<&'a Value> for Uuid {
    open spec fn obeys_try_from_spec() -> bool {
        false
    }

    open spec fn try_from_spec(value: &'a Value) -> Result<Uuid, ConvertError> {
        match *value {
            Value::Uuid(v) => Ok(v),
            _ => Err(arbitrary()),
        }
    }
}

impl<'a> TryFrom<&'a Value> for Option<Uuid> {
    type Error = ConvertError;

    /// `Nil` is read as `None`; any other value converts as for `Uuid`.
    fn try_from(value: &'a Value) -> (r: Result<Option<Uuid>, ConvertError>)
        ensures
            match r {
                Ok(None) => value@ is Nil,
                Ok(Some(x)) => value@.as_uuid() == Some(x),
                Err(e) => !(value@ is Nil) && value@.as_uuid() is None && e.reports(
                    value@,
                    "Uuid"@,
                ),
            },
    {
        match value {
            Value::Nil => Ok(None),
            _ => match Uuid::try_from(value) {
                Ok(x) => Ok(Some(x)),
                Err(e) => Err(e),
            },
        }
    }
}

impl<'a> TryFromSpecImpl<&'a Value> for Option<Uuid> {
    open spec fn obeys_try_from_spec() -> bool {
        false
    }

    open spec fn try_from_spec(value: &'a Value) -> Result<Option<Uuid>, ConvertError> {
        match *value {
            Value::Nil => Ok(None),
            Value::Uuid(v) => Ok(Some(v)),
            _ => Err(arbitrary()),
        }
    }
}

impl<'a> TryFrom<&'a Value> for NaiveDate {
    type Error = ConvertError;

    /// A calendar date is accepted from `Date` alone.
    fn try_from(value: &'a Value) -> (r: Result<NaiveDate, ConvertError>)
        ensures
            match r {
                Ok(x) => value@.as_date() == Some(x),
                Err(e) => value@.as_date() is None && e.reports(value@, "NaiveDate"@),
            },
    {
        match value {
            Value::Date(v) => Ok(*v),
            _ => Err(ConvertError::not_supported(value.get_type_name(), "NaiveDate")),
        }
    }
}

impl<'a> TryFromSpecImpl<&'a Value> for NaiveDate {
    open spec fn obeys_try_from_spec() -> bool {
        false
    }

    open spec fn try_from_spec(value: &'a Value) -> Result<NaiveDate, ConvertError> {
        match *value {
            Value::Date(v) => Ok(v),
            _ => Err(arbitrary()),
        }
    }
}

impl<'a> TryFrom<&'a Value> for Option<NaiveDate> {
    type Error = ConvertError;

    /// `Nil` is read as `None`; any other value converts as for `NaiveDate`.
    fn try_from(value: &'a Value) -> (r: Result<Option<NaiveDate>, ConvertError>)
        ensures
            match r {
                Ok(None) => value@ is Nil,
                Ok(Some(x)) => value@.as_date() == Some(x),
                Err(e) => !(value@ is Nil) && value@.as_date() is None && e.reports(
                    value@,
                    "NaiveDate"@,
                ),
            },
    {
        match value {
            Value::Nil => Ok(None),
            _ => match NaiveDate::try_from(value) {
                Ok(x) => Ok(Some(x)),
                Err(e) => Err(e),
            },
        }
    }
}

impl<'a> TryFromSpecImpl<&'a Value> for Option<NaiveDate> {
    open spec fn obeys_try_from_spec() -> bool {
        false
    }

    open spec fn try_from_spec(value: &'a Value) -> Result<Option<NaiveDate>, ConvertError> {
        match *value {
            Value::Nil => Ok(None),
            Value::Date(v) => Ok(Some(v)),
            _ => Err(arbitrary()),
        }
    }
}

impl<'a> TryFrom<&'a Value> for UtcDateTime {
    type Error = ConvertError;

    /// A timestamp is accepted from `Timestamp` alone.
    fn try_from(value: &'a Value) -> (r: Result<UtcDateTime, ConvertError>)
        ensures
            match r {
                Ok(x) => value@.as_timestamp() == Some(x),
                Err(e) => value@.as_timestamp() is None && e.reports(value@, "DateTime<Utc>"@),
            },
    {
        match value {
            Value::Timestamp(v) => Ok(*v),
            _ => Err(ConvertError::not_supported(value.get_type_name(), "DateTime<Utc>")),
        }
    }
}

impl<'a> TryFromSpecImpl<&'a Value> for UtcDateTime {
    open spec fn obeys_try_from_spec() -> bool {
        false
    }

    open spec fn try_from_spec(value: &'a Value) -> Result<UtcDateTime, ConvertError> {
        match *value {
            Value::Timestamp(v) => Ok(v),
            _ => Err(arbitrary()),
        }
    }
}

impl<'a> TryFrom<&'a Value> for Option<UtcDateTime> {
    type Error = ConvertError;

    /// `Nil` is read as `None`; any other value converts as for `DateTime<Utc>`.
    fn try_from(value: &'a Value) -> (r: Result<Option<UtcDateTime>, ConvertError>)
        ensures
            match r {
                Ok(None) => value@ is Nil,
                Ok(Some(x)) => value@.as_timestamp() == Some(x),
                Err(e) => !(value@ is Nil) && value@.as_timestamp() is None && e.reports(
                    value@,
                    "DateTime<Utc>"@,
                ),
            },
    {
        match value {
            Value::Nil => Ok(None),
            _ => match UtcDateTime::try_from(value) {
                Ok(x) => Ok(Some(x)),
                Err(e) => Err(e),
            },
        }
    }
}

impl<'a> TryFromSpecImpl<&'a Value> for Option<UtcDateTime> {
    open spec fn obeys_try_from_spec() -> bool {
        false
    }

    open spec fn try_from_spec(value: &'a Value) -> Result<Option<UtcDateTime>, ConvertError> {
        match *value {
            Value::Nil => Ok(None),
            Value::Timestamp(v) => Ok(Some(v)),
            _ => Err(arbitrary()),
        }
    }
}

} // verus!
