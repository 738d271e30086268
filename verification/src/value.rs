//! The value type and its mathematical model.

use crate::float::{Float32, Float64};
use crate::timestamp::UtcDateTime;
use chrono::NaiveDate;
use uuid::Uuid;
use vstd::prelude::*;
use vstd::std_specs::cmp::PartialEqSpecImpl;

verus! {

/// One column value of any supported type.
///
/// Every variant fits the same small footprint, so a large result set stays
/// compact whatever it holds. A value is never changed in place: a
/// conversion reads it and produces a new, independently owned result.
#[derive(Debug)]
pub enum Value {
    /// No value: SQL NULL.
    Nil,
    Bool(bool),
    Tinyint(i8),
    Smallint(i16),
    Int(i32),
    Bigint(i64),
    Float(Float32),
    Double(Float64),
    Blob(Vec<u8>),
    Text(String),
    /// Text that lives as long as the process does. The value borrows it and
    /// never owns it.
    Str(&'static str),
    Uuid(Uuid),
    Date(NaiveDate),
    Timestamp(UtcDateTime),
}

/// What a [`Value`] holds, with owned bytes and text as sequences.
pub enum ValueView {
    Nil,
    Bool(bool),
    Tinyint(i8),
    Smallint(i16),
    Int(i32),
    Bigint(i64),
    Float(Float32),
    Double(Float64),
    Blob(Seq<u8>),
    Text(Seq<char>),
    Str(Seq<char>),
    Uuid(Uuid),
    Date(NaiveDate),
    Timestamp(UtcDateTime),
}

impl View for Value {
    type V = ValueView;

    open spec fn view(&self) -> ValueView {
        match *self {
            Value::Nil => ValueView::Nil,
            Value::Bool(v) => ValueView::Bool(v),
            Value::Tinyint(v) => ValueView::Tinyint(v),
            Value::Smallint(v) => ValueView::Smallint(v),
            Value::Int(v) => ValueView::Int(v),
            Value::Bigint(v) => ValueView::Bigint(v),
            Value::Float(v) => ValueView::Float(v),
            Value::Double(v) => ValueView::Double(v),
            Value::Blob(v) => ValueView::Blob(v@),
            Value::Text(v) => ValueView::Text(v@),
            Value::Str(v) => ValueView::Str(v@),
            Value::Uuid(v) => ValueView::Uuid(v),
            Value::Date(v) => ValueView::Date(v),
            Value::Timestamp(v) => ValueView::Timestamp(v),
        }
    }
}

impl ValueView {
    /// The fixed label of the stored type. It depends on the variant alone.
    pub open spec fn label(self) -> Seq<char> {
        match self {
            ValueView::Nil => "Nil"@,
            ValueView::Bool(_) => "bool"@,
            ValueView::Tinyint(_) => "i8"@,
            ValueView::Smallint(_) => "i16"@,
            ValueView::Int(_) => "i32"@,
            ValueView::Bigint(_) => "i64"@,
            ValueView::Float(_) => "f32"@,
            ValueView::Double(_) => "f64"@,
            ValueView::Blob(_) => "Vec<u8>"@,
            ValueView::Text(_) => "String"@,
            ValueView::Str(_) => "&'static str"@,
            ValueView::Uuid(_) => "Uuid"@,
            ValueView::Date(_) => "NaiveDate"@,
            ValueView::Timestamp(_) => "DateTime"@,
        }
    }

    /// Whether two values hold the same variant, whatever the content.
    pub open spec fn same_variant(self, other: ValueView) -> bool {
        match (self, other) {
            (ValueView::Nil, ValueView::Nil) => true,
            (ValueView::Bool(_), ValueView::Bool(_)) => true,
            (ValueView::Tinyint(_), ValueView::Tinyint(_)) => true,
            (ValueView::Smallint(_), ValueView::Smallint(_)) => true,
            (ValueView::Int(_), ValueView::Int(_)) => true,
            (ValueView::Bigint(_), ValueView::Bigint(_)) => true,
            (ValueView::Float(_), ValueView::Float(_)) => true,
            (ValueView::Double(_), ValueView::Double(_)) => true,
            (ValueView::Blob(_), ValueView::Blob(_)) => true,
            (ValueView::Text(_), ValueView::Text(_)) => true,
            (ValueView::Str(_), ValueView::Str(_)) => true,
            (ValueView::Uuid(_), ValueView::Uuid(_)) => true,
            (ValueView::Date(_), ValueView::Date(_)) => true,
            (ValueView::Timestamp(_), ValueView::Timestamp(_)) => true,
            _ => false,
        }
    }

    /// Whether the value is a floating-point NaN.
    pub open spec fn holds_nan(self) -> bool {
        match self {
            ValueView::Float(x) => x.spec_is_nan(),
            ValueView::Double(x) => x.spec_is_nan(),
            _ => false,
        }
    }

    /// Whether two values compare equal: they hold the same variant and
    /// equal content. Floating-point content is compared as IEEE 754 says,
    /// so a NaN equals nothing and the two zeros are equal.
    pub open spec fn same_as(self, other: ValueView) -> bool {
        match (self, other) {
            (ValueView::Float(a), ValueView::Float(b)) => a.ieee_eq(b),
            (ValueView::Double(a), ValueView::Double(b)) => a.ieee_eq(b),
            _ => self == other,
        }
    }

    /// The width in bits of a stored integer; `None` for every other
    /// variant.
    pub open spec fn integer_width(self) -> Option<nat> {
        match self {
            ValueView::Tinyint(_) => Some(8),
            ValueView::Smallint(_) => Some(16),
            ValueView::Int(_) => Some(32),
            ValueView::Bigint(_) => Some(64),
            _ => None,
        }
    }

    /// The number that a stored integer stands for; `None` for every other
    /// variant.
    pub open spec fn integer(self) -> Option<int> {
        match self {
            ValueView::Tinyint(v) => Some(v as int),
            ValueView::Smallint(v) => Some(v as int),
            ValueView::Int(v) => Some(v as int),
            ValueView::Bigint(v) => Some(v as int),
            _ => None,
        }
    }
}

impl Value {
    /// The fixed label of the stored type, for diagnostics.
    pub fn get_type_name(&self) -> (name: &'static str)
        ensures
            name@ == self@.label(),
    {
        match *self {
            Value::Nil => "Nil",
            Value::Bool(_) => "bool",
            Value::Tinyint(_) => "i8",
            Value::Smallint(_) => "i16",
            Value::Int(_) => "i32",
            Value::Bigint(_) => "i64",
            Value::Float(_) => "f32",
            Value::Double(_) => "f64",
            Value::Blob(_) => "Vec<u8>",
            Value::Text(_) => "String",
            Value::Str(_) => "&'static str",
            Value::Uuid(_) => "Uuid",
            Value::Date(_) => "NaiveDate",
            Value::Timestamp(_) => "DateTime",
        }
    }
}

impl PartialEq for Value {
    /// Same variant and equal content; see [`ValueView::same_as`].
    fn eq(&self, other: &Value) -> (equal: bool) {
        match (self, other) {
            (Value::Nil, Value::Nil) => true,
            (Value::Bool(a), Value::Bool(b)) => *a == *b,
            (Value::Tinyint(a), Value::Tinyint(b)) => *a == *b,
            (Value::Smallint(a), Value::Smallint(b)) => *a == *b,
            (Value::Int(a), Value::Int(b)) => *a == *b,
            (Value::Bigint(a), Value::Bigint(b)) => *a == *b,
            (Value::Float(a), Value::Float(b)) => *a == *b,
            (Value::Double(a), Value::Double(b)) => *a == *b,
            (Value::Blob(a), Value::Blob(b)) => {
                let equal = *a == *b;
                // equal length and equal bytes at every index: the same sequence
                assert(equal == (a@ =~= b@));
                equal
            },
            (Value::Text(a), Value::Text(b)) => *a == *b,
            (Value::Str(a), Value::Str(b)) => **a == **b,
            (Value::Uuid(a), Value::Uuid(b)) => *a == *b,
            (Value::Date(a), Value::Date(b)) => *a == *b,
            (Value::Timestamp(a), Value::Timestamp(b)) => *a == *b,
            _ => false,
        }
    }
}

impl PartialEqSpecImpl for Value {
    open spec fn obeys_eq_spec() -> bool {
        true
    }

    open spec fn eq_spec(&self, other: &Value) -> bool {
        self@.same_as(other@)
    }
}

impl Clone for Value {
    /// A copy that holds the same variant and the same content.
    fn clone(&self) -> (copy: Value)
        ensures
            copy@ == self@,
    {
        match self {
            Value::Nil => Value::Nil,
            Value::Bool(v) => Value::Bool(*v),
            Value::Tinyint(v) => Value::Tinyint(*v),
            Value::Smallint(v) => Value::Smallint(*v),
            Value::Int(v) => Value::Int(*v),
            Value::Bigint(v) => Value::Bigint(*v),
            Value::Float(v) => Value::Float(*v),
            Value::Double(v) => Value::Double(*v),
            Value::Blob(v) => Value::Blob(v.clone()),
            Value::Text(v) => Value::Text(v.clone()),
            Value::Str(v) => Value::Str(*v),
            Value::Uuid(v) => Value::Uuid(*v),
            Value::Date(v) => Value::Date(*v),
            Value::Timestamp(v) => Value::Timestamp(*v),
        }
    }
}

/// The label tells the stored type: two values with the same label hold the
/// same variant, and two values of the same variant have the same label.
pub proof fn lemma_label_tells_the_variant(a: ValueView, b: ValueView)
    ensures
        a.label() == b.label() <==> a.same_variant(b),
{
    reveal_strlit("Nil");
    reveal_strlit("bool");
    reveal_strlit("i8");
    reveal_strlit("i16");
    reveal_strlit("i32");
    reveal_strlit("i64");
    reveal_strlit("f32");
    reveal_strlit("f64");
    reveal_strlit("Vec<u8>");
    reveal_strlit("String");
    reveal_strlit("&'static str");
    reveal_strlit("Uuid");
    reveal_strlit("NaiveDate");
    reveal_strlit("DateTime");
    if a.label() == b.label() {
        assert(a.label().len() == b.label().len());
        assert(a.label()[0] == b.label()[0]);
        assert(a.label()[1] == b.label()[1]);
    }
}

/// Equality of values does not depend on the order of the two sides.
pub proof fn lemma_equality_is_symmetric(a: ValueView, b: ValueView)
    ensures
        a.same_as(b) == b.same_as(a),
{
}

/// Two values that both equal a third are equal.
pub proof fn lemma_equality_is_transitive(a: ValueView, b: ValueView, c: ValueView)
    requires
        a.same_as(b),
        b.same_as(c),
    ensures
        a.same_as(c),
{
}

/// A value equals itself, unless it is a NaN. Equal values hold the same
/// variant.
pub proof fn lemma_equality_is_reflexive(a: ValueView, b: ValueView)
    ensures
        a.same_as(a) <==> !a.holds_nan(),
        a.same_as(b) ==> a.same_variant(b),
{
}

} // verus!
