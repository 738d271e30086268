//! What this library takes on trust from other crates and from std.
//!
//! A value carries an identifier, a date or a date and time through
//! unchanged: it is stored, copied and handed back as it came, and nothing
//! here looks inside it. The one operation that is used on such a payload is
//! its equality test; what is assumed of each is written beside it.

use vstd::prelude::*;

verus! {

/// `uuid::Uuid`: a 128-bit identifier.
#[verifier::external_type_specification]
#[verifier::external_body]
pub struct ExUuid(uuid::Uuid);

/// `chrono::NaiveDate`: a calendar date without a time of day.
#[verifier::external_type_specification]
#[verifier::external_body]
pub struct ExNaiveDate(chrono::NaiveDate);

/// `chrono::NaiveDateTime`: a calendar date and a time of day, without a
/// time zone.
#[verifier::external_type_specification]
#[verifier::external_body]
pub struct ExNaiveDateTime(chrono::NaiveDateTime);

/// `<uuid::Uuid as PartialEq>::eq`, written by `derive`: it compares the
/// sixteen bytes, so it holds exactly of an identifier and itself.
pub assume_specification[ <uuid::Uuid as PartialEq>::eq ](a: &uuid::Uuid, b: &uuid::Uuid) -> (r:
    bool)
    ensures
        r == (*a == *b),
;

/// `<chrono::NaiveDate as PartialEq>::eq`, written by `derive`: it compares
/// the one packed field, so it holds exactly of a date and itself.
pub assume_specification[ <chrono::NaiveDate as PartialEq>::eq ](
    a: &chrono::NaiveDate,
    b: &chrono::NaiveDate,
) -> (r: bool)
    ensures
        r == (*a == *b),
;

/// `<chrono::NaiveDateTime as PartialEq>::eq`, written by `derive`: it
/// compares the date and the time of day field by field, so it holds exactly
/// of a date and time and itself.
pub assume_specification[ <chrono::NaiveDateTime as PartialEq>::eq ](
    a: &chrono::NaiveDateTime,
    b: &chrono::NaiveDateTime,
) -> (r: bool)
    ensures
        r == (*a == *b),
;

/// `<str as PartialEq>::eq` of std: two string slices are equal when they
/// hold the same characters in the same order.
pub assume_specification[ <str as PartialEq>::eq ](a: &str, b: &str) -> (r: bool)
    ensures
        r == (a@ == b@),
;

} // verus!
