//! Calendar dates of issuance.

use chrono::{DateTime, Datelike, Timelike};
use vstd::prelude::*;

verus! {

/// A calendar date and time of day, without a time zone.
#[derive(Clone, Copy, PartialEq, Eq, Structural, Hash, Debug)]
pub struct CivilDateTime {
    pub year: i32,
    pub month: u32,
    pub day: u32,
    pub hour: u32,
    pub minute: u32,
    pub second: u32,
}

/// Names what `chrono::DateTime::from_timestamp(secs, 0)` gives, by its
/// calendar fields: the date and time of day that lie `secs` whole seconds
/// after midnight of January 1, 1970 in the proleptic Gregorian calendar, or
/// `None` where the calendar of `chrono` does not reach that far.
pub uninterp spec fn civil_from_timestamp(secs: i64) -> Option<CivilDateTime>;

/// Calls `chrono::DateTime::from_timestamp(secs, 0)`, to which
/// `chrono::NaiveDateTime::from_timestamp` hands its arguments on, and reads
/// the calendar fields of the naive date and time that it gives. Trusted:
/// the result is what `civil_from_timestamp` names, `None` where `chrono`
/// reports the number of seconds as out of range.
#[verifier::external_body]
pub(crate) fn date_from_timestamp(secs: i64) -> (r: Option<CivilDateTime>)
    ensures
        r == civil_from_timestamp(secs),
{
    let t = DateTime::from_timestamp(secs, 0)?.naive_utc();
    let (year, month, day) = (t.year(), t.month(), t.day());
    let (hour, minute, second) = (t.hour(), t.minute(), t.second());
    Some(CivilDateTime { year, month, day, hour, minute, second })
}

} // verus!
