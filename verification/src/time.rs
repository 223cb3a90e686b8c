//! Points in time and their calendar day in UTC.

use chrono::{DateTime, Datelike};
use vstd::prelude::*;

verus! {

/// A point in time: whole seconds since 1970-01-01 00:00:00 UTC, leap
/// seconds not counted, and the nanoseconds into that second.
#[derive(Clone, Copy, Debug, PartialEq, Eq, Structural)]
pub struct Timestamp {
    pub secs: i64,
    pub nanos: u32,
}

/// The first second of the year -262143, the first year that chrono has
/// dates for.
pub const FIRST_SECOND: i64 = -8_334_601_228_800;

/// The last second of the year 262142, the last year that chrono has dates
/// for.
pub const LAST_SECOND: i64 = 8_210_266_876_799;

/// Days from 0001-01-01 (day 1) to 1970-01-01.
pub const EPOCH_DAY: i64 = 719_163;

/// Whether the second lies in the years that chrono has dates for, the
/// years -262143 to 262142 of the proleptic Gregorian calendar: the span for
/// which the engine tells calendar days.
pub open spec fn supported(secs: i64) -> bool {
    FIRST_SECOND <= secs <= LAST_SECOND
}

/// The UTC calendar day that a second falls on, counted in days since
/// 1970-01-01; `None` outside the supported span.
pub open spec fn day_of(secs: i64) -> Option<int> {
    if supported(secs) {
        Some(secs as int / 86_400)
    } else {
        None
    }
}

/// Calls chrono's `DateTime::from_timestamp` with no nanoseconds and asks the
/// result for `Datelike::num_days_from_ce`. The contract claims what
/// chrono's source shows. It accepts a second exactly where the day it
/// falls on lies in the years -262143 to 262142, which are the seconds from
/// `FIRST_SECOND` to `LAST_SECOND`. It counts that day as the floor of
/// seconds / 86 400, moved by the 719 163 days that lie between 0001-01-01,
/// which it counts as day 1, and 1970-01-01.
#[verifier::external_body]
fn days_from_ce(secs: i64) -> (r: Option<i32>)
    ensures
        r == if supported(secs) {
            Some((secs as int / 86_400 + EPOCH_DAY) as i32)
        } else {
            None::<i32>
        },
{
    match DateTime::from_timestamp(secs, 0) {
        Some(t) => Some(t.num_days_from_ce()),
        None => None,
    }
}

/// The UTC calendar day of a second, in days since 1970-01-01.
pub fn day_number(secs: i64) -> (r: Option<i64>)
    ensures
        match r {
            Some(d) => day_of(secs) == Some(d as int),
            None => day_of(secs) is None,
        },
{
    match days_from_ce(secs) {
        Some(d) => {
            let d: i64 = d as i64;
            Some(d - EPOCH_DAY)
        },
        None => None,
    }
}

/// How chrono writes a point in time in UTC (`Display` of its
/// `DateTime<Utc>`); `None` where it has no such point.
pub uninterp spec fn utc_text(secs: i64, nanos: u32) -> Option<Seq<char>>;

/// Calls chrono's `DateTime::from_timestamp` and writes the result with its
/// `Display`. The contract claims only that the outcome is a function of the
/// two numbers.
#[verifier::external_body]
fn format_utc(secs: i64, nanos: u32) -> (r: Option<String>)
    ensures
        crate::text::optional(r) == utc_text(secs, nanos),
{
    match DateTime::from_timestamp(secs, nanos) {
        Some(t) => Some(t.to_string()),
        None => None,
    }
}

/// The description of the error raised for a point in time that has no
/// calendar day or no written form.
pub open spec fn out_of_range() -> Seq<char> {
    "timestamp out of range"@
}

/// The error for a point in time outside the supported span.
pub fn out_of_range_error() -> (r: crate::failure::TransportError)
    ensures
        r@ == out_of_range(),
{
    crate::failure::TransportError::new(String::from_str("timestamp out of range"))
}

impl Timestamp {
    /// The start of the epoch: what an absent trigger state counts as.
    pub fn epoch() -> (r: Timestamp)
        ensures
            r.secs == 0,
            r.nanos == 0,
    {
        Timestamp { secs: 0, nanos: 0 }
    }

    /// Whether both points fall on the same UTC calendar day; `None` where
    /// either lies outside the supported span.
    pub open spec fn same_day_as(self, other: Timestamp) -> Option<bool> {
        match (day_of(self.secs), day_of(other.secs)) {
            (Some(a), Some(b)) => Some(a == b),
            _ => None,
        }
    }

    /// The point in time as chrono writes it.
    pub fn text(&self) -> (r: Option<String>)
        ensures
            crate::text::optional(r) == utc_text(self.secs, self.nanos),
    {
        format_utc(self.secs, self.nanos)
    }

    /// Tells whether both points fall on the same UTC calendar day.
    pub fn same_day(&self, other: &Timestamp) -> (r: Option<bool>)
        ensures
            r == self.same_day_as(*other),
    {
        match (day_number(self.secs), day_number(other.secs)) {
            (Some(a), Some(b)) => Some(a == b),
            _ => None,
        }
    }
}

} // verus!
