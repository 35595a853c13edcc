//! Calendar days and instants as plain integers, and the reading of the
//! system clock.

use vstd::prelude::*;

verus! {

/// A calendar day in UTC, counted in the proleptic Gregorian calendar with
/// 1 January of year 1 as day 1.
#[derive(Clone, Copy, Debug, PartialEq, Eq, Structural)]
pub struct Date {
    pub days_from_ce: i32,
}

/// An instant, in microseconds since 1 January 1970 0:00:00 UTC.
#[derive(Clone, Copy, Debug, PartialEq, Eq, Structural)]
pub struct Timestamp {
    pub micros: i64,
}

/// The current day in UTC, from `chrono::Utc::now`, `DateTime::date_naive`
/// and `Datelike::num_days_from_ce`. Nothing is claimed of the result: it is
/// whatever the system clock says. The call panics only where the system
/// clock stands before 1970.
#[verifier::external_body]
pub(crate) fn utc_today() -> (today: Date) {
    Date { days_from_ce: chrono::Datelike::num_days_from_ce(&chrono::Utc::now().date_naive()) }
}

/// The current instant, from `chrono::Utc::now` and
/// `DateTime::timestamp_micros`. Nothing is claimed of the result: it is
/// whatever the system clock says. The call panics only where the system
/// clock stands before 1970.
#[verifier::external_body]
pub(crate) fn utc_now() -> (now: Timestamp) {
    Timestamp { micros: chrono::Utc::now().timestamp_micros() }
}

} // verus!
