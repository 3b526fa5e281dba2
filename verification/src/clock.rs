//! The local time, read from the `chrono` crate.

use chrono::Datelike;
use vstd::prelude::*;

verus! {

/// A moment of local time: the date, and the moment written out in full.
#[derive(Debug)]
pub struct Moment {
    /// Date, time of day and offset from UTC, as `chrono` prints them.
    pub stamp: String,
    /// The year of the date.
    pub year: i32,
    /// The month of the date, counted from 1.
    pub month: u32,
    /// The day of the month, counted from 1.
    pub day: u32,
}

/// `chrono::Local::now`, with the moment it gives taken apart: the date by
/// `Datelike::year`, `month` and `day`, the whole written out by
/// `to_string`. Nothing is proved here. The contract holds the ranges that
/// `Datelike` documents for month and day; which moment comes back is left
/// open.
#[verifier::external_body]
pub(crate) fn local_now() -> (now: Moment)
    ensures
        1 <= now.month <= 12,
        1 <= now.day <= 31,
{
    let now = chrono::Local::now();
    Moment { stamp: now.to_string(), year: now.year(), month: now.month(), day: now.day() }
}

} // verus!
