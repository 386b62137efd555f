//! The machine's local calendar context. The one outside call is to
//! chrono; everything downstream takes the returned plain values.

use vstd::prelude::*;
use crate::types::{Date, TzOffset};
use chrono::Datelike;
use chrono::Offset;

verus! {

/// Relies on chrono::offset::Local::now and the chrono::Datelike
/// accessors: month runs from 1 to 12 and day from 1 to 31, and a
/// chrono::FixedOffset always holds strictly less than one day's worth
/// of seconds, of either sign.
#[verifier::external_body]
fn local_now_raw() -> (r: (i64, u64, u64, i64))
    ensures
        1 <= r.1 <= 12,
        1 <= r.2 <= 31,
        -86400 < r.3 < 86400,
{
    let now = chrono::Local::now();
    let date = now.date_naive();
    (
        date.year() as i64,
        date.month() as u64,
        date.day() as u64,
        now.offset().fix().local_minus_utc() as i64,
    )
}

/// The machine's current local date. A clock set before the common era
/// is reported as year zero.
pub fn local_today() -> (r: Date)
    ensures
        r.valid(),
{
    let (year, month, day, _) = local_now_raw();
    let year_clamped: u64 = if year < 0 {
        0
    } else {
        year as u64
    };
    Date { year: year_clamped, month, day }
}

/// The machine's current local date together with its UTC offset,
/// for stamping program-guide records.
pub fn local_day_context() -> (r: (Date, TzOffset))
    ensures
        r.0.valid(),
        r.1.valid(),
{
    let (year, month, day, offset_secs) = local_now_raw();
    let year_clamped: u64 = if year < 0 {
        0
    } else {
        year as u64
    };
    let west = offset_secs < 0;
    let abs_secs: u64 = if offset_secs < 0 {
        (-offset_secs) as u64
    } else {
        offset_secs as u64
    };
    (Date { year: year_clamped, month, day }, TzOffset { west, minutes: abs_secs / 60 })
}

} // verus!
