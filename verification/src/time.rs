//! Points in time, to the millisecond.

use chrono::{DateTime, Datelike, Utc};
use vstd::prelude::*;

verus! {

/// The first millisecond that the calendar can name.
pub const FIRST_MS: i64 = -8_334_601_228_800_000;

/// The last millisecond that the calendar can name.
pub const LAST_MS: i64 = 8_210_266_876_799_999;

/// The calendar can name this millisecond since 1970.
pub open spec fn nameable(ms: int) -> bool {
    FIRST_MS <= ms <= LAST_MS
}

/// A point in time: milliseconds since the start of 1970, in UTC.
#[derive(Debug, Clone, Copy, PartialEq, Eq, Structural)]
pub struct Stamp {
    pub ms: i64,
}

impl Stamp {
    /// The calendar can name this point.
    pub open spec fn wf(&self) -> bool {
        nameable(self.ms as int)
    }

    /// The start of 1970.
    pub fn epoch() -> (r: Stamp)
        ensures
            r == (Stamp { ms: 0 }),
            r.wf(),
    {
        Stamp { ms: 0 }
    }

    /// Milliseconds since 1970.
    pub fn timestamp_millis(&self) -> (r: i64)
        ensures
            r == self.ms,
    {
        self.ms
    }

    /// Whole seconds since 1970, rounded down.
    pub fn timestamp(&self) -> (r: i64)
        requires
            self.wf(),
        ensures
            r == self.ms as int / 1000,
    {
        if self.ms >= 0 {
            self.ms / 1000
        } else {
            let down: i64 = -((-(self.ms + 1)) / 1000) - 1;
            down
        }
    }

    /// Whether this point lies before `other`.
    pub fn before(&self, other: &Stamp) -> (r: bool)
        ensures
            r == (self.ms < other.ms),
    {
        self.ms < other.ms
    }
}

/// The point `ms` milliseconds after the start of 1970, where the calendar can
/// name it. `chrono::DateTime::from_timestamp_millis` decides that: it counts
/// the days from the start of its calendar, the year -262143, to its end, the
/// year 262142.
#[verifier::external_body]
pub(crate) fn calendar_names(ms: i64) -> (r: bool)
    ensures
        r == nameable(ms as int),
{
    DateTime::<Utc>::from_timestamp_millis(ms).is_some()
}

/// The point `ms` milliseconds after the start of 1970. There is none where
/// the calendar cannot name it.
pub fn from_timestamp_millis(ms: i64) -> (r: Option<Stamp>)
    ensures
        r == (if nameable(ms as int) {
            Some(Stamp { ms })
        } else {
            None
        }),
{
    if calendar_names(ms) {
        Some(Stamp { ms })
    } else {
        None
    }
}

/// The point `secs` seconds after the start of 1970. There is none where the
/// calendar cannot name it.
pub fn from_timestamp(secs: i64) -> (r: Option<Stamp>)
    ensures
        r == (if nameable(secs * 1000) {
            Some(Stamp { ms: (secs * 1000) as i64 })
        } else {
            None
        }),
{
    match secs.checked_mul(1000) {
        Some(ms) => from_timestamp_millis(ms),
        None => None,
    }
}

/// The month that the calendar gives the millisecond `ms` since 1970.
pub uninterp spec fn month_of(ms: i64) -> u32;

/// The year that the calendar gives the millisecond `ms` since 1970.
pub uninterp spec fn year_of(ms: i64) -> i32;

/// The month of a point in time, by `chrono::Datelike::month`. It lies between
/// 1 and 12; which one a given millisecond falls into is named, not spelled
/// out.
#[verifier::external_body]
pub(crate) fn calendar_month(at: Stamp) -> (r: u32)
    requires
        at.wf(),
    ensures
        r == month_of(at.ms),
        1 <= r <= 12,
{
    DateTime::<Utc>::from_timestamp_millis(at.ms).expect("a nameable point in time").month()
}

/// The year of a point in time, by `chrono::Datelike::year`. Which one a given
/// millisecond falls into is named, not spelled out.
#[verifier::external_body]
pub(crate) fn calendar_year(at: Stamp) -> (r: i32)
    requires
        at.wf(),
    ensures
        r == year_of(at.ms),
{
    DateTime::<Utc>::from_timestamp_millis(at.ms).expect("a nameable point in time").year()
}

/// The present, by `chrono::Utc::now`. The clock decides which point that is;
/// the calendar can name it, since it came as a calendar date.
#[verifier::external_body]
pub(crate) fn present() -> (r: Stamp)
    ensures
        r.wf(),
{
    Stamp { ms: Utc::now().timestamp_millis() }
}

} // verus!
