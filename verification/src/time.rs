//! Calendar days and instants as plain integers.
//!
//! A [`Day`] is a date of the proleptic Gregorian calendar, counted as chrono
//! counts it: day 1 is January 1 of year 1. An instant is a number of seconds
//! since the Unix epoch.
use vstd::prelude::*;
use chrono::Datelike;

verus! {

/// The first day chrono can represent (January 1, -262143).
pub const FIRST_DAY: i32 = -95746129;

/// The last day chrono can represent (December 31, 262142).
pub const LAST_DAY: i32 = 95745399;

/// A calendar date, held as its day number.
#[derive(Debug, Clone, Copy, PartialEq, Eq, Structural)]
pub struct Day {
    days: i32,
}

/// The text chrono writes for the date with the given day number
/// (`NaiveDate`'s `Display`, `%Y-%m-%d`).
pub uninterp spec fn ymd_text(days: int) -> Seq<char>;

/// The day number of the date that `NaiveDate::parse_from_str(s, "%Y-%m-%d")`
/// reads from `s`, or `None` where it fails.
pub uninterp spec fn parsed_ymd(s: Seq<char>) -> Option<int>;

impl Day {
    #[verifier::type_invariant]
    spec fn in_range(self) -> bool {
        FIRST_DAY <= self.days <= LAST_DAY
    }

    /// The day number.
    pub closed spec fn spec_days(self) -> int {
        self.days as int
    }

    /// The day number (day 1 is January 1 of year 1).
    pub fn days(&self) -> (r: i32)
        ensures
            r == self.spec_days(),
            FIRST_DAY <= r <= LAST_DAY,
    {
        proof {
            use_type_invariant(self);
        }
        self.days
    }

    /// The date with day number `days`, where chrono can represent it.
    pub fn from_days(days: i32) -> (r: Option<Day>)
        ensures
            r matches Some(d) ==> d.spec_days() == days,
            r is None <==> !(FIRST_DAY <= days <= LAST_DAY),
    {
        if FIRST_DAY <= days && days <= LAST_DAY {
            Some(Day { days })
        } else {
            None
        }
    }
}

/// Calls `chrono::NaiveDate::parse_from_str(s, "%Y-%m-%d")`; the contract
/// claims that the day number of the date read, or the failure, is the named
/// parse of `s`.
#[verifier::external_body]
pub(crate) fn parse_ymd(s: &str) -> (r: Option<Day>)
    ensures
        match r {
            Some(d) => parsed_ymd(s@) == Some(d.spec_days()),
            None => parsed_ymd(s@) is None,
        },
{
    chrono::NaiveDate::parse_from_str(s, "%Y-%m-%d").ok().map(|d| Day { days: d.num_days_from_ce() })
}

/// Calls `chrono::NaiveDate`'s `to_string` on the date; the contract claims
/// that the text is the named rendering of the day number.
#[verifier::external_body]
pub(crate) fn format_ymd(d: Day) -> (r: String)
    ensures
        r@ == ymd_text(d.spec_days()),
{
    chrono::NaiveDate::from_num_days_from_ce_opt(d.days).unwrap_or_default().to_string()
}

/// Day number of January 1, 1970, the day the Unix epoch falls on.
pub const UNIX_EPOCH_DAY: i32 = 719163;

/// Calls `std::time::UNIX_EPOCH.elapsed()`: the nanoseconds the system
/// clock reads since the Unix epoch, or `None` when it reads an earlier time.
/// It depends on the clock, so nothing more is claimed of it.
#[verifier::external_body]
fn clock_nanos() -> (r: Option<u128>) {
    std::time::UNIX_EPOCH.elapsed().ok().map(|d| d.as_nanos())
}

/// The current instant in nanoseconds since the Unix epoch, or `None` when
/// the clock reads before the epoch (or beyond `i64`); it depends on the
/// clock, so what is known of every reading is that it is not negative.
pub(crate) fn now_unix_nanos() -> (r: Option<i64>)
    ensures
        r matches Some(t) ==> t >= 0,
{
    match clock_nanos() {
        Some(n) => {
            if n <= i64::MAX as u128 {
                Some(n as i64)
            } else {
                None
            }
        },
        None => None,
    }
}

/// The error for a system clock that cannot be read as an instant since the
/// Unix epoch.
pub fn clock_unavailable() -> (e: crate::error::MaleeError)
    ensures
        e matches crate::error::MaleeError::Validation(m) && m@
            == "System clock is set before the Unix epoch"@,
{
    crate::error::MaleeError::Validation(String::from_str("System clock is set before the Unix epoch"))
}

/// The current instant in whole seconds since the Unix epoch, or `None` when
/// the clock reads before the epoch (or beyond `i64`); it depends on the
/// clock, so what is known of every reading is that it is not negative.
pub(crate) fn now_unix_seconds() -> (r: Option<i64>)
    ensures
        r matches Some(t) ==> t >= 0,
{
    match clock_nanos() {
        Some(n) => {
            let s = n / 1_000_000_000;
            if s <= i64::MAX as u128 {
                Some(s as i64)
            } else {
                None
            }
        },
        None => None,
    }
}

/// The date (UTC) of the instant `secs` seconds after the Unix epoch, where
/// chrono can represent it.
pub fn day_of_unix_secs(secs: u64) -> (r: Option<Day>)
    ensures
        match r {
            Some(d) => d.spec_days() == secs / 86400 + UNIX_EPOCH_DAY,
            None => secs / 86400 + UNIX_EPOCH_DAY > LAST_DAY,
        },
{
    let q = secs / 86400;
    if q <= (LAST_DAY - UNIX_EPOCH_DAY) as u64 {
        Day::from_days(q as i32 + UNIX_EPOCH_DAY)
    } else {
        None
    }
}

/// Today's date in UTC, or `None` when the clock cannot be read; it depends
/// on the clock, so what is known is that it is a date.
pub(crate) fn today_utc() -> (r: Option<Day>) {
    match now_unix_seconds() {
        Some(t) => day_of_unix_secs(t as u64),
        None => None,
    }
}

/// Seconds since the Unix epoch for a timestamp `t`, 0 before the epoch.
pub(crate) fn unsigned_secs(t: i64) -> (r: u64)
    ensures
        r == (if t < 0 {
            0
        } else {
            t as int
        }),
{
    if t < 0 {
        0
    } else {
        t as u64
    }
}

/// The current instant in whole seconds since the Unix epoch, 0 when the
/// clock cannot be read; it depends on the clock, so what is known of every
/// reading is that it is never above `i64::MAX`.
pub(crate) fn now_unix_secs() -> (r: u64)
    ensures
        r <= i64::MAX,
{
    match now_unix_seconds() {
        Some(t) => unsigned_secs(t),
        None => 0,
    }
}

} // verus!
