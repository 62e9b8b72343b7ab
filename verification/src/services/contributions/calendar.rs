//! UTC calendar dates of Unix instants.
use vstd::prelude::*;
use crate::services::contributions::{date_text, padded, zero_pad, format_date};
use crate::text::decimal;

verus! {

/// Days from 1970-01-01 to the given proleptic Gregorian date (year `y`,
/// month `m` from 1, day `d` from 1), counting in 400-year eras of 146097
/// days whose years start on March 1.
pub open spec fn days_from_civil(y: int, m: int, d: int) -> int {
    let yy = if m <= 2 {
        y - 1
    } else {
        y
    };
    let era = yy / 400;
    let yoe = yy - era * 400;
    let mp = if m > 2 {
        m - 3
    } else {
        m + 9
    };
    let doy = (153 * mp + 2) / 5 + d - 1;
    let doe = yoe * 365 + yoe / 4 - yoe / 100 + doy;
    era * 146097 + doe - 719468
}

/// Whether `y` is a leap year.
pub open spec fn is_leap(y: int) -> bool {
    y % 4 == 0 && (y % 100 != 0 || y % 400 == 0)
}

/// The number of days of month `m` of year `y`.
pub open spec fn month_days(y: int, m: int) -> int {
    if m == 2 {
        if is_leap(y) {
            29
        } else {
            28
        }
    } else if m == 4 || m == 6 || m == 9 || m == 11 {
        30
    } else {
        31
    }
}

/// The year of the era that day `doe` of a 400-year era falls in (years
/// start on March 1), and the day of that year, are in range.
proof fn lemma_year_of_era(doe: int)
    requires
        0 <= doe < 146097,
    ensures
        ({
            let yoe = (doe - doe / 1460 + doe / 36524 - doe / 146096) / 365;
            &&& 0 <= yoe < 400
            &&& 0 <= doe - (365 * yoe + yoe / 4 - yoe / 100) <= 365
        }),
{
    let f = doe / 1460;
    let c = doe / 36524;
    let e = doe / 146096;
    let n = doe - f + c - e;
    let yoe = n / 365;
    assert(0 <= c <= 4);
    assert(0 <= e <= 1);
    assert(0 <= yoe < 400);
    let y4 = yoe / 4;
    let y100 = yoe / 100;
    assert(365 * yoe <= n < 365 * yoe + 365);
    assert(0 <= doe - (365 * yoe + y4 - y100) <= 365);
}

/// Only the year before a leap day has a 366th day.
proof fn lemma_leap_day(doe: int)
    requires
        0 <= doe < 146097,
    ensures
        ({
            let yoe = (doe - doe / 1460 + doe / 36524 - doe / 146096) / 365;
            doe - (365 * yoe + yoe / 4 - yoe / 100) == 365 ==> (yoe + 1) % 4 == 0 && ((yoe + 1)
                % 100 != 0 || yoe + 1 == 400)
        }),
{
    let f = doe / 1460;
    let c = doe / 36524;
    let e = doe / 146096;
    let n = doe - f + c - e;
    let yoe = n / 365;
    assert(0 <= c <= 4);
    assert(0 <= e <= 1);
}

/// Whether `r` is the UTC date of the instant `secs`: the date `secs /
/// 86400` days after 1970-01-01, with the year kept modulo 2^32.
pub open spec fn utc_date_of(secs: u64, r: (u32, u32, u32)) -> bool {
    exists|y: int|
        {
            &&& r.0 == y % 0x1_0000_0000
            &&& 1 <= r.1 <= 12
            &&& 1 <= r.2 <= month_days(y, r.1 as int)
            &&& #[trigger] days_from_civil(y, r.1 as int, r.2 as int) == secs / 86400
        }
}

/// The date of day `z` counted from 0000-03-01 (the inverse of
/// `days_from_civil`, shifted), computed era by era.
spec fn civil(z: int) -> (int, int, int) {
    let era = z / 146097;
    let doe = z - era * 146097;
    let yoe = (doe - doe / 1460 + doe / 36524 - doe / 146096) / 365;
    let y = yoe + era * 400;
    let doy = doe - (365 * yoe + yoe / 4 - yoe / 100);
    let mp = (5 * doy + 2) / 153;
    let d = doy - (153 * mp + 2) / 5 + 1;
    let m = if mp < 10 {
        mp + 3
    } else {
        mp - 9
    };
    (if m <= 2 {
        y + 1
    } else {
        y
    }, m, d)
}

proof fn lemma_civil(z: int)
    requires
        z >= 0,
    ensures
        1 <= civil(z).1 <= 12,
        1 <= civil(z).2 <= month_days(civil(z).0, civil(z).1),
        days_from_civil(civil(z).0, civil(z).1, civil(z).2) == z - 719468,
{
    let era = z / 146097;
    let doe = z - era * 146097;
    lemma_year_of_era(doe);
    lemma_leap_day(doe);
    let yoe = (doe - doe / 1460 + doe / 36524 - doe / 146096) / 365;
    let doy = doe - (365 * yoe + yoe / 4 - yoe / 100);
    let mp = (5 * doy + 2) / 153;
    assert(0 <= mp <= 11);
    let d = doy - (153 * mp + 2) / 5 + 1;
    assert(1 <= d <= 31);
    let y = yoe + era * 400;
    if mp == 11 {
        assert(d <= 29);
        if d == 29 {
            assert(doy == 365);
            assert((y + 1) % 4 == (yoe + 1) % 4);
            assert((y + 1) % 100 == (yoe + 1) % 100);
            assert((y + 1) % 400 == (yoe + 1) % 400);
            assert(is_leap(y + 1));
        }
    }
    assert(y / 400 == era);
    assert(y - (y / 400) * 400 == yoe);
}

/// The UTC year, month and day of the instant `secs` seconds after the Unix
/// epoch (see `utc_date_of`).
#[verifier::rlimit(50)]
pub fn get_utc_date(secs: u64) -> (r: (u32, u32, u32))
    ensures
        utc_date_of(secs, r),
{
    let z: u64 = secs / 86400 + 719468;
    proof {
        lemma_civil(z as int);
        lemma_year_of_era(z - (z / 146097) * 146097);
    }
    let era: u64 = z / 146097;
    let doe: u64 = z - era * 146097;
    let yoe: u64 = (doe - doe / 1460 + doe / 36524 - doe / 146096) / 365;
    let y: u64 = yoe + era * 400;
    let doy: u64 = doe - (365 * yoe + yoe / 4 - yoe / 100);
    let mp: u64 = (5 * doy + 2) / 153;
    let d: u64 = doy - (153 * mp + 2) / 5 + 1;
    let m: u64 = if mp < 10 {
        mp + 3
    } else {
        mp - 9
    };
    let year: u64 = if m <= 2 {
        y + 1
    } else {
        y
    };
    proof {
        assert(civil(z as int) == (year as int, m as int, d as int));
        assert((year as u32) == year % 0x1_0000_0000) by (bit_vector);
        assert(days_from_civil(year as int, m as int, d as int) == secs / 86400);
    }
    let r = (year as u32, m as u32, d as u32);
    proof {
        assert(r.1 as int == m as int);
        assert(r.2 as int == d as int);
        assert(days_from_civil(year as int, r.1 as int, r.2 as int) == secs / 86400);
        assert(r.0 == (year as int) % 0x1_0000_0000);
    }
    r
}

/// `YYYY-MM-DDTHH:MM:SSZ` for an instant.
pub open spec fn iso_text(y: nat, m: nat, d: nat, secs: nat) -> Seq<char> {
    let rem = secs % 86400;
    date_text(y, m, d) + "T"@ + zero_pad(decimal(rem / 3600), 2) + ":"@ + zero_pad(
        decimal((rem % 3600) / 60),
        2,
    ) + ":"@ + zero_pad(decimal(rem % 60), 2) + "Z"@
}

/// Formats an instant as ISO 8601 in UTC.
pub fn format_iso_time(secs: u64) -> (r: String)
    ensures
        exists|t: (u32, u32, u32)|
            utc_date_of(secs, t) && r@ == #[trigger] iso_text(t.0 as nat, t.1 as nat, t.2 as nat, secs as nat),
{
    let t = get_utc_date(secs);
    let (y, m, d) = t;
    let mut r = format_date(y, m, d);
    let rem = secs % 86400;
    r.append("T");
    r.append(padded(rem / 3600, 2).as_str());
    r.append(":");
    r.append(padded((rem % 3600) / 60, 2).as_str());
    r.append(":");
    r.append(padded(rem % 60, 2).as_str());
    r.append("Z");
    proof {
        assert(r@ =~= iso_text(t.0 as nat, t.1 as nat, t.2 as nat, secs as nat));
    }
    r
}

} // verus!
