//! The GitHub contribution calendar: the labels and colours of the grid, the
//! dates it is read against, the cache's rules, and the transform of
//! GitHub's calendar into the grid the client draws.
use vstd::prelude::*;
use crate::error::AppError;
use crate::models::contributions::{ContributionMeta, ContributionsResponse};
use crate::services::ytdlp::jobs::{parse_u64_chars, parse_u64_spec};
use crate::text::{chars_of, decimal, str_eq, string_of, sub_chars, trim, trim_chars, u64_decimal};

pub mod calendar;
pub mod transform;

verus! {

/// Cache time-to-live in seconds (3 hours).
pub const CACHE_TTL_SECONDS: u64 = 10800;

/// The most users whose calendars are cached.
pub const CACHE_MAX_CAPACITY: usize = 1000;

/// The version of the response layout.
pub const SCHEMA_VERSION: u32 = 1;

/// The short name of a weekday counted from Sunday.
pub open spec fn weekday_label_spec(w: int) -> Seq<char> {
    if w == 0 {
        "Sun"@
    } else if w == 1 {
        "Mon"@
    } else if w == 2 {
        "Tue"@
    } else if w == 3 {
        "Wed"@
    } else if w == 4 {
        "Thu"@
    } else if w == 5 {
        "Fri"@
    } else if w == 6 {
        "Sat"@
    } else {
        ""@
    }
}

/// The short name of weekday `w` (0 is Sunday); empty past Saturday.
pub fn weekday_label(w: u32) -> (r: &'static str)
    ensures
        r@ == weekday_label_spec(w as int),
{
    if w == 0 {
        "Sun"
    } else if w == 1 {
        "Mon"
    } else if w == 2 {
        "Tue"
    } else if w == 3 {
        "Wed"
    } else if w == 4 {
        "Thu"
    } else if w == 5 {
        "Fri"
    } else if w == 6 {
        "Sat"
    } else {
        ""
    }
}

/// The short name of month `m` (1 is January; 0 counts as January too);
/// empty past December.
pub open spec fn month_label_spec(m: int) -> Seq<char> {
    let i = if m >= 1 {
        m - 1
    } else {
        0
    };
    if i == 0 {
        "Jan"@
    } else if i == 1 {
        "Feb"@
    } else if i == 2 {
        "Mar"@
    } else if i == 3 {
        "Apr"@
    } else if i == 4 {
        "May"@
    } else if i == 5 {
        "Jun"@
    } else if i == 6 {
        "Jul"@
    } else if i == 7 {
        "Aug"@
    } else if i == 8 {
        "Sep"@
    } else if i == 9 {
        "Oct"@
    } else if i == 10 {
        "Nov"@
    } else if i == 11 {
        "Dec"@
    } else {
        ""@
    }
}

/// The short name of month `m` (see `month_label_spec`).
pub fn get_month_label(m: u32) -> (r: &'static str)
    ensures
        r@ == month_label_spec(m as int),
{
    let i = m.saturating_sub(1);
    if i == 0 {
        "Jan"
    } else if i == 1 {
        "Feb"
    } else if i == 2 {
        "Mar"
    } else if i == 3 {
        "Apr"
    } else if i == 4 {
        "May"
    } else if i == 5 {
        "Jun"
    } else if i == 6 {
        "Jul"
    } else if i == 7 {
        "Aug"
    } else if i == 8 {
        "Sep"
    } else if i == 9 {
        "Oct"
    } else if i == 10 {
        "Nov"
    } else if i == 11 {
        "Dec"
    } else {
        ""
    }
}

/// The colour of a contribution level (0 to 4).
pub open spec fn level_color_spec(l: int) -> Seq<char> {
    if l == 1 {
        "#9be9a8"@
    } else if l == 2 {
        "#40c463"@
    } else if l == 3 {
        "#30a14e"@
    } else if l == 4 {
        "#216e39"@
    } else {
        "#2b2c3494"@
    }
}

/// The colour of a contribution level.
pub fn level_color(l: u32) -> (r: &'static str)
    requires
        l < 5,
    ensures
        r@ == level_color_spec(l as int),
{
    if l == 1 {
        "#9be9a8"
    } else if l == 2 {
        "#40c463"
    } else if l == 3 {
        "#30a14e"
    } else if l == 4 {
        "#216e39"
    } else {
        "#2b2c3494"
    }
}

/// The legend label of a contribution level (0 to 4).
pub open spec fn legend_label_spec(l: int) -> Seq<char> {
    if l == 1 {
        "Low"@
    } else if l == 2 {
        "Medium"@
    } else if l == 3 {
        "High"@
    } else if l == 4 {
        "Very high"@
    } else {
        "No contributions"@
    }
}

/// The legend label of a contribution level.
pub fn legend_label(l: u32) -> (r: &'static str)
    requires
        l < 5,
    ensures
        r@ == legend_label_spec(l as int),
{
    if l == 1 {
        "Low"
    } else if l == 2 {
        "Medium"
    } else if l == 3 {
        "High"
    } else if l == 4 {
        "Very high"
    } else {
        "No contributions"
    }
}

/// The level of a GitHub quartile name; anything else is level 0.
pub open spec fn level_of_spec(s: Seq<char>) -> u32 {
    if s == "FIRST_QUARTILE"@ {
        1
    } else if s == "SECOND_QUARTILE"@ {
        2
    } else if s == "THIRD_QUARTILE"@ {
        3
    } else if s == "FOURTH_QUARTILE"@ {
        4
    } else {
        0
    }
}

/// The level of a GitHub quartile name.
pub fn level_of(s: &str) -> (r: u32)
    ensures
        r == level_of_spec(s@),
        r < 5,
{
    if str_eq(s, "FIRST_QUARTILE") {
        1
    } else if str_eq(s, "SECOND_QUARTILE") {
        2
    } else if str_eq(s, "THIRD_QUARTILE") {
        3
    } else if str_eq(s, "FOURTH_QUARTILE") {
        4
    } else {
        0
    }
}

/// Whether every one of the first `n` characters is ASCII.
pub open spec fn ascii_prefix(s: Seq<char>, n: int) -> bool {
    forall|i: int| 0 <= i < n ==> (#[trigger] s[i] as u32) < 128
}

/// What `parse_ymd` reads: year, month and day from the fixed positions of
/// `YYYY-MM-DD` (the separators are not checked), each as `str::parse::<u32>`
/// reads it; `None` when the text is shorter or a field does not read.
pub open spec fn ymd_fields(s: Seq<char>) -> Option<(nat, nat, nat)> {
    if s.len() < 10 || !ascii_prefix(s, 10) {
        None
    } else {
        match (
            parse_u64_spec(s.subrange(0, 4)),
            parse_u64_spec(s.subrange(5, 7)),
            parse_u64_spec(s.subrange(8, 10)),
        ) {
            (Some(y), Some(m), Some(d)) => Some((y, m, d)),
            _ => None,
        }
    }
}

/// Parses `YYYY-MM-DD` into year, month and day (see `ymd_fields`).
pub fn parse_ymd(date: &str) -> (r: Option<(u32, u32, u32)>)
    ensures
        match ymd_fields(date@) {
            Some((y, m, d)) => r == Some((y as u32, m as u32, d as u32)) && y < 10000 && m < 10000
                && d < 10000,
            None => r is None,
        },
{
    let cs = chars_of(date);
    if cs.len() < 10 {
        return None;
    }
    let mut i: usize = 0;
    while i < 10
        invariant
            i <= 10,
            cs@ == date@,
            cs@.len() >= 10,
            ascii_prefix(cs@, i as int),
        decreases 10 - i,
    {
        if (cs[i] as u32) >= 128 {
            proof {
                assert((cs@[i as int] as u32) >= 128);
                assert(!ascii_prefix(cs@, 10));
            }
            return None;
        }
        i = i + 1;
    }
    let y = parse_u64_chars(&sub_chars(&cs, 0, 4));
    let m = parse_u64_chars(&sub_chars(&cs, 5, 7));
    let d = parse_u64_chars(&sub_chars(&cs, 8, 10));
    proof {
        lemma_short_value(cs@.subrange(0, 4));
        lemma_short_value(cs@.subrange(5, 7));
        lemma_short_value(cs@.subrange(8, 10));
    }
    match (y, m, d) {
        (Some(y), Some(m), Some(d)) => {
            proof {
                lemma_short_value(cs@.subrange(0, 4));
                lemma_short_value(cs@.subrange(5, 7));
                lemma_short_value(cs@.subrange(8, 10));
            }
            Some((y as u32, m as u32, d as u32))
        },
        _ => None,
    }
}

/// A field of at most four characters reads as less than 10000.
proof fn lemma_short_value(s: Seq<char>)
    requires
        s.len() <= 4,
    ensures
        parse_u64_spec(s) matches Some(v) ==> v < 10000,
{
    let body = if s.len() > 0 && s[0] == '+' {
        s.drop_first()
    } else {
        s
    };
    if parse_u64_spec(s) is Some {
        lemma_digits_bound(body);
        reveal_with_fuel(pow10, 5);
        assert(pow10(body.len()) <= 10000);
    }
}

proof fn lemma_digits_bound(s: Seq<char>)
    requires
        crate::text::all_digits(s),
    ensures
        crate::text::digits_value(s) < crate::services::contributions::pow10(s.len()),
    decreases s.len(),
{
    if s.len() > 0 {
        let t = s.drop_last();
        assert forall|i: int| 0 <= i < t.len() implies crate::text::is_digit(#[trigger] t[i]) by {
            assert(t[i] == s[i]);
        }
        lemma_digits_bound(t);
        assert(crate::text::is_digit(s[s.len() - 1]));
        assert(pow10(s.len()) == pow10(t.len()) * 10);
    }
}

/// Ten to the power `n`.
pub open spec fn pow10(n: nat) -> nat
    decreases n,
{
    if n == 0 {
        1
    } else {
        pow10((n - 1) as nat) * 10
    }
}

/// `s` left-padded with zeros to `w` characters (`{:0w}`).
pub open spec fn zero_pad(s: Seq<char>, w: nat) -> Seq<char> {
    if s.len() >= w {
        s
    } else {
        Seq::new((w - s.len()) as nat, |i: int| '0') + s
    }
}

/// `n` in decimal, left-padded with zeros to `w` digits.
pub fn padded(n: u64, w: usize) -> (r: String)
    ensures
        r@ == zero_pad(decimal(n as nat), w as nat),
{
    let digits = u64_decimal(n);
    let mut cs: Vec<char> = Vec::new();
    let mut k: usize = digits.len();
    while k < w
        invariant
            digits@.len() <= k <= w || (k == digits@.len() && k >= w),
            cs@ =~= Seq::new((k - digits@.len()) as nat, |i: int| '0'),
        decreases w - k,
    {
        cs.push('0');
        k = k + 1;
    }
    let mut i: usize = 0;
    let ghost zeros = cs@;
    while i < digits.len()
        invariant
            i <= digits@.len(),
            cs@ == zeros + digits@.take(i as int),
        decreases digits@.len() - i,
    {
        cs.push(digits[i]);
        i = i + 1;
        proof {
            assert(digits@.take(i as int) =~= digits@.take(i - 1).push(digits@[i - 1]));
        }
    }
    proof {
        assert(digits@.take(i as int) =~= digits@);
        if digits@.len() >= w {
            assert(zeros =~= Seq::<char>::empty());
        }
    }
    string_of(cs.as_slice())
}

/// `YYYY-MM-DD` for the given year, month and day.
pub open spec fn date_text(y: nat, m: nat, d: nat) -> Seq<char> {
    zero_pad(decimal(y), 4) + "-"@ + zero_pad(decimal(m), 2) + "-"@ + zero_pad(decimal(d), 2)
}

/// Writes a date as `YYYY-MM-DD`.
pub fn format_date(y: u32, m: u32, d: u32) -> (r: String)
    ensures
        r@ == date_text(y as nat, m as nat, d as nat),
{
    let mut r = padded(y as u64, 4);
    r.append("-");
    r.append(padded(m as u64, 2).as_str());
    r.append("-");
    r.append(padded(d as u64, 2).as_str());
    r
}

/// How long a fresh calendar is cached at instant `now`: three hours, or
/// until the next UTC midnight if that comes sooner.
pub open spec fn cache_ttl_spec(now: u64) -> u64 {
    let until_midnight = (86400 - now % 86400) as u64;
    if CACHE_TTL_SECONDS < until_midnight {
        CACHE_TTL_SECONDS
    } else {
        until_midnight
    }
}

/// The cache lifetime of a calendar fetched at `now`.
pub fn cache_ttl(now: u64) -> (r: u64)
    ensures
        r == cache_ttl_spec(now),
        0 < r <= CACHE_TTL_SECONDS,
{
    let since = now % 86400;
    let until = 86400 - since;
    if CACHE_TTL_SECONDS < until {
        CACHE_TTL_SECONDS
    } else {
        until
    }
}

/// A cached calendar never outlives the UTC day it was fetched on, so the
/// calendar turns over at midnight.
pub proof fn law_cache_expires_by_midnight(now: u64)
    ensures
        (now % 86400) + cache_ttl_spec(now) <= 86400,
        cache_ttl_spec(now) > 0,
{
}

/// Checks the requested user: blank names and any user but the default are
/// refused.
pub fn check_username(username: &str, default_username: &str) -> (r: Result<(), AppError>)
    ensures
        trim(username@).len() == 0 ==> (r matches Err(AppError::Validation(m)) && m@
            == "Username cannot be empty"@),
        trim(username@).len() > 0 && username@ != default_username@ ==> (r matches Err(
            AppError::Validation(m),
        ) && m@ == "Only the default username is allowed"@),
        trim(username@).len() > 0 && username@ == default_username@ ==> r is Ok,
{
    let cs = chars_of(username);
    let t = trim_chars(&cs);
    if t.len() == 0 {
        return Err(AppError::Validation(String::from_str("Username cannot be empty")));
    }
    if !str_eq(username, default_username) {
        return Err(AppError::Validation(String::from_str("Only the default username is allowed")));
    }
    Ok(())
}

/// Whether a cached entry expiring at `expires_at` may be served at `now`.
pub fn cache_fresh(expires_at: u64, now: u64) -> (r: bool)
    ensures
        r == (expires_at > now),
{
    expires_at > now
}

/// Whether a fresh calendar may be added to a cache holding `len` users.
pub fn cache_has_room(len: usize) -> (r: bool)
    ensures
        r == (len < CACHE_MAX_CAPACITY),
{
    len < CACHE_MAX_CAPACITY
}

/// A response as served from the cache: the same, marked as cached.
pub open spec fn served_cached(resp: ContributionsResponse) -> ContributionsResponse {
    ContributionsResponse { meta: ContributionMeta { cached: true, ..resp.meta }, ..resp }
}

/// Marks a cached response as served from the cache.
pub fn serve_cached(resp: ContributionsResponse) -> (r: ContributionsResponse)
    ensures
        r == served_cached(resp),
{
    let mut r = resp;
    r.meta.cached = true;
    r
}

/// The answer the cache gives at instant `now` for an entry (the response
/// and its expiry): the response, marked as cached, while it is fresh;
/// nothing once it has expired or where there is no entry.
pub fn fresh_hit(entry: Option<(ContributionsResponse, u64)>, now: u64) -> (r: Option<
    ContributionsResponse,
>)
    ensures
        match entry {
            Some((resp, expires_at)) => if expires_at > now {
                r == Some(served_cached(resp))
            } else {
                r is None
            },
            None => r is None,
        },
{
    match entry {
        Some((resp, expires_at)) => {
            if cache_fresh(expires_at, now) {
                Some(serve_cached(resp))
            } else {
                None
            }
        },
        None => None,
    }
}

/// The answer after fetching: the fetched calendar; when the fetch failed,
/// the entry still in the cache (however old), marked as cached; with no
/// entry, the fetch's error.
pub fn after_fetch(fetched: Result<ContributionsResponse, AppError>, stale: Option<ContributionsResponse>) -> (r:
    Result<ContributionsResponse, AppError>)
    ensures
        match fetched {
            Ok(resp) => r == Ok::<ContributionsResponse, AppError>(resp),
            Err(e) => match stale {
                Some(old) => r == Ok::<ContributionsResponse, AppError>(served_cached(old)),
                None => r == Err::<ContributionsResponse, AppError>(e),
            },
        },
{
    match fetched {
        Ok(resp) => Ok(resp),
        Err(e) => match stale {
            Some(old) => Ok(serve_cached(old)),
            None => Err(e),
        },
    }
}

} // verus!
