//! The transform of GitHub's calendar into the client's grid.
use vstd::prelude::*;
use crate::models::contributions::{
    ContributionCell, ContributionLegend, ContributionMeta, ContributionMonth, ContributionRange,
    ContributionSummary, ContributionsResponse,
};
use crate::models::github_dto::{GithubContributionCalendar, GithubContributionDay, GithubContributionWeek};
use crate::services::contributions::{
    date_text, format_date, get_month_label, legend_label, legend_label_spec, level_color,
    level_color_spec, level_of, level_of_spec, month_label_spec, parse_ymd, weekday_label,
    weekday_label_spec, ymd_fields, CACHE_TTL_SECONDS, SCHEMA_VERSION,
};
use crate::services::contributions::calendar::{format_iso_time, get_utc_date, utc_date_of, iso_text};
use crate::text::chars_of;

verus! {

/// The days of the calendar in order, each with the index of its week.
pub open spec fn flat_days(ws: Seq<GithubContributionWeek>) -> Seq<(int, GithubContributionDay)>
    decreases ws.len(),
{
    if ws.len() == 0 {
        Seq::empty()
    } else {
        flat_days(ws.drop_last()) + ws.last().contribution_days@.map_values(
            |d: GithubContributionDay| ((ws.len() - 1) as int, d),
        )
    }
}

/// The year, month and day written in a date, or 1970-01-01 when it does
/// not read.
pub open spec fn ymd_or_epoch(s: Seq<char>) -> (nat, nat, nat) {
    match ymd_fields(s) {
        Some(t) => t,
        None => (1970, 1, 1),
    }
}

/// The month of a day, as read from its date.
pub open spec fn month_of(d: GithubContributionDay) -> nat {
    ymd_or_epoch(d.date@).1
}

/// Whether `a` sorts before `b`, character by character (for UTF-8 text this
/// is the byte order `str` compares by).
pub open spec fn lex_less(a: Seq<char>, b: Seq<char>) -> bool
    decreases a.len(),
{
    if a.len() == 0 {
        b.len() > 0
    } else if b.len() == 0 {
        false
    } else if a[0] != b[0] {
        (a[0] as u32) < (b[0] as u32)
    } else {
        lex_less(a.drop_first(), b.drop_first())
    }
}

/// The cell drawn for a day, given today's date.
pub open spec fn cell_matches(c: ContributionCell, wd: (int, GithubContributionDay), today: (u32, u32, u32)) -> bool {
    let d = wd.1;
    let level = level_of_spec(d.contribution_level@);
    let (y, m, _) = ymd_or_epoch(d.date@);
    &&& c.date@ == d.date@
    &&& c.week_index == wd.0
    &&& c.weekday == d.weekday
    &&& c.weekday_label@ == weekday_label_spec(d.weekday as int)
    &&& c.count == d.contribution_count
    &&& c.level == level
    &&& c.color@ == level_color_spec(level as int)
    &&& c.is_future == lex_less(date_text(today.0 as nat, today.1 as nat, today.2 as nat), d.date@)
    &&& c.is_in_current_month == (m == today.1 && y == today.0)
}

/// The largest count of the days (0 when there are none).
pub open spec fn max_count(fs: Seq<(int, GithubContributionDay)>) -> u32
    decreases fs.len(),
{
    if fs.len() == 0 {
        0
    } else {
        let m = max_count(fs.drop_last());
        let c = fs.last().1.contribution_count;
        if c > m {
            c
        } else {
            m
        }
    }
}

/// The smallest count of the days at `level`, starting from `u32::MAX`.
pub open spec fn level_min(fs: Seq<(int, GithubContributionDay)>, level: u32) -> u32
    decreases fs.len(),
{
    if fs.len() == 0 {
        u32::MAX
    } else {
        let m = level_min(fs.drop_last(), level);
        let d = fs.last().1;
        if level_of_spec(d.contribution_level@) == level && d.contribution_count < m {
            d.contribution_count
        } else {
            m
        }
    }
}

/// The largest count of the days at `level` (0 when there are none).
pub open spec fn level_max(fs: Seq<(int, GithubContributionDay)>, level: u32) -> u32
    decreases fs.len(),
{
    if fs.len() == 0 {
        0
    } else {
        let m = level_max(fs.drop_last(), level);
        let d = fs.last().1;
        if level_of_spec(d.contribution_level@) == level && d.contribution_count > m {
            d.contribution_count
        } else {
            m
        }
    }
}

/// The legend entry of a level: its label and colour, and the counts it
/// covers (level 0 covers nothing; a level without days shows 0 to 0).
pub open spec fn legend_matches(e: ContributionLegend, l: u32, fs: Seq<(int, GithubContributionDay)>) -> bool {
    &&& e.level == l
    &&& e.label@ == legend_label_spec(l as int)
    &&& e.color@ == level_color_spec(l as int)
    &&& e.min == (if l == 0 || level_min(fs, l) == u32::MAX {
        0
    } else {
        level_min(fs, l)
    })
    &&& e.max == (if l == 0 {
        0
    } else {
        level_max(fs, l)
    })
}

/// Whether the month changes at day `p`: the first day, or a day whose month
/// differs from the day before.
pub open spec fn change_at(fs: Seq<(int, GithubContributionDay)>, p: int) -> bool {
    p == 0 || month_of(fs[p - 1].1) != month_of(fs[p].1)
}

/// Whether day `p` carries its week's month label: the first day of its week
/// where the month changes.
pub open spec fn labeled_at(fs: Seq<(int, GithubContributionDay)>, p: int) -> bool {
    change_at(fs, p) && !exists|q: int|
        0 <= q < p && fs[q].0 == fs[p].0 && #[trigger] change_at(fs, q)
}

/// The month labels of the first `n` days: label and week of each labelled day.
pub open spec fn month_labels(fs: Seq<(int, GithubContributionDay)>, n: int) -> Seq<(Seq<char>, int)>
    decreases n,
{
    if n <= 0 {
        Seq::empty()
    } else {
        month_labels(fs, n - 1) + if labeled_at(fs, n - 1) {
            seq![(month_label_spec(month_of(fs[n - 1].1) as int), fs[n - 1].0)]
        } else {
            Seq::empty()
        }
    }
}

/// The week indices never decrease along the days.
pub open spec fn weeks_sorted(fs: Seq<(int, GithubContributionDay)>) -> bool {
    forall|i: int, j: int| 0 <= i <= j < fs.len() ==> fs[i].0 <= fs[j].0
}

/// Flattens the weeks into days, each with its week's index.
fn flatten(weeks: Vec<GithubContributionWeek>) -> (r: Vec<(usize, GithubContributionDay)>)
    ensures
        r@.len() == flat_days(weeks@).len(),
        forall|k: int|
            0 <= k < r@.len() ==> (#[trigger] r@[k]).0 as int == flat_days(weeks@)[k].0 && r@[k].1
                == flat_days(weeks@)[k].1,
        weeks_sorted(flat_days(weeks@)),
        forall|k: int| 0 <= k < r@.len() ==> 0 <= (#[trigger] r@[k]).0 < weeks@.len(),
{
    let ghost ws = weeks@;
    let mut out: Vec<(usize, GithubContributionDay)> = Vec::new();
    let mut rest = weeks;
    let mut w: usize = 0;
    let n = rest.len();
    proof {
        assert(ws.take(0) =~= Seq::<GithubContributionWeek>::empty());
        assert(rest@ =~= ws.skip(0));
    }
    while rest.len() > 0
        invariant
            n == ws.len(),
            w + rest@.len() == n,
            rest@ == ws.skip(w as int),
            out@.len() == flat_days(ws.take(w as int)).len(),
            forall|k: int|
                0 <= k < out@.len() ==> (#[trigger] out@[k]).0 as int == flat_days(ws.take(w as int))[k].0
                    && out@[k].1 == flat_days(ws.take(w as int))[k].1,
            weeks_sorted(flat_days(ws.take(w as int))),
            forall|k: int| 0 <= k < out@.len() ==> 0 <= (#[trigger] out@[k]).0 < w,
        decreases rest@.len(),
    {
        let week = rest.remove(0);
        let ghost prev = flat_days(ws.take(w as int));
        let ghost added = week.contribution_days@.map_values(
            |d: GithubContributionDay| (w as int, d),
        );
        proof {
            assert(ws.take(w + 1).drop_last() =~= ws.take(w as int));
            assert(ws.take(w + 1).last() == week);
            assert(flat_days(ws.take(w + 1)) == prev + added);
        }
        let mut days = week.contribution_days;
        let mut j: usize = 0;
        let m = days.len();
        let ghost ds = days@;
        let base = out.len();
        while days.len() > 0
            invariant
                m == ds.len(),
                j + days@.len() == m,
                days@ == ds.skip(j as int),
                base == prev.len(),
                out@.len() == base + j,
                added == ds.map_values(|d: GithubContributionDay| (w as int, d)),
                forall|k: int|
                    0 <= k < out@.len() ==> (#[trigger] out@[k]).0 as int == (prev + added)[k].0
                        && out@[k].1 == (prev + added)[k].1,
                forall|k: int| 0 <= k < out@.len() ==> 0 <= (#[trigger] out@[k]).0 <= w,
                forall|k: int| 0 <= k < base ==> (#[trigger] out@[k]).0 < w,
                w < n,
            decreases days@.len(),
        {
            let d = days.remove(0);
            proof {
                assert(d == ds[j as int]);
            }
            out.push((w, d));
            j = j + 1;
            proof {
                assert(days@ =~= ds.skip(j as int));
            }
        }
        proof {
            assert forall|a: int, b: int| 0 <= a <= b < (prev + added).len() implies (prev
                + added)[a].0 <= (prev + added)[b].0 by {
                if b >= prev.len() {
                    if a < prev.len() {
                        assert(out@[a].0 as int == (prev + added)[a].0);
                        assert(out@[a].0 < w);
                    }
                } else {
                }
            }
        }
        w = w + 1;
        proof {
            assert(rest@ =~= ws.skip(w as int));
        }
    }
    proof {
        assert(ws.take(w as int) =~= ws);
    }
    out
}

proof fn lemma_lex_skip(a: Seq<char>, b: Seq<char>, i: int)
    requires
        0 <= i <= a.len(),
        i <= b.len(),
        forall|j: int| 0 <= j < i ==> a[j] == b[j],
    ensures
        lex_less(a, b) == lex_less(a.skip(i), b.skip(i)),
    decreases i,
{
    if i > 0 {
        assert(a.skip(1) =~= a.drop_first());
        assert(b.skip(1) =~= b.drop_first());
        lemma_lex_skip(a.drop_first(), b.drop_first(), i - 1);
        assert(a.drop_first().skip(i - 1) =~= a.skip(i));
        assert(b.drop_first().skip(i - 1) =~= b.skip(i));
    } else {
        assert(a.skip(0) =~= a);
        assert(b.skip(0) =~= b);
    }
}

/// Whether `a` sorts before `b` (see `lex_less`).
fn lex_before(a: &Vec<char>, b: &Vec<char>) -> (r: bool)
    ensures
        r == lex_less(a@, b@),
{
    let mut i: usize = 0;
    while i < a.len() && i < b.len() && a[i] == b[i]
        invariant
            i <= a@.len(),
            i <= b@.len(),
            forall|j: int| 0 <= j < i ==> a@[j] == b@[j],
        decreases a@.len() - i,
    {
        i = i + 1;
    }
    proof {
        lemma_lex_skip(a@, b@, i as int);
    }
    if i == a.len() {
        i < b.len()
    } else if i == b.len() {
        false
    } else {
        proof {
            assert(a@.skip(i as int)[0] == a@[i as int]);
            assert(b@.skip(i as int)[0] == b@[i as int]);
        }
        (a[i] as u32) < (b[i] as u32)
    }
}

/// The month written in a day's date (1 when it does not read).
fn day_month(d: &GithubContributionDay) -> (r: u32)
    ensures
        r == month_of(*d),
{
    match parse_ymd(d.date.as_str()) {
        Some((_, m, _)) => m,
        None => 1,
    }
}

/// The cell for a day.
fn cell_of(wd: &(usize, GithubContributionDay), today: (u32, u32, u32), today_text: &Vec<char>) -> (c:
    ContributionCell)
    requires
        today_text@ == date_text(today.0 as nat, today.1 as nat, today.2 as nat),
    ensures
        cell_matches(c, (wd.0 as int, wd.1), today),
{
    let d = &wd.1;
    let level = level_of(d.contribution_level.as_str());
    let (y, m) = match parse_ymd(d.date.as_str()) {
        Some((y, m, _)) => (y, m),
        None => (1970, 1),
    };
    let date_chars = chars_of(d.date.as_str());
    ContributionCell {
        date: d.date.clone(),
        week_index: wd.0,
        weekday: d.weekday,
        weekday_label: String::from_str(weekday_label(d.weekday)),
        count: d.contribution_count,
        level,
        color: String::from_str(level_color(level)),
        is_future: lex_before(today_text, &date_chars),
        is_in_current_month: m == today.1 && y == today.0,
    }
}

/// The flattened days as plain pairs.
pub open spec fn pairs(v: Seq<(usize, GithubContributionDay)>) -> Seq<(int, GithubContributionDay)> {
    v.map_values(|p: (usize, GithubContributionDay)| (p.0 as int, p.1))
}

/// The largest count among the days.
fn largest_count(fs: &Vec<(usize, GithubContributionDay)>) -> (r: u32)
    ensures
        r == max_count(pairs(fs@)),
{
    let mut mx: u32 = 0;
    let mut i: usize = 0;
    while i < fs.len()
        invariant
            i <= fs@.len(),
            mx == max_count(pairs(fs@).take(i as int)),
        decreases fs@.len() - i,
    {
        proof {
            assert(pairs(fs@).take(i + 1).drop_last() =~= pairs(fs@).take(i as int));
        }
        if fs[i].1.contribution_count > mx {
            mx = fs[i].1.contribution_count;
        }
        i = i + 1;
    }
    proof {
        assert(pairs(fs@).take(i as int) =~= pairs(fs@));
    }
    mx
}

/// The legend entry of a level.
fn legend_entry(fs: &Vec<(usize, GithubContributionDay)>, l: u32) -> (e: ContributionLegend)
    requires
        l < 5,
    ensures
        legend_matches(e, l, pairs(fs@)),
{
    let mut mn: u32 = u32::MAX;
    let mut mx: u32 = 0;
    let mut i: usize = 0;
    while i < fs.len()
        invariant
            i <= fs@.len(),
            mn == level_min(pairs(fs@).take(i as int), l),
            mx == level_max(pairs(fs@).take(i as int), l),
        decreases fs@.len() - i,
    {
        proof {
            assert(pairs(fs@).take(i + 1).drop_last() =~= pairs(fs@).take(i as int));
        }
        let d = &fs[i].1;
        if level_of(d.contribution_level.as_str()) == l {
            if d.contribution_count < mn {
                mn = d.contribution_count;
            }
            if d.contribution_count > mx {
                mx = d.contribution_count;
            }
        }
        i = i + 1;
    }
    proof {
        assert(pairs(fs@).take(i as int) =~= pairs(fs@));
    }
    ContributionLegend {
        level: l,
        label: String::from_str(legend_label(l)),
        min: if l == 0 || mn == u32::MAX {
            0
        } else {
            mn
        },
        max: if l == 0 {
            0
        } else {
            mx
        },
        color: String::from_str(level_color(l)),
    }
}

/// The month labels over the week columns.
fn month_row(fs: &Vec<(usize, GithubContributionDay)>) -> (r: Vec<ContributionMonth>)
    requires
        weeks_sorted(pairs(fs@)),
    ensures
        r@.len() == month_labels(pairs(fs@), fs@.len() as int).len(),
        forall|k: int|
            0 <= k < r@.len() ==> (#[trigger] r@[k]).label@ == month_labels(
                pairs(fs@),
                fs@.len() as int,
            )[k].0 && r@[k].week_index as int == month_labels(pairs(fs@), fs@.len() as int)[k].1,
{
    let ghost ps = pairs(fs@);
    let mut out: Vec<ContributionMonth> = Vec::new();
    let mut last_month: u32 = 0;
    let mut added = false;
    let mut i: usize = 0;
    while i < fs.len()
        invariant
            ps == pairs(fs@),
            weeks_sorted(ps),
            i <= fs@.len(),
            out@.len() == month_labels(ps, i as int).len(),
            forall|k: int|
                0 <= k < out@.len() ==> (#[trigger] out@[k]).label@ == month_labels(ps, i as int)[k].0
                    && out@[k].week_index as int == month_labels(ps, i as int)[k].1,
            i > 0 ==> last_month == month_of(ps[i - 1].1),
            i > 0 ==> (added <==> exists|q: int|
                0 <= q < i && ps[q].0 == ps[i - 1].0 && #[trigger] change_at(ps, q)),
        decreases fs@.len() - i,
    {
        let m = day_month(&fs[i].1);
        let week = fs[i].0;
        let new_week = i == 0 || fs[i - 1].0 != week;
        if new_week {
            added = false;
        }
        let change = i == 0 || last_month != m;
        proof {
            assert(change == change_at(ps, i as int));
            if new_week && i > 0 {
                assert forall|q: int| 0 <= q < i implies ps[q].0 != ps[i as int].0 by {
                    assert(ps[q].0 <= ps[i - 1].0);
                }
            }
            assert(labeled_at(ps, i as int) == (change && !added));
        }
        let ghost before = out@;
        if change && !added {
            out.push(ContributionMonth { label: String::from_str(get_month_label(m)), week_index: week });
            added = true;
        }
        if change {
            added = true;
        }
        last_month = m;
        i = i + 1;
        proof {
            assert(month_labels(ps, i as int) == month_labels(ps, i - 1) + if labeled_at(ps, i - 1) {
                seq![(month_label_spec(month_of(ps[i - 1].1) as int), ps[i - 1].0)]
            } else {
                Seq::empty()
            });
        }
    }
    out
}

/// The date of the first day, or empty.
pub open spec fn first_date(fs: Seq<(int, GithubContributionDay)>) -> Seq<char> {
    if fs.len() > 0 {
        fs[0].1.date@
    } else {
        Seq::empty()
    }
}

/// The date of the last day, or empty.
pub open spec fn last_date(fs: Seq<(int, GithubContributionDay)>) -> Seq<char> {
    if fs.len() > 0 {
        fs.last().1.date@
    } else {
        Seq::empty()
    }
}

/// Whether `r` is the grid for `cal` on day `today`, fetched at `fetched_at`.
pub open spec fn response_matches(
    r: ContributionsResponse,
    username: Seq<char>,
    cal: GithubContributionCalendar,
    today: (u32, u32, u32),
    fetched_at: Seq<char>,
) -> bool {
    let fs = flat_days(cal.weeks@);
    let ms = month_labels(fs, fs.len() as int);
    &&& r.username@ == username
    &&& r.cells@.len() == fs.len()
    &&& forall|k: int| 0 <= k < fs.len() ==> cell_matches(#[trigger] r.cells@[k], fs[k], today)
    &&& r.months@.len() == ms.len()
    &&& forall|k: int|
        0 <= k < ms.len() ==> (#[trigger] r.months@[k]).label@ == ms[k].0 && r.months@[k].week_index
            == ms[k].1
    &&& r.legend@.len() == 5
    &&& forall|l: int| 0 <= l < 5 ==> legend_matches(#[trigger] r.legend@[l], l as u32, fs)
    &&& r.range.from@ == first_date(fs)
    &&& r.range.to@ == last_date(fs)
    &&& r.range.timezone@ == "UTC"@
    &&& r.summary.total_contributions == cal.total_contributions
    &&& r.summary.total_weeks == (if cal.weeks@.len() <= u32::MAX {
        cal.weeks@.len()
    } else {
        0
    })
    &&& r.summary.max_daily_count == max_count(fs)
    &&& r.meta.provider@ == "github"@
    &&& !r.meta.cached
    &&& r.meta.cache_ttl_seconds == CACHE_TTL_SECONDS
    &&& r.meta.fetched_at@ == fetched_at
    &&& r.meta.schema_version == SCHEMA_VERSION
}

/// Turns GitHub's calendar into the client's grid on day `today`: a cell per
/// day (its level's colour, whether it lies after today, whether it is in the
/// current month), a month label over the first week column where each month
/// begins, the legend's count ranges per level, the date range, the totals,
/// and the metadata of a fresh fetch at `fetched_at`.
pub fn transform_calendar(
    username: &str,
    calendar: GithubContributionCalendar,
    today: (u32, u32, u32),
    fetched_at: String,
) -> (r: ContributionsResponse)
    ensures
        response_matches(r, username@, calendar, today, fetched_at@),
{
    let total_contributions = calendar.total_contributions;
    let n_weeks = calendar.weeks.len();
    let ghost ws = calendar.weeks@;
    let fs = flatten(calendar.weeks);
    proof {
        assert(pairs(fs@) =~= flat_days(ws));
    }
    let today_text = format_date(today.0, today.1, today.2);
    let today_chars = chars_of(today_text.as_str());
    let max_daily_count = largest_count(&fs);
    let months = month_row(&fs);
    let mut legend: Vec<ContributionLegend> = Vec::new();
    let mut l: u32 = 0;
    while l < 5
        invariant
            l <= 5,
            legend@.len() == l,
            forall|k: int| 0 <= k < l ==> legend_matches(#[trigger] legend@[k], k as u32, pairs(fs@)),
        decreases 5 - l,
    {
        legend.push(legend_entry(&fs, l));
        l = l + 1;
    }
    let mut cells: Vec<ContributionCell> = Vec::new();
    let mut i: usize = 0;
    while i < fs.len()
        invariant
            i <= fs@.len(),
            today_chars@ == date_text(today.0 as nat, today.1 as nat, today.2 as nat),
            cells@.len() == i,
            forall|k: int| 0 <= k < i ==> cell_matches(#[trigger] cells@[k], pairs(fs@)[k], today),
        decreases fs@.len() - i,
    {
        cells.push(cell_of(&fs[i], today, &today_chars));
        i = i + 1;
    }
    let from = if fs.len() > 0 {
        fs[0].1.date.clone()
    } else {
        String::new()
    };
    let to = if fs.len() > 0 {
        fs[fs.len() - 1].1.date.clone()
    } else {
        String::new()
    };
    let total_weeks: u32 = if n_weeks <= u32::MAX as usize {
        n_weeks as u32
    } else {
        0
    };
    ContributionsResponse {
        username: String::from_str(username),
        range: ContributionRange { from, to, timezone: String::from_str("UTC") },
        summary: ContributionSummary { total_contributions, total_weeks, max_daily_count },
        legend,
        months,
        cells,
        meta: ContributionMeta {
            provider: String::from_str("github"),
            cached: false,
            cache_ttl_seconds: 10800,
            fetched_at,
            schema_version: SCHEMA_VERSION,
        },
    }
}

/// `transform_calendar` against today's UTC date, for a fetch made at the
/// instant `fetched_at_secs`.
pub fn transform_calendar_now(username: &str, calendar: GithubContributionCalendar, fetched_at_secs: u64) -> (r:
    ContributionsResponse)
    ensures
        exists|today: (u32, u32, u32), fetched: (u32, u32, u32)|
            (exists|now: u64| #[trigger] utc_date_of(now, today)) && utc_date_of(
                fetched_at_secs,
                fetched,
            ) && #[trigger] response_matches(
                r,
                username@,
                calendar,
                today,
                iso_text(fetched.0 as nat, fetched.1 as nat, fetched.2 as nat, fetched_at_secs as nat),
            ),
{
    let now = crate::time::now_unix_secs();
    let today = get_utc_date(now);
    let fetched = format_iso_time(fetched_at_secs);
    let ghost t = choose|t: (u32, u32, u32)|
        utc_date_of(fetched_at_secs, t) && fetched@ == #[trigger] iso_text(
            t.0 as nat,
            t.1 as nat,
            t.2 as nat,
            fetched_at_secs as nat,
        );
    let ghost cal = calendar;
    let r = transform_calendar(username, calendar, today, fetched);
    proof {
        assert(utc_date_of(now, today));
        assert(response_matches(
            r,
            username@,
            cal,
            today,
            iso_text(t.0 as nat, t.1 as nat, t.2 as nat, fetched_at_secs as nat),
        ));
    }
    r
}

/// Whether the day `d` is drawn at `level`.
pub open spec fn at_level(d: GithubContributionDay, level: u32) -> bool {
    level_of_spec(d.contribution_level@) == level
}

proof fn lemma_level_min(fs: Seq<(int, GithubContributionDay)>, level: u32)
    ensures
        forall|k: int|
            0 <= k < fs.len() && at_level(fs[k].1, level) ==> level_min(fs, level)
                <= #[trigger] fs[k].1.contribution_count,
        level_min(fs, level) != u32::MAX ==> exists|k: int|
            0 <= k < fs.len() && at_level(fs[k].1, level) && #[trigger] fs[k].1.contribution_count
                == level_min(fs, level),
    decreases fs.len(),
{
    if fs.len() > 0 {
        let p = fs.drop_last();
        lemma_level_min(p, level);
        let n = fs.len() - 1;
        assert(fs[n] == fs.last());
        assert forall|k: int|
            0 <= k < fs.len() && at_level(fs[k].1, level) implies level_min(fs, level)
                <= #[trigger] fs[k].1.contribution_count by {
            if k < n {
                assert(p[k] == fs[k]);
                assert(level_min(p, level) <= p[k].1.contribution_count);
            }
        }
        if level_min(fs, level) != u32::MAX {
            if level_min(fs, level) == level_min(p, level) && !(at_level(fs[n].1, level)
                && fs[n].1.contribution_count == level_min(fs, level)) {
                let k = choose|k: int|
                    0 <= k < p.len() && at_level(p[k].1, level) && #[trigger] p[k].1.contribution_count
                        == level_min(p, level);
                assert(fs[k] == p[k]);
                assert(at_level(fs[k].1, level) && fs[k].1.contribution_count == level_min(fs, level));
            } else {
                assert(at_level(fs[n].1, level) && fs[n].1.contribution_count == level_min(fs, level));
            }
        }
    }
}

proof fn lemma_level_max(fs: Seq<(int, GithubContributionDay)>, level: u32)
    ensures
        forall|k: int|
            0 <= k < fs.len() && at_level(fs[k].1, level) ==> #[trigger] fs[k].1.contribution_count
                <= level_max(fs, level),
        (exists|k: int| 0 <= k < fs.len() && #[trigger] at_level(fs[k].1, level)) ==> exists|k: int|
            0 <= k < fs.len() && at_level(fs[k].1, level) && #[trigger] fs[k].1.contribution_count
                == level_max(fs, level),
    decreases fs.len(),
{
    if fs.len() > 0 {
        let p = fs.drop_last();
        lemma_level_max(p, level);
        let n = fs.len() - 1;
        assert(fs[n] == fs.last());
        assert forall|k: int|
            0 <= k < fs.len() && at_level(fs[k].1, level) implies #[trigger] fs[k].1.contribution_count
                <= level_max(fs, level) by {
            if k < n {
                assert(p[k] == fs[k]);
                assert(p[k].1.contribution_count <= level_max(p, level));
            }
        }
        if exists|k: int| 0 <= k < fs.len() && #[trigger] at_level(fs[k].1, level) {
            let j = choose|k: int| 0 <= k < fs.len() && #[trigger] at_level(fs[k].1, level);
            if at_level(fs[n].1, level) && fs[n].1.contribution_count == level_max(fs, level) {
            } else if exists|k: int| 0 <= k < p.len() && #[trigger] at_level(p[k].1, level) {
                let k = choose|k: int|
                    0 <= k < p.len() && at_level(p[k].1, level) && #[trigger] p[k].1.contribution_count
                        == level_max(p, level);
                assert(fs[k] == p[k]);
                assert(level_max(fs, level) == level_max(p, level));
                assert(at_level(fs[k].1, level) && fs[k].1.contribution_count == level_max(fs, level));
            } else {
                if j < n {
                    assert(p[j] == fs[j]);
                    assert(at_level(p[j].1, level));
                }
                lemma_level_max_none(p, level);
                assert(at_level(fs[n].1, level) && fs[n].1.contribution_count == level_max(fs, level));
            }
        }
    }
}

proof fn lemma_level_max_none(fs: Seq<(int, GithubContributionDay)>, level: u32)
    requires
        forall|k: int| 0 <= k < fs.len() ==> !at_level(#[trigger] fs[k].1, level),
    ensures
        level_max(fs, level) == 0,
    decreases fs.len(),
{
    if fs.len() > 0 {
        let p = fs.drop_last();
        assert forall|k: int| 0 <= k < p.len() implies !at_level(#[trigger] p[k].1, level) by {
            assert(p[k] == fs[k]);
        }
        lemma_level_max_none(p, level);
        assert(fs[fs.len() - 1] == fs.last());
    }
}

/// The legend's range of each level 1 to 4 spans the counts of the days drawn
/// at that level: every such cell's count lies between the legend's minimum
/// and maximum, the maximum is the count of one of them, and so is the
/// minimum wherever some such count is below `u32::MAX`.
pub proof fn law_legend_ranges(
    r: ContributionsResponse,
    username: Seq<char>,
    cal: GithubContributionCalendar,
    today: (u32, u32, u32),
    fetched_at: Seq<char>,
    l: int,
)
    requires
        response_matches(r, username, cal, today, fetched_at),
        1 <= l < 5,
    ensures
        forall|k: int|
            0 <= k < r.cells@.len() && (#[trigger] r.cells@[k]).level == l ==> r.legend@[l].min
                <= r.cells@[k].count <= r.legend@[l].max,
        (exists|k: int| 0 <= k < r.cells@.len() && (#[trigger] r.cells@[k]).level == l) ==> exists|k: int|
            0 <= k < r.cells@.len() && (#[trigger] r.cells@[k]).level == l && r.cells@[k].count
                == r.legend@[l].max,
        (exists|k: int|
            0 <= k < r.cells@.len() && (#[trigger] r.cells@[k]).level == l && r.cells@[k].count
                < u32::MAX) ==> exists|k: int|
            0 <= k < r.cells@.len() && (#[trigger] r.cells@[k]).level == l && r.cells@[k].count
                == r.legend@[l].min,
{
    let fs = flat_days(cal.weeks@);
    let lv = l as u32;
    lemma_level_min(fs, lv);
    lemma_level_max(fs, lv);
    assert(legend_matches(r.legend@[l], lv, fs));
    assert forall|k: int| 0 <= k < r.cells@.len() && (#[trigger] r.cells@[k]).level == l implies r.legend@[l].min
        <= r.cells@[k].count <= r.legend@[l].max by {
        assert(cell_matches(r.cells@[k], fs[k], today));
        assert(at_level(fs[k].1, lv));
    }
    if exists|k: int| 0 <= k < r.cells@.len() && (#[trigger] r.cells@[k]).level == l {
        let j = choose|k: int| 0 <= k < r.cells@.len() && (#[trigger] r.cells@[k]).level == l;
        assert(cell_matches(r.cells@[j], fs[j], today));
        assert(at_level(fs[j].1, lv));
        let k = choose|k: int|
            0 <= k < fs.len() && at_level(fs[k].1, lv) && #[trigger] fs[k].1.contribution_count
                == level_max(fs, lv);
        assert(cell_matches(r.cells@[k], fs[k], today));
        assert(r.cells@[k].level == l);
    }
    if exists|k: int|
        0 <= k < r.cells@.len() && (#[trigger] r.cells@[k]).level == l && r.cells@[k].count < u32::MAX {
        let j = choose|k: int|
            0 <= k < r.cells@.len() && (#[trigger] r.cells@[k]).level == l && r.cells@[k].count
                < u32::MAX;
        assert(cell_matches(r.cells@[j], fs[j], today));
        assert(at_level(fs[j].1, lv));
        assert(level_min(fs, lv) != u32::MAX);
        let k = choose|k: int|
            0 <= k < fs.len() && at_level(fs[k].1, lv) && #[trigger] fs[k].1.contribution_count
                == level_min(fs, lv);
        assert(cell_matches(r.cells@[k], fs[k], today));
        assert(r.cells@[k].level == l);
    }
}

proof fn lemma_level_min_none(fs: Seq<(int, GithubContributionDay)>, level: u32)
    requires
        forall|k: int| 0 <= k < fs.len() ==> !at_level(#[trigger] fs[k].1, level),
    ensures
        level_min(fs, level) == u32::MAX,
    decreases fs.len(),
{
    if fs.len() > 0 {
        let p = fs.drop_last();
        assert forall|k: int| 0 <= k < p.len() implies !at_level(#[trigger] p[k].1, level) by {
            assert(p[k] == fs[k]);
        }
        lemma_level_min_none(p, level);
        assert(fs[fs.len() - 1] == fs.last());
    }
}

/// The legend of level 0 covers no counts (0 to 0), and so does that of a
/// level no day is drawn at.
pub proof fn law_legend_empty_levels(
    r: ContributionsResponse,
    username: Seq<char>,
    cal: GithubContributionCalendar,
    today: (u32, u32, u32),
    fetched_at: Seq<char>,
    l: int,
)
    requires
        response_matches(r, username, cal, today, fetched_at),
        0 <= l < 5,
        l == 0 || forall|k: int| 0 <= k < r.cells@.len() ==> (#[trigger] r.cells@[k]).level != l,
    ensures
        r.legend@[l].min == 0,
        r.legend@[l].max == 0,
        r.legend@[l].level == l,
{
    let fs = flat_days(cal.weeks@);
    let lv = l as u32;
    assert(legend_matches(r.legend@[l], lv, fs));
    if l != 0 {
        assert forall|k: int| 0 <= k < fs.len() implies !at_level(#[trigger] fs[k].1, lv) by {
            assert(cell_matches(r.cells@[k], fs[k], today));
            assert(r.cells@[k].level != l);
        }
        lemma_level_min_none(fs, lv);
        lemma_level_max_none(fs, lv);
    }
}

} // verus!
