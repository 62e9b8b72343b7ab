//! The parts of GitHub's contribution calendar the service reads.
use vstd::prelude::*;

verus! {

/// One day as GitHub reports it; `date` is `YYYY-MM-DD`, `weekday` counts
/// from Sunday, and the level is a quartile name such as `FIRST_QUARTILE`.
#[derive(Debug, Clone)]
pub struct GithubContributionDay {
    pub date: String,
    pub weekday: u32,
    pub contribution_count: u32,
    pub contribution_level: String,
}

/// One week of days.
#[derive(Debug, Clone)]
pub struct GithubContributionWeek {
    pub contribution_days: Vec<GithubContributionDay>,
}

/// The calendar: its total and its weeks in order.
#[derive(Debug, Clone)]
pub struct GithubContributionCalendar {
    pub total_contributions: u32,
    pub weeks: Vec<GithubContributionWeek>,
}

} // verus!
