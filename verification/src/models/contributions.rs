//! The contribution calendar served to the web client.
use vstd::prelude::*;

verus! {

/// One day of the calendar grid.
#[derive(Debug, Clone)]
pub struct ContributionCell {
    pub date: String,
    pub week_index: usize,
    pub weekday: u32,
    pub weekday_label: String,
    pub count: u32,
    pub level: u32,
    pub color: String,
    pub is_future: bool,
    pub is_in_current_month: bool,
}

/// A month label placed over a week column.
#[derive(Debug, Clone)]
pub struct ContributionMonth {
    pub label: String,
    pub week_index: usize,
}

/// One entry of the colour legend, with the counts it covers.
#[derive(Debug, Clone)]
pub struct ContributionLegend {
    pub level: u32,
    pub label: String,
    pub min: u32,
    pub max: u32,
    pub color: String,
}

/// The dates the calendar covers.
#[derive(Debug, Clone)]
pub struct ContributionRange {
    pub from: String,
    pub to: String,
    pub timezone: String,
}

/// Totals over the calendar.
#[derive(Debug, Clone)]
pub struct ContributionSummary {
    pub total_contributions: u32,
    pub total_weeks: u32,
    pub max_daily_count: u32,
}

/// Where the data came from and how fresh it is.
#[derive(Debug, Clone)]
pub struct ContributionMeta {
    pub provider: String,
    pub cached: bool,
    pub cache_ttl_seconds: u32,
    pub fetched_at: String,
    pub schema_version: u32,
}

/// The calendar of one user.
#[derive(Debug, Clone)]
pub struct ContributionsResponse {
    pub username: String,
    pub range: ContributionRange,
    pub summary: ContributionSummary,
    pub legend: Vec<ContributionLegend>,
    pub months: Vec<ContributionMonth>,
    pub cells: Vec<ContributionCell>,
    pub meta: ContributionMeta,
}

} // verus!
