use vstd::prelude::*;

verus! {

/// The aggregation window of a statistics query.
#[derive(Debug, Clone, Copy, PartialEq, Eq, Structural)]
pub enum StatsRange {
    Last7Days,
    Last30Days,
    Last6Months,
    LastYear,
    AllTime,
}

/// One ranked entry of a statistics breakdown. The share is kept in
/// hundredths of a percent (4512 stands for 45.12 %).
#[derive(Debug, Clone)]
pub struct Entry {
    pub name: String,
    pub percent_hundredths: u32,
    pub hours: i32,
    pub minutes: i8,
}

/// The public statistics of an account, reduced to what rendering reads.
#[derive(Debug, Clone)]
pub struct Stats {
    pub username: String,
    pub status: String,
    pub range: StatsRange,
    pub languages: Vec<Entry>,
}

/// Statistics of an account whose detail visibility is switched off.
#[derive(Debug, Clone)]
pub struct PrivateStats {
    pub is_coding_activity_visible: bool,
    pub is_language_usage_visible: bool,
    pub status: String,
}

#[derive(Debug, Clone)]
pub struct SuccessResponse<T> {
    pub data: T,
}

/// The error payload shape of the time-tracking API.
#[derive(Debug, Clone)]
pub struct ErrorResponse {
    pub error: String,
}

/// A statistics answer: error shape first, then full data, then the
/// reduced shape an account with hidden details answers with.
#[derive(Debug, Clone)]
pub enum StatsResponse {
    Failed(ErrorResponse),
    Valid(SuccessResponse<Stats>),
    NoData(SuccessResponse<PrivateStats>),
}

} // verus!
