use vstd::prelude::*;

verus! {

pub const WEEK_TO_DAY: usize = 7;

/// The days that count as passed of a year that is over.
pub const YEAR_TO_DAYS: u32 = 365;

pub const MINUTE_TO_SECONDS: u64 = 60;

pub const HOUR_TO_SECONDS: u64 = 3600;

pub const DAY_TO_SECONDS: u64 = 86400;

pub const WEEK_TO_SECONDS: u64 = 604800;

/// Thirty weeks: the unit `M` of a cache age.
pub const MONTH_TO_SECONDS: u64 = 18144000;

/// 365 times the unit `M`: the unit `y` of a cache age.
pub const YEAR_TO_SECONDS: u64 = 6622560000;

} // verus!
