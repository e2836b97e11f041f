//! Days of the proleptic Gregorian calendar, counted from 1 January of the
//! year 1 as day 1, and the weeks that frame a year.

use crate::constants::date::YEAR_TO_DAYS;
use chrono::{Datelike, NaiveDate};
use vstd::arithmetic::div_mod::{lemma_fundamental_div_mod, lemma_fundamental_div_mod_converse};
use vstd::prelude::*;

verus! {

/// The first year of the calendar.
pub const MIN_YEAR: i32 = -262143;

/// The last year of the calendar.
pub const MAX_YEAR: i32 = 262142;

/// The number of the calendar's first day, 1 January of [`MIN_YEAR`].
pub const FIRST_DAY: i32 = -95746129;

/// The number of the calendar's last day, 31 December of [`MAX_YEAR`].
pub const LAST_DAY: i32 = 95745399;

pub open spec fn is_leap_year(year: int) -> bool {
    year % 4 == 0 && (year % 100 != 0 || year % 400 == 0)
}

/// The days of all years from the year 1 up to, not including, `year`;
/// negative for years before the year 1.
pub open spec fn days_before_year(year: int) -> int {
    let y = year - 1;
    365 * y + y / 4 - y / 100 + y / 400
}

pub open spec fn days_in_month(year: int, month: int) -> int {
    if month == 2 {
        if is_leap_year(year) {
            29
        } else {
            28
        }
    } else if month == 4 || month == 6 || month == 9 || month == 11 {
        30
    } else {
        31
    }
}

/// The days of the months of `year` before `month`.
pub open spec fn days_before_month(year: int, month: int) -> int
    decreases month,
{
    if month <= 1 {
        0
    } else {
        days_before_month(year, month - 1) + days_in_month(year, month - 1)
    }
}

/// The calendar has a day of this month and this number in every year.
pub open spec fn is_calendar_date(year: int, month: int, day: int) -> bool {
    1 <= month <= 12 && 1 <= day <= days_in_month(year, month)
}

/// The number of a day: 1 for 1 January of the year 1.
pub open spec fn day_number(year: int, month: int, day: int) -> int {
    days_before_year(year) + days_before_month(year, month) + day
}

/// The number is that of a day of the calendar.
pub open spec fn in_calendar(days: int) -> bool {
    FIRST_DAY <= days <= LAST_DAY
}

/// The place of a day in its week: 0 for Sunday, 6 for Saturday.
pub open spec fn days_from_sunday(days: int) -> int {
    days % 7
}

/// The Sunday on or before a day.
pub open spec fn week_start(days: int) -> int {
    days - days_from_sunday(days)
}

/// The Saturday on or after a day.
pub open spec fn week_end(days: int) -> int {
    days + 6 - days_from_sunday(days)
}

/// The whole weeks that frame a year: the Sunday on or before its 1 January
/// and the Saturday on or after its 31 December, where the calendar has the
/// year and both days.
pub open spec fn year_range(year: int) -> Option<(int, int)> {
    let start = week_start(day_number(year, 1, 1));
    let end = week_end(day_number(year, 12, 31));
    if MIN_YEAR <= year <= MAX_YEAR && in_calendar(start) && in_calendar(end) {
        Some((start, end))
    } else {
        None
    }
}

/// The weeks from the week of `start` through the week of `end`: one more
/// than the whole weeks from `start` to `end`. Where `end` comes before
/// `start` the whole weeks back count against the one: none for a week
/// back, and for more the count turns round below zero as a `usize` does,
/// to the largest numbers that it holds.
pub open spec fn weeks_between(start: int, end: int) -> int {
    if start <= end {
        (end - start) / 7 + 1
    } else if (start - end) / 7 <= 1 {
        1 - (start - end) / 7
    } else {
        usize::MAX + 2 - (start - end) / 7
    }
}

/// The days of `year` that have passed on a day of the month `month` and the
/// number `day` in the year `this_year`: all of them for a year gone by; else
/// the days from 1 January of `year` to the day of that month and number in
/// `year`, and all of them where `year` has no such day.
pub open spec fn days_passed(year: int, this_year: int, month: int, day: int) -> int {
    if year < this_year {
        YEAR_TO_DAYS as int
    } else if MIN_YEAR <= year <= MAX_YEAR && is_calendar_date(year, month, day) {
        day_number(year, month, day) - day_number(year, 1, 1)
    } else {
        YEAR_TO_DAYS as int
    }
}

/// The number of the day of a year, a month and a number in the month, where
/// the calendar has the year and the year has that day.
pub open spec fn date_number(year: i32, month: u32, day: u32) -> Option<i32> {
    if MIN_YEAR <= year <= MAX_YEAR && is_calendar_date(year as int, month as int, day as int) {
        Some(day_number(year as int, month as int, day as int) as i32)
    } else {
        None
    }
}

/// The place in its week of the day of a number, where the calendar has it.
pub open spec fn weekday_of(days: i32) -> Option<u32> {
    if in_calendar(days as int) {
        Some(days_from_sunday(days as int) as u32)
    } else {
        None
    }
}

/// `NaiveDate::from_ymd_opt` makes a date where the year lies in the
/// calendar and the year has a day of that month and number; the date's
/// `num_days_from_ce` is the number of that day in the proleptic Gregorian
/// calendar, counted from 1 January of the year 1 as day 1.
#[verifier::external_body]
fn number_of_date(year: i32, month: u32, day: u32) -> (days: Option<i32>)
    ensures
        days == date_number(year, month, day),
{
    match NaiveDate::from_ymd_opt(year, month, day) {
        Some(date) => Some(date.num_days_from_ce()),
        None => None,
    }
}

/// `NaiveDate::from_num_days_from_ce_opt` makes a date of every number in
/// the calendar and of no other; the date's `weekday` counts, by
/// `num_days_from_sunday`, 0 for a Sunday up to 6 for a Saturday, and day 1
/// is a Monday.
#[verifier::external_body]
fn weekday_of_number(days: i32) -> (weekday: Option<u32>)
    ensures
        weekday == weekday_of(days),
{
    match NaiveDate::from_num_days_from_ce_opt(days) {
        Some(date) => Some(date.weekday().num_days_from_sunday()),
        None => None,
    }
}

/// A day of the calendar.
#[derive(Debug, Clone, Copy, PartialEq, Eq, Structural)]
pub struct Date {
    days: i32,
}

impl View for Date {
    type V = int;

    /// The number of the day.
    closed spec fn view(&self) -> int {
        self.days as int
    }
}

impl Date {
    /// The day is one of the calendar, as every day is that this module
    /// hands out.
    pub open spec fn wf(&self) -> bool {
        in_calendar(self@)
    }

    #[verifier::type_invariant]
    spec fn in_the_calendar(self) -> bool {
        in_calendar(self.days as int)
    }

    /// The day of a year, a month and a number in the month, where the
    /// calendar has it.
    pub fn from_ymd(year: i32, month: u32, day: u32) -> (date: Option<Date>)
        ensures
            date is Some <==> MIN_YEAR <= year <= MAX_YEAR && is_calendar_date(
                year as int,
                month as int,
                day as int,
            ),
            date matches Some(d) ==> d.wf() && d@ == day_number(
                year as int,
                month as int,
                day as int,
            ),
    {
        proof {
            if date_number(year, month, day) is Some {
                lemma_day_numbers_lie_in_the_calendar(year as int, month as int, day as int);
            }
        }
        match number_of_date(year, month, day) {
            Some(days) => Some(Date { days }),
            None => None,
        }
    }

    /// The day of a number, where the calendar has it.
    pub fn from_day_number(days: i32) -> (date: Option<Date>)
        ensures
            date is Some <==> in_calendar(days as int),
            date matches Some(d) ==> d.wf() && d@ == days,
    {
        if FIRST_DAY <= days && days <= LAST_DAY {
            Some(Date { days })
        } else {
            None
        }
    }

    /// The number of the day.
    pub fn day_number(&self) -> (days: i32)
        ensures
            self.wf(),
            days == self@,
    {
        proof {
            use_type_invariant(self);
        }
        self.days
    }

    /// The place of the day in its week: 0 for Sunday, 6 for Saturday.
    pub fn weekday(&self) -> (weekday: u32)
        ensures
            self.wf(),
            weekday == days_from_sunday(self@),
    {
        proof {
            use_type_invariant(self);
        }
        match weekday_of_number(self.days) {
            Some(weekday) => weekday,
            None => 0,
        }
    }

    /// The day `days` days later, or earlier for a negative number, where the
    /// calendar has it.
    pub fn checked_add_days(&self, days: i64) -> (date: Option<Date>)
        ensures
            date is Some <==> in_calendar(self@ + days),
            date matches Some(d) ==> d.wf() && d@ == self@ + days,
    {
        if days < -0x1_0000_0000 || days > 0x1_0000_0000 {
            return None;
        }
        let sum: i64 = self.days as i64 + days;
        if FIRST_DAY as i64 <= sum && sum <= LAST_DAY as i64 {
            Some(Date { days: sum as i32 })
        } else {
            None
        }
    }
}

/// The day numbers of the years of the calendar are those between
/// [`FIRST_DAY`] and [`LAST_DAY`], and a year's days are numbered in order.
pub proof fn lemma_day_numbers_lie_in_the_calendar(year: int, month: int, day: int)
    requires
        MIN_YEAR <= year <= MAX_YEAR,
        is_calendar_date(year, month, day),
    ensures
        in_calendar(day_number(year, month, day)),
        day_number(year, 1, 1) <= day_number(year, month, day) <= day_number(year, 12, 31),
        day_number(year, 12, 31) == day_number(year, 1, 1) + if is_leap_year(year) {
            365int
        } else {
            364int
        },
        day_number(year + 1, 1, 1) == day_number(year, 12, 31) + 1,
{
    reveal_with_fuel(days_before_month, 13);
    assert(days_before_year(MIN_YEAR as int) + 1 == FIRST_DAY);
    assert(days_before_year(MAX_YEAR + 1) == LAST_DAY);
    lemma_days_before_year_step(year);
    lemma_days_before_year_grows(MIN_YEAR as int, year);
    lemma_days_before_year_grows(year + 1, MAX_YEAR + 1);
}

/// A quotient grows by one at the multiples of the divisor, and only there.
proof fn lemma_quotient_steps_at_multiples(x: int, d: int)
    requires
        d > 0,
    ensures
        x / d - (x - 1) / d == if x % d == 0 {
            1int
        } else {
            0int
        },
{
    lemma_fundamental_div_mod(x, d);
    assert(d * (x / d) == (x / d) * d) by (nonlinear_arith);
    if x % d == 0 {
        assert(x - 1 == (x / d - 1) * d + (d - 1)) by (nonlinear_arith)
            requires
                x == (x / d) * d,
        ;
        lemma_fundamental_div_mod_converse(x - 1, d, x / d - 1, d - 1);
    } else {
        lemma_fundamental_div_mod_converse(x - 1, d, x / d, x % d - 1);
    }
}

/// A multiple of a multiple of a number is a multiple of the number.
proof fn lemma_multiples_of_multiples(x: int, d: int, times: int)
    requires
        d > 0,
        times > 0,
        x % (d * times) == 0,
    ensures
        x % d == 0,
{
    assert(d * times > 0) by (nonlinear_arith)
        requires
            d > 0,
            times > 0,
    ;
    lemma_fundamental_div_mod(x, d * times);
    let q = x / (d * times);
    assert(x == (q * times) * d + 0) by (nonlinear_arith)
        requires
            x == (d * times) * q,
    ;
    lemma_fundamental_div_mod_converse(x, d, q * times, 0);
}

proof fn lemma_days_before_year_step(year: int)
    ensures
        days_before_year(year + 1) == days_before_year(year) + if is_leap_year(year) {
            366int
        } else {
            365int
        },
{
    lemma_quotient_steps_at_multiples(year, 4);
    lemma_quotient_steps_at_multiples(year, 100);
    lemma_quotient_steps_at_multiples(year, 400);
    if year % 400 == 0 {
        lemma_multiples_of_multiples(year, 100, 4);
    }
    if year % 100 == 0 {
        lemma_multiples_of_multiples(year, 4, 25);
    }
}

proof fn lemma_days_before_year_grows(from: int, to: int)
    requires
        from <= to,
    ensures
        days_before_year(from) <= days_before_year(to),
    decreases to - from,
{
    if from < to {
        lemma_days_before_year_step(to - 1);
        lemma_days_before_year_grows(from, to - 1);
    }
}

/// The whole weeks that frame a year: see [`year_range`].
pub fn get_year_range(year: i32) -> (range: Option<(Date, Date)>)
    ensures
        range is Some == year_range(year as int) is Some,
        range matches Some((start, end)) ==> start.wf() && end.wf() && year_range(year as int)
            == Some((start@, end@)),
{
    let first_day = Date::from_ymd(year, 1, 1)?;
    let last_day = Date::from_ymd(year, 12, 31)?;
    let start_date = first_day.checked_add_days(-(first_day.weekday() as i64))?;
    let end_date = last_day.checked_add_days((6 - last_day.weekday()) as i64)?;
    Some((start_date, end_date))
}

/// The weeks from the week of `start_date` through the week of `end_date`:
/// see [`weeks_between`].
pub fn calculate_weeks(start_date: Date, end_date: Date) -> (weeks: usize)
    ensures
        weeks == weeks_between(start_date@, end_date@),
{
    proof {
        use_type_invariant(start_date);
        use_type_invariant(end_date);
    }
    let days: i64 = end_date.days as i64 - start_date.days as i64;
    if days >= 0 {
        (days / 7 + 1) as usize
    } else {
        let back: i64 = (-days) / 7;
        if back <= 1 {
            (1 - back) as usize
        } else {
            usize::MAX - (back - 2) as usize
        }
    }
}

/// The days of `year` that have passed today, `today` given as year, month
/// and day of the month: see [`days_passed`].
pub fn calculate_day_passed_in_year(year: i32, today: (i32, u32, u32)) -> (days: u32)
    ensures
        days == days_passed(year as int, today.0 as int, today.1 as int, today.2 as int),
        days <= 365,
{
    if year < today.0 {
        return YEAR_TO_DAYS;
    }
    let start_date = Date::from_ymd(year, 1, 1);
    let end_date = Date::from_ymd(year, today.1, today.2);
    match (start_date, end_date) {
        (Some(start), Some(end)) => {
            proof {
                lemma_day_numbers_lie_in_the_calendar(
                    year as int,
                    today.1 as int,
                    today.2 as int,
                );
            }
            (end.days - start.days) as u32
        },
        _ => YEAR_TO_DAYS,
    }
}

/// The week of a day starts on a Sunday and ends on the Saturday six days
/// later, and the day lies in it.
pub proof fn lemma_week_holds_its_days(days: int)
    ensures
        days_from_sunday(week_start(days)) == 0,
        days_from_sunday(week_end(days)) == 6,
        week_start(days) <= days <= week_end(days),
        week_end(days) == week_start(days) + 6,
        week_start(days) == 7 * (days / 7),
{
    let weeks = days / 7;
    lemma_fundamental_div_mod_converse(weeks * 7, 7, weeks, 0);
    lemma_fundamental_div_mod_converse(weeks * 7 + 6, 7, weeks, 6);
}

/// The frame of a year starts on the Sunday on or before the year's first
/// day and ends on the Saturday on or after its last, less than a week from
/// either; it is made of whole weeks, seven days to each.
pub proof fn lemma_year_range_frames_the_year(year: int)
    requires
        year_range(year) is Some,
    ensures
        ({
            let (start, end) = year_range(year)->0;
            let first = day_number(year, 1, 1);
            let last = day_number(year, 12, 31);
            &&& days_from_sunday(start) == 0
            &&& first - 7 < start <= first
            &&& days_from_sunday(end) == 6
            &&& last <= end < last + 7
            &&& start <= end
            &&& weeks_between(start, end) * 7 == end - start + 1
            &&& 53 <= weeks_between(start, end) <= 54
        }),
{
    let first = day_number(year, 1, 1);
    let last = day_number(year, 12, 31);
    lemma_day_numbers_lie_in_the_calendar(year, 1, 1);
    lemma_week_holds_its_days(first);
    lemma_week_holds_its_days(last);
    let from = first / 7;
    let to = last / 7;
    assert(week_end(last) - week_start(first) == (to - from) * 7 + 6);
    lemma_fundamental_div_mod_converse((to - from) * 7 + 6, 7, to - from, 6);
}

} // verus!
