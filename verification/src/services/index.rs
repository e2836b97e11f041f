//! The plain calendar: a square for each day of the weeks that frame a
//! year, in a shade of green for the level of its commits.

use crate::constants::date::WEEK_TO_DAY;
use crate::render::contribution_cells::{in_year, level_on};
use crate::utils::date::{day_number, Date, LAST_DAY, MAX_YEAR, MIN_YEAR};
use crate::utils::text::{decimal, push_decimal};
use chrono::NaiveDate;
use std::collections::HashMap;
use vstd::prelude::*;
use vstd::string::StringExecFns;

verus! {

broadcast use vstd::std_specs::hash::group_hash_axioms;

/// Side of a square, in pixels.
pub const CELL_SIZE: u32 = 10;

/// Gap between two squares, in pixels.
pub const CELL_SPACING: u32 = 4;

/// Space left of the calendar, in pixels.
pub const GRID_LEFT_PADDING: u32 = 13;

/// Space above the calendar, in pixels.
pub const GRID_TOP_PADDING: u32 = 13;

pub const SVG_OPEN: &'static str =
    "\n        <svg\n            xmlns=\"http://www.w3.org/2000/svg\"\n            xmlns:xlink=\"http://www.w3.org/1999/xlink\"\n            viewBox=\"0 0 930 465\"\n            fill=\"none\"\n        >\n        ";

pub const SVG_CLOSE: &'static str = "\n        </svg>\n        ";

/// A day as the calendar writes it, year, month and day with hyphens
/// between them; `None` for a number that is no day of the calendar.
pub uninterp spec fn date_text(days: i32) -> Option<Seq<char>>;

/// `NaiveDate::from_num_days_from_ce_opt` makes a date of every number in
/// the calendar and of no other, and `format("%Y-%m-%d")` writes the date,
/// a function of the date alone.
#[verifier::external_body]
fn format_date(days: i32) -> (text: Option<String>)
    ensures
        text is Some == (crate::utils::date::in_calendar(days as int)),
        text matches Some(written) ==> date_text(days) == Some(written@),
        text is None ==> date_text(days) is None,
{
    match NaiveDate::from_num_days_from_ce_opt(days) {
        Some(date) => Some(date.format("%Y-%m-%d").to_string()),
        None => None,
    }
}

/// The shade of a square: white outside the year; in the year a green for
/// each of the levels 1 to 4, and grey for no commits and any other level.
pub open spec fn cell_color(is_same_year: bool, commit_level: u32) -> Seq<char> {
    if !is_same_year {
        "#ffffff"@
    } else if commit_level == 1 {
        "#c6e48b"@
    } else if commit_level == 2 {
        "#7bc96f"@
    } else if commit_level == 3 {
        "#239a3b"@
    } else if commit_level == 4 {
        "#196127"@
    } else {
        "#ebedf0"@
    }
}

/// The square of a day at a place.
pub open spec fn square_text(x: nat, y: nat, color: Seq<char>, date: Seq<char>, level: u32) -> Seq<
    char,
> {
    "  <rect width=\""@ + decimal(CELL_SIZE as nat) + "\" height=\""@ + decimal(CELL_SIZE as nat)
        + "\" x=\""@ + decimal(x) + "\" y=\""@ + decimal(y) + "\" fill=\""@ + color
        + "\" title=\""@ + date + "\" data-level=\""@ + decimal(level as nat) + "\" />\n"@
}

/// The square of the day in a week and on a day of the week.
pub open spec fn cell_text(
    year: i32,
    start: int,
    commits: Map<i32, u32>,
    week: int,
    day: int,
) -> Seq<char> {
    let date = start + 7 * week + day;
    let level = level_on(commits, date);
    square_text(
        (week * (CELL_SIZE + CELL_SPACING) + GRID_LEFT_PADDING) as nat,
        (day * (CELL_SIZE + CELL_SPACING) + GRID_TOP_PADDING) as nat,
        cell_color(in_year(year as int, date), level),
        date_text(date as i32)->0,
        level,
    )
}

/// The squares of the first `days` days of a week.
pub open spec fn week_text(
    year: i32,
    start: int,
    commits: Map<i32, u32>,
    week: int,
    days: int,
) -> Seq<char>
    decreases days,
{
    if days <= 0 {
        Seq::empty()
    } else {
        week_text(year, start, commits, week, days - 1) + cell_text(
            year,
            start,
            commits,
            week,
            days - 1,
        )
    }
}

/// The squares of the first `weeks` weeks.
pub open spec fn cells_text(year: i32, start: int, commits: Map<i32, u32>, weeks: int) -> Seq<char>
    decreases weeks,
{
    if weeks <= 0 {
        Seq::empty()
    } else {
        cells_text(year, start, commits, weeks - 1) + week_text(
            year,
            start,
            commits,
            weeks - 1,
            WEEK_TO_DAY as int,
        )
    }
}

/// The shade of a square: see [`cell_color`].
pub fn get_cell_color(is_same_year: bool, commit_level: &u32) -> (color: &'static str)
    ensures
        color@ == cell_color(is_same_year, *commit_level),
{
    if !is_same_year {
        "#ffffff"
    } else {
        match *commit_level {
            1 => "#c6e48b",
            2 => "#7bc96f",
            3 => "#239a3b",
            4 => "#196127",
            _ => "#ebedf0",
        }
    }
}

fn push_square(out: &mut String, x: u32, y: u32, color: &str, date: &str, level: u32)
    ensures
        final(out)@ == old(out)@ + square_text(x as nat, y as nat, color@, date@, level),
{
    out.append("  <rect width=\"");
    push_decimal(out, CELL_SIZE as u64);
    out.append("\" height=\"");
    push_decimal(out, CELL_SIZE as u64);
    out.append("\" x=\"");
    push_decimal(out, x as u64);
    out.append("\" y=\"");
    push_decimal(out, y as u64);
    out.append("\" fill=\"");
    out.append(color);
    out.append("\" title=\"");
    out.append(date);
    out.append("\" data-level=\"");
    push_decimal(out, level as u64);
    out.append("\" />\n");
}

/// Writes the squares of `weeks` weeks from `start_date` on, week by week.
/// The calendar has all their days.
pub fn generate_contribution_cells(
    year: i32,
    start_date: Date,
    weeks: usize,
    commits: HashMap<i32, u32>,
) -> (cells: String)
    requires
        start_date@ + 7 * weeks <= LAST_DAY + 1,
    ensures
        cells@ == cells_text(year, start_date@, commits@, weeks as int),
{
    let mut cells = String::new();
    let bounds = match (Date::from_ymd(year, 1, 1), Date::from_ymd(year, 12, 31)) {
        (Some(first), Some(last)) => Some((first.day_number(), last.day_number())),
        _ => None,
    };
    let start: i64 = start_date.day_number() as i64;
    let step: u32 = CELL_SIZE + CELL_SPACING;
    let mut week: usize = 0;
    while week < weeks
        invariant
            week <= weeks,
            start_date.wf(),
            start == start_date@,
            step == 14,
            start_date@ + 7 * weeks <= LAST_DAY + 1,
            bounds is Some == (MIN_YEAR <= year <= MAX_YEAR),
            bounds matches Some(b) ==> b.0 == day_number(year as int, 1, 1) && b.1 == day_number(
                year as int,
                12,
                31,
            ),
            cells@ == cells_text(year, start_date@, commits@, week as int),
        decreases weeks - week,
    {
        let mut day: usize = 0;
        while day < WEEK_TO_DAY
            invariant
                day <= WEEK_TO_DAY,
                week < weeks,
                start_date.wf(),
                start == start_date@,
                step == 14,
                start_date@ + 7 * weeks <= LAST_DAY + 1,
                bounds is Some == (MIN_YEAR <= year <= MAX_YEAR),
                bounds matches Some(b) ==> b.0 == day_number(year as int, 1, 1) && b.1
                    == day_number(year as int, 12, 31),
                cells@ == cells_text(year, start_date@, commits@, week as int) + week_text(
                    year,
                    start_date@,
                    commits@,
                    week as int,
                    day as int,
                ),
            decreases WEEK_TO_DAY - day,
        {
            let current_date: i64 = start + (week * WEEK_TO_DAY + day) as i64;
            let key: i32 = current_date as i32;
            assert(week * step <= 0x0200_0000 * 14 && day * step <= 7 * 14) by (nonlinear_arith)
                requires
                    week <= 0x0200_0000,
                    day <= 7,
                    step == 14,
            ;
            let x: u32 = week as u32 * step + GRID_LEFT_PADDING;
            let y: u32 = day as u32 * step + GRID_TOP_PADDING;
            let commit_level: u32 = match commits.get(&key) {
                Some(level) => *level,
                None => 0,
            };
            let is_same_year = match bounds {
                Some((first, last)) => first as i64 <= current_date && current_date <= last as i64,
                None => false,
            };
            let color = get_cell_color(is_same_year, &commit_level);
            match format_date(key) {
                Some(formatted_date) => {
                    push_square(&mut cells, x, y, color, formatted_date.as_str(), commit_level);
                },
                None => {},
            }
            day += 1;
        }
        week += 1;
    }
    cells
}

/// The image around the squares.
pub fn generate_svg(cells: String) -> (svg: String)
    ensures
        svg@ == SVG_OPEN@ + cells@ + SVG_CLOSE@,
{
    let mut svg = SVG_OPEN.to_string();
    svg.append(cells.as_str());
    svg.append(SVG_CLOSE);
    svg
}

} // verus!
