//! The calendar grid: a column for each week, a row for each day of the
//! week, a tile of dirt for each day of the year and a flower where there
//! were commits.

use crate::api::languages::MostUsedLanguage;
use crate::constants::render::{
    CELL_SIZE, CELL_SPACING, GRID_LEFT_PADDING, GRID_TOP_PADDING, MASK_CLASS,
};
use crate::render::objects::Objects;
use crate::render::renderable::{
    count_sprites, is_sprite_of, lemma_count_sprites_of_both, lemma_marks_text_of_both,
    marks_text, push_sprite, push_tint, Mark, Renderable,
};
use crate::utils::coordinate::UNITS_PER_PIXEL;
use crate::utils::date::{
    day_number, lemma_year_range_frames_the_year, weeks_between, year_range, Date, LAST_DAY,
    MAX_YEAR, MIN_YEAR,
};
use std::collections::HashMap;
use vstd::prelude::*;

verus! {

broadcast use vstd::std_specs::hash::group_hash_axioms;

pub struct ContributionCells {
    pub year: i32,
    pub start_date: Date,
    pub weeks: usize,
    pub commits: HashMap<i32, u32>,
    pub most_used_languages: Vec<MostUsedLanguage>,
}

/// The flower that stands for a level of commits: none for no commits, one
/// of its own for each of the levels 1, 2 and 3, and the fourth for every
/// level from 4 on.
pub open spec fn flower_of(level: u32) -> Option<Objects> {
    if level == 0 {
        None
    } else if level == 1 {
        Some(Objects::FlowerOne)
    } else if level == 2 {
        Some(Objects::FlowerTwo)
    } else if level == 3 {
        Some(Objects::FlowerThree)
    } else {
        Some(Objects::FlowerFour)
    }
}

/// The level of commits on a day: what the map holds for the day's number,
/// and none for a day that the map does not hold.
pub open spec fn level_on(commits: Map<i32, u32>, day: int) -> u32 {
    if commits.contains_key(day as i32) {
        commits[day as i32]
    } else {
        0
    }
}

/// The day is one of the year.
pub open spec fn in_year(year: int, day: int) -> bool {
    MIN_YEAR <= year <= MAX_YEAR && day_number(year, 1, 1) <= day <= day_number(year, 12, 31)
}

/// How many of the `days` days from the day `from` on are days of the year.
pub open spec fn days_within(year: int, from: int, days: int) -> nat
    decreases days,
{
    if days <= 0 {
        0
    } else {
        days_within(year, from, days - 1) + if in_year(year, from + days - 1) {
            1nat
        } else {
            0nat
        }
    }
}

/// The place in the list of the language with the largest share, and of the
/// last of them where several have it; none in an empty list.
pub open spec fn dominant_index(languages: Seq<MostUsedLanguage>) -> Option<int>
    decreases languages.len(),
{
    if languages.len() == 0 {
        None
    } else {
        match dominant_index(languages.drop_last()) {
            Some(before) => if languages[before].percentage <= languages.last().percentage {
                Some(languages.len() - 1)
            } else {
                Some(before)
            },
            None => Some(languages.len() - 1),
        }
    }
}

/// The colour of the language with the largest share.
pub open spec fn dominant_color(languages: Seq<MostUsedLanguage>) -> Option<Seq<char>> {
    match dominant_index(languages) {
        Some(index) => Some(languages[index].color@),
        None => None,
    }
}

/// The left edge of the column of a week, in pixels.
pub open spec fn column_x(week: int) -> int {
    GRID_LEFT_PADDING + week * (CELL_SIZE + CELL_SPACING)
}

/// The upper edge of the row of a day of the week, in pixels.
pub open spec fn row_y(day: int) -> int {
    GRID_TOP_PADDING + day * (CELL_SIZE + CELL_SPACING)
}

/// What stands in a cell at `(x, y)`, in units, for a day of the year with
/// `level` commits: the dirt; on it the flower of the level, if any; and on a
/// flower that has a mask a tint in the colour `fill`, if there is one.
pub open spec fn cell_marks_at(x: int, y: int, level: u32, fill: Option<Seq<char>>) -> Seq<Mark> {
    let dirt = seq![Mark::Sprite { x, y, object: Objects::Dirt }];
    match flower_of(level) {
        Some(flower) => {
            let planted = dirt.push(Mark::Sprite { x, y, object: flower });
            if fill is Some && flower.mask_id() is Some {
                planted.push(
                    Mark::Tint {
                        x,
                        y,
                        side: CELL_SIZE as nat,
                        object: flower,
                        fill: fill->0,
                        class: MASK_CLASS@,
                    },
                )
            } else {
                planted
            }
        },
        None => dirt,
    }
}

impl ContributionCells {
    /// What stands in the cell of a week and a day of the week: nothing for
    /// a day outside the year.
    pub open spec fn cell_marks(&self, week: int, day: int) -> Seq<Mark> {
        let date = self.start_date@ + 7 * week + day;
        if in_year(self.year as int, date) {
            cell_marks_at(
                column_x(week) * UNITS_PER_PIXEL,
                row_y(day) * UNITS_PER_PIXEL,
                level_on(self.commits@, date),
                dominant_color(self.most_used_languages@),
            )
        } else {
            Seq::empty()
        }
    }

    /// What stands in the first `days` cells of the column of a week.
    pub open spec fn week_marks(&self, week: int, days: int) -> Seq<Mark>
        decreases days,
    {
        if days <= 0 {
            Seq::empty()
        } else {
            self.week_marks(week, days - 1) + self.cell_marks(week, days - 1)
        }
    }

    /// What stands in the first `weeks` columns of the grid.
    pub open spec fn grid_marks(&self, weeks: int) -> Seq<Mark>
        decreases weeks,
    {
        if weeks <= 0 {
            Seq::empty()
        } else {
            self.grid_marks(weeks - 1) + self.week_marks(weeks - 1, 7)
        }
    }

    /// What stands on the grid, column by column from the left, each from
    /// the top.
    pub open spec fn marks(&self) -> Seq<Mark> {
        self.grid_marks(self.weeks as int)
    }

    /// A grid of `weeks` weeks from `start_date` on, for the year `year`.
    /// The calendar has all its days.
    pub fn new(
        year: i32,
        start_date: Date,
        weeks: usize,
        commits: HashMap<i32, u32>,
        most_used_languages: Vec<MostUsedLanguage>,
    ) -> (cells: Self)
        requires
            start_date@ + 7 * weeks <= LAST_DAY + 1,
        ensures
            cells.wf(),
            cells.year == year,
            cells.start_date == start_date,
            cells.weeks == weeks,
            cells.commits == commits,
            cells.most_used_languages == most_used_languages,
    {
        Self { year, start_date, weeks, commits, most_used_languages }
    }
}

/// The flower for a level of commits.
pub fn flower_for(level: u32) -> (flower: Option<Objects>)
    ensures
        flower == flower_of(level),
{
    match level {
        0 => None,
        1 => Some(Objects::FlowerOne),
        2 => Some(Objects::FlowerTwo),
        3 => Some(Objects::FlowerThree),
        _ => Some(Objects::FlowerFour),
    }
}

/// The place in the list of the language with the largest share: see
/// [`dominant_index`].
pub fn dominant_language(languages: &Vec<MostUsedLanguage>) -> (found: Option<usize>)
    ensures
        found is Some == dominant_index(languages@) is Some,
        found matches Some(index) ==> dominant_index(languages@) == Some(index as int) && index
            < languages.len(),
{
    if languages.len() == 0 {
        return None;
    }
    let mut best: usize = 0;
    let mut i: usize = 1;
    assert(dominant_index(languages@.take(1)) == Some(0int)) by {
        assert(languages@.take(1).drop_last() =~= Seq::<MostUsedLanguage>::empty());
        reveal_with_fuel(dominant_index, 2);
    }
    while i < languages.len()
        invariant
            1 <= i <= languages.len(),
            best < i,
            dominant_index(languages@.take(i as int)) == Some(best as int),
        decreases languages.len() - i,
    {
        assert(languages@.take(i + 1).drop_last() =~= languages@.take(i as int));
        if languages[best].percentage <= languages[i].percentage {
            best = i;
        }
        i += 1;
    }
    assert(languages@.take(i as int) =~= languages@);
    Some(best)
}

fn push_cell(out: &mut String, x: i64, y: i64, level: u32, fill: Option<&str>)
    ensures
        final(out)@ == old(out)@ + marks_text(
            cell_marks_at(
                x as int,
                y as int,
                level,
                match fill {
                    Some(color) => Some(color@),
                    None => None,
                },
            ),
        ),
{
    let ghost color = match fill {
        Some(color) => Some(color@),
        None => None,
    };
    let ghost marks = cell_marks_at(x as int, y as int, level, color);
    proof {
        reveal_with_fuel(marks_text, 4);
        assert(marks.len() <= 3);
        if marks.len() == 3 {
            assert(marks.drop_last().drop_last().drop_last() =~= Seq::<Mark>::empty());
        } else if marks.len() == 2 {
            assert(marks.drop_last().drop_last() =~= Seq::<Mark>::empty());
        } else {
            assert(marks.drop_last() =~= Seq::<Mark>::empty());
        }
    }
    push_sprite(out, x, y, Objects::Dirt);
    match flower_for(level) {
        Some(flower) => {
            push_sprite(out, x, y, flower);
            match fill {
                Some(color) => {
                    if flower.get_mask_id().is_some() {
                        push_tint(out, x, y, CELL_SIZE, flower, color, MASK_CLASS);
                    }
                },
                None => {},
            }
        },
        None => {},
    }
}

impl Renderable for ContributionCells {
    /// The calendar has all the days of the grid.
    open spec fn wf(&self) -> bool {
        self.start_date@ + 7 * self.weeks <= LAST_DAY + 1
    }

    open spec fn fragment(&self) -> Seq<char> {
        marks_text(self.marks())
    }

    fn render(&self) -> (text: String) {
        let mut cells = String::new();
        let fill: Option<&str> = match dominant_language(&self.most_used_languages) {
            Some(index) => Some(self.most_used_languages[index].color.as_str()),
            None => None,
        };
        let bounds = match (Date::from_ymd(self.year, 1, 1), Date::from_ymd(self.year, 12, 31)) {
            (Some(first), Some(last)) => Some((first.day_number(), last.day_number())),
            _ => None,
        };
        let start: i64 = self.start_date.day_number() as i64;
        let mut week: usize = 0;
        while week < self.weeks
            invariant
                week <= self.weeks,
                self.wf(),
                self.start_date.wf(),
                start == self.start_date@,
                bounds is Some == (MIN_YEAR <= self.year <= MAX_YEAR),
                bounds matches Some(b) ==> b.0 == day_number(self.year as int, 1, 1) && b.1
                    == day_number(self.year as int, 12, 31),
                fill is Some == dominant_color(self.most_used_languages@) is Some,
                fill matches Some(color) ==> dominant_color(self.most_used_languages@) == Some(
                    color@,
                ),
                cells@ == marks_text(self.grid_marks(week as int)),
            decreases self.weeks - week,
        {
            let step: u32 = CELL_SIZE + CELL_SPACING;
            assert(week * step <= 0x0200_0000 * 17) by (nonlinear_arith)
                requires
                    week <= 0x0200_0000,
                    step == 17,
            ;
            let x_coord: u32 = GRID_LEFT_PADDING + week as u32 * step;
            let mut day: usize = 0;
            while day < 7
                invariant
                    day <= 7,
                    week < self.weeks,
                    self.wf(),
                    self.start_date.wf(),
                    start == self.start_date@,
                    x_coord == column_x(week as int),
                    bounds is Some == (MIN_YEAR <= self.year <= MAX_YEAR),
                    bounds matches Some(b) ==> b.0 == day_number(self.year as int, 1, 1) && b.1
                        == day_number(self.year as int, 12, 31),
                    fill is Some == dominant_color(self.most_used_languages@) is Some,
                    fill matches Some(color) ==> dominant_color(self.most_used_languages@) == Some(
                        color@,
                    ),
                    cells@ == marks_text(
                        self.grid_marks(week as int) + self.week_marks(week as int, day as int),
                    ),
                decreases 7 - day,
            {
                let current_date: i64 = start + (week * 7 + day) as i64;
                let ghost before = self.grid_marks(week as int) + self.week_marks(
                    week as int,
                    day as int,
                );
                proof {
                    lemma_marks_text_of_both(before, self.cell_marks(week as int, day as int));
                    assert(before + self.cell_marks(week as int, day as int) =~= self.grid_marks(
                        week as int,
                    ) + self.week_marks(week as int, day + 1));
                }
                let in_year = match bounds {
                    Some((first, last)) => first as i64 <= current_date && current_date
                        <= last as i64,
                    None => false,
                };
                if in_year {
                    let step: u32 = CELL_SIZE + CELL_SPACING;
                    assert(day * step <= 7 * 17) by (nonlinear_arith)
                        requires
                            day <= 7,
                            step == 17,
                    ;
                    let y_coord: u32 = GRID_TOP_PADDING + day as u32 * step;
                    let key: i32 = current_date as i32;
                    let commit_level: u32 = match self.commits.get(&key) {
                        Some(level) => *level,
                        None => 0,
                    };
                    push_cell(
                        &mut cells,
                        x_coord as i64 * UNITS_PER_PIXEL,
                        y_coord as i64 * UNITS_PER_PIXEL,
                        commit_level,
                        fill,
                    );
                }
                day += 1;
            }
            week += 1;
        }
        cells
    }
}

/// A day without commits gets no flower; the levels 1, 2 and 3 get three
/// different flowers; every level from 4 on gets the same fourth.
pub proof fn lemma_levels_have_their_flowers(level: u32, other: u32)
    ensures
        flower_of(level) is None <==> level == 0,
        1 <= level <= 3 && 1 <= other <= 3 && level != other ==> flower_of(level) != flower_of(
            other,
        ),
        level >= 4 ==> flower_of(level) == Some(Objects::FlowerFour),
        level >= 4 && 1 <= other <= 3 ==> flower_of(level) != flower_of(other),
{
}

/// The language that is found has the largest share of all, and a larger
/// one than every language listed after it. An empty list has none.
pub proof fn lemma_dominant_language_leads(languages: Seq<MostUsedLanguage>)
    ensures
        dominant_index(languages) is None <==> languages.len() == 0,
        dominant_index(languages) matches Some(index) ==> {
            &&& 0 <= index < languages.len()
            &&& forall|i: int|
                0 <= i < languages.len() ==> (#[trigger] languages[i]).percentage
                    <= languages[index].percentage
            &&& forall|i: int|
                index < i < languages.len() ==> (#[trigger] languages[i]).percentage
                    < languages[index].percentage
        },
    decreases languages.len(),
{
    if languages.len() > 0 {
        lemma_dominant_language_leads(languages.drop_last());
        let index = dominant_index(languages)->0;
        assert forall|i: int| 0 <= i < languages.len() implies (#[trigger] languages[i]).percentage
            <= languages[index].percentage by {
            if i < languages.len() - 1 {
                assert(languages.drop_last()[i] == languages[i]);
            }
        }
        assert forall|i: int| index < i < languages.len() implies (
        #[trigger] languages[i]).percentage < languages[index].percentage by {
            if i < languages.len() - 1 {
                assert(languages.drop_last()[i] == languages[i]);
            }
        }
    }
}

/// Days counted in two parts are counted in all.
pub proof fn lemma_days_within_of_both(year: int, from: int, first: int, second: int)
    requires
        first >= 0,
        second >= 0,
    ensures
        days_within(year, from, first + second) == days_within(year, from, first) + days_within(
            year,
            from + first,
            second,
        ),
    decreases second,
{
    if second > 0 {
        lemma_days_within_of_both(year, from, first, second - 1);
    }
}

/// Days that hold a whole year hold as many days of the year as the year
/// has.
pub proof fn lemma_days_within_a_frame(year: int, from: int, days: int)
    requires
        MIN_YEAR <= year <= MAX_YEAR,
        days >= 0,
    ensures
        from <= day_number(year, 1, 1) && day_number(year, 12, 31) < from + days ==> days_within(
            year,
            from,
            days,
        ) == day_number(year, 12, 31) - day_number(year, 1, 1) + 1,
        from + days <= day_number(year, 1, 1) ==> days_within(year, from, days) == 0,
        from <= day_number(year, 1, 1) <= from + days <= day_number(year, 12, 31) + 1
            ==> days_within(year, from, days) == from + days - day_number(year, 1, 1),
    decreases days,
{
    crate::utils::date::lemma_day_numbers_lie_in_the_calendar(year, 1, 1);
    if days > 0 {
        lemma_days_within_a_frame(year, from, days - 1);
    }
}

/// A cell holds one tile of dirt if its day is one of the year, and none if
/// it is not.
proof fn lemma_cells_hold_their_dirt(cells: ContributionCells, week: int, days: int)
    requires
        0 <= days <= 7,
    ensures
        count_sprites(cells.week_marks(week, days), Objects::Dirt) == days_within(
            cells.year as int,
            cells.start_date@ + 7 * week,
            days,
        ),
    decreases days,
{
    if days > 0 {
        lemma_cells_hold_their_dirt(cells, week, days - 1);
        let cell = cells.cell_marks(week, days - 1);
        lemma_count_sprites_of_both(cells.week_marks(week, days - 1), cell, Objects::Dirt);
        reveal_with_fuel(count_sprites, 4);
        if cell.len() == 3 {
            assert(cell.drop_last().drop_last().drop_last() =~= Seq::<Mark>::empty());
        } else if cell.len() == 2 {
            assert(cell.drop_last().drop_last() =~= Seq::<Mark>::empty());
        } else if cell.len() == 1 {
            assert(cell.drop_last() =~= Seq::<Mark>::empty());
        }
    }
}

/// The grid holds a tile of dirt for each of its days that is a day of the
/// year, and no other.
pub proof fn lemma_grid_holds_dirt_for_the_days_of_the_year(cells: ContributionCells, weeks: int)
    requires
        weeks >= 0,
    ensures
        count_sprites(cells.grid_marks(weeks), Objects::Dirt) == days_within(
            cells.year as int,
            cells.start_date@,
            7 * weeks,
        ),
    decreases weeks,
{
    if weeks > 0 {
        lemma_grid_holds_dirt_for_the_days_of_the_year(cells, weeks - 1);
        lemma_cells_hold_their_dirt(cells, weeks - 1, 7);
        lemma_count_sprites_of_both(
            cells.grid_marks(weeks - 1),
            cells.week_marks(weeks - 1, 7),
            Objects::Dirt,
        );
        lemma_days_within_of_both(cells.year as int, cells.start_date@, 7 * (weeks - 1), 7);
    }
}

/// The grid of the weeks that frame a year has seven cells to the week, and
/// a tile of dirt in each cell whose day is a day of the year: as many
/// tiles as the year has days, which is fewer than the grid has cells.
pub proof fn lemma_grid_of_a_year_has_a_tile_for_each_day(cells: ContributionCells)
    requires
        year_range(cells.year as int) == Some(
            (cells.start_date@, cells.start_date@ + 7 * cells.weeks - 1),
        ),
    ensures
        cells.weeks == weeks_between(cells.start_date@, cells.start_date@ + 7 * cells.weeks - 1),
        count_sprites(cells.marks(), Objects::Dirt) == day_number(cells.year as int, 12, 31)
            - day_number(cells.year as int, 1, 1) + 1,
        365 <= count_sprites(cells.marks(), Objects::Dirt) <= 366,
        count_sprites(cells.marks(), Objects::Dirt) < 7 * cells.weeks,
{
    let year = cells.year as int;
    lemma_year_range_frames_the_year(year);
    lemma_grid_holds_dirt_for_the_days_of_the_year(cells, cells.weeks as int);
    lemma_days_within_a_frame(year, cells.start_date@, 7 * cells.weeks);
    crate::utils::date::lemma_day_numbers_lie_in_the_calendar(year, 1, 1);
}

/// Where no day of the grid has commits, the grid holds dirt and nothing
/// else.
pub proof fn lemma_grid_without_commits_is_bare(cells: ContributionCells, weeks: int)
    requires
        forall|day: int| level_on(cells.commits@, day) == 0,
    ensures
        forall|i: int|
            0 <= i < cells.grid_marks(weeks).len() ==> is_sprite_of(
                #[trigger] cells.grid_marks(weeks)[i],
                Objects::Dirt,
            ),
    decreases weeks,
{
    if weeks > 0 {
        lemma_grid_without_commits_is_bare(cells, weeks - 1);
        lemma_week_without_commits_is_bare(cells, weeks - 1, 7);
        let before = cells.grid_marks(weeks - 1);
        let week = cells.week_marks(weeks - 1, 7);
        assert forall|i: int| 0 <= i < cells.grid_marks(weeks).len() implies is_sprite_of(
            #[trigger] cells.grid_marks(weeks)[i],
            Objects::Dirt,
        ) by {
            if i < before.len() {
                assert(is_sprite_of(before[i], Objects::Dirt));
            } else {
                assert(is_sprite_of(week[i - before.len()], Objects::Dirt));
            }
        }
    }
}

proof fn lemma_week_without_commits_is_bare(cells: ContributionCells, week: int, days: int)
    requires
        forall|day: int| level_on(cells.commits@, day) == 0,
    ensures
        forall|i: int|
            0 <= i < cells.week_marks(week, days).len() ==> is_sprite_of(
                #[trigger] cells.week_marks(week, days)[i],
                Objects::Dirt,
            ),
    decreases days,
{
    if days > 0 {
        lemma_week_without_commits_is_bare(cells, week, days - 1);
        assert(level_on(cells.commits@, cells.start_date@ + 7 * week + (days - 1)) == 0);
        let before = cells.week_marks(week, days - 1);
        let cell = cells.cell_marks(week, days - 1);
        assert forall|i: int| 0 <= i < cells.week_marks(week, days).len() implies is_sprite_of(
            #[trigger] cells.week_marks(week, days)[i],
            Objects::Dirt,
        ) by {
            if i < before.len() {
                assert(is_sprite_of(before[i], Objects::Dirt));
            } else {
                assert(cell.len() == 1);
                assert(is_sprite_of(cell[i - before.len()], Objects::Dirt));
            }
        }
    }
}

} // verus!
