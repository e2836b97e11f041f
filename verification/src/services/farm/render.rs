//! From the data of a user's year to the image of the farm.

use crate::constants::render::{CELL_SIZE, CELL_SPACING, FARM_HEIGHT, GRID_LEFT_PADDING};
use crate::render::contribution_cells::ContributionCells;
use crate::render::farm::{Farm, Layer};
use crate::render::grasses::Grasses;
use crate::render::home::{home_footprint, home_zone, Home};
use crate::render::trees::Trees;
use crate::services::farm::fetcher::FetchedData;
use crate::utils::color::FULL_SHARE;
use crate::utils::date::{
    calculate_day_passed_in_year, calculate_weeks, days_passed, get_year_range,
    lemma_year_range_frames_the_year, weeks_between, year_range,
};
use vstd::prelude::*;

verus! {

broadcast use vstd::std_specs::hash::group_hash_axioms;

/// The bytes of the pictures that the image carries; `None` for a picture
/// that is missing.
pub struct Assets {
    /// The pictures of the sprites of the catalog, in the catalog's order.
    pub sprites: Vec<Option<Vec<u8>>>,
    /// The picture of the house.
    pub home: Option<Vec<u8>>,
    /// The picture of the road.
    pub road: Option<Vec<u8>>,
}

#[derive(Debug)]
pub enum FarmError {
    /// The calendar does not have the whole weeks that frame the year.
    YearRange,
}

impl FarmError {
    pub open spec fn text(self) -> Seq<char> {
        "Failed to get year range"@
    }

    pub fn to_string(&self) -> (message: String)
        ensures
            message@ == self.text(),
    {
        "Failed to get year range".to_string()
    }
}

/// How far a year has progressed, in hundredths of a percent: the days with
/// commits against half the days that have passed, and no further than the
/// whole.
pub open spec fn progress_of(active_days: nat, days: nat) -> nat {
    if days == 0 || 2 * active_days >= days {
        FULL_SHARE as nat
    } else {
        20000 * active_days / days
    }
}

/// The width of the image for a grid of so many weeks, in pixels: the
/// columns of the grid and the space to its left and right.
pub open spec fn width_of(weeks: nat) -> nat {
    weeks * (CELL_SIZE + CELL_SPACING) as nat + 2 * GRID_LEFT_PADDING as nat
}

/// The farm is the one of a user's year: as wide as the year's grid asks,
/// the ground as far towards grass as the year has progressed; at the
/// bottom the grid of the year with the commits and languages that were
/// fetched; on top the house; between them, where the counters were fetched,
/// the grass and then the trees, both keeping off the house and its road,
/// and nothing where they were not.
pub open spec fn is_farm_of(
    farm: Farm,
    user_name: Seq<char>,
    year: i32,
    data: FetchedData,
    today: (i32, u32, u32),
    assets: Assets,
) -> bool {
    let (start, end) = year_range(year as int)->0;
    let weeks = weeks_between(start, end);
    let top = farm.objects.len() - 1;
    &&& farm.width == width_of(weeks as nat)
    &&& farm.height == FARM_HEIGHT
    &&& farm.progress == progress_of(
        data.commits@.len(),
        days_passed(year as int, today.0 as int, today.1 as int, today.2 as int) as nat,
    )
    &&& farm.pictures == assets.sprites
    &&& farm.objects.len() == if data.stats is Ok {
        4int
    } else {
        2int
    }
    &&& farm.objects[0] matches Layer::ContributionCells(cells)
    &&& cells.year == year
    &&& cells.start_date@ == start
    &&& cells.weeks == weeks
    &&& cells.commits == data.commits
    &&& cells.most_used_languages == data.languages
    &&& farm.objects[top] matches Layer::Home(home)
    &&& home.coordinate == home_footprint(user_name)
    &&& home.dead_zone == home_zone(user_name)
    &&& home.home_picture == assets.home
    &&& home.road_picture == assets.road
    &&& data.stats matches Ok(stats) ==> {
        &&& farm.objects[1] matches Layer::Grasses(grasses)
        &&& grasses.user_name@ == user_name
        &&& grasses.width == farm.width
        &&& grasses.contributions == stats.contributions_collection
        &&& grasses.dead_zone == home_zone(user_name)
        &&& farm.objects[2] matches Layer::Trees(trees)
        &&& trees.user_name@ == user_name
        &&& trees.width == farm.width
        &&& trees.count == stats.contributions_collection.total_repositories_with_contributed_commits
        &&& trees.dead_zone == home_zone(user_name)
    }
}

/// How far a year has progressed: see [`progress_of`].
pub fn progress_share(active_days: usize, days: u32) -> (progress: u32)
    ensures
        progress == progress_of(active_days as nat, days as nat),
        progress <= FULL_SHARE,
{
    if days == 0 || active_days >= days as usize || 2 * (active_days as u64) >= days as u64 {
        FULL_SHARE
    } else {
        assert(20000 * active_days / (days as int) <= 10000) by (nonlinear_arith)
            requires
                2 * active_days < days,
                days > 0,
        ;
        (20000 * active_days as u64 / days as u64) as u32
    }
}

/// Builds the farm of a user's year from what was fetched, on the day
/// `today`, given as year, month and day of the month. It fails where the
/// calendar does not have the weeks that frame the year, and only there.
pub fn compose_farm(
    user_name: &str,
    year: i32,
    data: FetchedData,
    today: (i32, u32, u32),
    assets: Assets,
) -> (farm: Result<Farm, FarmError>)
    ensures
        farm is Ok == year_range(year as int) is Some,
        farm matches Ok(composed) ==> composed.wf() && is_farm_of(
            composed,
            user_name@,
            year,
            data,
            today,
            assets,
        ),
{
    let FetchedData { commits, stats, languages } = data;
    let Assets { sprites, home: home_picture, road: road_picture } = assets;
    let (start_date, end_date) = match get_year_range(year) {
        Some((start_date, end_date)) => (start_date, end_date),
        None => {
            return Err(FarmError::YearRange);
        },
    };
    proof {
        lemma_year_range_frames_the_year(year as int);
    }
    let weeks = calculate_weeks(start_date, end_date);
    let width: u32 = weeks as u32 * (CELL_SIZE + CELL_SPACING) + GRID_LEFT_PADDING * 2;
    let height: u32 = FARM_HEIGHT;

    let mut farm = Farm::new(width, height);
    let progress = progress_share(commits.len(), calculate_day_passed_in_year(year, today));
    let home = Home::new(user_name).with_pictures(home_picture, road_picture);

    farm.set_pictures(sprites);
    farm.set_progress(progress);
    farm.add_object(
        Layer::ContributionCells(ContributionCells::new(year, start_date, weeks, commits, languages)),
    );
    match &stats {
        Ok(stats) => {
            farm.add_object(
                Layer::Grasses(
                    Grasses::new(
                        user_name,
                        width,
                        &stats.contributions_collection,
                        &home.dead_zone,
                    ),
                ),
            );
            farm.add_object(
                Layer::Trees(
                    Trees::new(
                        user_name,
                        width,
                        stats.contributions_collection.total_repositories_with_contributed_commits,
                        &home.dead_zone,
                    ),
                ),
            );
        },
        Err(_) => {},
    }
    farm.add_object(Layer::Home(home));
    Ok(farm)
}

/// Draws the farm of a user's year: the text of the farm that
/// [`compose_farm`] builds.
pub fn render_farm(
    user_name: &str,
    year: i32,
    data: FetchedData,
    today: (i32, u32, u32),
    assets: Assets,
) -> (svg: Result<String, FarmError>)
    ensures
        svg is Ok == year_range(year as int) is Some,
        svg matches Ok(text) ==> exists|farm: Farm|
            farm.wf() && #[trigger] is_farm_of(farm, user_name@, year, data, today, assets)
                && text@ == farm.document(),
{
    match compose_farm(user_name, year, data, today, assets) {
        Ok(farm) => Ok(farm.render()),
        Err(error) => Err(error),
    }
}

} // verus!
