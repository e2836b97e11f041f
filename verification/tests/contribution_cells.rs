use std::collections::HashMap;

use gitgarden::api::languages::MostUsedLanguage;
use gitgarden::render::contribution_cells::{
    dominant_language, flower_for, ContributionCells,
};
use gitgarden::render::objects::Objects;
use gitgarden::render::renderable::Renderable;
use gitgarden::utils::date::{calculate_weeks, get_year_range, Date};

fn day(year: i32, month: u32, day: u32) -> i32 {
    Date::from_ymd(year, month, day).unwrap().day_number()
}

fn language(name: &str, color: &str, percentage: u32) -> MostUsedLanguage {
    MostUsedLanguage {
        name: name.to_string(),
        color: color.to_string(),
        percentage,
    }
}

#[test]
fn test_contribution_cells_render_empty() {
    let year = 2024;
    let start_date = Date::from_ymd(2024, 1, 1).unwrap();
    let weeks = 1;
    let commits = HashMap::new();
    let most_used_languages = vec![language("Rust", "#dea584", 10000)];

    let cells = ContributionCells::new(year, start_date, weeks, commits, most_used_languages);
    let rendered = cells.render();

    let object_id = format!("#{}", Objects::Dirt.to_string());

    assert_eq!(rendered.matches("<use").count(), 7);
    assert_eq!(rendered.matches(&object_id).count(), 7);
}

#[test]
fn test_contribution_cells_render_with_commits() {
    let year = 2023;
    let start_date = Date::from_ymd(2023, 1, 1).unwrap();
    let weeks = 1;
    let mut commits = HashMap::new();
    commits.insert(day(2023, 1, 1), 1);
    commits.insert(day(2023, 1, 3), 2);
    commits.insert(day(2023, 1, 5), 3);
    commits.insert(day(2023, 1, 7), 4);
    let most_used_languages = vec![language("Rust", "#dea584", 10000)];

    let cells = ContributionCells::new(year, start_date, weeks, commits, most_used_languages);
    let rendered = cells.render();

    assert_eq!(rendered.matches("<use").count(), 7 + 4);
    assert!(rendered.contains("flower-1"));
    assert!(rendered.contains("flower-2"));
    assert!(rendered.contains("flower-3"));
    assert!(rendered.contains("flower-4"));
}

#[test]
fn test_most_used_language_is_none() {
    let year = 2024;
    let start_date = Date::from_ymd(2024, 1, 1).unwrap();
    let weeks = 1;
    let commits = HashMap::new();
    let most_used_languages = vec![];

    let cells = ContributionCells::new(year, start_date, weeks, commits, most_used_languages);
    let rendered = cells.render();

    assert_eq!(rendered.matches("<use").count(), 7);
    assert_eq!(rendered.matches("<rect").count(), 0);
}

#[test]
fn a_week_is_written_cell_by_cell() {
    let mut commits = HashMap::new();
    commits.insert(day(2023, 1, 2), 3);
    commits.insert(day(2023, 1, 3), 9);
    let languages = vec![language("Rust", "#dea584", 6000), language("Go", "#00ADD8", 4000)];
    let cells =
        ContributionCells::new(2023, Date::from_ymd(2023, 1, 1).unwrap(), 1, commits, languages);
    let expected = [
        r##"<use x="6" y="340" xlink:href="#dirt" />"##,
        r##"<use x="6" y="357" xlink:href="#dirt" />"##,
        r##"<use x="6" y="357" xlink:href="#flower-3" />"##,
        r##"<use x="6" y="374" xlink:href="#dirt" />"##,
        r##"<use x="6" y="374" xlink:href="#flower-4" />"##,
        r##"<rect mask="url(#mask-flower-4)" x="6" y="374" width="16" height="16" fill="#dea584" class="mask" />"##,
        r##"<use x="6" y="391" xlink:href="#dirt" />"##,
        r##"<use x="6" y="408" xlink:href="#dirt" />"##,
        r##"<use x="6" y="425" xlink:href="#dirt" />"##,
        r##"<use x="6" y="442" xlink:href="#dirt" />"##,
    ]
    .concat();
    assert_eq!(cells.render(), expected);
}

#[test]
fn flowers_without_a_mask_are_not_tinted() {
    let mut commits = HashMap::new();
    commits.insert(day(2023, 1, 1), 1);
    commits.insert(day(2023, 1, 2), 2);
    commits.insert(day(2023, 1, 3), 3);
    let languages = vec![language("Rust", "#dea584", 10000)];
    let cells =
        ContributionCells::new(2023, Date::from_ymd(2023, 1, 1).unwrap(), 1, commits, languages);
    let rendered = cells.render();
    assert_eq!(rendered.matches("<use").count(), 10);
    assert_eq!(rendered.matches("<rect").count(), 0);
}

#[test]
fn the_fourth_flower_is_tinted_and_no_other() {
    let mut commits = HashMap::new();
    for (offset, level) in [(0, 1), (1, 2), (2, 3), (3, 4), (4, 5), (5, 100)] {
        commits.insert(day(2023, 1, 1) + offset, level);
    }
    let languages = vec![language("Rust", "#dea584", 10000)];
    let cells =
        ContributionCells::new(2023, Date::from_ymd(2023, 1, 1).unwrap(), 1, commits, languages);
    let rendered = cells.render();
    assert_eq!(rendered.matches("<rect").count(), 3);
    assert_eq!(rendered.matches("url(#mask-flower-4)").count(), 3);
    assert_eq!(rendered.matches("#flower-4\"").count(), 3);
}

#[test]
fn days_outside_the_year_get_no_cell() {
    let (start, end) = get_year_range(2024).unwrap();
    let weeks = calculate_weeks(start, end);
    assert_eq!(weeks, 53);
    let mut commits = HashMap::new();
    commits.insert(day(2023, 12, 31), 4);
    commits.insert(day(2025, 1, 1), 4);
    let cells = ContributionCells::new(2024, start, weeks, commits, vec![]);
    let rendered = cells.render();
    assert_eq!(rendered.matches("#dirt").count(), 366);
    assert_eq!(rendered.matches("<use").count(), 366);
    assert!(rendered.starts_with(r##"<use x="6" y="357" xlink:href="#dirt" />"##));
    assert!(rendered.ends_with(r##"<use x="890" y="374" xlink:href="#dirt" />"##));

    let (start, end) = get_year_range(2023).unwrap();
    let cells = ContributionCells::new(2023, start, calculate_weeks(start, end), HashMap::new(), vec![]);
    assert_eq!(cells.render().matches("#dirt").count(), 365);
}

#[test]
fn a_year_that_the_calendar_lacks_has_no_cells() {
    let start = Date::from_ymd(2024, 1, 1).unwrap();
    let cells = ContributionCells::new(i32::MAX, start, 2, HashMap::new(), vec![]);
    assert_eq!(cells.render(), "");
    let cells = ContributionCells::new(2024, start, 0, HashMap::new(), vec![]);
    assert_eq!(cells.render(), "");
}

#[test]
fn levels_have_their_flowers() {
    assert_eq!(flower_for(0), None);
    assert_eq!(flower_for(1), Some(Objects::FlowerOne));
    assert_eq!(flower_for(2), Some(Objects::FlowerTwo));
    assert_eq!(flower_for(3), Some(Objects::FlowerThree));
    assert_eq!(flower_for(4), Some(Objects::FlowerFour));
    assert_eq!(flower_for(5), Some(Objects::FlowerFour));
    assert_eq!(flower_for(u32::MAX), Some(Objects::FlowerFour));
}

#[test]
fn the_largest_share_leads_and_the_last_of_equals() {
    assert_eq!(dominant_language(&vec![]), None);
    assert_eq!(dominant_language(&vec![language("a", "#1", 0)]), Some(0));
    let languages = vec![
        language("a", "#1", 2000),
        language("b", "#2", 5000),
        language("c", "#3", 3000),
    ];
    assert_eq!(dominant_language(&languages), Some(1));
    let languages = vec![
        language("a", "#1", 4000),
        language("b", "#2", 2000),
        language("c", "#3", 4000),
    ];
    assert_eq!(dominant_language(&languages), Some(2));
    let expected = languages
        .iter()
        .enumerate()
        .max_by(|a, b| a.1.percentage.cmp(&b.1.percentage))
        .map(|found| found.0);
    assert_eq!(dominant_language(&languages), expected);
}

#[test]
fn the_tint_has_the_colour_of_the_leading_language() {
    let mut commits = HashMap::new();
    commits.insert(day(2023, 1, 1), 4);
    let languages = vec![
        language("a", "#111111", 4000),
        language("b", "#222222", 2000),
        language("c", "#333333", 4000),
    ];
    let cells =
        ContributionCells::new(2023, Date::from_ymd(2023, 1, 1).unwrap(), 1, commits, languages);
    let rendered = cells.render();
    assert!(rendered.contains(r##"fill="#333333""##));
    assert!(!rendered.contains(r##"fill="#111111""##));
}
