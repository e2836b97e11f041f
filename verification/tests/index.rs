use std::collections::HashMap;

use gitgarden::services::index::{generate_contribution_cells, generate_svg, get_cell_color};
use gitgarden::utils::date::{calculate_weeks, get_year_range, Date};

#[test]
fn squares_have_their_shades() {
    assert_eq!(get_cell_color(true, &0), "#ebedf0");
    assert_eq!(get_cell_color(true, &1), "#c6e48b");
    assert_eq!(get_cell_color(true, &2), "#7bc96f");
    assert_eq!(get_cell_color(true, &3), "#239a3b");
    assert_eq!(get_cell_color(true, &4), "#196127");
    assert_eq!(get_cell_color(true, &5), "#ebedf0");
    assert_eq!(get_cell_color(true, &u32::MAX), "#ebedf0");
    for level in 0..6 {
        assert_eq!(get_cell_color(false, &level), "#ffffff");
    }
}

#[test]
fn the_image_frames_the_squares() {
    assert_eq!(
        generate_svg("<rect />".to_string()),
        "\n        <svg\n            xmlns=\"http://www.w3.org/2000/svg\"\n            xmlns:xlink=\"http://www.w3.org/1999/xlink\"\n            viewBox=\"0 0 930 465\"\n            fill=\"none\"\n        >\n        <rect />\n        </svg>\n        "
    );
}

#[test]
fn a_week_is_written_square_by_square() {
    let mut commits = HashMap::new();
    commits.insert(Date::from_ymd(2024, 1, 1).unwrap().day_number(), 2);
    commits.insert(Date::from_ymd(2023, 12, 31).unwrap().day_number(), 4);
    let start = Date::from_ymd(2023, 12, 31).unwrap();
    let cells = generate_contribution_cells(2024, start, 1, commits);
    let expected = [
        "  <rect width=\"10\" height=\"10\" x=\"13\" y=\"13\" fill=\"#ffffff\" title=\"2023-12-31\" data-level=\"4\" />\n",
        "  <rect width=\"10\" height=\"10\" x=\"13\" y=\"27\" fill=\"#7bc96f\" title=\"2024-01-01\" data-level=\"2\" />\n",
        "  <rect width=\"10\" height=\"10\" x=\"13\" y=\"41\" fill=\"#ebedf0\" title=\"2024-01-02\" data-level=\"0\" />\n",
        "  <rect width=\"10\" height=\"10\" x=\"13\" y=\"55\" fill=\"#ebedf0\" title=\"2024-01-03\" data-level=\"0\" />\n",
        "  <rect width=\"10\" height=\"10\" x=\"13\" y=\"69\" fill=\"#ebedf0\" title=\"2024-01-04\" data-level=\"0\" />\n",
        "  <rect width=\"10\" height=\"10\" x=\"13\" y=\"83\" fill=\"#ebedf0\" title=\"2024-01-05\" data-level=\"0\" />\n",
        "  <rect width=\"10\" height=\"10\" x=\"13\" y=\"97\" fill=\"#ebedf0\" title=\"2024-01-06\" data-level=\"0\" />\n",
    ]
    .concat();
    assert_eq!(cells, expected);
}

#[test]
fn a_year_has_a_square_for_each_day_of_its_weeks() {
    let (start, end) = get_year_range(2024).unwrap();
    let weeks = calculate_weeks(start, end);
    let cells = generate_contribution_cells(2024, start, weeks, HashMap::new());
    assert_eq!(cells.matches("<rect").count(), 53 * 7);
    assert_eq!(cells.matches("fill=\"#ffffff\"").count(), 5);
    assert_eq!(cells.matches("fill=\"#ebedf0\"").count(), 366);
    assert!(cells.ends_with("x=\"741\" y=\"97\" fill=\"#ffffff\" title=\"2025-01-04\" data-level=\"0\" />\n"));
    assert_eq!(generate_contribution_cells(2024, start, 0, HashMap::new()), "");
}
