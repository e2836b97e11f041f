use chrono::{Datelike, NaiveDate, Weekday};
use gitgarden::utils::date::{
    calculate_day_passed_in_year, calculate_weeks, get_year_range, Date, FIRST_DAY, LAST_DAY,
    MAX_YEAR, MIN_YEAR,
};

fn naive(date: Date) -> NaiveDate {
    NaiveDate::from_num_days_from_ce_opt(date.day_number()).unwrap()
}

fn date(year: i32, month: u32, day: u32) -> Date {
    Date::from_ymd(year, month, day).unwrap()
}

#[test]
fn test_get_year_range_normal_year() {
    let (start, end) = get_year_range(2024).unwrap();

    assert_eq!(start, date(2023, 12, 31));
    assert_eq!(end, date(2025, 1, 4));
    assert_eq!(naive(start), NaiveDate::from_ymd_opt(2023, 12, 31).unwrap());
    assert_eq!(naive(end), NaiveDate::from_ymd_opt(2025, 1, 4).unwrap());

    assert_eq!(naive(start).weekday(), Weekday::Sun);
    assert_eq!(naive(end).weekday(), Weekday::Sat);
}

#[test]
fn test_get_year_range_leap_year() {
    let (start, end) = get_year_range(2024).unwrap();

    assert_eq!(start, date(2023, 12, 31));
    assert_eq!(end, date(2025, 1, 4));

    assert_eq!(naive(start).weekday(), Weekday::Sun);
    assert_eq!(naive(end).weekday(), Weekday::Sat);
}

#[test]
fn test_get_year_range_min_year() {
    assert!(get_year_range(i32::MIN).is_none());
}

#[test]
fn test_get_year_range_max_year() {
    assert!(get_year_range(i32::MAX).is_none());
}

#[test]
fn test_get_year_range_out_of_range_low() {
    assert!(get_year_range(-262144).is_none());
}

#[test]
fn test_get_year_range_out_of_range_high() {
    assert!(get_year_range(262144).is_none());
}

#[test]
fn test_get_year_range_year_0() {
    let (start, end) = get_year_range(0).unwrap();

    assert_eq!(start, date(-1, 12, 26));
    assert_eq!(end, date(1, 1, 6));
    assert_eq!(naive(start), NaiveDate::from_ymd_opt(-1, 12, 26).unwrap());
    assert_eq!(naive(end), NaiveDate::from_ymd_opt(1, 1, 6).unwrap());

    assert_eq!(naive(start).weekday(), Weekday::Sun);
    assert_eq!(naive(end).weekday(), Weekday::Sat);
}

#[test]
fn test_get_year_range_consistency() {
    for year in -1000..=1000 {
        let (start, end) = get_year_range(year).unwrap();

        assert_eq!(naive(start).weekday(), Weekday::Sun);
        assert!(naive(end).weekday() == Weekday::Sat || naive(end).weekday() == Weekday::Sun);
        assert!(naive(start) <= NaiveDate::from_ymd_opt(year, 1, 1).unwrap());
        assert!(naive(end) >= NaiveDate::from_ymd_opt(year, 12, 31).unwrap());
    }
}

#[test]
fn day_numbers_are_those_of_the_calendar() {
    assert_eq!(date(1, 1, 1).day_number(), 1);
    assert_eq!(date(0, 12, 31).day_number(), 0);
    assert_eq!(date(0, 1, 1).day_number(), -365);
    assert_eq!(date(2, 1, 1).day_number(), 366);
    assert_eq!(date(1970, 1, 1).day_number(), 719_163);
    assert_eq!(date(2024, 2, 29).day_number(), 738_945);
    assert_eq!(date(MIN_YEAR, 1, 1).day_number(), FIRST_DAY);
    assert_eq!(date(MAX_YEAR, 12, 31).day_number(), LAST_DAY);
    assert_eq!(NaiveDate::MIN.num_days_from_ce(), FIRST_DAY);
    assert_eq!(NaiveDate::MAX.num_days_from_ce(), LAST_DAY);
}

#[test]
fn the_calendar_has_the_days_it_should() {
    assert!(Date::from_ymd(2023, 2, 29).is_none());
    assert!(Date::from_ymd(2024, 2, 29).is_some());
    assert!(Date::from_ymd(1900, 2, 29).is_none());
    assert!(Date::from_ymd(2000, 2, 29).is_some());
    assert!(Date::from_ymd(2024, 4, 31).is_none());
    assert!(Date::from_ymd(2024, 0, 1).is_none());
    assert!(Date::from_ymd(2024, 13, 1).is_none());
    assert!(Date::from_ymd(2024, 1, 0).is_none());
    assert!(Date::from_ymd(2024, 1, 32).is_none());
    assert!(Date::from_ymd(MIN_YEAR - 1, 12, 31).is_none());
    assert!(Date::from_ymd(MAX_YEAR + 1, 1, 1).is_none());
    assert!(Date::from_day_number(FIRST_DAY).is_some());
    assert!(Date::from_day_number(FIRST_DAY - 1).is_none());
    assert!(Date::from_day_number(LAST_DAY).is_some());
    assert!(Date::from_day_number(LAST_DAY + 1).is_none());
}

#[test]
fn weekdays_count_from_sunday() {
    assert_eq!(date(2024, 1, 1).weekday(), 1);
    assert_eq!(date(2023, 12, 31).weekday(), 0);
    assert_eq!(date(2025, 1, 4).weekday(), 6);
    assert_eq!(date(1, 1, 1).weekday(), 1);
    assert_eq!(date(-1, 12, 26).weekday(), 0);
    for days in (FIRST_DAY..=LAST_DAY).step_by(999_983).chain(-20..=20) {
        let day = Date::from_day_number(days).unwrap();
        assert_eq!(day.weekday(), naive(day).weekday().num_days_from_sunday());
        assert_eq!(day.weekday() as i32, days.rem_euclid(7));
    }
}

#[test]
fn days_are_added_within_the_calendar() {
    let day = date(2024, 12, 31);
    assert_eq!(day.checked_add_days(1), Some(date(2025, 1, 1)));
    assert_eq!(day.checked_add_days(-366), Some(date(2023, 12, 31)));
    assert_eq!(day.checked_add_days(0), Some(day));
    assert_eq!(date(MAX_YEAR, 12, 31).checked_add_days(1), None);
    assert_eq!(date(MIN_YEAR, 1, 1).checked_add_days(-1), None);
    assert_eq!(day.checked_add_days(i64::MAX), None);
    assert_eq!(day.checked_add_days(i64::MIN), None);
}

#[test]
fn every_year_of_the_calendar_is_framed_as_chrono_frames_it() {
    for year in (MIN_YEAR..=MAX_YEAR).step_by(997).chain([MIN_YEAR, MIN_YEAR + 1, MAX_YEAR - 1, MAX_YEAR]) {
        let first = NaiveDate::from_ymd_opt(year, 1, 1).unwrap();
        let last = NaiveDate::from_ymd_opt(year, 12, 31).unwrap();
        let start = first.checked_sub_signed(chrono::Duration::days(
            first.weekday().num_days_from_sunday() as i64,
        ));
        let end = last.checked_add_signed(chrono::Duration::days(
            (6 - last.weekday().num_days_from_sunday()) as i64,
        ));
        let expected = match (start, end) {
            (Some(start), Some(end)) => Some((start, end)),
            _ => None,
        };
        let found = get_year_range(year).map(|(start, end)| (naive(start), naive(end)));
        assert_eq!(found, expected, "year {}", year);
    }
    assert!(get_year_range(MIN_YEAR).is_none() || naive(get_year_range(MIN_YEAR).unwrap().0) == NaiveDate::MIN);
}

#[test]
fn a_year_has_53_or_54_weeks() {
    let (start, end) = get_year_range(2024).unwrap();
    assert_eq!(calculate_weeks(start, end), 53);
    let (start, end) = get_year_range(2023).unwrap();
    assert_eq!(calculate_weeks(start, end), 53);
    let (start, end) = get_year_range(2000).unwrap();
    assert_eq!(calculate_weeks(start, end), 54);
    assert_eq!(calculate_weeks(date(2024, 1, 1), date(2024, 1, 1)), 1);
    assert_eq!(calculate_weeks(date(2024, 1, 1), date(2024, 1, 7)), 1);
    assert_eq!(calculate_weeks(date(2024, 1, 1), date(2024, 1, 8)), 2);
    for year in 1900..2100 {
        let (start, end) = get_year_range(year).unwrap();
        let weeks = calculate_weeks(start, end);
        assert!(weeks == 53 || weeks == 54);
        assert_eq!(weeks as i32 * 7, end.day_number() - start.day_number() + 1);
    }
}

#[test]
fn weeks_back_count_against_the_one() {
    let day = date(2024, 1, 8);
    assert_eq!(calculate_weeks(day, date(2024, 1, 7)), 1);
    assert_eq!(calculate_weeks(day, date(2024, 1, 2)), 1);
    assert_eq!(calculate_weeks(day, date(2024, 1, 1)), 0);
    assert_eq!(calculate_weeks(day, date(2023, 12, 26)), 0);
    assert_eq!(calculate_weeks(day, date(2023, 12, 25)), usize::MAX);
    assert_eq!(calculate_weeks(day, date(2023, 12, 18)), usize::MAX - 1);
    for back in 0..400i64 {
        let end = day.checked_add_days(-back).unwrap();
        let days = (end.day_number() - day.day_number()) as i64;
        assert_eq!(calculate_weeks(day, end), (days / 7 + 1) as usize);
    }
}

#[test]
fn days_passed_follow_the_day() {
    assert_eq!(calculate_day_passed_in_year(2023, (2024, 6, 1)), 365);
    assert_eq!(calculate_day_passed_in_year(2024, (2024, 1, 1)), 0);
    assert_eq!(calculate_day_passed_in_year(2024, (2024, 3, 1)), 60);
    assert_eq!(calculate_day_passed_in_year(2023, (2023, 3, 1)), 59);
    assert_eq!(calculate_day_passed_in_year(2024, (2024, 12, 31)), 365);
    assert_eq!(calculate_day_passed_in_year(2025, (2024, 12, 31)), 364);
    assert_eq!(calculate_day_passed_in_year(2025, (2024, 2, 29)), 365);
    assert_eq!(calculate_day_passed_in_year(i32::MAX, (2024, 2, 1)), 365);
}
