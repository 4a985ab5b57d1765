use iced_ui::calendar::{
    Date, MONTH_LABELS, WEEKDAY_LABELS, first_grid_day, grid_dates, next_month, prev_month, year_page_start,
    year_page_title,
};
use iced_ui::datetime::month_name;

#[test]
fn first_grid_day_when_month_starts_on_monday() {
    // June 2026 starts on a Monday.
    assert_eq!(first_grid_day(2026, 6), Date::from_ymd(2026, 6, 1).unwrap());
}

#[test]
fn first_grid_day_when_month_starts_midweek() {
    // May 2026 starts on a Friday: the grid starts Monday April 27.
    assert_eq!(first_grid_day(2026, 5), Date::from_ymd(2026, 4, 27).unwrap());
}

#[test]
fn first_grid_day_when_month_starts_on_sunday() {
    // March 2026 starts on a Sunday: the grid starts Monday Feb 23.
    assert_eq!(first_grid_day(2026, 3), Date::from_ymd(2026, 2, 23).unwrap());
}

#[test]
fn grid_dates_cover_leap_february() {
    // February 2024 (leap year) starts on a Thursday.
    let dates = grid_dates(2024, 2);
    assert_eq!(dates[0], Date::from_ymd(2024, 1, 29).unwrap());
    assert!(dates.contains(&Date::from_ymd(2024, 2, 29).unwrap()));
    assert_eq!(dates[41], Date::from_ymd(2024, 3, 10).unwrap());
}

#[test]
fn month_navigation_wraps_year_boundaries() {
    assert_eq!(prev_month(2026, 1), (2025, 12));
    assert_eq!(next_month(2025, 12), (2026, 1));
    assert_eq!(prev_month(2026, 7), (2026, 6));
    assert_eq!(next_month(2026, 7), (2026, 8));
}

#[test]
fn month_name_formats_english() {
    assert_eq!(month_name(6), "June");
    assert_eq!(month_name(2), "February");
    assert_eq!(MONTH_LABELS[5], "Jun");
}

#[test]
fn year_page_start_floors_to_page_multiples() {
    assert_eq!(year_page_start(2026), 2020);
    assert_eq!(year_page_start(2020), 2020);
    assert_eq!(year_page_start(2039), 2020);
    assert_eq!(year_page_start(2040), 2040);
    assert_eq!(year_page_start(0), 0);
    assert_eq!(year_page_start(-1), -20);
    assert_eq!(year_page_start(-20), -20);
}

#[test]
fn year_page_title_formats_range() {
    assert_eq!(year_page_title(2026), "2020 – 2039");
    assert_eq!(year_page_title(1999), "1980 – 1999");
}

#[test]
fn year_page_title_of_negative_years() {
    assert_eq!(year_page_title(-1), "-20 – -1");
}

#[test]
fn grid_is_six_weeks_of_consecutive_days() {
    let dates = grid_dates(2026, 5);
    assert_eq!(dates.len(), 42);
    assert_eq!(dates[0], Date::from_ymd(2026, 4, 27).unwrap());
    assert_eq!(dates[4], Date::from_ymd(2026, 5, 1).unwrap());
    assert_eq!(dates[41], Date::from_ymd(2026, 6, 7).unwrap());
}

#[test]
fn month_navigation_round_trips() {
    for m in 1..=12u32 {
        let (y, n) = next_month(2026, m);
        assert_eq!(prev_month(y, n), (2026, m));
        let (y, p) = prev_month(2026, m);
        assert_eq!(next_month(y, p), (2026, m));
    }
}

#[test]
fn date_validation_follows_the_calendar() {
    assert!(Date::from_ymd(2024, 2, 29).is_some());
    assert!(Date::from_ymd(2023, 2, 29).is_none());
    assert!(Date::from_ymd(2026, 13, 1).is_none());
    assert!(Date::from_ymd(2026, 4, 31).is_none());
}

#[test]
fn weekday_labels_start_on_monday() {
    assert_eq!(WEEKDAY_LABELS[0], "Mo");
    assert_eq!(WEEKDAY_LABELS[6], "Su");
}

#[test]
fn month_names_of_the_year() {
    assert_eq!(month_name(1), "January");
    assert_eq!(month_name(12), "December");
}
