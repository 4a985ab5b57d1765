use iced_ui::calendar::Date;
use iced_ui::datetime::{DateTime, Mode, Time};
use iced_ui::inputs::{DateInput, DateTimeInput, TimeInput};
use iced_ui::picker::{CalendarView, Picker, PressTarget, TimeColumn, minute_count, release_activates};

fn now() -> Date {
    Date::from_ymd(2030, 3, 4).unwrap()
}

fn dt(y: i32, mo: u32, d: u32, h: u32, mi: u32) -> DateTime {
    DateTime { date: Date::from_ymd(y, mo, d).unwrap(), time: Time { hour: h, minute: mi, second: 0, nano: 0 } }
}

#[test]
fn modes_format_and_parse() {
    let v = dt(2026, 6, 5, 9, 7);
    assert_eq!(Mode::Date.format(v), "2026-06-05");
    assert_eq!(Mode::Time.format(v), "09:07");
    assert_eq!(Mode::DateTime.format(v), "2026-06-05 09:07");
    assert_eq!(Mode::Date.parse("2026-02-28", v), Some(dt(2026, 2, 28, 9, 7)));
    assert_eq!(Mode::Date.parse("2026-02-30", v), None);
    assert_eq!(Mode::Time.parse("23:59", v), Some(dt(2026, 6, 5, 23, 59)));
    assert!(Mode::Date.is_valid_text("2026-0"));
    assert!(!Mode::Date.is_valid_text("2026-06-05x"));
}

#[test]
fn minute_columns_follow_the_step() {
    assert_eq!(minute_count(1), 60);
    assert_eq!(minute_count(7), 9);
    assert_eq!(minute_count(59), 2);
}

#[test]
fn releases_on_cells_of_the_same_kind_activate() {
    assert!(release_activates(PressTarget::DayCell(3), PressTarget::DayCell(9)));
    assert!(!release_activates(PressTarget::DayCell(3), PressTarget::MonthCell(3)));
    assert!(release_activates(PressTarget::Title, PressTarget::Title));
    assert!(!release_activates(PressTarget::PrevChevron, PressTarget::NextChevron));
}

#[test]
fn typing_a_date_moves_the_view() {
    let picker = Picker::new(Mode::Date, dt(2026, 6, 5, 0, 0)).today(Date::from_ymd(2026, 6, 5).unwrap());
    let mut state = picker.initial_state(now());
    assert_eq!(state.text, "2026-06-05");
    assert_eq!(picker.text_changed(&mut state, "2027-01-02".to_string()), Some(dt(2027, 1, 2, 0, 0)));
    assert_eq!((state.view_year, state.view_month), (2027, 1));
    assert_eq!(picker.text_changed(&mut state, "2027-0a".to_string()), None);
    assert_eq!(state.text, "2027-01-02");
    assert_eq!(picker.text_changed(&mut state, "2027-13-01".to_string()), None);
    assert!(!state.is_valid);
    assert_eq!(picker.commit_text(&mut state), None);
    assert_eq!(state.text, "2026-06-05");
}

#[test]
fn committing_clamps_to_the_bounds() {
    let picker = Picker::new(Mode::Date, dt(2026, 6, 5, 0, 0))
        .min(dt(2026, 1, 1, 0, 0))
        .max(dt(2026, 12, 31, 0, 0))
        .today(Date::from_ymd(2026, 6, 5).unwrap());
    let mut state = picker.initial_state(now());
    picker.text_changed(&mut state, "2030-01-01".to_string());
    assert!(!state.is_valid);
    assert_eq!(picker.commit_text(&mut state), Some(dt(2026, 12, 31, 0, 0)));
    assert_eq!(state.text, "2026-12-31");
}

#[test]
fn calendar_navigation() {
    let picker = Picker::new(Mode::Date, dt(2026, 1, 15, 0, 0)).today(Date::from_ymd(2026, 1, 15).unwrap());
    let mut state = picker.initial_state(now());
    picker.open_popup(&mut state, now());
    assert!(state.open);
    picker.activate(&mut state, PressTarget::PrevChevron);
    assert_eq!((state.view_year, state.view_month), (2025, 12));
    picker.activate(&mut state, PressTarget::TitleYear);
    assert_eq!(state.view, CalendarView::Years);
    picker.activate(&mut state, PressTarget::YearCell(3));
    assert_eq!(state.view, CalendarView::Days);
    assert_eq!(state.view_year, 2023);
}

#[test]
fn picking_a_day_publishes_it() {
    let picker = Picker::new(Mode::Date, dt(2026, 5, 15, 0, 0)).today(Date::from_ymd(2026, 5, 15).unwrap());
    let mut state = picker.initial_state(now());
    picker.open_popup(&mut state, now());
    // May 2026: the grid starts on Monday April 27, so cell 4 is May 1.
    assert_eq!(picker.activate(&mut state, PressTarget::DayCell(4)), Some(dt(2026, 5, 1, 0, 0)));
    assert_eq!(state.text, "2026-05-01");
}

#[test]
fn time_columns_select_hours_and_minutes() {
    let picker = Picker::new(Mode::Time, dt(1970, 1, 1, 10, 30)).minute_step(15).today(Date::from_ymd(1970, 1, 1).unwrap());
    let state = picker.initial_state(now());
    assert_eq!(picker.item_count(TimeColumn::Minute), 4);
    assert_eq!(picker.item_count(TimeColumn::Hour), 24);
    assert_eq!(picker.selected_index(&state, TimeColumn::Minute), Some(2));
    assert_eq!(picker.selected_index(&state, TimeColumn::Hour), Some(10));
    let mut state = state;
    assert_eq!(picker.pick_time(&mut state, TimeColumn::Minute, 3), dt(1970, 1, 1, 10, 45));
}

#[test]
fn input_wrappers_configure_the_picker() {
    let d = DateInput::new(Date::from_ymd(2026, 6, 5).unwrap())
        .range(Date::from_ymd(2026, 1, 1).unwrap()..=Date::from_ymd(2026, 12, 31).unwrap());
    assert_eq!(d.inner.mode, Mode::Date);
    assert_eq!(d.inner.min, Some(dt(2026, 1, 1, 0, 0)));
    assert_eq!(d.inner.max, Some(dt(2026, 12, 31, 0, 0)));
    let t = TimeInput::new(Time { hour: 8, minute: 0, second: 0, nano: 0 }).minute_step(0);
    assert_eq!(t.inner.minute_step, 1);
    assert_eq!(t.inner.value, dt(1970, 1, 1, 8, 0));
    let t = t.range(Time { hour: 9, minute: 0, second: 0, nano: 0 }..=Time { hour: 17, minute: 30, second: 0, nano: 0 });
    assert_eq!(t.inner.min, Some(dt(1970, 1, 1, 9, 0)));
    assert_eq!(t.inner.max, Some(dt(1970, 1, 1, 17, 30)));
    let dtin = DateTimeInput::new(dt(2026, 6, 5, 9, 0)).minute_step(90);
    assert_eq!(dtin.inner.minute_step, 59);
    let dtin = dtin.range(dt(2026, 1, 1, 8, 0)..=dt(2026, 2, 1, 18, 0));
    assert_eq!(dtin.inner.min, Some(dt(2026, 1, 1, 8, 0)));
    assert_eq!(dtin.inner.max, Some(dt(2026, 2, 1, 18, 0)));
}

#[test]
fn today_defaults_to_the_given_date() {
    let picker = Picker::new(Mode::Date, dt(2026, 6, 5, 0, 0));
    assert_eq!(picker.today_or_now(now()), now());
    assert_eq!(picker.initial_state(now()).today, now());
    let fixed = picker.today(Date::from_ymd(2000, 1, 2).unwrap());
    assert_eq!(fixed.today_or_now(now()), Date::from_ymd(2000, 1, 2).unwrap());
}

#[test]
fn months_are_enabled_when_a_day_is_in_range() {
    let picker = Picker::new(Mode::Date, dt(2026, 6, 5, 0, 0));
    assert!(picker.month_enabled(262142, 12));
    assert!(picker.month_enabled(2024, 2));
    assert!(!picker.month_enabled(262143, 1));
    assert!(!picker.month_enabled(2026, 13));
    let bounded = Picker::new(Mode::Date, dt(2026, 6, 5, 0, 0))
        .min(dt(2026, 2, 29 - 1, 12, 0))
        .max(dt(2026, 4, 1, 0, 0));
    assert!(!bounded.month_enabled(2026, 1));
    assert!(bounded.month_enabled(2026, 2));
    assert!(bounded.month_enabled(2026, 4));
    assert!(!bounded.month_enabled(2026, 5));
}

#[test]
fn typed_times_have_zero_seconds() {
    let base = DateTime { date: Date::from_ymd(2026, 6, 5).unwrap(), time: Time { hour: 1, minute: 2, second: 30, nano: 7 } };
    let t = Mode::Time.parse("09:07", base).unwrap();
    assert_eq!((t.time.hour, t.time.minute, t.time.second, t.time.nano), (9, 7, 0, 0));
    let v = Mode::DateTime.parse("2026-06-05 09:07", base).unwrap();
    assert_eq!((v.time.second, v.time.nano), (0, 0));
    let d = Mode::Date.parse("2026-06-06", base).unwrap();
    assert_eq!(d.time, base.time);
}

#[test]
fn releases_pair_with_their_press() {
    let picker = Picker::new(Mode::Date, dt(2026, 5, 15, 0, 0));
    let mut state = picker.initial_state(now());
    picker.open_popup(&mut state, now());
    let snapshot = |s: &iced_ui::picker::PickerState| (s.text.clone(), s.open, s.view, s.view_year, s.view_month, s.edit);
    let before = snapshot(&state);
    assert_eq!(picker.release(&mut state, Some(PressTarget::PrevChevron), Some(PressTarget::NextChevron)), None);
    assert_eq!(snapshot(&state), before);
    assert_eq!(picker.release(&mut state, None, Some(PressTarget::DayCell(4))), None);
    assert_eq!(snapshot(&state), before);
    assert_eq!(picker.release(&mut state, Some(PressTarget::DayCell(4)), None), None);
    assert_eq!(snapshot(&state), before);
    assert_eq!(
        picker.release(&mut state, Some(PressTarget::DayCell(2)), Some(PressTarget::DayCell(4))),
        Some(dt(2026, 5, 1, 0, 0))
    );
    assert_eq!(state.text, "2026-05-01");
    picker.open_popup(&mut state, now());
    assert_eq!(picker.release(&mut state, Some(PressTarget::NextChevron), Some(PressTarget::NextChevron)), None);
    assert_eq!((state.view_year, state.view_month), (2026, 6));
}

#[test]
fn inverted_bounds_enable_no_month_or_year() {
    let picker = Picker::new(Mode::Date, dt(2026, 6, 5, 0, 0))
        .min(dt(2026, 6, 20, 0, 0))
        .max(dt(2026, 6, 10, 0, 0));
    assert!(!picker.month_enabled(2026, 6));
    assert!(!picker.year_enabled(2026));
    let ordered = Picker::new(Mode::Date, dt(2026, 6, 5, 0, 0))
        .min(dt(2026, 6, 10, 0, 0))
        .max(dt(2026, 6, 20, 0, 0));
    assert!(ordered.month_enabled(2026, 6));
    assert!(ordered.year_enabled(2026));
    assert!(!ordered.year_enabled(2027));
}
