//! The date/time picker behind the date, time and date-time inputs:
//! its configuration, the state kept between events, and what each
//! event does to that state (typing, committing, navigating the
//! calendar, picking a day or a time).
//!
//! Geometry (hit-testing, scrolling) is done by the caller, which
//! hands in the resolved target or column index.

use vstd::prelude::*;
use crate::calendar::{
    Date, valid_ymd, day_number, min_day_number, max_day_number, first_grid_day_number,
    spec_next_month, spec_prev_month, spec_year_page_start, days_in_month, grid_dates,
    next_month, prev_month, year_page_start, lemma_day_number_order,
    month_length,
    YEARS_PER_PAGE, GRID_COLS, GRID_ROWS,
};
use crate::datetime::{
    DateTime, Mode, Time, clamp, in_range, spec_clamp, spec_in_range, spec_parse, spec_format,
    spec_valid_text,
};

verus! {

/// Number of selectable hours.
pub const HOUR_COUNT: usize = 24;

/// Which view the calendar section is showing.
#[derive(Clone, Copy, Debug, PartialEq, Eq, Structural)]
pub enum CalendarView {
    /// The regular day grid.
    Days,
    /// A 3 × 4 list of months of the view year.
    Months,
    /// A 4 × 5 page of years.
    Years,
}

/// One of the two scrollable time columns.
#[derive(Clone, Copy, Debug, PartialEq, Eq, Structural)]
pub enum TimeColumn {
    /// The hour column.
    Hour,
    /// The minute column.
    Minute,
}

/// An interactive target of the calendar section.
#[derive(Clone, Copy, Debug, PartialEq, Eq, Structural)]
pub enum PressTarget {
    /// The previous month/year/page chevron.
    PrevChevron,
    /// The next month/year/page chevron.
    NextChevron,
    /// The month segment of the day-view title.
    TitleMonth,
    /// The year segment of the day-view title.
    TitleYear,
    /// The whole title (month view; opens the year list).
    Title,
    /// A cell of the day grid.
    DayCell(usize),
    /// A cell of the month list.
    MonthCell(usize),
    /// A cell of the year list.
    YearCell(usize),
}

/// Whether a release over `released` after a press on `pressed`
/// activates `released`.
pub open spec fn spec_release_activates(pressed: PressTarget, released: PressTarget) -> bool {
    ||| (pressed is DayCell && released is DayCell)
    ||| (pressed is MonthCell && released is MonthCell)
    ||| (pressed is YearCell && released is YearCell)
    ||| pressed == released
}

/// Whether releasing over `released` after pressing on `pressed`
/// activates `released`: grid cells of the same kind are
/// interchangeable; every other target needs press and release on the
/// same control.
pub fn release_activates(pressed: PressTarget, released: PressTarget) -> (res: bool)
    ensures
        res == spec_release_activates(pressed, released),
{
    match (pressed, released) {
        (PressTarget::DayCell(_), PressTarget::DayCell(_)) => true,
        (PressTarget::MonthCell(_), PressTarget::MonthCell(_)) => true,
        (PressTarget::YearCell(_), PressTarget::YearCell(_)) => true,
        _ => pressed == released,
    }
}

/// Number of selectable minutes for the given step: `ceil(60 / step)`.
pub fn minute_count(step: u32) -> (res: usize)
    requires
        step > 0,
    ensures
        res == (60 + step - 1) / (step as int),
        res >= 1,
        step <= 59 ==> 2 <= res <= 60,
{
    let s = step as usize;
    let q = 60 / s;
    let r = if 60 % s == 0 { q } else { q + 1 };
    assert(r == (60 + step - 1) / (step as int)) by (nonlinear_arith)
        requires
            s >= 1,
            q == 60int / (s as int),
            r == (if 60int % (s as int) == 0 { q as int } else { q + 1 }),
            s == step,
    {
        vstd::arithmetic::div_mod::lemma_fundamental_div_mod(60, s as int);
    }
    proof {
        assert((59 + s) / (s as int) >= 1) by (nonlinear_arith)
            requires 1 <= s;
        if step <= 59 {
            assert((59 + s) / (s as int) >= 2) by (nonlinear_arith)
                requires 1 <= s <= 59;
            assert((59 + s) / (s as int) <= 60) by (nonlinear_arith)
                requires 1 <= s;
        }
    }
    r
}

/// The configuration of a picker.
#[derive(Clone, Copy, Debug)]
pub struct Picker {
    /// Which components are edited.
    pub mode: Mode,
    /// The current value, owned by the application.
    pub value: DateTime,
    /// Inclusive lower bound.
    pub min: Option<DateTime>,
    /// Inclusive upper bound.
    pub max: Option<DateTime>,
    /// The date marked as "today" (system date when `None`).
    pub today: Option<Date>,
    /// Step between the minutes offered in the minute column.
    pub minute_step: u32,
}

/// The state kept between events.
#[derive(Debug)]
pub struct PickerState {
    /// The current text displayed in the input.
    pub text: String,
    /// Whether the current text is a valid in-range value.
    pub is_valid: bool,
    /// Whether the popup overlay is open.
    pub open: bool,
    /// Which view the calendar section is showing.
    pub view: CalendarView,
    /// The year of the month shown in the calendar grid.
    pub view_year: i32,
    /// The month (1–12) shown in the calendar grid.
    pub view_month: u32,
    /// The value being edited in the popup.
    pub edit: DateTime,
    /// The date marked as "today" in the calendar grid.
    pub today: Date,
}

impl PickerState {
    /// The invariant every transition keeps.
    pub open spec fn wf(&self) -> bool {
        &&& 1 <= self.view_month <= 12
        &&& self.edit.wf()
        &&& self.today.wf()
    }
}

/// `a + b` saturated to the `i32` range.
pub open spec fn spec_saturating_add(a: int, b: int) -> int {
    if a + b < i32::MIN { i32::MIN as int } else if a + b > i32::MAX { i32::MAX as int } else { a + b }
}

/// `i32::saturating_add`.
pub fn saturating_add_i32(a: i32, b: i32) -> (res: i32)
    ensures
        res == spec_saturating_add(a as int, b as int),
{
    match a.checked_add(b) {
        Some(r) => r,
        None => if b > 0 { i32::MAX } else { i32::MIN },
    }
}

/// `i32::saturating_sub`.
pub fn saturating_sub_i32(a: i32, b: i32) -> (res: i32)
    ensures
        res == spec_saturating_add(a as int, -b),
{
    match a.checked_sub(b) {
        Some(r) => r,
        None => if b < 0 { i32::MAX } else { i32::MIN },
    }
}

/// The date in cell `index` of the day grid of `(year, month)`.
pub open spec fn grid_date(year: int, month: int, index: int) -> Date {
    choose|d: Date| d.wf() && d.dn() == first_grid_day_number(year, month) + index
}

/// Whether the day grid of `(year, month)` can be computed.
pub open spec fn grid_computable(year: int, month: int) -> bool {
    &&& valid_ymd(year, month, 1)
    &&& first_grid_day_number(year, month) >= min_day_number()
    &&& first_grid_day_number(year, month) + 41 <= max_day_number()
}

/// The minute step clamped to `1..=59`.
pub open spec fn spec_clamp_step(step: u32) -> u32 {
    if step < 1 { 1 } else if step > 59 { 59 } else { step }
}

/// Whether `(year, month)` is representable and some day of it lies
/// within the bounds.
pub open spec fn spec_month_enabled(
    year: int,
    month: int,
    min: Option<DateTime>,
    max: Option<DateTime>,
) -> bool {
    &&& valid_ymd(year, month, 1)
    &&& exists|d: int| 1 <= d <= days_in_month(year, month) && #[trigger] spec_date_enabled(
        Date { year: year as i32, month: month as u32, day: d as u32 },
        min,
        max,
    )
}

/// Whether `year` is representable and some day of it lies within the
/// bounds.
pub open spec fn spec_year_enabled(year: int, min: Option<DateTime>, max: Option<DateTime>) -> bool {
    &&& valid_ymd(year, 1, 1)
    &&& exists|m: int, d: int| 1 <= m <= 12 && 1 <= d <= days_in_month(year, m) && #[trigger] spec_date_enabled(
        Date { year: year as i32, month: m as u32, day: d as u32 },
        min,
        max,
    )
}

/// Whether the bounds admit some day from `start` to `end`: each bound
/// is on the right side of the span, and they are in order.
pub open spec fn span_meets_bounds(start: Date, end: Date, min: Option<DateTime>, max: Option<DateTime>) -> bool {
    &&& (min matches Some(lo) ==> lo.date.le(end))
    &&& (max matches Some(hi) ==> start.le(hi.date))
    &&& bounds_in_order(min, max)
}

/// Whether the date parts of the bounds are in order (or one is
/// missing).
pub open spec fn bounds_in_order(min: Option<DateTime>, max: Option<DateTime>) -> bool {
    match (min, max) {
        (Some(lo), Some(hi)) => lo.date.le(hi.date),
        _ => true,
    }
}

/// A month has a day within the bounds exactly when the bounds meet the
/// span from its first to its last day.
proof fn lemma_month_enabled(year: int, month: int, min: Option<DateTime>, max: Option<DateTime>)
    requires
        valid_ymd(year, month, 1),
        min matches Some(lo) ==> lo.date.wf(),
        max matches Some(hi) ==> hi.date.wf(),
    ensures
        spec_month_enabled(year, month, min, max) <==> span_meets_bounds(
            Date { year: year as i32, month: month as u32, day: 1 },
            Date { year: year as i32, month: month as u32, day: days_in_month(year, month) as u32 },
            min,
            max,
        ),
{
    let start = Date { year: year as i32, month: month as u32, day: 1 };
    let end = Date { year: year as i32, month: month as u32, day: days_in_month(year, month) as u32 };
    if span_meets_bounds(start, end, min, max) {
        let w: int = match min {
            Some(lo) => if start.le(lo.date) { lo.date.day as int } else { 1 },
            None => 1,
        };
        let x = Date { year: year as i32, month: month as u32, day: w as u32 };
        assert(spec_date_enabled(x, min, max));
    }
    if spec_month_enabled(year, month, min, max) {
        let d = choose|d: int| 1 <= d <= days_in_month(year, month) && #[trigger] spec_date_enabled(
            Date { year: year as i32, month: month as u32, day: d as u32 },
            min,
            max,
        );
        let x = Date { year: year as i32, month: month as u32, day: d as u32 };
        assert(spec_date_enabled(x, min, max));
    }
}

/// A year has a day within the bounds exactly when the bounds meet the
/// span from its first to its last day.
proof fn lemma_year_enabled(year: int, min: Option<DateTime>, max: Option<DateTime>)
    requires
        valid_ymd(year, 1, 1),
        min matches Some(lo) ==> lo.date.wf(),
        max matches Some(hi) ==> hi.date.wf(),
    ensures
        spec_year_enabled(year, min, max) <==> span_meets_bounds(
            Date { year: year as i32, month: 1, day: 1 },
            Date { year: year as i32, month: 12, day: 31 },
            min,
            max,
        ),
{
    let start = Date { year: year as i32, month: 1, day: 1 };
    let end = Date { year: year as i32, month: 12, day: 31 };
    if span_meets_bounds(start, end, min, max) {
        let x = match min {
            Some(lo) => if start.le(lo.date) { lo.date } else { start },
            None => start,
        };
        assert(spec_date_enabled(x, min, max));
        assert(1 <= x.month as int <= 12 && 1 <= x.day as int <= days_in_month(year, x.month as int));
        assert(x == Date { year: year as i32, month: (x.month as int) as u32, day: (x.day as int) as u32 });
    }
    if spec_year_enabled(year, min, max) {
        let (m, d) = choose|m: int, d: int| 1 <= m <= 12 && 1 <= d <= days_in_month(year, m) && #[trigger] spec_date_enabled(
            Date { year: year as i32, month: m as u32, day: d as u32 },
            min,
            max,
        );
        let x = Date { year: year as i32, month: m as u32, day: d as u32 };
        assert(spec_date_enabled(x, min, max));
    }
}

/// Whether `date` lies within the date parts of the bounds.
pub open spec fn spec_date_enabled(date: Date, min: Option<DateTime>, max: Option<DateTime>) -> bool {
    &&& (min matches Some(lo) ==> lo.date.le(date))
    &&& (max matches Some(hi) ==> date.le(hi.date))
}

/// The targets that can be activated from state `s` without leaving
/// the representable years.
pub open spec fn activatable(s: PickerState, target: PressTarget) -> bool {
    &&& (target == PressTarget::PrevChevron && s.view == CalendarView::Days
        ==> !(s.view_month == 1 && s.view_year == i32::MIN))
    &&& (target == PressTarget::NextChevron && s.view == CalendarView::Days
        ==> !(s.view_month == 12 && s.view_year == i32::MAX))
    &&& (target matches PressTarget::DayCell(i) ==> i < GRID_COLS * GRID_ROWS
        && grid_computable(s.view_year as int, s.view_month as int))
    &&& (target matches PressTarget::MonthCell(i) ==> (i as u32) < u32::MAX)
    &&& (target matches PressTarget::YearCell(i) ==> spec_year_page_start(s.view_year as int) >= i32::MIN
        && i32::MIN <= spec_year_page_start(s.view_year as int) + (i as i32) <= i32::MAX)
}

impl Picker {
    /// What activating `target` in state `s` does: `t` is the state
    /// afterwards and `res` the value published.
    pub open spec fn activated(&self, s: PickerState, target: PressTarget, t: PickerState, res: Option<DateTime>) -> bool {
        match target {
            PressTarget::PrevChevron => {
                &&& res is None
                &&& t.view == s.view
                &&& t.edit == s.edit
                &&& t.text == s.text
                &&& t.is_valid == s.is_valid
                &&& t.open == s.open
                &&& match s.view {
                    CalendarView::Days => {
                        let p = spec_prev_month(s.view_year as int, s.view_month as int);
                        t.view_year == p.0 && t.view_month == p.1
                    },
                    CalendarView::Months => t.view_year == spec_saturating_add(
                        s.view_year as int, -1) && t.view_month == s.view_month,
                    CalendarView::Years => t.view_year == spec_saturating_add(
                        s.view_year as int, -20) && t.view_month == s.view_month,
                }
            },
            PressTarget::NextChevron => {
                &&& res is None
                &&& t.view == s.view
                &&& t.edit == s.edit
                &&& t.text == s.text
                &&& t.is_valid == s.is_valid
                &&& t.open == s.open
                &&& match s.view {
                    CalendarView::Days => {
                        let n = spec_next_month(s.view_year as int, s.view_month as int);
                        t.view_year == n.0 && t.view_month == n.1
                    },
                    CalendarView::Months => t.view_year == spec_saturating_add(
                        s.view_year as int, 1) && t.view_month == s.view_month,
                    CalendarView::Years => t.view_year == spec_saturating_add(
                        s.view_year as int, 20) && t.view_month == s.view_month,
                }
            },
            PressTarget::TitleMonth => res is None && t == (PickerState {
                view: CalendarView::Months, ..s }),
            PressTarget::TitleYear | PressTarget::Title => res is None && t == (
            PickerState { view: CalendarView::Years, ..s }),
            PressTarget::DayCell(i) => {
                let date = grid_date(s.view_year as int, s.view_month as int, i as int);
                if spec_date_enabled(date, self.min, self.max) {
                    let picked = spec_clamp(DateTime { date, time: s.edit.time }, self.min, self.max);
                    &&& res == Some(picked)
                    &&& t.edit == picked
                    &&& t.text@ == spec_format(self.mode, picked)
                    &&& t.is_valid
                    &&& t.view_year == date.year
                    &&& t.view_month == date.month
                    &&& t.view == s.view
                    &&& t.open == (s.open && self.mode != Mode::Date)
                } else {
                    res is None && t == s
                }
            },
            PressTarget::MonthCell(i) => {
                let month = (i as u32) + 1;
                &&& res is None
                &&& if spec_month_enabled(s.view_year as int, month, self.min, self.max) {
                    t == (PickerState { view_month: month as u32, view: CalendarView::Days, ..s })
                } else {
                    t == s
                }
            },
            PressTarget::YearCell(i) => {
                let year = spec_year_page_start(s.view_year as int) + (i as i32);
                &&& res is None
                &&& if spec_year_enabled(year, self.min, self.max) {
                    t == (PickerState { view_year: year as i32, view: CalendarView::Days, ..s })
                } else {
                    t == s
                }
            },
        }
    }
}

impl Picker {
    /// Whether the configuration is usable.
    pub open spec fn wf(&self) -> bool {
        &&& self.value.wf()
        &&& (self.min matches Some(lo) ==> lo.wf())
        &&& (self.max matches Some(hi) ==> hi.wf())
        &&& 1 <= self.minute_step <= 59
    }

    /// A picker for `value` with no bounds and a one-minute step.
    pub fn new(mode: Mode, value: DateTime) -> (res: Picker)
        ensures
            res == (Picker { mode, value, min: None, max: None, today: None, minute_step: 1 }),
    {
        Picker { mode, value, min: None, max: None, today: None, minute_step: 1 }
    }

    /// Sets the inclusive lower bound.
    pub fn min(self, min: DateTime) -> (res: Picker)
        ensures
            res == (Picker { min: Some(min), ..self }),
    {
        Picker { min: Some(min), ..self }
    }

    /// Sets the inclusive upper bound.
    pub fn max(self, max: DateTime) -> (res: Picker)
        ensures
            res == (Picker { max: Some(max), ..self }),
    {
        Picker { max: Some(max), ..self }
    }

    /// Overrides the date marked as "today".
    pub fn today(self, today: Date) -> (res: Picker)
        ensures
            res == (Picker { today: Some(today), ..self }),
    {
        Picker { today: Some(today), ..self }
    }

    /// Sets the minute step, clamped to `1..=59`.
    pub fn minute_step(self, step: u32) -> (res: Picker)
        ensures
            res == (Picker { minute_step: spec_clamp_step(step), ..self }),
    {
        let s = if step < 1 { 1 } else if step > 59 { 59 } else { step };
        Picker { minute_step: s, ..self }
    }

    /// The date to mark as "today": the override if set, otherwise
    /// `now`, the system's local date as read by the caller.
    pub fn today_or_now(&self, now: Date) -> (res: Date)
        requires
            self.today matches Some(t) ==> t.wf(),
            now.wf(),
        ensures
            res.wf(),
            res == match self.today {
                Some(t) => t,
                None => now,
            },
    {
        match self.today {
            Some(t) => t,
            None => now,
        }
    }

    /// Whether a calendar day is selectable under the configured range.
    pub fn date_enabled(&self, date: Date) -> (res: bool)
        ensures
            res == spec_date_enabled(date, self.min, self.max),
    {
        let lo = match self.min {
            Some(lo) => lo.date.is_on_or_before(&date),
            None => true,
        };
        let hi = match self.max {
            Some(hi) => date.is_on_or_before(&hi.date),
            None => true,
        };
        lo && hi
    }

    /// Whether any day of `(year, month)` is within the configured
    /// range (and the month is representable at all).
    pub fn month_enabled(&self, year: i32, month: u32) -> (res: bool)
        requires
            self.min matches Some(lo) ==> lo.wf(),
            self.max matches Some(hi) ==> hi.wf(),
        ensures
            res == spec_month_enabled(year as int, month as int, self.min, self.max),
    {
        let start = match Date::from_ymd(year, month, 1) {
            Some(d) => d,
            None => { return false; }
        };
        let end = match Date::from_ymd(year, month, month_length(year, month)) {
            Some(d) => d,
            None => { return false; }
        };
        let lo = match self.min {
            Some(lo) => lo.date.is_on_or_before(&end),
            None => true,
        };
        let hi = match self.max {
            Some(hi) => start.is_on_or_before(&hi.date),
            None => true,
        };
        proof {
            lemma_month_enabled(year as int, month as int, self.min, self.max);
        }
        lo && hi && self.bounds_ordered()
    }

    /// Whether the date parts of the bounds are in order (or one is
    /// missing).
    fn bounds_ordered(&self) -> (res: bool)
        ensures
            res == bounds_in_order(self.min, self.max),
    {
        match (self.min, self.max) {
            (Some(lo), Some(hi)) => lo.date.is_on_or_before(&hi.date),
            _ => true,
        }
    }

    /// Whether any day of `year` is within the configured range (and
    /// the year is representable at all).
    pub fn year_enabled(&self, year: i32) -> (res: bool)
        requires
            self.min matches Some(lo) ==> lo.wf(),
            self.max matches Some(hi) ==> hi.wf(),
        ensures
            res == spec_year_enabled(year as int, self.min, self.max),
    {
        let start = Date::from_ymd(year, 1, 1);
        let end = Date::from_ymd(year, 12, 31);
        match (start, end) {
            (Some(start), Some(end)) => {
                let lo = match self.min {
                    Some(lo) => lo.date.is_on_or_before(&end),
                    None => true,
                };
                let hi = match self.max {
                    Some(hi) => start.is_on_or_before(&hi.date),
                    None => true,
                };
                proof {
                    lemma_year_enabled(year as int, self.min, self.max);
                }
                lo && hi && self.bounds_ordered()
            },
            _ => false,
        }
    }

    /// Validates a whole text: allowed characters and length.
    pub fn is_valid_text(&self, text: &str) -> (res: bool)
        ensures
            res == spec_valid_text(self.mode, text@),
    {
        self.mode.is_valid_text(text)
    }

    /// Clamps a value into the configured range.
    pub fn clamp(&self, dt: DateTime) -> (res: DateTime)
        ensures
            res == spec_clamp(dt, self.min, self.max),
    {
        clamp(dt, self.min, self.max)
    }

    /// Whether a value is within the configured range.
    pub fn in_range(&self, dt: DateTime) -> (res: bool)
        ensures
            res == spec_in_range(dt, self.min, self.max),
    {
        in_range(dt, self.min, self.max)
    }

    /// The hour row and the minute row to center when the popup opens
    /// on `edit` (the minute row is the step containing the minute).
    pub fn initial_indices(&self, edit: DateTime) -> (res: (usize, usize))
        requires
            self.minute_step >= 1,
            edit.wf(),
        ensures
            res.0 == edit.time.hour,
            res.1 == (if edit.time.minute / self.minute_step < (60 + self.minute_step - 1) / (
            self.minute_step as int) - 1 {
                (edit.time.minute / self.minute_step) as int
            } else {
                (60 + self.minute_step - 1) / (self.minute_step as int) - 1
            }),
    {
        let count = minute_count(self.minute_step);
        let index = (edit.time.minute / self.minute_step) as usize;
        let m = if index < count - 1 { index } else { count - 1 };
        (edit.time.hour as usize, m)
    }

    /// The state of a freshly created field showing `self.value`;
    /// `now` is the system's local date.
    pub fn initial_state(&self, now: Date) -> (res: PickerState)
        requires
            self.wf(),
            self.today matches Some(t) ==> t.wf(),
            now.wf(),
        ensures
            res.wf(),
            res.text@ == spec_format(self.mode, self.value),
            res.is_valid,
            !res.open,
            res.view == CalendarView::Days,
            res.view_year == self.value.date.year,
            res.view_month == self.value.date.month,
            res.edit == self.value,
            res.today == match self.today {
                Some(t) => t,
                None => now,
            },
    {
        PickerState {
            text: self.mode.format(self.value),
            is_valid: true,
            open: false,
            view: CalendarView::Days,
            view_year: self.value.date.year,
            view_month: self.value.date.month,
            edit: self.value,
            today: self.today_or_now(now),
        }
    }

    /// Re-synchronizes the text with the value while the field is not
    /// focused: a differing text is replaced and marked valid.
    pub fn sync_text(&self, state: &mut PickerState)
        requires
            self.wf(),
        ensures
            final(state).text@ == spec_format(self.mode, self.value),
            final(state).is_valid == (if old(state).text@ == spec_format(self.mode, self.value) {
                old(state).is_valid
            } else {
                true
            }),
            final(state).open == old(state).open,
            final(state).view == old(state).view,
            final(state).view_year == old(state).view_year,
            final(state).view_month == old(state).view_month,
            final(state).edit == old(state).edit,
            final(state).today == old(state).today,
    {
        let formatted = self.mode.format(self.value);
        if state.text != formatted {
            state.text = formatted;
            state.is_valid = true;
        }
    }

    /// Opens the popup (a press on the trigger while closed): the value
    /// being edited is the clamped parse of the text, or the clamped
    /// value when the text does not parse, and the calendar shows its
    /// month; `now` is the system's local date. An open popup is left
    /// as it is.
    pub fn open_popup(&self, state: &mut PickerState, now: Date)
        requires
            self.wf(),
            old(state).wf(),
            self.today matches Some(t) ==> t.wf(),
            now.wf(),
        ensures
            final(state).wf(),
            old(state).open ==> *final(state) == *old(state),
            !old(state).open ==> {
                let parsed = spec_parse(self.mode, old(state).text@, self.value);
                let base = match parsed {
                    Some(p) => p,
                    None => self.value,
                };
                let edit = spec_clamp(base, self.min, self.max);
                &&& final(state).open
                &&& final(state).edit == edit
                &&& final(state).view == CalendarView::Days
                &&& final(state).view_year == edit.date.year
                &&& final(state).view_month == edit.date.month
                &&& final(state).today == match self.today {
                    Some(t) => t,
                    None => now,
                }
                &&& final(state).text == old(state).text
                &&& final(state).is_valid == old(state).is_valid
            },
    {
        if !state.open {
            let parsed = self.mode.parse(state.text.as_str(), self.value);
            self.open_with(state, parsed, now);
        }
    }

    /// Opens the closed popup on `parsed`, the value read from the
    /// field's text (the current value when the text did not parse),
    /// clamped to the bounds, showing its month; `now` is the system's
    /// local date.
    pub fn open_with(&self, state: &mut PickerState, parsed: Option<DateTime>, now: Date)
        requires
            self.wf(),
            old(state).wf(),
            self.today matches Some(t) ==> t.wf(),
            now.wf(),
            parsed matches Some(p) ==> p.wf(),
        ensures
            final(state).wf(),
            ({
                let base = match parsed {
                    Some(p) => p,
                    None => self.value,
                };
                let edit = spec_clamp(base, self.min, self.max);
                &&& final(state).open
                &&& final(state).edit == edit
                &&& final(state).view == CalendarView::Days
                &&& final(state).view_year == edit.date.year
                &&& final(state).view_month == edit.date.month
                &&& final(state).today == match self.today {
                    Some(t) => t,
                    None => now,
                }
                &&& final(state).text == old(state).text
                &&& final(state).is_valid == old(state).is_valid
            }),
    {
        state.open = true;
        let base = match parsed {
            Some(p) => p,
            None => self.value,
        };
        state.edit = self.clamp(base);
        state.view = CalendarView::Days;
        state.view_year = state.edit.date.year;
        state.view_month = state.edit.date.month;
        state.today = self.today_or_now(now);
    }

    /// Closes the popup.
    pub fn close(&self, state: &mut PickerState)
        ensures
            *final(state) == (PickerState { open: false, ..*old(state) }),
    {
        state.open = false;
    }

    /// Handles an edit of the text: a text with a foreign character or
    /// too long is refused (state unchanged); otherwise it is kept and
    /// validated, and an in-range parse becomes the edited value and is
    /// returned for publication.
    pub fn text_changed(&self, state: &mut PickerState, new_text: String) -> (res: Option<
        DateTime,
    >)
        requires
            self.wf(),
            old(state).wf(),
        ensures
            final(state).wf(),
            !spec_valid_text(self.mode, new_text@) ==> res is None && *final(state) == *old(state),
            spec_valid_text(self.mode, new_text@) ==> {
                let parsed = spec_parse(self.mode, new_text@, self.value);
                &&& final(state).text@ == new_text@
                &&& final(state).open == old(state).open
                &&& final(state).view == old(state).view
                &&& final(state).today == old(state).today
                &&& if new_text@.len() == 0 {
                    &&& res is None
                    &&& final(state).is_valid
                    &&& final(state).edit == old(state).edit
                    &&& final(state).view_year == old(state).view_year
                    &&& final(state).view_month == old(state).view_month
                } else if parsed is Some && spec_in_range(parsed->0, self.min, self.max) {
                    &&& res == parsed
                    &&& final(state).is_valid
                    &&& final(state).edit == parsed->0
                    &&& final(state).view_year == parsed->0.date.year
                    &&& final(state).view_month == parsed->0.date.month
                } else {
                    &&& res is None
                    &&& !final(state).is_valid
                    &&& final(state).edit == old(state).edit
                    &&& final(state).view_year == old(state).view_year
                    &&& final(state).view_month == old(state).view_month
                }
            },
    {
        if !self.is_valid_text(new_text.as_str()) {
            return None;
        }
        let parsed = if new_text.as_str().unicode_len() == 0 {
            None
        } else {
            self.mode.parse(new_text.as_str(), self.value)
        };
        self.accept_text(state, new_text, parsed)
    }

    /// Keeps an edited text that only holds allowed characters; `parsed`
    /// is the value read from it (`None` when it did not parse). An
    /// empty text is valid; a parsed in-range value becomes the edited
    /// value, moves the calendar to its month and is returned for
    /// publication; anything else is marked invalid.
    pub fn accept_text(&self, state: &mut PickerState, new_text: String, parsed: Option<DateTime>) -> (res: Option<DateTime>)
        requires
            self.wf(),
            old(state).wf(),
            parsed matches Some(p) ==> p.wf(),
        ensures
            final(state).wf(),
            final(state).text@ == new_text@,
            final(state).open == old(state).open,
            final(state).view == old(state).view,
            final(state).today == old(state).today,
            if new_text@.len() == 0 {
                &&& res is None
                &&& final(state).is_valid
                &&& final(state).edit == old(state).edit
                &&& final(state).view_year == old(state).view_year
                &&& final(state).view_month == old(state).view_month
            } else if parsed is Some && spec_in_range(parsed->0, self.min, self.max) {
                &&& res == parsed
                &&& final(state).is_valid
                &&& final(state).edit == parsed->0
                &&& final(state).view_year == parsed->0.date.year
                &&& final(state).view_month == parsed->0.date.month
            } else {
                &&& res is None
                &&& !final(state).is_valid
                &&& final(state).edit == old(state).edit
                &&& final(state).view_year == old(state).view_year
                &&& final(state).view_month == old(state).view_month
            },
    {
        state.text = new_text;
        if state.text.as_str().unicode_len() == 0 {
            state.is_valid = true;
            None
        } else {
            match parsed {
                Some(parsed) => {
                    if self.in_range(parsed) {
                        state.is_valid = true;
                        state.edit = parsed;
                        state.view_year = parsed.date.year;
                        state.view_month = parsed.date.month;
                        Some(parsed)
                    } else {
                        state.is_valid = false;
                        None
                    }
                },
                None => {
                    state.is_valid = false;
                    None
                },
            }
        }
    }

    /// Commits the text (on Enter, and when the field loses focus): a
    /// parsable text is clamped, shown in canonical form and returned
    /// for publication; otherwise the text reverts to the current value.
    pub fn commit_text(&self, state: &mut PickerState) -> (res: Option<DateTime>)
        requires
            self.wf(),
            old(state).wf(),
        ensures
            final(state).wf(),
            final(state).is_valid,
            final(state).open == old(state).open,
            final(state).view == old(state).view,
            final(state).view_year == old(state).view_year,
            final(state).view_month == old(state).view_month,
            final(state).edit == old(state).edit,
            final(state).today == old(state).today,
            match spec_parse(self.mode, old(state).text@, self.value) {
                Some(p) => {
                    let c = spec_clamp(p, self.min, self.max);
                    res == Some(c) && final(state).text@ == spec_format(self.mode, c)
                },
                None => res is None && final(state).text@ == spec_format(self.mode, self.value),
            },
    {
        let parsed = self.mode.parse(state.text.as_str(), self.value);
        self.commit_parsed(state, parsed)
    }

    /// Commits `parsed`, the value read from the field's text: it is
    /// clamped, shown in canonical form and returned for publication;
    /// `None` reverts the text to the current value.
    pub fn commit_parsed(&self, state: &mut PickerState, parsed: Option<DateTime>) -> (res: Option<DateTime>)
        requires
            self.wf(),
            old(state).wf(),
            parsed matches Some(p) ==> p.wf(),
        ensures
            final(state).wf(),
            final(state).is_valid,
            final(state).open == old(state).open,
            final(state).view == old(state).view,
            final(state).view_year == old(state).view_year,
            final(state).view_month == old(state).view_month,
            final(state).edit == old(state).edit,
            final(state).today == old(state).today,
            match parsed {
                Some(p) => {
                    let c = spec_clamp(p, self.min, self.max);
                    res == Some(c) && final(state).text@ == spec_format(self.mode, c)
                },
                None => res is None && final(state).text@ == spec_format(self.mode, self.value),
            },
    {
        match parsed {
            Some(parsed) => {
                let clamped = self.clamp(parsed);
                state.text = self.mode.format(clamped);
                state.is_valid = true;
                Some(clamped)
            },
            None => {
                state.text = self.mode.format(self.value);
                state.is_valid = true;
                None
            },
        }
    }

    /// Commits the edited value: clamps it, mirrors it into the text
    /// and returns it for publication.
    fn commit(&self, state: &mut PickerState) -> (res: DateTime)
        requires
            self.wf(),
            old(state).wf(),
        ensures
            final(state).wf(),
            res == spec_clamp(old(state).edit, self.min, self.max),
            final(state).edit == res,
            final(state).text@ == spec_format(self.mode, res),
            final(state).is_valid,
            final(state).open == old(state).open,
            final(state).view == old(state).view,
            final(state).view_year == old(state).view_year,
            final(state).view_month == old(state).view_month,
            final(state).today == old(state).today,
    {
        state.edit = self.clamp(state.edit);
        state.text = self.mode.format(state.edit);
        state.is_valid = true;
        state.edit
    }

    /// The left button came up over `released` (a target of the
    /// calendar, if any) after going down on `pressed`: when the two
    /// pair up (see [`release_activates`]), `released` is activated;
    /// otherwise nothing happens.
    pub fn release(
        &self,
        state: &mut PickerState,
        pressed: Option<PressTarget>,
        released: Option<PressTarget>,
    ) -> (res: Option<DateTime>)
        requires
            self.wf(),
            old(state).wf(),
            released matches Some(r) ==> activatable(*old(state), r),
        ensures
            final(state).wf(),
            match (pressed, released) {
                (Some(p), Some(r)) if spec_release_activates(p, r) => {
                    &&& final(state).today == old(state).today
                    &&& self.activated(*old(state), r, *final(state), res)
                },
                _ => res is None && *final(state) == *old(state),
            },
    {
        match (pressed, released) {
            (Some(p), Some(r)) => {
                if release_activates(p, r) {
                    self.activate(state, r)
                } else {
                    None
                }
            },
            _ => None,
        }
    }

    /// Performs the action of a calendar target (on release): chevrons
    /// move by a month, a year or a page depending on the view, title
    /// segments switch views, a day cell selects its (enabled) day and
    /// commits it, and month/year cells open the chosen (enabled) month
    /// or year in the day view. Returns the value to publish, if any.
    pub fn activate(&self, state: &mut PickerState, target: PressTarget) -> (res: Option<DateTime>)
        requires
            self.wf(),
            old(state).wf(),
            activatable(*old(state), target),
        ensures
            final(state).wf(),
            final(state).today == old(state).today,
            self.activated(*old(state), target, *final(state), res),
    {
        match target {
            PressTarget::PrevChevron => {
                match state.view {
                    CalendarView::Days => {
                        let (y, m) = prev_month(state.view_year, state.view_month);
                        state.view_year = y;
                        state.view_month = m;
                    },
                    CalendarView::Months => {
                        state.view_year = saturating_sub_i32(state.view_year, 1);
                    },
                    CalendarView::Years => {
                        state.view_year = saturating_sub_i32(state.view_year, YEARS_PER_PAGE);
                    },
                }
                None
            },
            PressTarget::NextChevron => {
                match state.view {
                    CalendarView::Days => {
                        let (y, m) = next_month(state.view_year, state.view_month);
                        state.view_year = y;
                        state.view_month = m;
                    },
                    CalendarView::Months => {
                        state.view_year = saturating_add_i32(state.view_year, 1);
                    },
                    CalendarView::Years => {
                        state.view_year = saturating_add_i32(state.view_year, YEARS_PER_PAGE);
                    },
                }
                None
            },
            PressTarget::TitleMonth => {
                state.view = CalendarView::Months;
                None
            },
            PressTarget::TitleYear | PressTarget::Title => {
                state.view = CalendarView::Years;
                None
            },
            PressTarget::DayCell(index) => {
                let dates = grid_dates(state.view_year, state.view_month);
                let date = dates[index];
                proof {
                    let g = grid_date(old(state).view_year as int, old(state).view_month as int, index as int);
                    assert(g.wf() && g.dn() == date.dn());
                    lemma_day_number_order(g, date);
                }
                if self.date_enabled(date) {
                    state.edit = DateTime { date, time: state.edit.time };
                    state.view_year = date.year;
                    state.view_month = date.month;
                    let v = self.commit(state);
                    if self.mode == Mode::Date {
                        state.open = false;
                    }
                    Some(v)
                } else {
                    None
                }
            },
            PressTarget::MonthCell(index) => {
                let month = index as u32 + 1;
                if self.month_enabled(state.view_year, month) {
                    state.view_month = month;
                    state.view = CalendarView::Days;
                }
                None
            },
            PressTarget::YearCell(index) => {
                let year = year_page_start(state.view_year) + index as i32;
                if self.year_enabled(year) {
                    state.view_year = year;
                    state.view = CalendarView::Days;
                }
                None
            },
        }
    }

    /// Index of the selected item in a time column, if the edited value
    /// is on the column's step.
    pub fn selected_index(&self, state: &PickerState, column: TimeColumn) -> (res: Option<usize>)
        requires
            self.minute_step > 0,
        ensures
            column == TimeColumn::Hour ==> res == Some(state.edit.time.hour as usize),
            column == TimeColumn::Minute ==> res == (if state.edit.time.minute % self.minute_step
                == 0 {
                Some((state.edit.time.minute / self.minute_step) as usize)
            } else {
                None
            }),
    {
        match column {
            TimeColumn::Hour => Some(state.edit.time.hour as usize),
            TimeColumn::Minute => {
                let minute = state.edit.time.minute;
                if minute % self.minute_step == 0 {
                    Some((minute / self.minute_step) as usize)
                } else {
                    None
                }
            },
        }
    }

    /// Selects item `index` of a time column (seconds become zero) and
    /// commits; returns the value to publish.
    pub fn pick_time(&self, state: &mut PickerState, column: TimeColumn, index: usize) -> (res: DateTime)
        requires
            self.wf(),
            old(state).wf(),
            column == TimeColumn::Hour ==> index < 24,
            column == TimeColumn::Minute ==> index * self.minute_step < 60,
        ensures
            final(state).wf(),
            ({
                let t = old(state).edit.time;
                let (h, m) = match column {
                    TimeColumn::Hour => (index as u32, t.minute),
                    TimeColumn::Minute => (t.hour, (index * self.minute_step) as u32),
                };
                let picked = spec_clamp(
                    DateTime { date: old(state).edit.date, time: Time { hour: h, minute: m, second: 0, nano: 0 } },
                    self.min,
                    self.max,
                );
                &&& res == picked
                &&& final(state).edit == picked
                &&& final(state).text@ == spec_format(self.mode, picked)
                &&& final(state).is_valid
            }),
            final(state).open == old(state).open,
            final(state).view == old(state).view,
            final(state).view_year == old(state).view_year,
            final(state).view_month == old(state).view_month,
            final(state).today == old(state).today,
    {
        let t = state.edit.time;
        if column == TimeColumn::Minute {
            assert(index <= index * self.minute_step) by (nonlinear_arith)
                requires self.minute_step >= 1;
        }
        let (hour, minute) = match column {
            TimeColumn::Hour => (index as u32, t.minute),
            TimeColumn::Minute => (t.hour, index as u32 * self.minute_step),
        };
        state.edit = DateTime { date: state.edit.date, time: Time { hour, minute, second: 0, nano: 0 } };
        self.commit(state)
    }

    /// Number of items in a time column.
    pub fn item_count(&self, column: TimeColumn) -> (res: usize)
        requires
            self.minute_step > 0,
        ensures
            column == TimeColumn::Hour ==> res == HOUR_COUNT,
            column == TimeColumn::Minute ==> res == (60 + self.minute_step - 1) / (
            self.minute_step as int),
    {
        match column {
            TimeColumn::Hour => HOUR_COUNT,
            TimeColumn::Minute => minute_count(self.minute_step),
        }
    }
}

/// Picking an enabled day of the grid keeps the time of day being
/// edited: when that day at that time is within the bounds, exactly
/// that date-time is published and becomes the edited value, and the
/// calendar shows its month.
pub proof fn lemma_day_pick_keeps_time(
    p: Picker,
    s: PickerState,
    i: usize,
    t: PickerState,
    res: Option<DateTime>,
)
    requires
        p.activated(s, PressTarget::DayCell(i), t, res),
        spec_date_enabled(grid_date(s.view_year as int, s.view_month as int, i as int), p.min, p.max),
        spec_in_range(
            DateTime { date: grid_date(s.view_year as int, s.view_month as int, i as int), time: s.edit.time },
            p.min,
            p.max,
        ),
    ensures
        ({
            let date = grid_date(s.view_year as int, s.view_month as int, i as int);
            &&& res == Some(DateTime { date, time: s.edit.time })
            &&& t.edit == DateTime { date, time: s.edit.time }
            &&& t.view_year == date.year
            &&& t.view_month == date.month
        }),
{
    let date = grid_date(s.view_year as int, s.view_month as int, i as int);
    crate::datetime::lemma_clamp_laws(DateTime { date, time: s.edit.time }, p.min, p.max);
}

/// Choosing cell `i` of the month list (cells in calendar order, the
/// first being January) opens month `i + 1` of the shown year in the
/// day view, when that month has a day within the bounds; nothing is
/// published.
pub proof fn lemma_month_cell_opens_month(
    p: Picker,
    s: PickerState,
    i: usize,
    t: PickerState,
    res: Option<DateTime>,
)
    requires
        i < 12,
        p.activated(s, PressTarget::MonthCell(i), t, res),
        spec_month_enabled(s.view_year as int, i + 1, p.min, p.max),
    ensures
        t.view == CalendarView::Days,
        t.view_month == i + 1,
        1 <= t.view_month <= 12,
        t.view_year == s.view_year,
        t.edit == s.edit,
        res is None,
{
}

/// The previous chevron steps the calendar back: by exactly one month
/// in the day view, one year in the month view and one page of years
/// in the year view (stopping at the first representable year), and
/// nothing else changes.
pub proof fn lemma_prev_chevron_steps_back(p: Picker, s: PickerState, t: PickerState, res: Option<DateTime>)
    requires
        s.wf(),
        p.activated(s, PressTarget::PrevChevron, t, res),
    ensures
        res is None,
        t.view == s.view,
        t.edit == s.edit,
        s.view == CalendarView::Days ==> t.view_year * 12 + t.view_month == s.view_year * 12 + s.view_month - 1
            && 1 <= t.view_month <= 12,
        s.view == CalendarView::Months ==> t.view_month == s.view_month
            && t.view_year == (if s.view_year > i32::MIN { s.view_year - 1 } else { s.view_year as int }),
        s.view == CalendarView::Years ==> t.view_month == s.view_month
            && t.view_year == (if s.view_year >= i32::MIN + 20 { s.view_year - 20 } else { i32::MIN as int }),
{
}

/// The next chevron steps the calendar forward: by exactly one month
/// in the day view, one year in the month view and one page of years
/// in the year view (stopping at the last representable year), and
/// nothing else changes.
pub proof fn lemma_next_chevron_steps_forward(p: Picker, s: PickerState, t: PickerState, res: Option<DateTime>)
    requires
        s.wf(),
        p.activated(s, PressTarget::NextChevron, t, res),
    ensures
        res is None,
        t.view == s.view,
        t.edit == s.edit,
        s.view == CalendarView::Days ==> t.view_year * 12 + t.view_month == s.view_year * 12 + s.view_month + 1
            && 1 <= t.view_month <= 12,
        s.view == CalendarView::Months ==> t.view_month == s.view_month
            && t.view_year == (if s.view_year < i32::MAX { s.view_year + 1 } else { s.view_year as int }),
        s.view == CalendarView::Years ==> t.view_month == s.view_month
            && t.view_year == (if s.view_year <= i32::MAX - 20 { s.view_year + 20 } else { i32::MAX as int }),
{
}

/// Choosing cell `i` of the year list opens the `i`-th year of the page
/// shown (the page of twenty years, starting at a multiple of twenty,
/// that holds the shown year) in the day view, when that year has a day
/// within the bounds.
pub proof fn lemma_year_cell_opens_year(p: Picker, s: PickerState, i: usize, t: PickerState, res: Option<DateTime>)
    requires
        i < 20,
        p.activated(s, PressTarget::YearCell(i), t, res),
        spec_year_enabled(spec_year_page_start(s.view_year as int) + i, p.min, p.max),
    ensures
        res is None,
        t.view == CalendarView::Days,
        t.view_month == s.view_month,
        t.edit == s.edit,
        ({
            let first = spec_year_page_start(s.view_year as int);
            &&& t.view_year == first + i
            &&& first % 20 == 0
            &&& first <= s.view_year < first + 20
        }),
{
}

} // verus!
