//! Calendar arithmetic shared by the date/time pickers: the proleptic
//! Gregorian calendar model, the 6 × 7 day grid, month navigation and
//! the paged year list.
//!
//! Dates are computed by `chrono`; the library holds them as plain
//! `(year, month, day)` triples in [`Date`].

use vstd::prelude::*;
use chrono::Datelike;
use crate::text::{signed_decimal, write_signed, push_char};

verus! {

/// First year representable by the date model (`chrono::NaiveDate::MIN`).
pub const MIN_YEAR: i32 = -262143;
/// Last year representable by the date model (`chrono::NaiveDate::MAX`).
pub const MAX_YEAR: i32 = 262142;

/// Column headers of the day grid, Monday first.
pub const WEEKDAY_LABELS: [&'static str; 7] = ["Mo", "Tu", "We", "Th", "Fr", "Sa", "Su"];

/// Abbreviated month names for the month-list view, January first.
pub const MONTH_LABELS: [&'static str; 12] = ["Jan", "Feb", "Mar", "Apr", "May", "Jun", "Jul", "Aug", "Sep", "Oct", "Nov", "Dec"];

/// Number of columns in the calendar day grid.
pub const GRID_COLS: usize = 7;
/// Number of rows in the calendar day grid.
pub const GRID_ROWS: usize = 6;
/// Number of columns in the month list grid.
pub const MONTH_COLS: usize = 3;
/// Number of rows in the month list grid.
pub const MONTH_ROWS: usize = 4;
/// Number of columns in the year list grid.
pub const YEAR_COLS: usize = 4;
/// Number of rows in the year list grid.
pub const YEAR_ROWS: usize = 5;
/// Number of years shown per page of the year list view.
pub const YEARS_PER_PAGE: i32 = 20;

/// Gregorian leap-year rule (proleptic, so it also covers years <= 0).
pub open spec fn is_leap_year(y: int) -> bool {
    (y % 4 == 0 && y % 100 != 0) || y % 400 == 0
}

/// Number of days of month `m` of year `y`.
pub open spec fn days_in_month(y: int, m: int) -> int {
    if m == 2 {
        if is_leap_year(y) { 29 } else { 28 }
    } else if m == 4 || m == 6 || m == 9 || m == 11 {
        30
    } else {
        31
    }
}

/// Whether `(y, m, d)` names an existing day within the supported range.
pub open spec fn valid_ymd(y: int, m: int, d: int) -> bool {
    &&& MIN_YEAR <= y <= MAX_YEAR
    &&& 1 <= m <= 12
    &&& 1 <= d <= days_in_month(y, m)
}

/// Days of all years before `y` (counting from year 1).
pub open spec fn days_before_year(y: int) -> int {
    let p = y - 1;
    365 * p + p / 4 - p / 100 + p / 400
}

/// Days of the months of year `y` before month `m`.
pub open spec fn days_before_month(y: int, m: int) -> int {
    let base: int = if m <= 1 { 0 }
        else if m == 2 { 31 }
        else if m == 3 { 59 }
        else if m == 4 { 90 }
        else if m == 5 { 120 }
        else if m == 6 { 151 }
        else if m == 7 { 181 }
        else if m == 8 { 212 }
        else if m == 9 { 243 }
        else if m == 10 { 273 }
        else if m == 11 { 304 }
        else { 334 };
    if m > 2 && is_leap_year(y) { base + 1 } else { base }
}

/// Serial day number: 0001-01-01 is day 1, and each following day adds one.
pub open spec fn day_number(y: int, m: int, d: int) -> int {
    days_before_year(y) + days_before_month(y, m) + d
}

/// Day of the week of a serial day number, Monday = 0 … Sunday = 6
/// (0001-01-01 of the proleptic Gregorian calendar is a Monday).
pub open spec fn weekday_of(n: int) -> int {
    (n - 1) % 7
}

/// Serial number of the first supported day.
pub open spec fn min_day_number() -> int {
    day_number(MIN_YEAR as int, 1, 1)
}

/// Serial number of the last supported day.
pub open spec fn max_day_number() -> int {
    day_number(MAX_YEAR as int, 12, 31)
}

/// A calendar date, as the plain `(year, month, day)` triple.
#[derive(Clone, Copy, Debug, PartialEq, Eq, Structural)]
pub struct Date {
    /// The year (proleptic Gregorian, may be zero or negative).
    pub year: i32,
    /// The month, `1..=12`.
    pub month: u32,
    /// The day of the month, starting at 1.
    pub day: u32,
}

impl Date {
    /// Whether this triple names an existing, supported day.
    pub open spec fn wf(self) -> bool {
        valid_ymd(self.year as int, self.month as int, self.day as int)
    }

    /// The serial day number of this date.
    pub open spec fn dn(self) -> int {
        day_number(self.year as int, self.month as int, self.day as int)
    }

    /// Lexicographic `(year, month, day)` order: chronological order.
    pub open spec fn le(self, other: Date) -> bool {
        ||| self.year < other.year
        ||| self.year == other.year && self.month < other.month
        ||| self.year == other.year && self.month == other.month && self.day <= other.day
    }

    /// Makes the date `year-month-day`, or `None` when that day does
    /// not exist or is out of the supported range.
    pub fn from_ymd(year: i32, month: u32, day: u32) -> (res: Option<Date>)
        ensures
            res is Some <==> valid_ymd(year as int, month as int, day as int),
            res matches Some(d) ==> d.year == year && d.month == month && d.day == day,
    {
        chrono_from_ymd(year, month, day)
    }

    /// Whether `self` is on or before `other`.
    pub fn is_on_or_before(&self, other: &Date) -> (res: bool)
        ensures
            res == self.le(*other),
    {
        self.year < other.year || (self.year == other.year && (self.month < other.month || (
        self.month == other.month && self.day <= other.day)))
    }
}

/// Builds a date through `chrono::NaiveDate::from_ymd_opt`, which
/// returns `None` exactly when the day does not exist or the year is
/// outside `MIN_YEAR..=MAX_YEAR`; the fields of the result are read
/// back with `Datelike`.
#[verifier::external_body]
fn chrono_from_ymd(year: i32, month: u32, day: u32) -> (res: Option<Date>)
    ensures
        res is Some <==> valid_ymd(year as int, month as int, day as int),
        res matches Some(d) ==> d.year == year && d.month == month && d.day == day,
{
    match chrono::NaiveDate::from_ymd_opt(year, month, day) {
        Some(d) => Some(Date { year: d.year(), month: d.month(), day: d.day() }),
        None => None,
    }
}

/// Day of the week from `chrono`'s `Weekday::num_days_from_monday`
/// (Monday = 0 … Sunday = 6) for a supported date; the contract
/// states the Gregorian weekday through the serial day number.
#[verifier::external_body]
fn chrono_weekday(date: Date) -> (res: u32)
    requires
        date.wf(),
    ensures
        res as int == weekday_of(date.dn()),
{
    chrono::NaiveDate::from_ymd_opt(date.year, date.month, date.day).unwrap().weekday().num_days_from_monday()
}

/// `chrono::NaiveDate::checked_add_days`: the date `days` later, or
/// `None` when it would leave the supported range.
#[verifier::external_body]
fn chrono_add_days(date: Date, days: u64) -> (res: Option<Date>)
    requires
        date.wf(),
    ensures
        res is Some <==> date.dn() + days <= max_day_number(),
        res matches Some(r) ==> r.wf() && r.dn() == date.dn() + days,
{
    let d = chrono::NaiveDate::from_ymd_opt(date.year, date.month, date.day).unwrap();
    match d.checked_add_days(chrono::Days::new(days)) {
        Some(r) => Some(Date { year: r.year(), month: r.month(), day: r.day() }),
        None => None,
    }
}

/// `chrono::NaiveDate::checked_sub_days`: the date `days` earlier, or
/// `None` when it would leave the supported range.
#[verifier::external_body]
fn chrono_sub_days(date: Date, days: u64) -> (res: Option<Date>)
    requires
        date.wf(),
    ensures
        res is Some <==> date.dn() - days >= min_day_number(),
        res matches Some(r) ==> r.wf() && r.dn() == date.dn() - days,
{
    let d = chrono::NaiveDate::from_ymd_opt(date.year, date.month, date.day).unwrap();
    match d.checked_sub_days(chrono::Days::new(days)) {
        Some(r) => Some(Date { year: r.year(), month: r.month(), day: r.day() }),
        None => None,
    }
}

/// The day before `date` (`chrono::NaiveDate::pred_opt` semantics,
/// built on the subtraction of one day), or `None` on the first
/// supported day.
pub fn pred_date(date: Date) -> (res: Option<Date>)
    requires
        date.wf(),
    ensures
        res is Some <==> date.dn() - 1 >= min_day_number(),
        res matches Some(r) ==> r.wf() && r.dn() == date.dn() - 1,
{
    chrono_sub_days(date, 1)
}

/// The view month before `(year, month)`.
pub open spec fn spec_prev_month(year: int, month: int) -> (int, int) {
    if month == 1 { (year - 1, 12) } else { (year, month - 1) }
}

/// The view month after `(year, month)`.
pub open spec fn spec_next_month(year: int, month: int) -> (int, int) {
    if month == 12 { (year + 1, 1) } else { (year, month + 1) }
}

/// Number of days of `month` in `year`.
pub(crate) fn month_length(year: i32, month: u32) -> (res: u32)
    requires
        1 <= month <= 12,
    ensures
        res == days_in_month(year as int, month as int),
{
    if month == 2 {
        let leap = (year % 4 == 0 && year % 100 != 0) || year % 400 == 0;
        if leap { 29 } else { 28 }
    } else if month == 4 || month == 6 || month == 9 || month == 11 {
        30
    } else {
        31
    }
}

/// Returns the view month preceding `(year, month)`.
pub fn prev_month(year: i32, month: u32) -> (res: (i32, u32))
    requires
        month != 0,
        month == 1 ==> year > i32::MIN,
    ensures
        (res.0 as int, res.1 as int) == spec_prev_month(year as int, month as int),
{
    if month == 1 {
        (year - 1, 12)
    } else {
        (year, month - 1)
    }
}

/// Returns the view month following `(year, month)`.
pub fn next_month(year: i32, month: u32) -> (res: (i32, u32))
    requires
        month != u32::MAX,
        month == 12 ==> year < i32::MAX,
    ensures
        (res.0 as int, res.1 as int) == spec_next_month(year as int, month as int),
{
    if month == 12 {
        (year + 1, 1)
    } else {
        (year, month + 1)
    }
}

/// Navigating one month back and then one forward (or forward then
/// back) returns to the starting calendar month.
pub proof fn lemma_month_navigation_round_trip(year: int, month: int)
    requires
        1 <= month <= 12,
    ensures
        ({
            let p = spec_prev_month(year, month);
            spec_next_month(p.0, p.1) == (year, month)
        }),
        ({
            let n = spec_next_month(year, month);
            spec_prev_month(n.0, n.1) == (year, month)
        }),
        1 <= spec_prev_month(year, month).1 <= 12,
        1 <= spec_next_month(year, month).1 <= 12,
{
}

/// First year of the page of [`YEARS_PER_PAGE`] years containing `year`.
pub open spec fn spec_year_page_start(year: int) -> int {
    year - year % (YEARS_PER_PAGE as int)
}

/// Returns the first year of the year-list page containing `year`:
/// `year` floored to a multiple of [`YEARS_PER_PAGE`].
pub fn year_page_start(year: i32) -> (res: i32)
    requires
        spec_year_page_start(year as int) >= i32::MIN,
    ensures
        res == spec_year_page_start(year as int),
        res % 20 == 0,
        res <= year < res + 20,
{
    let r = match year.checked_rem_euclid(YEARS_PER_PAGE) {
        Some(r) => r,
        None => 0,
    };
    year - r
}

/// The year-list header text for the page containing `year`.
pub open spec fn spec_year_page_title(year: int) -> Seq<char> {
    let start = spec_year_page_start(year);
    signed_decimal(start) + seq![' ', '\u{2013}', ' '] + signed_decimal(start + YEARS_PER_PAGE - 1)
}

/// Formats the year list header title, e.g. `"2020 – 2039"`.
pub fn year_page_title(year: i32) -> (res: String)
    requires
        spec_year_page_start(year as int) >= i32::MIN,
    ensures
        res@ == spec_year_page_title(year as int),
{
    let start = year_page_start(year);
    let mut s = String::new();
    write_signed(&mut s, start as i64);
    push_char(&mut s, ' ');
    push_char(&mut s, '\u{2013}');
    push_char(&mut s, ' ');
    write_signed(&mut s, start as i64 + 19);
    assert(s@ =~= spec_year_page_title(year as int));
    s
}

/// Serial number of the Monday on or before the 1st of `(year, month)`.
pub open spec fn first_grid_day_number(year: int, month: int) -> int {
    let first = day_number(year, month, 1);
    first - weekday_of(first)
}

/// Returns the date shown in the top-left cell of the day grid for
/// the given view month: the Monday on or before the 1st.
pub fn first_grid_day(year: i32, month: u32) -> (res: Date)
    requires
        valid_ymd(year as int, month as int, 1),
        first_grid_day_number(year as int, month as int) >= min_day_number(),
    ensures
        res.wf(),
        res.dn() == first_grid_day_number(year as int, month as int),
        weekday_of(res.dn()) == 0,
        res.dn() <= day_number(year as int, month as int, 1) < res.dn() + 7,
{
    let first = match chrono_from_ymd(year, month, 1) {
        Some(d) => d,
        None => { return Date { year, month, day: 1 }; }
    };
    let offset = chrono_weekday(first);
    let res = match chrono_sub_days(first, offset as u64) {
        Some(d) => d,
        None => { return first; }
    };
    proof {
        let n = first.dn();
        assert(0 <= weekday_of(n) < 7);
        assert(weekday_of(n - weekday_of(n)) == 0) by {
            lemma_monday_of_week(n);
        }
    }
    res
}

/// Subtracting a day number's weekday lands on a Monday.
proof fn lemma_monday_of_week(n: int)
    ensures
        weekday_of(n - weekday_of(n)) == 0,
{
    let r = (n - 1) % 7;
    let q = (n - 1) / 7;
    assert(n - 1 == 7 * q + r);
    assert((n - r - 1) == 7 * q);
    assert((7 * q) % 7 == 0) by {
        vstd::arithmetic::div_mod::lemma_mod_multiples_basic(q, 7);
    }
}

/// Returns all 42 dates (6 rows × 7 columns, Monday-first) shown in
/// the day grid for the given view month.
pub fn grid_dates(year: i32, month: u32) -> (res: Vec<Date>)
    requires
        valid_ymd(year as int, month as int, 1),
        first_grid_day_number(year as int, month as int) >= min_day_number(),
        first_grid_day_number(year as int, month as int) + 41 <= max_day_number(),
    ensures
        res.len() == GRID_COLS * GRID_ROWS,
        forall|i: int| 0 <= i < res.len() ==> (#[trigger] res[i]).wf() && res[i].dn()
            == first_grid_day_number(year as int, month as int) + i,
{
    let start = first_grid_day(year, month);
    let mut res: Vec<Date> = Vec::new();
    let mut i: u64 = 0;
    while i < 42
        invariant
            start.wf(),
            start.dn() == first_grid_day_number(year as int, month as int),
            start.dn() + 41 <= max_day_number(),
            i <= 42,
            res.len() == i,
            forall|j: int| 0 <= j < res.len() ==> (#[trigger] res[j]).wf() && res[j].dn()
                == start.dn() + j,
        decreases 42 - i,
    {
        let d = match chrono_add_days(start, i) {
            Some(d) => d,
            None => start,
        };
        res.push(d);
        i = i + 1;
    }
    res
}

/// The grid of a view month shows, in order, the 42 consecutive days
/// starting with a Monday, and the 1st of the month sits in the first
/// row at the column of its weekday.
pub proof fn lemma_grid_layout(year: int, month: int)
    requires
        valid_ymd(year, month, 1),
    ensures
        weekday_of(first_grid_day_number(year, month)) == 0,
        day_number(year, month, 1) - first_grid_day_number(year, month) == weekday_of(
            day_number(year, month, 1),
        ),
        0 <= day_number(year, month, 1) - first_grid_day_number(year, month) < GRID_COLS,
{
    lemma_monday_of_week(day_number(year, month, 1));
}


/// Consecutive integers cross a multiple of `k` exactly when the
/// larger one is a multiple of `k` (`k` in {4, 100, 400}).
proof fn lemma_div_step(y: int, k: int)
    requires
        k == 4 || k == 100 || k == 400,
    ensures
        y / k - (y - 1) / k == (if y % k == 0 { 1int } else { 0int }),
{
    let q = (y - 1) / k;
    let r = (y - 1) % k;
    assert(y - 1 == k * q + r && 0 <= r < k) by {
        vstd::arithmetic::div_mod::lemma_fundamental_div_mod(y - 1, k);
    }
    if r + 1 < k {
        assert(y == k * q + (r + 1));
        vstd::arithmetic::div_mod::lemma_fundamental_div_mod_converse(y, k, q, r + 1);
    } else {
        assert(y == k * (q + 1) + 0);
        vstd::arithmetic::div_mod::lemma_fundamental_div_mod_converse(y, k, q + 1, 0);
    }
}

/// Length of year `y` in days.
pub open spec fn year_length(y: int) -> int {
    if is_leap_year(y) { 366 } else { 365 }
}

/// The days before year `y + 1` are those before `y` plus the length of `y`.
pub proof fn lemma_year_step(y: int)
    ensures
        days_before_year(y + 1) == days_before_year(y) + year_length(y),
{
    lemma_div_step(y, 4);
    lemma_div_step(y, 100);
    lemma_div_step(y, 400);
    if y % 400 == 0 {
        assert(y % 100 == 0 && y % 4 == 0) by {
            vstd::arithmetic::div_mod::lemma_fundamental_div_mod(y, 400);
            let q = y / 400;
            assert(y == 100 * (4 * q));
            assert(y == 4 * (100 * q));
            vstd::arithmetic::div_mod::lemma_fundamental_div_mod_converse(y, 100, 4 * q, 0);
            vstd::arithmetic::div_mod::lemma_fundamental_div_mod_converse(y, 4, 100 * q, 0);
        }
    } else if y % 100 == 0 {
        assert(y % 4 == 0) by {
            vstd::arithmetic::div_mod::lemma_fundamental_div_mod(y, 100);
            let q = y / 100;
            assert(y == 4 * (25 * q));
            vstd::arithmetic::div_mod::lemma_fundamental_div_mod_converse(y, 4, 25 * q, 0);
        }
    }
}

/// Days before a year grow by at least 365 per year.
proof fn lemma_days_before_year_monotone(y1: int, y2: int)
    requires
        y1 <= y2,
    ensures
        days_before_year(y1) + 365 * (y2 - y1) <= days_before_year(y2),
    decreases y2 - y1,
{
    if y1 < y2 {
        lemma_days_before_year_monotone(y1, y2 - 1);
        lemma_year_step(y2 - 1);
    }
}

/// Chronological order of supported dates agrees with their day
/// numbers, so day numbers identify dates.
pub proof fn lemma_day_number_order(a: Date, b: Date)
    requires
        a.wf(),
        b.wf(),
    ensures
        a.le(b) <==> a.dn() <= b.dn(),
        a.dn() == b.dn() <==> a == b,
{
    if a.year < b.year {
        lemma_days_before_year_monotone(a.year as int + 1, b.year as int);
        lemma_year_step(a.year as int);
    } else if b.year < a.year {
        lemma_days_before_year_monotone(b.year as int + 1, a.year as int);
        lemma_year_step(b.year as int);
    }
}

/// The day after the last day of a month is the 1st of the next month.
pub proof fn lemma_last_day_of_month(y: int, m: int)
    requires
        1 <= m <= 12,
    ensures
        day_number(y, m, days_in_month(y, m)) + 1 == day_number(
            spec_next_month(y, m).0,
            spec_next_month(y, m).1,
            1,
        ),
{
    if m == 12 {
        lemma_year_step(y);
    }
}

/// Counting months as `12 * year + month`, the next month is one
/// later and the previous month one earlier, and both are real months.
pub proof fn lemma_month_steps_by_one(year: int, month: int)
    requires
        1 <= month <= 12,
    ensures
        ({
            let n = spec_next_month(year, month);
            &&& 12 * n.0 + n.1 == 12 * year + month + 1
            &&& 1 <= n.1 <= 12
        }),
        ({
            let p = spec_prev_month(year, month);
            &&& 12 * p.0 + p.1 == 12 * year + month - 1
            &&& 1 <= p.1 <= 12
        }),
{
}

/// Weekdays advance by one each day, wrapping after Sunday, and
/// 1 January 2024 was a Monday: together these fix the weekday of
/// every day.
pub proof fn lemma_weekdays(n: int)
    ensures
        0 <= weekday_of(n) < 7,
        weekday_of(n + 1) == (weekday_of(n) + 1) % 7,
        weekday_of(day_number(2024, 1, 1)) == 0,
{
    assert(day_number(2024, 1, 1) == 738886);
}

/// The year list shows pages of twenty years, each starting at a
/// multiple of twenty; the page of a year holds that year.
pub proof fn lemma_year_page(year: int)
    ensures
        spec_year_page_start(year) % 20 == 0,
        spec_year_page_start(year) <= year < spec_year_page_start(year) + 20,
{
}

} // verus!
