//! Date-time values, their text form, and the editing logic of the
//! date, time and date-time input fields.
//!
//! Values are carried as plain [`DateTime`] triples/quadruples; the
//! text is produced and parsed by `chrono` with the fixed formats of
//! each [`Mode`].

use vstd::prelude::*;

use chrono::{Datelike, Timelike};
use crate::calendar::{Date, valid_ymd};
use crate::text::{padded_decimal};


verus! {

/// A time of day. `nano` may reach `2_000_000_000` only on a leap
/// second (`second == 59`), as in `chrono::NaiveTime`.
#[derive(Clone, Copy, Debug, PartialEq, Eq, Structural)]
pub struct Time {
    /// Hour, `0..24`.
    pub hour: u32,
    /// Minute, `0..60`.
    pub minute: u32,
    /// Second, `0..60`.
    pub second: u32,
    /// Nanosecond fraction.
    pub nano: u32,
}

impl Time {
    /// Whether this is a representable time of day.
    pub open spec fn wf(self) -> bool {
        &&& self.hour < 24
        &&& self.minute < 60
        &&& self.second < 60
        &&& self.nano < 2_000_000_000
        &&& (self.nano >= 1_000_000_000 ==> self.second == 59)
    }

    /// Chronological order within a day.
    pub open spec fn le(self, o: Time) -> bool {
        ||| self.hour < o.hour
        ||| self.hour == o.hour && self.minute < o.minute
        ||| self.hour == o.hour && self.minute == o.minute && self.second < o.second
        ||| self.hour == o.hour && self.minute == o.minute && self.second == o.second
            && self.nano <= o.nano
    }

    /// Midnight.
    pub open spec fn midnight_spec() -> Time {
        Time { hour: 0, minute: 0, second: 0, nano: 0 }
    }

    /// Midnight.
    pub fn midnight() -> (t: Time)
        ensures
            t.wf(),
            t == (Time { hour: 0, minute: 0, second: 0, nano: 0 }),
    {
        Time { hour: 0, minute: 0, second: 0, nano: 0 }
    }

    /// Whether `self` is at or before `o`.
    pub fn is_on_or_before(&self, o: &Time) -> (res: bool)
        ensures
            res == self.le(*o),
    {
        self.hour < o.hour || (self.hour == o.hour && (self.minute < o.minute || (self.minute
            == o.minute && (self.second < o.second || (self.second == o.second && self.nano
            <= o.nano)))))
    }
}

/// A calendar date together with a time of day.
#[derive(Clone, Copy, Debug, PartialEq, Eq, Structural)]
pub struct DateTime {
    /// The date part.
    pub date: Date,
    /// The time part.
    pub time: Time,
}

impl DateTime {
    /// Whether both parts are valid.
    pub open spec fn wf(self) -> bool {
        self.date.wf() && self.time.wf()
    }

    /// Chronological order.
    pub open spec fn le(self, o: DateTime) -> bool {
        if self.date == o.date {
            self.time.le(o.time)
        } else {
            self.date.le(o.date)
        }
    }

    /// Strict chronological order.
    pub open spec fn lt(self, o: DateTime) -> bool {
        !o.le(self)
    }

    /// Whether `self` is at or before `o`.
    pub fn is_on_or_before(&self, o: &DateTime) -> (res: bool)
        ensures
            res == self.le(*o),
    {
        if self.date == o.date {
            self.time.is_on_or_before(&o.time)
        } else {
            self.date.is_on_or_before(&o.date)
        }
    }
}

/// `self.le(o)` is a total order on date-times.
pub proof fn lemma_datetime_order(a: DateTime, b: DateTime, c: DateTime)
    ensures
        a.le(a),
        a.le(b) || b.le(a),
        a.le(b) && b.le(a) ==> a == b,
        a.le(b) && b.le(c) ==> a.le(c),
{
}

/// The value clamped into the optional inclusive bounds: raised to
/// `min` when below it, then lowered to `max` when above it.
pub open spec fn spec_clamp(dt: DateTime, min: Option<DateTime>, max: Option<DateTime>) -> DateTime {
    let a = match min {
        Some(lo) => if dt.lt(lo) { lo } else { dt },
        None => dt,
    };
    match max {
        Some(hi) => if hi.lt(a) { hi } else { a },
        None => a,
    }
}

/// Whether `dt` satisfies the optional inclusive bounds.
pub open spec fn spec_in_range(dt: DateTime, min: Option<DateTime>, max: Option<DateTime>) -> bool {
    &&& (min matches Some(lo) ==> lo.le(dt))
    &&& (max matches Some(hi) ==> dt.le(hi))
}

/// Clamps `dt` into the optional inclusive range `[min, max]`.
pub fn clamp(dt: DateTime, min: Option<DateTime>, max: Option<DateTime>) -> (res: DateTime)
    ensures
        res == spec_clamp(dt, min, max),
{
    let mut dt = dt;
    if let Some(lo) = min {
        if !lo.is_on_or_before(&dt) {
            dt = lo;
        }
    }
    if let Some(hi) = max {
        if !dt.is_on_or_before(&hi) {
            dt = hi;
        }
    }
    dt
}

/// Whether `dt` lies in the optional inclusive range `[min, max]`.
pub fn in_range(dt: DateTime, min: Option<DateTime>, max: Option<DateTime>) -> (res: bool)
    ensures
        res == spec_in_range(dt, min, max),
{
    let lo_ok = match min {
        Some(lo) => lo.is_on_or_before(&dt),
        None => true,
    };
    let hi_ok = match max {
        Some(hi) => dt.is_on_or_before(&hi),
        None => true,
    };
    lo_ok && hi_ok
}

/// Clamping leaves in-range values unchanged, always lands in a
/// non-empty range, and is idempotent.
pub proof fn lemma_clamp_laws(dt: DateTime, min: Option<DateTime>, max: Option<DateTime>)
    ensures
        spec_in_range(dt, min, max) ==> spec_clamp(dt, min, max) == dt,
        (min matches Some(lo) && max matches Some(hi) ==> lo.le(hi)) ==> spec_in_range(
            spec_clamp(dt, min, max),
            min,
            max,
        ),
        (min matches Some(lo) && max matches Some(hi) ==> lo.le(hi)) ==> spec_clamp(
            spec_clamp(dt, min, max),
            min,
            max,
        ) == spec_clamp(dt, min, max),
{
}

/// Clamping gives the point of the bounds nearest to the value: a
/// value before the lower bound becomes the lower bound, one after the
/// upper bound becomes the upper bound, and one between them stays.
/// With a single bound, only that bound moves the value.
pub proof fn lemma_clamp_nearest_bound(dt: DateTime, lo: DateTime, hi: DateTime)
    requires
        lo.le(hi),
    ensures
        !lo.le(dt) ==> spec_clamp(dt, Some(lo), Some(hi)) == lo,
        !dt.le(hi) ==> spec_clamp(dt, Some(lo), Some(hi)) == hi,
        lo.le(dt) && dt.le(hi) ==> spec_clamp(dt, Some(lo), Some(hi)) == dt,
        !lo.le(dt) ==> spec_clamp(dt, Some(lo), None) == lo,
        lo.le(dt) ==> spec_clamp(dt, Some(lo), None) == dt,
        !dt.le(hi) ==> spec_clamp(dt, None, Some(hi)) == hi,
        dt.le(hi) ==> spec_clamp(dt, None, Some(hi)) == dt,
        spec_clamp(dt, None, None) == dt,
{
    lemma_datetime_order(lo, hi, dt);
    lemma_datetime_order(dt, hi, lo);
}

/// English month names, as `chrono` formats them with `%B`.
pub open spec fn month_long_name(m: int) -> Seq<char> {
    if m == 1 { "January"@ }
    else if m == 2 { "February"@ }
    else if m == 3 { "March"@ }
    else if m == 4 { "April"@ }
    else if m == 5 { "May"@ }
    else if m == 6 { "June"@ }
    else if m == 7 { "July"@ }
    else if m == 8 { "August"@ }
    else if m == 9 { "September"@ }
    else if m == 10 { "October"@ }
    else if m == 11 { "November"@ }
    else { "December"@ }
}

/// `chrono`'s `%Y`: four zero-padded digits for years `0..=9999`,
/// otherwise an explicit sign followed by at least four digits.
pub open spec fn year_text(y: int) -> Seq<char> {
    if 0 <= y <= 9999 {
        padded_decimal(y as nat, 4)
    } else if y < 0 {
        seq!['-'] + padded_decimal((-y) as nat, 4)
    } else {
        seq!['+'] + padded_decimal(y as nat, 4)
    }
}

/// `YYYY-MM-DD`.
pub open spec fn date_text(d: Date) -> Seq<char> {
    year_text(d.year as int) + seq!['-'] + padded_decimal(d.month as nat, 2) + seq!['-']
        + padded_decimal(d.day as nat, 2)
}

/// `HH:MM`.
pub open spec fn hm_text(t: Time) -> Seq<char> {
    padded_decimal(t.hour as nat, 2) + seq![':'] + padded_decimal(t.minute as nat, 2)
}

/// The format strings handed to `chrono` by this module.
pub open spec fn known_format(fmt: Seq<char>) -> bool {
    ||| fmt == "%Y-%m-%d"@
    ||| fmt == "%H:%M"@
    ||| fmt == "%Y-%m-%d %H:%M"@
    ||| fmt == "%B"@
}

/// Formats a date-time with `chrono::NaiveDateTime::format` (zero
/// padding is the default for these specifiers; `%B` gives the English
/// month name).
#[verifier::external_body]
fn chrono_format(dt: DateTime, fmt: &str) -> (res: String)
    requires
        dt.wf(),
        known_format(fmt@),
    ensures
        fmt@ == "%Y-%m-%d"@ ==> res@ == date_text(dt.date),
        fmt@ == "%H:%M"@ ==> res@ == hm_text(dt.time),
        fmt@ == "%Y-%m-%d %H:%M"@ ==> res@ == date_text(dt.date) + seq![' '] + hm_text(dt.time),
        fmt@ == "%B"@ ==> res@ == month_long_name(dt.date.month as int),
{
    let date = chrono::NaiveDate::from_ymd_opt(dt.date.year, dt.date.month, dt.date.day).unwrap();
    let time = chrono::NaiveTime::from_hms_nano_opt(dt.time.hour, dt.time.minute, dt.time.second, dt.time.nano).unwrap();
    date.and_time(time).format(fmt).to_string()
}

/// What `chrono::NaiveDate::parse_from_str(text, fmt)` yields, as
/// `(year, month, day)`.
pub uninterp spec fn parsed_date(text: Seq<char>, fmt: Seq<char>) -> Option<(int, int, int)>;

/// What `chrono::NaiveTime::parse_from_str(text, fmt)` yields, as
/// `(hour, minute, second, nanosecond)`.
pub uninterp spec fn parsed_time(text: Seq<char>, fmt: Seq<char>) -> Option<(int, int, int, int)>;

/// What `chrono::NaiveDateTime::parse_from_str(text, fmt)` yields, as
/// `((year, month, day), (hour, minute, second, nanosecond))`.
pub uninterp spec fn parsed_date_time(text: Seq<char>, fmt: Seq<char>) -> Option<
    ((int, int, int), (int, int, int, int)),
>;

/// `chrono::NaiveDate::parse_from_str`; a parsed date always exists.
#[verifier::external_body]
fn chrono_parse_date(text: &str, fmt: &str) -> (res: Option<Date>)
    ensures
        res is Some <==> parsed_date(text@, fmt@) is Some,
        res matches Some(d) ==> d.wf() && parsed_date(text@, fmt@) == Some(
            (d.year as int, d.month as int, d.day as int),
        ),
{
    match chrono::NaiveDate::parse_from_str(text, fmt) {
        Ok(d) => Some(Date { year: d.year(), month: d.month(), day: d.day() }),
        Err(_) => None,
    }
}

/// `chrono::NaiveTime::parse_from_str`; a parsed time is always valid,
/// and a format that reads no seconds leaves the second and the
/// nanosecond at zero.
#[verifier::external_body]
fn chrono_parse_time(text: &str, fmt: &str) -> (res: Option<Time>)
    ensures
        res is Some <==> parsed_time(text@, fmt@) is Some,
        res matches Some(t) ==> t.wf() && parsed_time(text@, fmt@) == Some(
            (t.hour as int, t.minute as int, t.second as int, t.nano as int),
        ),
        fmt@ == "%H:%M"@ ==> (res matches Some(t) ==> t.second == 0 && t.nano == 0),
{
    match chrono::NaiveTime::parse_from_str(text, fmt) {
        Ok(t) => Some(Time { hour: t.hour(), minute: t.minute(), second: t.second(), nano: t.nanosecond() }),
        Err(_) => None,
    }
}

/// `chrono::NaiveDateTime::parse_from_str`; a parsed value is always
/// valid, and a format that reads no seconds leaves the second and the
/// nanosecond at zero.
#[verifier::external_body]
fn chrono_parse_date_time(text: &str, fmt: &str) -> (res: Option<DateTime>)
    ensures
        res is Some <==> parsed_date_time(text@, fmt@) is Some,
        res matches Some(v) ==> v.wf() && parsed_date_time(text@, fmt@) == Some(
            (
                (v.date.year as int, v.date.month as int, v.date.day as int),
                (v.time.hour as int, v.time.minute as int, v.time.second as int, v.time.nano as int),
            ),
        ),
        fmt@ == "%Y-%m-%d %H:%M"@ ==> (res matches Some(v) ==> v.time.second == 0 && v.time.nano == 0),
{
    match chrono::NaiveDateTime::parse_from_str(text, fmt) {
        Ok(v) => Some(DateTime {
            date: Date { year: v.year(), month: v.month(), day: v.day() },
            time: Time { hour: v.hour(), minute: v.minute(), second: v.second(), nano: v.nanosecond() },
        }),
        Err(_) => None,
    }
}

/// Returns the full English month name, e.g. `"June"`.
pub fn month_name(month: u32) -> (res: String)
    requires
        1 <= month <= 12,
    ensures
        res@ == month_long_name(month as int),
{
    let date = Date { year: 2000, month, day: 1 };
    let dt = DateTime { date, time: Time::midnight() };
    chrono_format(dt, "%B")
}

/// Which value components a picker edits.
#[derive(Clone, Copy, Debug, PartialEq, Eq, Structural)]
pub enum Mode {
    /// Calendar date (`YYYY-MM-DD`).
    Date,
    /// Time of day (`HH:MM`, 24-hour).
    Time,
    /// Date and time (`YYYY-MM-DD HH:MM`).
    DateTime,
}

/// The `chrono` format string of a mode.
pub open spec fn mode_format(mode: Mode) -> Seq<char> {
    match mode {
        Mode::Date => "%Y-%m-%d"@,
        Mode::Time => "%H:%M"@,
        Mode::DateTime => "%Y-%m-%d %H:%M"@,
    }
}

/// The text shown for `dt` in `mode`.
pub open spec fn spec_format(mode: Mode, dt: DateTime) -> Seq<char> {
    match mode {
        Mode::Date => date_text(dt.date),
        Mode::Time => hm_text(dt.time),
        Mode::DateTime => date_text(dt.date) + seq![' '] + hm_text(dt.time),
    }
}

/// The value parsed from `text` in `mode`, the missing component taken
/// from `base`.
pub open spec fn spec_parse(mode: Mode, text: Seq<char>, base: DateTime) -> Option<DateTime> {
    match mode {
        Mode::Date => match parsed_date(text, mode_format(mode)) {
            Some(d) => Some(DateTime {
                date: Date { year: d.0 as i32, month: d.1 as u32, day: d.2 as u32 },
                time: base.time,
            }),
            None => None,
        },
        Mode::Time => match parsed_time(text, mode_format(mode)) {
            Some(t) => Some(DateTime {
                date: base.date,
                time: Time { hour: t.0 as u32, minute: t.1 as u32, second: t.2 as u32, nano: t.3 as u32 },
            }),
            None => None,
        },
        Mode::DateTime => match parsed_date_time(text, mode_format(mode)) {
            Some(v) => Some(DateTime {
                date: Date { year: v.0.0 as i32, month: v.0.1 as u32, day: v.0.2 as u32 },
                time: Time { hour: v.1.0 as u32, minute: v.1.1 as u32, second: v.1.2 as u32, nano: v.1.3 as u32 },
            }),
            None => None,
        },
    }
}

/// Whether `c` may be typed into a field of `mode`.
pub open spec fn spec_allowed_char(mode: Mode, c: char) -> bool {
    ('0' <= c <= '9') || match mode {
        Mode::Date => c == '-',
        Mode::Time => c == ':',
        Mode::DateTime => c == '-' || c == ':' || c == ' ',
    }
}

/// Longest accepted text of a mode.
pub open spec fn spec_max_len(mode: Mode) -> nat {
    match mode {
        Mode::Date => 10,
        Mode::Time => 5,
        Mode::DateTime => 16,
    }
}

/// Whether `text` can be held by a field of `mode` while typing.
pub open spec fn spec_valid_text(mode: Mode, text: Seq<char>) -> bool {
    text.len() <= spec_max_len(mode) && forall|i: int| 0 <= i < text.len() ==> spec_allowed_char(mode, #[trigger] text[i])
}

/// The date of `dt` replaced by `date`.
pub fn with_date(dt: DateTime, date: Date) -> (res: DateTime)
    ensures
        res == (DateTime { date, time: dt.time }),
{
    DateTime { date, time: dt.time }
}

/// The time of `dt` replaced by `time`.
pub fn with_time(dt: DateTime, time: Time) -> (res: DateTime)
    ensures
        res == (DateTime { date: dt.date, time }),
{
    DateTime { date: dt.date, time }
}

impl Mode {
    /// The `chrono` format string of this mode.
    pub fn format_str(self) -> (res: &'static str)
        ensures
            res@ == mode_format(self),
    {
        match self {
            Mode::Date => "%Y-%m-%d",
            Mode::Time => "%H:%M",
            Mode::DateTime => "%Y-%m-%d %H:%M",
        }
    }

    /// Longest accepted text.
    pub fn max_len(self) -> (res: usize)
        ensures
            res == spec_max_len(self),
    {
        match self {
            Mode::Date => 10,
            Mode::Time => 5,
            Mode::DateTime => 16,
        }
    }

    /// Whether `c` may be typed into the field.
    pub fn is_allowed_char(self, c: char) -> (res: bool)
        ensures
            res == spec_allowed_char(self, c),
    {
        ('0' <= c && c <= '9') || match self {
            Mode::Date => c == '-',
            Mode::Time => c == ':',
            Mode::DateTime => c == '-' || c == ':' || c == ' ',
        }
    }

    /// Whether the popup shows a calendar.
    pub fn has_calendar(self) -> (res: bool)
        ensures
            res == (self == Mode::Date || self == Mode::DateTime),
    {
        match self {
            Mode::Date | Mode::DateTime => true,
            Mode::Time => false,
        }
    }

    /// Whether the popup shows the hour/minute columns.
    pub fn has_time(self) -> (res: bool)
        ensures
            res == (self == Mode::Time || self == Mode::DateTime),
    {
        match self {
            Mode::Time | Mode::DateTime => true,
            Mode::Date => false,
        }
    }

    /// The text shown for `dt`.
    pub fn format(self, dt: DateTime) -> (res: String)
        requires
            dt.wf(),
        ensures
            res@ == spec_format(self, dt),
    {
        chrono_format(dt, self.format_str())
    }

    /// Parses `text` into a full date-time, taking the missing
    /// component (if any) from `base`. A typed time has zero seconds.
    pub fn parse(self, text: &str, base: DateTime) -> (res: Option<DateTime>)
        ensures
            res == spec_parse(self, text@, base),
            res matches Some(v) ==> (base.wf() ==> v.wf()),
            !(self is Date) ==> (res matches Some(v) ==> v.time.second == 0 && v.time.nano == 0),
    {
        match self {
            Mode::Date => match chrono_parse_date(text, self.format_str()) {
                Some(d) => Some(with_date(base, d)),
                None => None,
            },
            Mode::Time => match chrono_parse_time(text, self.format_str()) {
                Some(t) => Some(with_time(base, t)),
                None => None,
            },
            Mode::DateTime => chrono_parse_date_time(text, self.format_str()),
        }
    }

    /// Validates a whole text: allowed characters and length.
    pub fn is_valid_text(self, text: &str) -> (res: bool)
        ensures
            res == spec_valid_text(self, text@),
    {
        let n = text.unicode_len();
        if n > self.max_len() {
            return false;
        }
        let mut i: usize = 0;
        while i < n
            invariant
                n == text@.len(),
                i <= n,
                forall|j: int| 0 <= j < i ==> spec_allowed_char(self, #[trigger] text@[j]),
            decreases n - i,
        {
            if !self.is_allowed_char(text.get_char(i)) {
                return false;
            }
            i = i + 1;
        }
        true
    }
}

} // verus!
