//! The date, time and date-time input fields: thin configurations of
//! the shared [`Picker`](crate::picker::Picker) in one of its modes.

use vstd::prelude::*;
use crate::calendar::Date;
use crate::datetime::{DateTime, Mode, Time};
use crate::picker::{Picker, spec_clamp_step};
use crate::number_input::{range_start, range_end};
use std::ops::RangeInclusive;

verus! {

/// The date used to carry a time of day through the picker.
pub open spec fn epoch() -> Date {
    Date { year: 1970, month: 1, day: 1 }
}

/// A date input: a picker in date mode, the time fixed at midnight.
pub struct DateInput {
    /// The configured picker.
    pub inner: Picker,
}

impl DateInput {
    /// A date input showing `value`.
    pub fn new(value: Date) -> (res: DateInput)
        ensures
            res.inner == (Picker {
                mode: Mode::Date,
                value: DateTime { date: value, time: Time::midnight_spec() },
                min: None,
                max: None,
                today: None,
                minute_step: 1,
            }),
    {
        DateInput { inner: Picker::new(Mode::Date, DateTime { date: value, time: Time::midnight() }) }
    }

    /// Restricts the selectable dates to `range`, each bound at
    /// midnight.
    pub fn range(self, range: RangeInclusive<Date>) -> (res: DateInput)
        ensures
            res.inner == (Picker {
                min: Some(DateTime { date: range@.start, time: Time::midnight_spec() }),
                max: Some(DateTime { date: range@.end, time: Time::midnight_spec() }),
                ..self.inner
            }),
    {
        let start = range_start(&range);
        let end = range_end(&range);
        DateInput {
            inner: self.inner.min(DateTime { date: start, time: Time::midnight() }).max(
                DateTime { date: end, time: Time::midnight() },
            ),
        }
    }

    /// Overrides the date marked as "today".
    pub fn today(self, today: Date) -> (res: DateInput)
        ensures
            res.inner == (Picker { today: Some(today), ..self.inner }),
    {
        DateInput { inner: self.inner.today(today) }
    }
}

/// A time input: a picker in time mode, the date fixed at 1970-01-01.
pub struct TimeInput {
    /// The configured picker.
    pub inner: Picker,
}

impl TimeInput {
    /// A time input showing `value`.
    pub fn new(value: Time) -> (res: TimeInput)
        ensures
            res.inner == (Picker {
                mode: Mode::Time,
                value: DateTime { date: epoch(), time: value },
                min: None,
                max: None,
                today: None,
                minute_step: 1,
            }),
    {
        TimeInput { inner: Picker::new(Mode::Time, DateTime { date: Date { year: 1970, month: 1, day: 1 }, time: value }) }
    }

    /// Sets the minute step, clamped to `1..=59`.
    pub fn minute_step(self, step: u32) -> (res: TimeInput)
        ensures
            res.inner == (Picker { minute_step: spec_clamp_step(step), ..self.inner }),
    {
        TimeInput { inner: self.inner.minute_step(step) }
    }

    /// Restricts the selectable times to `range`.
    pub fn range(self, range: RangeInclusive<Time>) -> (res: TimeInput)
        ensures
            res.inner == (Picker {
                min: Some(DateTime { date: epoch(), time: range@.start }),
                max: Some(DateTime { date: epoch(), time: range@.end }),
                ..self.inner
            }),
    {
        let start = range_start(&range);
        let end = range_end(&range);
        let day = Date { year: 1970, month: 1, day: 1 };
        TimeInput { inner: self.inner.min(DateTime { date: day, time: start }).max(DateTime { date: day, time: end }) }
    }
}

/// A date-time input: a picker in date-time mode.
pub struct DateTimeInput {
    /// The configured picker.
    pub inner: Picker,
}

impl DateTimeInput {
    /// A date-time input showing `value`.
    pub fn new(value: DateTime) -> (res: DateTimeInput)
        ensures
            res.inner == (Picker { mode: Mode::DateTime, value, min: None, max: None, today: None, minute_step: 1 }),
    {
        DateTimeInput { inner: Picker::new(Mode::DateTime, value) }
    }

    /// Restricts the selectable values to `range`.
    pub fn range(self, range: RangeInclusive<DateTime>) -> (res: DateTimeInput)
        ensures
            res.inner == (Picker { min: Some(range@.start), max: Some(range@.end), ..self.inner }),
    {
        DateTimeInput { inner: self.inner.min(range_start(&range)).max(range_end(&range)) }
    }

    /// Overrides the date marked as "today".
    pub fn today(self, today: Date) -> (res: DateTimeInput)
        ensures
            res.inner == (Picker { today: Some(today), ..self.inner }),
    {
        DateTimeInput { inner: self.inner.today(today) }
    }

    /// Sets the minute step, clamped to `1..=59`.
    pub fn minute_step(self, step: u32) -> (res: DateTimeInput)
        ensures
            res.inner == (Picker { minute_step: spec_clamp_step(step), ..self.inner }),
    {
        DateTimeInput { inner: self.inner.minute_step(step) }
    }
}

} // verus!
