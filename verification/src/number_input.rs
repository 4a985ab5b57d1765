//! The numeric input field: the [`Numeric`] value types it edits, and
//! what typing, committing and the stepper buttons do to its state.

use vstd::prelude::*;
use std::ops::RangeInclusive;
use crate::text::{int_text_value, lemma_signed_decimal_parses, parse_int_in_range, push_char, signed_decimal, write_signed};

verus! {

/// Whether `c` may be typed after `current` into a field of a numeric
/// type (digits always; a minus sign only first, and only when the
/// type is signed).
pub open spec fn spec_numeric_char(c: char, current: Seq<char>, signed: bool) -> bool {
    ('0' <= c <= '9') || (signed && c == '-' && current.len() == 0)
}

/// `v` saturated into `lo..=hi`.
pub open spec fn saturate(v: int, lo: int, hi: int) -> int {
    if v < lo { lo } else if v > hi { hi } else { v }
}

/// The lower bound of an inclusive range (`RangeInclusive::start`).
#[verifier::external_body]
pub(crate) fn range_start<T: Copy>(r: &RangeInclusive<T>) -> (res: T)
    ensures
        res == r@.start,
{
    *r.start()
}

/// The upper bound of an inclusive range (`RangeInclusive::end`).
#[verifier::external_body]
pub(crate) fn range_end<T: Copy>(r: &RangeInclusive<T>) -> (res: T)
    ensures
        res == r@.end,
{
    *r.end()
}

/// Numeric types supported by the number input: arithmetic for
/// stepping, clamping to a range, text conversion, and per-character
/// validation to reject invalid keystrokes.
pub trait Numeric: Copy + Sized {
    /// The mathematical value.
    spec fn value(self) -> int;

    /// Smallest value of the type.
    spec fn lowest() -> int;

    /// Largest value of the type.
    spec fn highest() -> int;

    /// Whether the text form may start with a minus sign.
    spec fn signed() -> bool;

    /// Values lie within the type's bounds, which contain zero, and a
    /// value is determined by its number.
    proof fn lemma_value(self, other: Self)
        ensures
            Self::lowest() <= self.value() <= Self::highest(),
            Self::lowest() <= 0 <= Self::highest(),
            !Self::signed() ==> Self::lowest() == 0,
            self.value() == other.value() ==> self == other,
    ;

    /// The additive identity.
    fn zero() -> (r: Self)
        ensures
            r.value() == 0,
    ;

    /// Adds two values, saturating at the type's bounds.
    fn add(self, other: Self) -> (r: Self)
        ensures
            r.value() == saturate(self.value() + other.value(), Self::lowest(), Self::highest()),
    ;

    /// Subtracts `other` from `self`, saturating at the type's bounds.
    fn sub(self, other: Self) -> (r: Self)
        ensures
            r.value() == saturate(self.value() - other.value(), Self::lowest(), Self::highest()),
    ;

    /// Clamps `self` to the given inclusive range.
    fn clamp_range(self, range: &RangeInclusive<Self>) -> (r: Self)
        requires
            range@.start.value() <= range@.end.value(),
        ensures
            r.value() == saturate(self.value(), range@.start.value(), range@.end.value()),
    ;

    /// Whether `c` could appear after `current` in the text of a value.
    fn is_valid_char(c: char, current: &str) -> (r: bool)
        ensures
            r == spec_numeric_char(c, current@, Self::signed()),
    ;

    /// Whether `self <= other`.
    fn is_le(self, other: Self) -> (r: bool)
        ensures
            r == (self.value() <= other.value()),
    ;

    /// Parses a value with the syntax of Rust's `FromStr` for the type.
    fn parse_text(text: &str) -> (r: Option<Self>)
        ensures
            r is Some <==> (int_text_value(text@, Self::signed()) matches Some(v) && Self::lowest()
                <= v <= Self::highest()),
            r matches Some(x) ==> int_text_value(text@, Self::signed()) == Some(x.value()),
    ;

    /// The text form of the value (Rust's `Display` for the type).
    fn to_text(self) -> (r: String)
        ensures
            r@ == signed_decimal(self.value()),
    ;
}

/// Whether every character of `text` may be typed after the ones
/// before it (the text as it could have been entered keystroke by
/// keystroke).
pub open spec fn spec_text_typeable(text: Seq<char>, signed: bool) -> bool {
    forall|i: int| 0 <= i < text.len() ==> spec_numeric_char(#[trigger] text[i], text.take(i), signed)
}

/// The value `text` parses to for the numeric type `T` (`None` when it
/// is no integer or out of the type's bounds).
pub open spec fn spec_parsed<T: Numeric>(text: Seq<char>) -> Option<int> {
    match int_text_value(text, T::signed()) {
        Some(v) => if T::lowest() <= v <= T::highest() { Some(v) } else { None },
        None => None,
    }
}

/// A numeric input field with optional stepper (+/−) buttons: the
/// value shown, the accepted range, the step of the stepper buttons.
pub struct NumberInput<T: Numeric> {
    /// The value displayed.
    pub value: T,
    /// The accepted inclusive range, if any.
    pub range: Option<RangeInclusive<T>>,
    /// The amount the stepper buttons add or subtract.
    pub step: T,
    /// Whether the stepper buttons are shown.
    pub show_stepper: bool,
    /// Decimal places to display (meaningful for fractional types
    /// only; integers display all their digits).
    pub precision: Option<usize>,
}

/// The editing state of a number input: the text in the field and
/// whether it currently holds an acceptable value.
pub struct NumberInputState {
    /// The text displayed in the field.
    pub text: String,
    /// Whether the text is a valid in-range value (or empty).
    pub is_valid: bool,
}

impl<T: Numeric> NumberInput<T> {
    /// Whether the configured range, if any, is ordered.
    pub open spec fn range_ok(&self) -> bool {
        match self.range {
            Some(r) => r@.start.value() <= r@.end.value(),
            None => true,
        }
    }

    /// `v` clamped to the configured range.
    pub open spec fn spec_clamp(&self, v: int) -> int {
        match self.range {
            Some(r) => saturate(v, r@.start.value(), r@.end.value()),
            None => v,
        }
    }

    /// Whether `v` lies in the configured range.
    pub open spec fn spec_in_range(&self, v: int) -> bool {
        match self.range {
            Some(r) => r@.start.value() <= v <= r@.end.value(),
            None => true,
        }
    }

    /// Whether `text` parses to a value in the configured range.
    pub open spec fn spec_accepts(&self, text: Seq<char>) -> bool {
        match spec_parsed::<T>(text) {
            Some(v) => self.spec_in_range(v),
            None => false,
        }
    }

    /// The value after one press of a stepper button.
    pub open spec fn spec_step_value(&self, up: bool) -> int {
        let moved = if up {
            saturate(self.value.value() + self.step.value(), T::lowest(), T::highest())
        } else {
            saturate(self.value.value() - self.step.value(), T::lowest(), T::highest())
        };
        self.spec_clamp(moved)
    }

    /// Creates a new number input displaying the given value, with no
    /// range, a zero step, the stepper shown and no precision.
    pub fn new(value: T) -> (res: Self)
        ensures
            res.value == value,
            res.range is None,
            res.step.value() == 0,
            res.show_stepper,
            res.precision is None,
    {
        NumberInput { value, range: None, step: T::zero(), show_stepper: true, precision: None }
    }

    /// Sets the valid range for the input value.
    pub fn range(self, range: RangeInclusive<T>) -> (res: Self)
        ensures
            res == (NumberInput { range: Some(range), ..self }),
    {
        NumberInput { range: Some(range), ..self }
    }

    /// Sets the step size for the stepper buttons.
    pub fn step(self, step: T) -> (res: Self)
        ensures
            res == (NumberInput { step, ..self }),
    {
        NumberInput { step, ..self }
    }

    /// Shows or hides the stepper (+/−) buttons.
    pub fn stepper(self, show: bool) -> (res: Self)
        ensures
            res == (NumberInput { show_stepper: show, ..self }),
    {
        NumberInput { show_stepper: show, ..self }
    }

    /// Sets the number of decimal places to display.
    pub fn precision(self, digits: usize) -> (res: Self)
        ensures
            res == (NumberInput { precision: Some(digits), ..self }),
    {
        NumberInput { precision: Some(digits), ..self }
    }

    /// Formats the current value for display.
    pub fn format_value(&self) -> (res: String)
        ensures
            res@ == signed_decimal(self.value.value()),
    {
        self.format_t(self.value)
    }

    /// Formats an arbitrary value for display.
    pub fn format_t(&self, value: T) -> (res: String)
        ensures
            res@ == signed_decimal(value.value()),
    {
        value.to_text()
    }

    /// Clamps a value to the configured range (or returns it unchanged).
    pub fn clamp(&self, value: T) -> (res: T)
        requires
            self.range_ok(),
        ensures
            res.value() == self.spec_clamp(value.value()),
    {
        match &self.range {
            Some(range) => value.clamp_range(range),
            None => value,
        }
    }

    /// Whether a value is within the configured range.
    pub fn in_range(&self, value: T) -> (res: bool)
        ensures
            res == self.spec_in_range(value.value()),
    {
        match &self.range {
            Some(range) => {
                let lo = range_start(range);
                let hi = range_end(range);
                lo.is_le(value) && value.is_le(hi)
            },
            None => true,
        }
    }

    /// Whether every character of `text` is acceptable after the ones
    /// before it, as if typed one by one.
    pub fn is_valid_text(text: &str) -> (res: bool)
        ensures
            res == spec_text_typeable(text@, T::signed()),
    {
        let n = text.unicode_len();
        let mut so_far = String::new();
        let mut i: usize = 0;
        while i < n
            invariant
                n == text@.len(),
                i <= n,
                so_far@ == text@.take(i as int),
                forall|j: int| 0 <= j < i ==> spec_numeric_char(#[trigger] text@[j], text@.take(j), T::signed()),
            decreases n - i,
        {
            let c = text.get_char(i);
            if !T::is_valid_char(c, so_far.as_str()) {
                return false;
            }
            push_char(&mut so_far, c);
            i = i + 1;
            assert(so_far@ =~= text@.take(i as int));
        }
        true
    }

    /// The value after one press of the up (`+`) or down (`−`)
    /// stepper button, clamped to the range.
    pub fn step_value(&self, up: bool) -> (res: T)
        requires
            self.range_ok(),
        ensures
            res.value() == self.spec_step_value(up),
    {
        let new_val = if up { self.value.add(self.step) } else { self.value.sub(self.step) };
        self.clamp(new_val)
    }

    /// The state of a freshly shown field: the formatted value, valid.
    pub fn initial_state(&self) -> (res: NumberInputState)
        ensures
            res.text@ == signed_decimal(self.value.value()),
            res.is_valid,
    {
        NumberInputState { text: self.format_value(), is_valid: true }
    }

    /// Brings the text in line with the value while the field is not
    /// focused; a focused field keeps what the user typed.
    pub fn sync_text(&self, state: &mut NumberInputState, focused: bool)
        ensures
            focused || final(state).text@ == old(state).text@ ==> *final(state) == *old(state),
            !focused && final(state).text@ != old(state).text@ ==> final(state).is_valid,
            !focused ==> final(state).text@ == signed_decimal(self.value.value()),
    {
        if !focused {
            let formatted = self.format_value();
            if state.text != formatted {
                state.text = formatted;
                state.is_valid = true;
            }
        }
    }

    /// A press of a stepper button: the stepped value is shown and is
    /// the new value.
    pub fn step_pressed(&self, state: &mut NumberInputState, up: bool) -> (res: T)
        requires
            self.range_ok(),
        ensures
            res.value() == self.spec_step_value(up),
            final(state).text@ == signed_decimal(res.value()),
            final(state).is_valid,
    {
        let new_val = self.step_value(up);
        state.text = self.format_t(new_val);
        state.is_valid = true;
        new_val
    }

    /// The user edited the text. Text with a character that could not
    /// have been typed is refused and the state kept. Accepted text is
    /// shown; it is valid when empty or a value in range, and such a
    /// value is returned as the new value.
    pub fn text_changed(&self, state: &mut NumberInputState, new_text: String) -> (res: Option<T>)
        ensures
            !spec_text_typeable(new_text@, T::signed()) ==> *final(state) == *old(state) && res is None,
            spec_text_typeable(new_text@, T::signed()) ==> {
                &&& final(state).text == new_text
                &&& final(state).is_valid == (new_text@.len() == 0 || self.spec_accepts(new_text@))
                &&& res is Some <==> self.spec_accepts(new_text@)
                &&& res matches Some(x) ==> spec_parsed::<T>(new_text@) == Some(x.value())
            },
    {
        if !Self::is_valid_text(new_text.as_str()) {
            return None;
        }
        let empty = new_text.as_str().is_empty();
        let parsed = if empty { None } else { T::parse_text(new_text.as_str()) };
        state.text = new_text;
        if empty {
            state.is_valid = true;
            None
        } else {
            match parsed {
                Some(v) => {
                    if self.in_range(v) {
                        state.is_valid = true;
                        Some(v)
                    } else {
                        state.is_valid = false;
                        None
                    }
                },
                None => {
                    state.is_valid = false;
                    None
                },
            }
        }
    }

    /// Enter pressed or focus lost: a parsable text is clamped to the
    /// range, shown formatted and returned as the new value; any other
    /// text is replaced by the current value.
    pub fn commit_text(&self, state: &mut NumberInputState) -> (res: Option<T>)
        requires
            self.range_ok(),
        ensures
            final(state).is_valid,
            res is Some <==> spec_parsed::<T>(old(state).text@) is Some,
            res matches Some(x) ==> x.value() == self.spec_clamp(spec_parsed::<T>(old(state).text@).unwrap())
                && final(state).text@ == signed_decimal(x.value()),
            res is None ==> final(state).text@ == signed_decimal(self.value.value()),
    {
        match T::parse_text(state.text.as_str()) {
            Some(parsed) => {
                let clamped = self.clamp(parsed);
                state.text = self.format_t(clamped);
                state.is_valid = true;
                Some(clamped)
            },
            None => {
                state.text = self.format_value();
                state.is_valid = true;
                None
            },
        }
    }
}

/// The text shown for a value reads back as that value.
pub proof fn lemma_text_round_trip<T: Numeric>(x: T)
    ensures
        spec_parsed::<T>(signed_decimal(x.value())) == Some(x.value()),
{
    x.lemma_value(x);
    lemma_signed_decimal_parses(x.value(), T::signed());
}

/// Committing is stable: a committed value lies within the range and
/// the type, its text reads back as it, committing it again gives the
/// same value, and a value already in range is committed unchanged.
pub proof fn lemma_commit_stable<T: Numeric>(input: NumberInput<T>, v: int)
    requires
        input.range_ok(),
        T::lowest() <= v <= T::highest(),
    ensures
        T::lowest() <= input.spec_clamp(v) <= T::highest(),
        input.spec_in_range(input.spec_clamp(v)),
        spec_parsed::<T>(signed_decimal(input.spec_clamp(v))) == Some(input.spec_clamp(v)),
        input.spec_clamp(input.spec_clamp(v)) == input.spec_clamp(v),
        input.spec_in_range(v) ==> input.spec_clamp(v) == v,
{
    input.value.lemma_value(input.value);
    if let Some(r) = input.range {
        r@.start.lemma_value(r@.end);
        r@.end.lemma_value(r@.start);
    }
    lemma_signed_decimal_parses(input.spec_clamp(v), T::signed());
}

/// A stepper press never leaves the type or the range.
pub proof fn lemma_step_in_range<T: Numeric>(input: NumberInput<T>, up: bool)
    requires
        input.range_ok(),
    ensures
        T::lowest() <= input.spec_step_value(up) <= T::highest(),
        input.spec_in_range(input.spec_step_value(up)),
{
    input.value.lemma_value(input.step);
    if let Some(r) = input.range {
        r@.start.lemma_value(r@.end);
        r@.end.lemma_value(r@.start);
    }
}

/// Committing lands on the nearest point of the range: a value below
/// the range becomes its start, one above it its end, and one inside it
/// stays; without a range every value stays.
pub proof fn lemma_clamp_nearest_bound<T: Numeric>(input: NumberInput<T>, v: int)
    requires
        input.range_ok(),
    ensures
        input.range is None ==> input.spec_clamp(v) == v,
        input.range matches Some(r) ==> {
            &&& v < r@.start.value() ==> input.spec_clamp(v) == r@.start.value()
            &&& v > r@.end.value() ==> input.spec_clamp(v) == r@.end.value()
            &&& r@.start.value() <= v <= r@.end.value() ==> input.spec_clamp(v) == v
        },
{
}

/// A step moves the value by the step (up or down), stopping at the
/// type's limits; the moved value then lands on the nearest point of
/// the range: below the range it becomes the start, above it the end,
/// inside it stays. Without a range the moved value is the result.
pub proof fn lemma_step_moves_then_clamps<T: Numeric>(input: NumberInput<T>, up: bool)
    requires
        input.range_ok(),
    ensures
        ({
            let raw = if up {
                input.value.value() + input.step.value()
            } else {
                input.value.value() - input.step.value()
            };
            let moved = if raw < T::lowest() {
                T::lowest()
            } else if raw > T::highest() {
                T::highest()
            } else {
                raw
            };
            let res = input.spec_step_value(up);
            &&& input.range is None ==> res == moved
            &&& (input.range matches Some(r) ==> {
                &&& moved < r@.start.value() ==> res == r@.start.value()
                &&& moved > r@.end.value() ==> res == r@.end.value()
                &&& r@.start.value() <= moved <= r@.end.value() ==> res == moved
                &&& r@.start.value() <= res <= r@.end.value()
            })
        }),
{
}

impl Numeric for u8 {
    open spec fn value(self) -> int { self as int }
    open spec fn lowest() -> int { 0 }
    open spec fn highest() -> int { u8::MAX as int }
    open spec fn signed() -> bool { false }
    proof fn lemma_value(self, other: Self) {}
    fn zero() -> (r: Self) { 0 }
    fn add(self, other: Self) -> (r: Self) { self.saturating_add(other) }
    fn sub(self, other: Self) -> (r: Self) { self.saturating_sub(other) }
    fn clamp_range(self, range: &RangeInclusive<Self>) -> (r: Self) {
        let lo = range_start(range);
        let hi = range_end(range);
        if self < lo { lo } else if self > hi { hi } else { self }
    }
    fn is_valid_char(c: char, current: &str) -> (r: bool) { '0' <= c && c <= '9' }
    fn is_le(self, other: Self) -> (r: bool) { self <= other }
    fn parse_text(text: &str) -> (r: Option<Self>) {
        match parse_int_in_range(text, false, 0, u8::MAX as i128) {
            Some(v) => Some(v as u8),
            None => None,
        }
    }
    fn to_text(self) -> (r: String) {
        let mut s = String::new();
        write_signed(&mut s, self as i64);
        assert(s@ =~= signed_decimal(self as int));
        s
    }
}

impl Numeric for u16 {
    open spec fn value(self) -> int { self as int }
    open spec fn lowest() -> int { 0 }
    open spec fn highest() -> int { u16::MAX as int }
    open spec fn signed() -> bool { false }
    proof fn lemma_value(self, other: Self) {}
    fn zero() -> (r: Self) { 0 }
    fn add(self, other: Self) -> (r: Self) { self.saturating_add(other) }
    fn sub(self, other: Self) -> (r: Self) { self.saturating_sub(other) }
    fn clamp_range(self, range: &RangeInclusive<Self>) -> (r: Self) {
        let lo = range_start(range);
        let hi = range_end(range);
        if self < lo { lo } else if self > hi { hi } else { self }
    }
    fn is_valid_char(c: char, current: &str) -> (r: bool) { '0' <= c && c <= '9' }
    fn is_le(self, other: Self) -> (r: bool) { self <= other }
    fn parse_text(text: &str) -> (r: Option<Self>) {
        match parse_int_in_range(text, false, 0, u16::MAX as i128) {
            Some(v) => Some(v as u16),
            None => None,
        }
    }
    fn to_text(self) -> (r: String) {
        let mut s = String::new();
        write_signed(&mut s, self as i64);
        assert(s@ =~= signed_decimal(self as int));
        s
    }
}

impl Numeric for u32 {
    open spec fn value(self) -> int { self as int }
    open spec fn lowest() -> int { 0 }
    open spec fn highest() -> int { u32::MAX as int }
    open spec fn signed() -> bool { false }
    proof fn lemma_value(self, other: Self) {}
    fn zero() -> (r: Self) { 0 }
    fn add(self, other: Self) -> (r: Self) { self.saturating_add(other) }
    fn sub(self, other: Self) -> (r: Self) { self.saturating_sub(other) }
    fn clamp_range(self, range: &RangeInclusive<Self>) -> (r: Self) {
        let lo = range_start(range);
        let hi = range_end(range);
        if self < lo { lo } else if self > hi { hi } else { self }
    }
    fn is_valid_char(c: char, current: &str) -> (r: bool) { '0' <= c && c <= '9' }
    fn is_le(self, other: Self) -> (r: bool) { self <= other }
    fn parse_text(text: &str) -> (r: Option<Self>) {
        match parse_int_in_range(text, false, 0, u32::MAX as i128) {
            Some(v) => Some(v as u32),
            None => None,
        }
    }
    fn to_text(self) -> (r: String) {
        let mut s = String::new();
        write_signed(&mut s, self as i64);
        assert(s@ =~= signed_decimal(self as int));
        s
    }
}

impl Numeric for u64 {
    open spec fn value(self) -> int { self as int }
    open spec fn lowest() -> int { 0 }
    open spec fn highest() -> int { u64::MAX as int }
    open spec fn signed() -> bool { false }
    proof fn lemma_value(self, other: Self) {}
    fn zero() -> (r: Self) { 0 }
    fn add(self, other: Self) -> (r: Self) { self.saturating_add(other) }
    fn sub(self, other: Self) -> (r: Self) { self.saturating_sub(other) }
    fn clamp_range(self, range: &RangeInclusive<Self>) -> (r: Self) {
        let lo = range_start(range);
        let hi = range_end(range);
        if self < lo { lo } else if self > hi { hi } else { self }
    }
    fn is_valid_char(c: char, current: &str) -> (r: bool) { '0' <= c && c <= '9' }
    fn is_le(self, other: Self) -> (r: bool) { self <= other }
    fn parse_text(text: &str) -> (r: Option<Self>) {
        match parse_int_in_range(text, false, 0, u64::MAX as i128) {
            Some(v) => Some(v as u64),
            None => None,
        }
    }
    fn to_text(self) -> (r: String) {
        let mut s = String::new();
        crate::text::write_decimal(&mut s, self);
        assert(s@ =~= signed_decimal(self as int));
        s
    }
}

impl Numeric for i8 {
    open spec fn value(self) -> int { self as int }
    open spec fn lowest() -> int { i8::MIN as int }
    open spec fn highest() -> int { i8::MAX as int }
    open spec fn signed() -> bool { true }
    proof fn lemma_value(self, other: Self) {}
    fn zero() -> (r: Self) { 0 }
    fn add(self, other: Self) -> (r: Self) {
        match self.checked_add(other) {
            Some(v) => v,
            None => if other < 0 { i8::MIN } else { i8::MAX },
        }
    }
    fn sub(self, other: Self) -> (r: Self) {
        match self.checked_sub(other) {
            Some(v) => v,
            None => if other > 0 { i8::MIN } else { i8::MAX },
        }
    }
    fn clamp_range(self, range: &RangeInclusive<Self>) -> (r: Self) {
        let lo = range_start(range);
        let hi = range_end(range);
        if self < lo { lo } else if self > hi { hi } else { self }
    }
    fn is_valid_char(c: char, current: &str) -> (r: bool) {
        if '0' <= c && c <= '9' {
            return true;
        }
        c == '-' && current.is_empty()
    }
    fn is_le(self, other: Self) -> (r: bool) { self <= other }
    fn parse_text(text: &str) -> (r: Option<Self>) {
        match parse_int_in_range(text, true, i8::MIN as i128, i8::MAX as i128) {
            Some(v) => Some(v as i8),
            None => None,
        }
    }
    fn to_text(self) -> (r: String) {
        let mut s = String::new();
        write_signed(&mut s, self as i64);
        assert(s@ =~= signed_decimal(self as int));
        s
    }
}

impl Numeric for i16 {
    open spec fn value(self) -> int { self as int }
    open spec fn lowest() -> int { i16::MIN as int }
    open spec fn highest() -> int { i16::MAX as int }
    open spec fn signed() -> bool { true }
    proof fn lemma_value(self, other: Self) {}
    fn zero() -> (r: Self) { 0 }
    fn add(self, other: Self) -> (r: Self) {
        match self.checked_add(other) {
            Some(v) => v,
            None => if other < 0 { i16::MIN } else { i16::MAX },
        }
    }
    fn sub(self, other: Self) -> (r: Self) {
        match self.checked_sub(other) {
            Some(v) => v,
            None => if other > 0 { i16::MIN } else { i16::MAX },
        }
    }
    fn clamp_range(self, range: &RangeInclusive<Self>) -> (r: Self) {
        let lo = range_start(range);
        let hi = range_end(range);
        if self < lo { lo } else if self > hi { hi } else { self }
    }
    fn is_valid_char(c: char, current: &str) -> (r: bool) {
        if '0' <= c && c <= '9' {
            return true;
        }
        c == '-' && current.is_empty()
    }
    fn is_le(self, other: Self) -> (r: bool) { self <= other }
    fn parse_text(text: &str) -> (r: Option<Self>) {
        match parse_int_in_range(text, true, i16::MIN as i128, i16::MAX as i128) {
            Some(v) => Some(v as i16),
            None => None,
        }
    }
    fn to_text(self) -> (r: String) {
        let mut s = String::new();
        write_signed(&mut s, self as i64);
        assert(s@ =~= signed_decimal(self as int));
        s
    }
}

impl Numeric for i32 {
    open spec fn value(self) -> int { self as int }
    open spec fn lowest() -> int { i32::MIN as int }
    open spec fn highest() -> int { i32::MAX as int }
    open spec fn signed() -> bool { true }
    proof fn lemma_value(self, other: Self) {}
    fn zero() -> (r: Self) { 0 }
    fn add(self, other: Self) -> (r: Self) {
        match self.checked_add(other) {
            Some(v) => v,
            None => if other < 0 { i32::MIN } else { i32::MAX },
        }
    }
    fn sub(self, other: Self) -> (r: Self) {
        match self.checked_sub(other) {
            Some(v) => v,
            None => if other > 0 { i32::MIN } else { i32::MAX },
        }
    }
    fn clamp_range(self, range: &RangeInclusive<Self>) -> (r: Self) {
        let lo = range_start(range);
        let hi = range_end(range);
        if self < lo { lo } else if self > hi { hi } else { self }
    }
    fn is_valid_char(c: char, current: &str) -> (r: bool) {
        if '0' <= c && c <= '9' {
            return true;
        }
        c == '-' && current.is_empty()
    }
    fn is_le(self, other: Self) -> (r: bool) { self <= other }
    fn parse_text(text: &str) -> (r: Option<Self>) {
        match parse_int_in_range(text, true, i32::MIN as i128, i32::MAX as i128) {
            Some(v) => Some(v as i32),
            None => None,
        }
    }
    fn to_text(self) -> (r: String) {
        let mut s = String::new();
        write_signed(&mut s, self as i64);
        assert(s@ =~= signed_decimal(self as int));
        s
    }
}

impl Numeric for i64 {
    open spec fn value(self) -> int { self as int }
    open spec fn lowest() -> int { i64::MIN as int }
    open spec fn highest() -> int { i64::MAX as int }
    open spec fn signed() -> bool { true }
    proof fn lemma_value(self, other: Self) {}
    fn zero() -> (r: Self) { 0 }
    fn add(self, other: Self) -> (r: Self) {
        match self.checked_add(other) {
            Some(v) => v,
            None => if other < 0 { i64::MIN } else { i64::MAX },
        }
    }
    fn sub(self, other: Self) -> (r: Self) {
        match self.checked_sub(other) {
            Some(v) => v,
            None => if other > 0 { i64::MIN } else { i64::MAX },
        }
    }
    fn clamp_range(self, range: &RangeInclusive<Self>) -> (r: Self) {
        let lo = range_start(range);
        let hi = range_end(range);
        if self < lo { lo } else if self > hi { hi } else { self }
    }
    fn is_valid_char(c: char, current: &str) -> (r: bool) {
        if '0' <= c && c <= '9' {
            return true;
        }
        c == '-' && current.is_empty()
    }
    fn is_le(self, other: Self) -> (r: bool) { self <= other }
    fn parse_text(text: &str) -> (r: Option<Self>) {
        match parse_int_in_range(text, true, i64::MIN as i128, i64::MAX as i128) {
            Some(v) => Some(v as i64),
            None => None,
        }
    }
    fn to_text(self) -> (r: String) {
        let mut s = String::new();
        write_signed(&mut s, self as i64);
        assert(s@ =~= signed_decimal(self as int));
        s
    }
}

} // verus!
