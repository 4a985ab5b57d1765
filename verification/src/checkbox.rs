//! The checkbox: its two- or three-state value, what a click turns it
//! into, and its interaction status.

use vstd::prelude::*;
use crate::interaction::{HoverPress, PointerEvent, press_step};

mod sealed;

use sealed::Sealed;

verus! {

/// The visual state of a checkbox.
#[derive(Clone, Copy, Debug, PartialEq, Eq, Structural)]
pub enum State {
    /// Not checked (the default).
    Unchecked,
    /// Checked.
    Checked,
    /// Neither (a mixed selection).
    Indeterminate,
}

impl Default for State {
    fn default() -> (res: State)
        ensures
            res == State::Unchecked,
    {
        State::Unchecked
    }
}

impl State {
    /// Whether a mark is drawn in the box (checked or indeterminate).
    pub fn is_marked(self) -> (res: bool)
        ensures
            res == (self == State::Checked || self == State::Indeterminate),
    {
        match self {
            State::Checked | State::Indeterminate => true,
            State::Unchecked => false,
        }
    }
}

/// A value a checkbox can hold: `bool` (two states) or `Option<bool>`
/// (three states, `None` being indeterminate).
pub trait Value: Sealed + Copy + Sized {
    /// The state shown for the value.
    spec fn spec_state(self) -> State;

    /// The value after a plain toggle.
    spec fn spec_toggled(self) -> Self;

    /// The value after a step of the full cycle.
    spec fn spec_cycled(self) -> Self;

    /// The state shown for the value.
    fn state(self) -> (res: State)
        ensures
            res == self.spec_state(),
    ;

    /// The value after a toggle: checked becomes unchecked; anything
    /// else becomes checked.
    fn toggled(self) -> (res: Self)
        ensures
            res == self.spec_toggled(),
    ;

    /// The value after one step of the cycle unchecked → indeterminate
    /// → checked → unchecked (for `bool`, the same as a toggle).
    fn cycled(self) -> (res: Self)
        ensures
            res == self.spec_cycled(),
    ;

    /// A toggle never leaves a value indeterminate: it checks anything
    /// that was not checked and unchecks what was.
    proof fn lemma_toggle(self)
        ensures
            self.spec_toggled().spec_state() == (if self.spec_state() == State::Checked {
                State::Unchecked
            } else {
                State::Checked
            }),
    ;
}

impl Value for bool {
    open spec fn spec_state(self) -> State {
        if self { State::Checked } else { State::Unchecked }
    }

    open spec fn spec_toggled(self) -> bool {
        !self
    }

    open spec fn spec_cycled(self) -> bool {
        !self
    }

    fn state(self) -> (res: State) {
        if self { State::Checked } else { State::Unchecked }
    }

    fn toggled(self) -> (res: bool) {
        !self
    }

    fn cycled(self) -> (res: bool) {
        !self
    }

    proof fn lemma_toggle(self) {
    }
}

impl Value for Option<bool> {
    open spec fn spec_state(self) -> State {
        match self {
            Some(true) => State::Checked,
            Some(false) => State::Unchecked,
            None => State::Indeterminate,
        }
    }

    open spec fn spec_toggled(self) -> Option<bool> {
        match self {
            Some(true) => Some(false),
            _ => Some(true),
        }
    }

    open spec fn spec_cycled(self) -> Option<bool> {
        match self {
            None => Some(true),
            Some(true) => Some(false),
            Some(false) => None,
        }
    }

    fn state(self) -> (res: State) {
        match self {
            Some(true) => State::Checked,
            Some(false) => State::Unchecked,
            None => State::Indeterminate,
        }
    }

    fn toggled(self) -> (res: Option<bool>) {
        match self {
            None | Some(false) => Some(true),
            Some(true) => Some(false),
        }
    }

    fn cycled(self) -> (res: Option<bool>) {
        match self {
            None => Some(true),
            Some(true) => Some(false),
            Some(false) => None,
        }
    }

    proof fn lemma_toggle(self) {
    }
}

/// Two toggles of a two-state checkbox give back its value.
pub proof fn lemma_bool_toggle_involutive(v: bool)
    ensures
        v.spec_toggled().spec_toggled() == v,
        v.spec_cycled() == v.spec_toggled(),
{
}

/// Three cycle steps of a three-state checkbox give back its value,
/// passing through all three states.
pub proof fn lemma_tristate_cycle(v: Option<bool>)
    ensures
        v.spec_cycled().spec_cycled().spec_cycled() == v,
        v.spec_state() != v.spec_cycled().spec_state(),
        v.spec_cycled().spec_state() != v.spec_cycled().spec_cycled().spec_state(),
        v.spec_state() != v.spec_cycled().spec_cycled().spec_state(),
{
}

/// The interaction status of a checkbox.
#[derive(Clone, Copy, Debug, PartialEq, Eq, Structural)]
pub enum Status {
    Active,
    Hovered,
    Pressed,
    Disabled,
}

/// A checkbox: its value, whether it responds, whether a click cycles
/// through the indeterminate state, and whether a toggle handler is
/// set.
#[derive(Clone, Copy, Debug)]
pub struct Checkbox<V: Value> {
    /// The value shown.
    pub value: V,
    /// Whether the checkbox responds.
    pub enabled: bool,
    /// Whether a click cycles through all three states.
    pub cycle_indeterminate: bool,
    /// Whether a toggle handler is set.
    pub has_handler: bool,
}

impl<V: Value> Checkbox<V> {
    /// Whether clicks change the value: enabled with a handler.
    pub open spec fn spec_interactive(&self) -> bool {
        self.enabled && self.has_handler
    }

    /// The value a click produces.
    pub open spec fn spec_next_value(&self) -> V {
        if self.cycle_indeterminate { self.value.spec_cycled() } else { self.value.spec_toggled() }
    }

    /// The status shown for the given flags.
    pub open spec fn spec_status(&self, flags: HoverPress) -> Status {
        if !self.spec_interactive() {
            Status::Disabled
        } else if flags.is_pressed {
            Status::Pressed
        } else if flags.is_hovered {
            Status::Hovered
        } else {
            Status::Active
        }
    }

    /// An enabled, plain-toggling checkbox showing `value`, without a
    /// handler.
    pub fn new(value: V) -> (res: Checkbox<V>)
        ensures
            res.value == value,
            res.enabled,
            !res.cycle_indeterminate,
            !res.has_handler,
    {
        Checkbox { value, enabled: true, cycle_indeterminate: false, has_handler: false }
    }

    /// Enables or disables the checkbox.
    pub fn enabled(self, enabled: bool) -> (res: Checkbox<V>)
        ensures
            res == (Checkbox { enabled, ..self }),
    {
        Checkbox { enabled, ..self }
    }

    /// Records whether a toggle handler is set.
    pub fn with_handler(self, present: bool) -> (res: Checkbox<V>)
        ensures
            res == (Checkbox { has_handler: present, ..self }),
    {
        Checkbox { has_handler: present, ..self }
    }

    /// Whether clicks change the value.
    pub fn is_interactive(&self) -> (res: bool)
        ensures
            res == self.spec_interactive(),
    {
        self.enabled && self.has_handler
    }

    /// The status shown: disabled, else pressed, else hovered, else
    /// active.
    pub fn status(&self, flags: HoverPress) -> (res: Status)
        ensures
            res == self.spec_status(flags),
    {
        if !self.is_interactive() {
            Status::Disabled
        } else if flags.is_pressed {
            Status::Pressed
        } else if flags.is_hovered {
            Status::Hovered
        } else {
            Status::Active
        }
    }

    /// The value a click produces: the next step of the cycle when
    /// cycling through indeterminate, else the toggle.
    pub fn next_value(&self) -> (res: V)
        ensures
            res == self.spec_next_value(),
    {
        if self.cycle_indeterminate { self.value.cycled() } else { self.value.toggled() }
    }

    /// Applies a pointer event; `over` tells whether the pointer is
    /// over the checkbox. A non-interactive checkbox ignores events.
    /// Returns the new value to publish when the event completed a
    /// click.
    pub fn update(&self, flags: &mut HoverPress, event: PointerEvent, over: bool) -> (res: Option<V>)
        ensures
            !self.spec_interactive() ==> *final(flags) == *old(flags) && res is None,
            self.spec_interactive() ==> {
                let (next, clicked) = press_step(*old(flags), event, over, true);
                &&& *final(flags) == next
                &&& res == (if clicked { Some(self.spec_next_value()) } else { None })
            },
    {
        if !self.is_interactive() {
            return None;
        }
        if flags.update(event, over, true) {
            Some(self.next_value())
        } else {
            None
        }
    }
}

impl Checkbox<Option<bool>> {
    /// Whether a click cycles through the indeterminate state.
    pub fn indeterminate(self, cycle: bool) -> (res: Checkbox<Option<bool>>)
        ensures
            res == (Checkbox { cycle_indeterminate: cycle, ..self }),
    {
        Checkbox { cycle_indeterminate: cycle, ..self }
    }
}

/// Unless the checkbox cycles through the indeterminate state, a click
/// never makes it indeterminate: it checks an unchecked or
/// indeterminate box and unchecks a checked one.
pub proof fn lemma_click_never_indeterminate<V: Value>(cb: Checkbox<V>)
    requires
        !cb.cycle_indeterminate,
    ensures
        cb.spec_next_value().spec_state() != State::Indeterminate,
        cb.spec_next_value().spec_state() == (if cb.value.spec_state() == State::Checked {
            State::Unchecked
        } else {
            State::Checked
        }),
{
    cb.value.lemma_toggle();
}

} // verus!
