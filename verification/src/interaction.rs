//! The hover-and-press state machine shared by the clickable widgets.
//!
//! A press counts as a click only when the button goes down over the
//! widget and comes up over it again; moving off the widget cancels a
//! pending press. Hit-testing is the caller's: each step is told
//! whether the pointer is over the widget.

use vstd::prelude::*;

verus! {

/// The pointer events the widgets react to.
#[derive(Clone, Copy, Debug, PartialEq, Eq, Structural)]
pub enum PointerEvent {
    /// The pointer moved.
    Moved,
    /// The left button went down.
    Pressed,
    /// The left button came up.
    Released,
    /// Any other event.
    Other,
}

/// Hover and press flags of one clickable area.
#[derive(Clone, Copy, Debug, PartialEq, Eq, Structural)]
pub struct HoverPress {
    /// The pointer is over the area.
    pub is_hovered: bool,
    /// The button went down over the area and has not come up.
    pub is_pressed: bool,
}

/// One step of the hover-press machine: the new flags and whether the
/// step completed a click. Hover is only shown where `hover_allowed`.
pub open spec fn press_step(s: HoverPress, event: PointerEvent, over: bool, hover_allowed: bool) -> (HoverPress, bool) {
    match event {
        PointerEvent::Moved => (
            HoverPress { is_hovered: over && hover_allowed, is_pressed: s.is_pressed && over },
            false,
        ),
        PointerEvent::Pressed => (HoverPress { is_pressed: s.is_pressed || over, ..s }, false),
        PointerEvent::Released => (HoverPress { is_pressed: false, ..s }, s.is_pressed && over),
        PointerEvent::Other => (s, false),
    }
}

/// One step of a list row: hover follows the pointer on every event;
/// moving off does not cancel a press.
pub open spec fn row_step(s: HoverPress, event: PointerEvent, over: bool) -> (HoverPress, bool) {
    match event {
        PointerEvent::Pressed => (HoverPress { is_hovered: over, is_pressed: s.is_pressed || over }, false),
        PointerEvent::Released => (HoverPress { is_hovered: over, is_pressed: false }, s.is_pressed && over),
        _ => (HoverPress { is_hovered: over, ..s }, false),
    }
}

impl HoverPress {
    /// Neither hovered nor pressed.
    pub fn new() -> (res: HoverPress)
        ensures
            res == (HoverPress { is_hovered: false, is_pressed: false }),
    {
        HoverPress { is_hovered: false, is_pressed: false }
    }

    /// Applies one pointer event; returns whether it completed a click
    /// (the button came up over the area after going down over it).
    pub fn update(&mut self, event: PointerEvent, over: bool, hover_allowed: bool) -> (clicked: bool)
        ensures
            (*final(self), clicked) == press_step(*old(self), event, over, hover_allowed),
    {
        match event {
            PointerEvent::Moved => {
                self.is_hovered = over && hover_allowed;
                if !over {
                    self.is_pressed = false;
                }
                false
            },
            PointerEvent::Pressed => {
                if over {
                    self.is_pressed = true;
                }
                false
            },
            PointerEvent::Released => {
                let clicked = self.is_pressed && over;
                self.is_pressed = false;
                clicked
            },
            PointerEvent::Other => false,
        }
    }

    /// Applies one pointer event to a list row; returns whether it
    /// completed a click.
    pub fn update_row(&mut self, event: PointerEvent, over: bool) -> (clicked: bool)
        ensures
            (*final(self), clicked) == row_step(*old(self), event, over),
    {
        self.is_hovered = over;
        match event {
            PointerEvent::Pressed => {
                if over {
                    self.is_pressed = true;
                }
                false
            },
            PointerEvent::Released => {
                let clicked = self.is_pressed && over;
                self.is_pressed = false;
                clicked
            },
            _ => false,
        }
    }
}

/// Brings a list of per-area states to length `n`: existing states are
/// kept, new ones start neither hovered nor pressed.
pub fn resize_states(states: &mut Vec<HoverPress>, n: usize)
    ensures
        final(states)@.len() == n,
        forall|i: int| 0 <= i < n && i < old(states)@.len() ==> final(states)@[i] == old(states)@[i],
        forall|i: int| old(states)@.len() <= i < n ==> final(states)@[i] == HoverPress::new_spec(),
{
    if states.len() > n {
        while states.len() > n
            invariant
                n <= old(states)@.len(),
                n <= states@.len() <= old(states)@.len(),
                forall|i: int| 0 <= i < states@.len() ==> states@[i] == old(states)@[i],
            decreases states@.len(),
        {
            states.pop();
        }
    }
    while states.len() < n
        invariant
            states@.len() <= n,
            forall|i: int| 0 <= i < states@.len() && i < old(states)@.len() ==> states@[i] == old(states)@[i],
            forall|i: int| old(states)@.len() <= i < states@.len() ==> states@[i] == HoverPress::new_spec(),
            states@.len() >= old(states)@.len() || states@.len() == n,
        decreases n - states@.len(),
    {
        states.push(HoverPress::new());
    }
}

impl HoverPress {
    /// Neither hovered nor pressed.
    pub open spec fn new_spec() -> HoverPress {
        HoverPress { is_hovered: false, is_pressed: false }
    }
}

/// The flags of area `i` before a step: its stored state, or a fresh
/// one for an area that had none.
pub open spec fn initial_flags(states: Seq<HoverPress>, i: int) -> HoverPress {
    if 0 <= i < states.len() { states[i] } else { HoverPress::new_spec() }
}

/// Applies one pointer event to every area of a group (segments of a
/// segmented button): `over[i]` tells whether the pointer is over area
/// `i`. Returns, for each area stepped, whether it was clicked; areas
/// beyond the shorter of the two lists are left alone.
pub fn step_group(states: &mut Vec<HoverPress>, event: PointerEvent, over: &Vec<bool>) -> (clicked: Vec<bool>)
    ensures
        final(states)@.len() == old(states)@.len(),
        clicked@.len() == if over@.len() < old(states)@.len() { over@.len() } else { old(states)@.len() },
        forall|i: int| 0 <= i < clicked@.len() ==> (final(states)@[i], #[trigger] clicked@[i]) == press_step(old(states)@[i], event, over@[i], true),
        forall|i: int| clicked@.len() <= i < old(states)@.len() ==> final(states)@[i] == old(states)@[i],
{
    let count = if over.len() < states.len() { over.len() } else { states.len() };
    let mut clicked: Vec<bool> = Vec::new();
    let mut i: usize = 0;
    while i < count
        invariant
            count == if over@.len() < old(states)@.len() { over@.len() } else { old(states)@.len() },
            i <= count,
            states@.len() == old(states)@.len(),
            clicked@.len() == i,
            forall|j: int| 0 <= j < i ==> (states@[j], #[trigger] clicked@[j]) == press_step(old(states)@[j], event, over@[j], true),
            forall|j: int| i <= j < states@.len() ==> states@[j] == old(states)@[j],
        decreases count - i,
    {
        let mut s = states[i];
        let c = s.update(event, over[i], true);
        states.set(i, s);
        clicked.push(c);
        i = i + 1;
    }
    clicked
}

/// Applies one pointer event to every row of a list, as
/// [`step_group`] but with the row machine.
pub fn step_rows(states: &mut Vec<HoverPress>, event: PointerEvent, over: &Vec<bool>) -> (clicked: Vec<bool>)
    ensures
        final(states)@.len() == old(states)@.len(),
        clicked@.len() == if over@.len() < old(states)@.len() { over@.len() } else { old(states)@.len() },
        forall|i: int| 0 <= i < clicked@.len() ==> (final(states)@[i], #[trigger] clicked@[i]) == row_step(old(states)@[i], event, over@[i]),
        forall|i: int| clicked@.len() <= i < old(states)@.len() ==> final(states)@[i] == old(states)@[i],
{
    let count = if over.len() < states.len() { over.len() } else { states.len() };
    let mut clicked: Vec<bool> = Vec::new();
    let mut i: usize = 0;
    while i < count
        invariant
            count == if over@.len() < old(states)@.len() { over@.len() } else { old(states)@.len() },
            i <= count,
            states@.len() == old(states)@.len(),
            clicked@.len() == i,
            forall|j: int| 0 <= j < i ==> (states@[j], #[trigger] clicked@[j]) == row_step(old(states)@[j], event, over@[j]),
            forall|j: int| i <= j < states@.len() ==> states@[j] == old(states)@[j],
        decreases count - i,
    {
        let mut s = states[i];
        let c = s.update_row(event, over[i]);
        states.set(i, s);
        clicked.push(c);
        i = i + 1;
    }
    clicked
}

/// A click is completed only by a release over the area after a press
/// that started over it; a release always ends the press, moving off
/// the area cancels it, and a press outside changes nothing.
pub proof fn lemma_click_requires_press(s: HoverPress, event: PointerEvent, over: bool, hover_allowed: bool)
    ensures
        press_step(s, event, over, hover_allowed).1 ==> event == PointerEvent::Released && s.is_pressed && over,
        event == PointerEvent::Released ==> !press_step(s, event, over, hover_allowed).0.is_pressed,
        event == PointerEvent::Moved && !over ==> !press_step(s, event, over, hover_allowed).0.is_pressed,
        press_step(s, PointerEvent::Pressed, false, hover_allowed).0 == s,
        row_step(s, event, over).1 ==> event == PointerEvent::Released && s.is_pressed && over,
{
}

/// A press over an area followed by a release over it completes a
/// click, whatever the flags were before; moving over an area shows it
/// hovered where hover is allowed, and moving off clears the hover.
pub proof fn lemma_press_then_release_clicks(s: HoverPress, hover_allowed: bool, over: bool)
    ensures
        press_step(press_step(s, PointerEvent::Pressed, true, hover_allowed).0, PointerEvent::Released, true, hover_allowed).1,
        row_step(row_step(s, PointerEvent::Pressed, true).0, PointerEvent::Released, true).1,
        press_step(s, PointerEvent::Moved, over, hover_allowed).0.is_hovered == (over && hover_allowed),
        row_step(s, PointerEvent::Moved, over).0.is_hovered == over,
        !press_step(s, PointerEvent::Released, over, hover_allowed).0.is_pressed,
        !row_step(s, PointerEvent::Released, over).0.is_pressed,
{
}

} // verus!
