//! The list: rows with hover and press feedback, each optionally
//! publishing a message when clicked.

use vstd::prelude::*;
use crate::interaction::{HoverPress, PointerEvent, initial_flags, resize_states, row_step, step_rows};

verus! {

/// The interaction status of a list row.
#[derive(Clone, Copy, Debug, PartialEq, Eq, Structural)]
pub enum Status {
    Active,
    Hovered,
    Pressed,
}

/// One row of a list and the message it publishes when clicked.
pub struct ListItem<M> {
    /// The message published on a click.
    pub on_press: Option<M>,
}

impl<M> ListItem<M> {
    /// A row without a message.
    pub fn new() -> (res: ListItem<M>)
        ensures
            res.on_press is None,
    {
        ListItem { on_press: None }
    }

    /// Sets the message published on a click.
    pub fn on_press(self, message: M) -> (res: ListItem<M>)
        ensures
            res.on_press == Some(message),
    {
        ListItem { on_press: Some(message) }
    }

    /// Sets or clears the message published on a click.
    pub fn on_press_maybe(self, message: Option<M>) -> (res: ListItem<M>)
        ensures
            res.on_press == message,
    {
        ListItem { on_press: message }
    }

    /// The status shown: pressed, else hovered when the row has a
    /// message, else active.
    pub fn status(&self, flags: HoverPress) -> (res: Status)
        ensures
            res == (if flags.is_pressed {
                Status::Pressed
            } else if flags.is_hovered && self.on_press is Some {
                Status::Hovered
            } else {
                Status::Active
            }),
    {
        if flags.is_pressed {
            Status::Pressed
        } else if flags.is_hovered && self.on_press.is_some() {
            Status::Hovered
        } else {
            Status::Active
        }
    }
}

/// A vertical list of rows.
pub struct List<M> {
    /// The rows, top to bottom.
    pub items: Vec<ListItem<M>>,
}

impl<M> List<M> {
    /// An empty list.
    pub fn new() -> (res: List<M>)
        ensures
            res.items@.len() == 0,
    {
        List { items: Vec::new() }
    }

    /// Appends a row.
    pub fn push(self, item: ListItem<M>) -> (res: List<M>)
        ensures
            res.items@ == self.items@.push(item),
    {
        let mut list = self;
        list.items.push(item);
        list
    }
}

impl<M: Clone> List<M> {
    /// Applies a pointer event to every row; `over[i]` tells whether the
    /// pointer is over row `i`. The row states are first brought to one
    /// per row. Returns, for each row stepped, the message a completed
    /// click publishes.
    pub fn update(&self, states: &mut Vec<HoverPress>, event: PointerEvent, over: &Vec<bool>) -> (res: Vec<Option<M>>)
        ensures
            final(states)@.len() == self.items@.len(),
            res@.len() == if over@.len() < self.items@.len() { over@.len() } else { self.items@.len() },
            forall|i: int| 0 <= i < res@.len() ==> {
                let before = if i < old(states)@.len() { old(states)@[i] } else { HoverPress::new_spec() };
                let (next, clicked) = row_step(before, event, over@[i]);
                &&& final(states)@[i] == next
                &&& (clicked && self.items@[i].on_press is Some) ==> (#[trigger] res@[i] matches Some(m)
                    && cloned::<M>(self.items@[i].on_press.unwrap(), m))
                &&& (!clicked || self.items@[i].on_press is None) ==> res@[i] is None
            },
            forall|i: int| res@.len() <= i < self.items@.len() ==> final(states)@[i] == initial_flags(old(states)@, i),
    {
        resize_states(states, self.items.len());
        let ghost resized = states@;
        let clicked = step_rows(states, event, over);
        assert forall|i: int| clicked@.len() <= i < self.items@.len() implies states@[i] == initial_flags(old(states)@, i) by {
            assert(states@[i] == resized[i]);
        }
        let mut out: Vec<Option<M>> = Vec::new();
        let mut i: usize = 0;
        while i < clicked.len()
            invariant
                i <= clicked@.len(),
                clicked@.len() <= self.items@.len(),
                clicked@.len() <= over@.len(),
                out@.len() == i,
                forall|j: int| 0 <= j < i ==> {
                    &&& (clicked@[j] && self.items@[j].on_press is Some) ==> (#[trigger] out@[j] matches Some(m)
                        && cloned::<M>(self.items@[j].on_press.unwrap(), m))
                    &&& (!clicked@[j] || self.items@[j].on_press is None) ==> out@[j] is None
                },
            decreases clicked@.len() - i,
        {
            let message = if clicked[i] {
                match &self.items[i].on_press {
                    Some(m) => Some(m.clone()),
                    None => None,
                }
            } else {
                None
            };
            out.push(message);
            i = i + 1;
        }
        out
    }
}

} // verus!
