//! The segmented button: a row of joined segments, each selectable.

use vstd::prelude::*;
use crate::interaction::{HoverPress, PointerEvent, initial_flags, press_step, resize_states, step_group};

verus! {

/// The interaction status of a segment.
#[derive(Clone, Copy, Debug, PartialEq, Eq, Structural)]
pub enum SegmentStatus {
    Active,
    Hovered,
    Pressed,
}

/// The status shown for a segment: pressed, else hovered, else active.
pub fn segment_status(flags: HoverPress) -> (res: SegmentStatus)
    ensures
        res == (if flags.is_pressed {
            SegmentStatus::Pressed
        } else if flags.is_hovered {
            SegmentStatus::Hovered
        } else {
            SegmentStatus::Active
        }),
{
    if flags.is_pressed {
        SegmentStatus::Pressed
    } else if flags.is_hovered {
        SegmentStatus::Hovered
    } else {
        SegmentStatus::Active
    }
}

/// Which outer corners of segment `index` of `count` are rounded, as
/// `(left, right)`: a lone segment both, the first its left ones, the
/// last its right ones, the others none.
pub fn rounded_corners(index: usize, count: usize) -> (res: (bool, bool))
    ensures
        res == (if count == 1 {
            (true, true)
        } else if index == 0 {
            (true, false)
        } else if index + 1 == count {
            (false, true)
        } else {
            (false, false)
        }),
{
    if count == 1 {
        (true, true)
    } else if index == 0 {
        (true, false)
    } else if index as u128 + 1 == count as u128 {
        (false, true)
    } else {
        (false, false)
    }
}

/// A segmented button: the selected flag of each segment and whether a
/// press handler is set.
pub struct SegmentedButton {
    /// Whether each segment is selected, left to right.
    pub selected: Vec<bool>,
    /// Whether a press handler is set.
    pub has_handler: bool,
}

impl SegmentedButton {
    /// No segments, no handler.
    pub fn new() -> (res: SegmentedButton)
        ensures
            res.selected@.len() == 0,
            !res.has_handler,
    {
        SegmentedButton { selected: Vec::new(), has_handler: false }
    }

    /// Appends a segment with its selected flag.
    pub fn push(self, selected: bool) -> (res: SegmentedButton)
        ensures
            res.selected@ == self.selected@.push(selected),
            res.has_handler == self.has_handler,
    {
        let mut b = self;
        b.selected.push(selected);
        b
    }

    /// Records whether a press handler is set.
    pub fn with_handler(self, present: bool) -> (res: SegmentedButton)
        ensures
            res.selected@ == self.selected@,
            res.has_handler == present,
    {
        SegmentedButton { has_handler: present, ..self }
    }

    /// Applies a pointer event to every segment; `over[i]` tells whether
    /// the pointer is over segment `i`. The segment states are first
    /// brought to one per segment. Returns, for each segment stepped,
    /// whether a completed click pressed it (never without a handler).
    pub fn update(&self, states: &mut Vec<HoverPress>, event: PointerEvent, over: &Vec<bool>) -> (res: Vec<bool>)
        ensures
            final(states)@.len() == self.selected@.len(),
            res@.len() == if over@.len() < self.selected@.len() { over@.len() } else { self.selected@.len() },
            forall|i: int| 0 <= i < res@.len() ==> final(states)@[i] == press_step(
                initial_flags(old(states)@, i), event, over@[i], true).0,
            forall|i: int| 0 <= i < res@.len() ==> #[trigger] res@[i] == (self.has_handler && press_step(
                initial_flags(old(states)@, i), event, over@[i], true).1),
    {
        resize_states(states, self.selected.len());
        let ghost resized = states@;
        let clicked = step_group(states, event, over);
        assert forall|i: int| 0 <= i < clicked@.len() implies states@[i] == press_step(
            initial_flags(old(states)@, i), event, over@[i], true).0 by {
            assert((states@[i], clicked@[i]) == press_step(resized[i], event, over@[i], true));
            assert(resized[i] == initial_flags(old(states)@, i));
        }
        let mut out: Vec<bool> = Vec::new();
        let mut i: usize = 0;
        while i < clicked.len()
            invariant
                i <= clicked@.len(),
                out@.len() == i,
                forall|j: int| 0 <= j < i ==> #[trigger] out@[j] == (self.has_handler && clicked@[j]),
            decreases clicked@.len() - i,
        {
            out.push(self.has_handler && clicked[i]);
            i = i + 1;
        }
        out
    }
}

} // verus!
