//! Navigation bars: a horizontal row of destinations along the bottom
//! of the screen, one of them active, selected by pressing it.

use vstd::prelude::*;
use crate::interaction::{HoverPress, PointerEvent, initial_flags};
use crate::navigation_rail::step_destinations;
pub use crate::navigation_rail::{DestinationStatus, destination_status};

verus! {

/// A destination of a navigation bar, shown by its label.
pub struct Destination {
    /// The label of the destination.
    pub label: String,
}

impl Destination {
    /// A destination with the given label.
    pub fn new(label: String) -> (res: Destination)
        ensures
            res.label@ == label@,
    {
        Destination { label }
    }
}

/// A navigation bar: its destinations and which one is active.
pub struct NavigationBar {
    /// The destinations, in order.
    pub destinations: Vec<Destination>,
    /// The index of the active destination.
    pub active: usize,
}

impl NavigationBar {
    /// No destinations; the first is active.
    pub fn new() -> (res: NavigationBar)
        ensures
            res.destinations@.len() == 0,
            res.active == 0,
    {
        NavigationBar { destinations: Vec::new(), active: 0 }
    }

    /// Appends a destination.
    pub fn push(self, destination: Destination) -> (res: NavigationBar)
        ensures
            res.destinations@ == self.destinations@.push(destination),
            res.active == self.active,
    {
        let mut destinations = self.destinations;
        destinations.push(destination);
        NavigationBar { destinations, active: self.active }
    }

    /// Sets the index of the active destination.
    pub fn active(self, index: usize) -> (res: NavigationBar)
        ensures
            res.destinations@ == self.destinations@,
            res.active == index,
    {
        NavigationBar { destinations: self.destinations, active: index }
    }

    /// Applies a pointer event to the bar's destinations; `over[i]`
    /// tells whether the pointer is over destination `i`. Moving
    /// updates the hover flags; a press over a destination selects it.
    /// Returns, for each destination stepped, whether it was selected.
    pub fn update(&self, states: &mut Vec<HoverPress>, event: PointerEvent, over: &Vec<bool>) -> (res: Vec<bool>)
        ensures
            final(states)@.len() == self.destinations@.len(),
            res@.len() == if over@.len() < self.destinations@.len() { over@.len() } else { self.destinations@.len() },
            forall|i: int| 0 <= i < res@.len() ==> final(states)@[i] == (if event == PointerEvent::Moved {
                HoverPress { is_hovered: over@[i], ..initial_flags(old(states)@, i) }
            } else {
                initial_flags(old(states)@, i)
            }),
            forall|i: int| 0 <= i < res@.len() ==> #[trigger] res@[i] == (event == PointerEvent::Pressed && over@[i]),
            forall|i: int| res@.len() <= i < self.destinations@.len() ==> final(states)@[i] == initial_flags(old(states)@, i),
    {
        step_destinations(self.destinations.len(), states, event, over)
    }
}

} // verus!
