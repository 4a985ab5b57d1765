//! Navigation rails: a column of destinations, one of them active,
//! selected by pressing it.

use vstd::prelude::*;
use crate::interaction::{HoverPress, PointerEvent, initial_flags, resize_states};

verus! {

/// The status of a destination.
#[derive(Clone, Copy, Debug, PartialEq, Eq, Structural)]
pub enum DestinationStatus {
    Active,
    Inactive,
    Hovered,
}

/// The status shown for destination `index`: active when it is the
/// active one, else hovered, else inactive.
pub fn destination_status(index: usize, active: usize, hovered: bool) -> (res: DestinationStatus)
    ensures
        res == (if index == active {
            DestinationStatus::Active
        } else if hovered {
            DestinationStatus::Hovered
        } else {
            DestinationStatus::Inactive
        }),
{
    if index == active {
        DestinationStatus::Active
    } else if hovered {
        DestinationStatus::Hovered
    } else {
        DestinationStatus::Inactive
    }
}

/// A destination of a rail or bar, shown by its label.
pub struct Destination {
    /// The label under the destination's icon.
    pub label: String,
}

impl Destination {
    /// A destination with the given label.
    pub fn new(label: String) -> (res: Destination)
        ensures
            res.label@ == label@,
    {
        Destination { label }
    }
}

/// Applies a pointer event to a row or column of `count` destinations;
/// `over[i]` tells whether the pointer is over destination `i`. The
/// per-destination states are first brought to one per destination.
/// Moving updates the hover flags; a press over a destination selects
/// it. Returns, for each destination stepped, whether it was selected.
pub fn step_destinations(count: usize, states: &mut Vec<HoverPress>, event: PointerEvent, over: &Vec<bool>) -> (res: Vec<bool>)
    ensures
        final(states)@.len() == count,
        res@.len() == if over@.len() < count { over@.len() } else { count as nat },
        forall|i: int| 0 <= i < res@.len() ==> final(states)@[i] == (if event == PointerEvent::Moved {
            HoverPress { is_hovered: over@[i], ..initial_flags(old(states)@, i) }
        } else {
            initial_flags(old(states)@, i)
        }),
        forall|i: int| 0 <= i < res@.len() ==> #[trigger] res@[i] == (event == PointerEvent::Pressed && over@[i]),
        forall|i: int| res@.len() <= i < count ==> final(states)@[i] == initial_flags(old(states)@, i),
{
    resize_states(states, count);
    let ghost resized = states@;
    let n = if over.len() < states.len() { over.len() } else { states.len() };
    let mut selected: Vec<bool> = Vec::new();
    let mut i: usize = 0;
    while i < n
        invariant
            n == if over@.len() < count { over@.len() } else { count as nat },
            states@.len() == count,
            resized.len() == count,
            forall|j: int| 0 <= j < count ==> resized[j] == initial_flags(old(states)@, j),
            i <= n,
            selected@.len() == i,
            forall|j: int| 0 <= j < i ==> states@[j] == (if event == PointerEvent::Moved {
                HoverPress { is_hovered: over@[j], ..resized[j] }
            } else {
                resized[j]
            }),
            forall|j: int| i <= j < states@.len() ==> states@[j] == resized[j],
            forall|j: int| 0 <= j < i ==> #[trigger] selected@[j] == (event == PointerEvent::Pressed && over@[j]),
        decreases n - i,
    {
        let is_over = over[i];
        match event {
            PointerEvent::Moved => {
                let s = HoverPress { is_hovered: is_over, ..states[i] };
                states.set(i, s);
                selected.push(false);
            },
            PointerEvent::Pressed => {
                selected.push(is_over);
            },
            _ => {
                selected.push(false);
            },
        }
        i = i + 1;
    }
    assert forall|j: int| selected@.len() <= j < count implies states@[j] == initial_flags(old(states)@, j) by {
        assert(states@[j] == resized[j]);
    }
    selected
}

/// A vertical navigation rail: its destinations and which one is
/// active.
pub struct NavigationRail {
    /// The destinations, in order.
    pub destinations: Vec<Destination>,
    /// The index of the active destination.
    pub active: usize,
}

impl NavigationRail {
    /// No destinations; the first is active.
    pub fn new() -> (res: NavigationRail)
        ensures
            res.destinations@.len() == 0,
            res.active == 0,
    {
        NavigationRail { destinations: Vec::new(), active: 0 }
    }

    /// Appends a destination.
    pub fn push(self, destination: Destination) -> (res: NavigationRail)
        ensures
            res.destinations@ == self.destinations@.push(destination),
            res.active == self.active,
    {
        let mut destinations = self.destinations;
        destinations.push(destination);
        NavigationRail { destinations, active: self.active }
    }

    /// Sets the active destination.
    pub fn active(self, index: usize) -> (res: NavigationRail)
        ensures
            res.destinations@ == self.destinations@,
            res.active == index,
    {
        NavigationRail { destinations: self.destinations, active: index }
    }

    /// Applies a pointer event to the rail's destinations, as
    /// [`step_destinations`] does for their number.
    pub fn update(&self, states: &mut Vec<HoverPress>, event: PointerEvent, over: &Vec<bool>) -> (res: Vec<bool>)
        ensures
            final(states)@.len() == self.destinations@.len(),
            res@.len() == if over@.len() < self.destinations@.len() { over@.len() } else { self.destinations@.len() },
            forall|i: int| 0 <= i < res@.len() ==> final(states)@[i] == (if event == PointerEvent::Moved {
                HoverPress { is_hovered: over@[i], ..initial_flags(old(states)@, i) }
            } else {
                initial_flags(old(states)@, i)
            }),
            forall|i: int| 0 <= i < res@.len() ==> #[trigger] res@[i] == (event == PointerEvent::Pressed && over@[i]),
            forall|i: int| res@.len() <= i < self.destinations@.len() ==> final(states)@[i] == initial_flags(old(states)@, i),
    {
        step_destinations(self.destinations.len(), states, event, over)
    }
}

} // verus!
