//! The progress bar: its color token, docking against an edge, and
//! elevation.

use vstd::prelude::*;
use crate::space::Space;

verus! {

/// The color token of a progress bar.
#[derive(Clone, Copy, Debug, PartialEq, Eq, Structural)]
pub enum Color {
    /// Information color (the default).
    Info,
    Primary,
    Success,
    Warning,
    Danger,
}

impl Default for Color {
    fn default() -> (res: Color)
        ensures
            res == Color::Info,
    {
        Color::Info
    }
}

/// The edge a progress bar is docked against.
#[derive(Clone, Copy, Debug, PartialEq, Eq, Structural)]
pub enum Dock {
    /// Not docked (the default).
    Undocked,
    /// Flush against the top edge.
    Top,
    /// Flush against the bottom edge.
    Bottom,
}

impl Default for Dock {
    fn default() -> (res: Dock)
        ensures
            res == Dock::Undocked,
    {
        Dock::Undocked
    }
}

impl Dock {
    /// Whether the bar is docked against an edge.
    pub fn is_docked(self) -> (res: bool)
        ensures
            res == (self != Dock::Undocked),
    {
        match self {
            Dock::Undocked => false,
            _ => true,
        }
    }

    /// Which corners of the track are square, as `(top, bottom)`: those
    /// meeting the docked edge.
    pub fn square_corners(self) -> (res: (bool, bool))
        ensures
            res == (self == Dock::Top, self == Dock::Bottom),
    {
        match self {
            Dock::Undocked => (false, false),
            Dock::Top => (true, false),
            Dock::Bottom => (false, true),
        }
    }
}

/// The settings of a progress bar other than its value.
#[derive(Clone, Copy, Debug, PartialEq, Eq, Structural)]
pub struct Progress {
    /// The thickness of the track.
    pub thickness: Space,
    /// The color token.
    pub color: Color,
    /// The docked edge.
    pub dock: Dock,
    /// An explicit elevation, overriding the one implied by docking.
    pub elevated: Option<bool>,
}

impl Progress {
    /// Whether the bar is drawn elevated: the explicit setting if any,
    /// else whether it is docked.
    pub open spec fn spec_elevated(self) -> bool {
        match self.elevated {
            Some(e) => e,
            None => self.dock != Dock::Undocked,
        }
    }

    /// Half a spacing step thick, info-colored, undocked, elevation
    /// implied by docking.
    pub fn new() -> (res: Progress)
        ensures
            res == (Progress { thickness: Space::sx_quarters(2), color: Color::Info, dock: Dock::Undocked, elevated: None }),
    {
        Progress { thickness: Space::quarters(2), color: Color::Info, dock: Dock::Undocked, elevated: None }
    }

    /// Sets the thickness.
    pub fn thickness(self, thickness: Space) -> (res: Progress)
        ensures
            res == (Progress { thickness, ..self }),
    {
        Progress { thickness, ..self }
    }

    /// Sets the color token.
    pub fn color(self, color: Color) -> (res: Progress)
        ensures
            res == (Progress { color, ..self }),
    {
        Progress { color, ..self }
    }

    /// Docks the bar against an edge.
    pub fn dock(self, dock: Dock) -> (res: Progress)
        ensures
            res == (Progress { dock, ..self }),
    {
        Progress { dock, ..self }
    }

    /// Forces the elevation on or off.
    pub fn elevated(self, elevated: bool) -> (res: Progress)
        ensures
            res == (Progress { elevated: Some(elevated), ..self }),
    {
        Progress { elevated: Some(elevated), ..self }
    }

    /// Whether the bar is drawn elevated: the explicit setting if any,
    /// else whether it is docked.
    pub fn is_elevated(&self) -> (res: bool)
        ensures
            res == self.spec_elevated(),
    {
        match self.elevated {
            Some(e) => e,
            None => self.dock.is_docked(),
        }
    }
}

} // verus!
