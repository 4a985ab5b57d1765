//! The divider: a thin line, horizontal or vertical, optionally inset
//! from either end.

use vstd::prelude::*;
use crate::space::Space;

verus! {

/// The direction of a divider.
#[derive(Clone, Copy, Debug, PartialEq, Eq, Structural)]
pub enum Orientation {
    /// Spans the width (the default).
    Horizontal,
    /// Spans the height.
    Vertical,
}

impl Default for Orientation {
    fn default() -> (res: Orientation)
        ensures
            res == Orientation::Horizontal,
    {
        Orientation::Horizontal
    }
}

/// A divider: its direction and the insets at its two ends.
#[derive(Clone, Copy, Debug, PartialEq, Eq, Structural)]
pub struct Divider {
    /// The direction.
    pub orientation: Orientation,
    /// The inset at the start.
    pub inset_leading: Option<Space>,
    /// The inset at the end.
    pub inset_trailing: Option<Space>,
}

impl Divider {
    /// A horizontal divider without insets.
    pub fn horizontal() -> (res: Divider)
        ensures
            res == (Divider { orientation: Orientation::Horizontal, inset_leading: None, inset_trailing: None }),
    {
        Divider { orientation: Orientation::Horizontal, inset_leading: None, inset_trailing: None }
    }

    /// A vertical divider without insets.
    pub fn vertical() -> (res: Divider)
        ensures
            res == (Divider { orientation: Orientation::Vertical, inset_leading: None, inset_trailing: None }),
    {
        Divider { orientation: Orientation::Vertical, inset_leading: None, inset_trailing: None }
    }

    /// Insets the start of the line.
    pub fn inset_leading(self, space: Space) -> (res: Divider)
        ensures
            res == (Divider { inset_leading: Some(space), ..self }),
    {
        Divider { inset_leading: Some(space), ..self }
    }

    /// Insets the end of the line.
    pub fn inset_trailing(self, space: Space) -> (res: Divider)
        ensures
            res == (Divider { inset_trailing: Some(space), ..self }),
    {
        Divider { inset_trailing: Some(space), ..self }
    }

    /// Insets both ends of the line by the same amount.
    pub fn inset(self, space: Space) -> (res: Divider)
        ensures
            res == (Divider { inset_leading: Some(space), inset_trailing: Some(space), ..self }),
    {
        self.inset_leading(space).inset_trailing(space)
    }
}

} // verus!
