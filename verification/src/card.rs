//! The card: a rounded container, flat or raised with a shadow.

use vstd::prelude::*;
use crate::space::Space;

verus! {

/// The look of a card.
#[derive(Clone, Copy, Debug, PartialEq, Eq, Structural)]
pub enum Variant {
    /// A flat, bordered frame (the default).
    Flat,
    /// A frame with a drop shadow.
    Elevated,
}

impl Default for Variant {
    fn default() -> (res: Variant)
        ensures
            res == Variant::Flat,
    {
        Variant::Flat
    }
}

/// The layout choices of a card.
#[derive(Clone, Copy, Debug, PartialEq, Eq, Structural)]
pub struct Card {
    /// The look.
    pub variant: Variant,
    /// The inner padding.
    pub padding: Space,
}

impl Card {
    /// A flat card padded by twice the spacing base.
    pub fn new() -> (res: Card)
        ensures
            res == (Card { variant: Variant::Flat, padding: Space::sx_quarters(8) }),
    {
        Card { variant: Variant::Flat, padding: Space::quarters(8) }
    }

    /// Sets the padding.
    pub fn padding(self, padding: Space) -> (res: Card)
        ensures
            res == (Card { padding, ..self }),
    {
        Card { padding, ..self }
    }

    /// Makes the card flat.
    pub fn flat(self) -> (res: Card)
        ensures
            res == (Card { variant: Variant::Flat, ..self }),
    {
        Card { variant: Variant::Flat, ..self }
    }

    /// Gives the card a drop shadow.
    pub fn elevated(self) -> (res: Card)
        ensures
            res == (Card { variant: Variant::Elevated, ..self }),
    {
        Card { variant: Variant::Elevated, ..self }
    }
}

} // verus!
