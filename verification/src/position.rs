//! Anchor positions around a rectangle: its four corners and the
//! midpoints of its four edges.

use vstd::prelude::*;

verus! {

/// One of eight anchor points of a rectangle.
#[derive(Clone, Copy, Debug, PartialEq, Eq, Structural)]
pub enum Position {
    Top,
    TopRight,
    Right,
    /// The default.
    BottomRight,
    Bottom,
    BottomLeft,
    Left,
    TopLeft,
}

impl Default for Position {
    fn default() -> (res: Position)
        ensures
            res == Position::BottomRight,
    {
        Position::BottomRight
    }
}

impl Position {
    /// On the top edge.
    pub open spec fn spec_is_top(self) -> bool {
        self == Position::Top || self == Position::TopRight || self == Position::TopLeft
    }

    /// On the bottom edge.
    pub open spec fn spec_is_bottom(self) -> bool {
        self == Position::Bottom || self == Position::BottomRight || self == Position::BottomLeft
    }

    /// On the left edge.
    pub open spec fn spec_is_left(self) -> bool {
        self == Position::Left || self == Position::TopLeft || self == Position::BottomLeft
    }

    /// On the right edge.
    pub open spec fn spec_is_right(self) -> bool {
        self == Position::Right || self == Position::TopRight || self == Position::BottomRight
    }

    /// Whether the position is on the top edge.
    pub fn is_top(self) -> (res: bool)
        ensures
            res == self.spec_is_top(),
    {
        match self {
            Position::Top | Position::TopRight | Position::TopLeft => true,
            _ => false,
        }
    }

    /// Whether the position is on the bottom edge.
    pub fn is_bottom(self) -> (res: bool)
        ensures
            res == self.spec_is_bottom(),
    {
        match self {
            Position::Bottom | Position::BottomRight | Position::BottomLeft => true,
            _ => false,
        }
    }

    /// Whether the position is on the left edge.
    pub fn is_left(self) -> (res: bool)
        ensures
            res == self.spec_is_left(),
    {
        match self {
            Position::Left | Position::TopLeft | Position::BottomLeft => true,
            _ => false,
        }
    }

    /// Whether the position is on the right edge.
    pub fn is_right(self) -> (res: bool)
        ensures
            res == self.spec_is_right(),
    {
        match self {
            Position::Right | Position::TopRight | Position::BottomRight => true,
            _ => false,
        }
    }
}

/// No position is on two opposite edges, and each is on at least one
/// edge; exactly the corners lie on two.
pub proof fn lemma_position_edges(p: Position)
    ensures
        !(p.spec_is_top() && p.spec_is_bottom()),
        !(p.spec_is_left() && p.spec_is_right()),
        p.spec_is_top() || p.spec_is_bottom() || p.spec_is_left() || p.spec_is_right(),
        (p.spec_is_top() || p.spec_is_bottom()) && (p.spec_is_left() || p.spec_is_right()) <==> (p
            == Position::TopLeft || p == Position::TopRight || p == Position::BottomLeft || p
            == Position::BottomRight),
{
}

} // verus!
