//! The badge: a dot or a count shown at a corner or edge of its
//! content.

use vstd::prelude::*;
use crate::text::{decimal, push_char, write_decimal};

verus! {

/// Where a badge sits on its content.
#[derive(Clone, Copy, Debug, PartialEq, Eq, Structural)]
pub enum Position {
    Top,
    /// The default.
    TopRight,
    Right,
    BottomRight,
    Bottom,
    BottomLeft,
    Left,
    TopLeft,
}

impl Default for Position {
    fn default() -> (res: Position)
        ensures
            res == Position::TopRight,
    {
        Position::TopRight
    }
}

/// What a badge shows.
#[derive(Clone, Copy, Debug, PartialEq, Eq, Structural)]
pub enum BadgeContent {
    /// A small dot.
    Dot,
    /// A number.
    Count(u32),
}

/// A badge: what it shows, where, and the largest count shown as is.
#[derive(Clone, Copy, Debug, PartialEq, Eq, Structural)]
pub struct Badge {
    /// What the badge shows.
    pub content: BadgeContent,
    /// Where it sits.
    pub position: Position,
    /// Counts above this show as `max+`.
    pub max: u32,
}

/// The text of a count badge: nothing for zero, `max+` above the cap,
/// else the number.
pub open spec fn count_text(value: u32, max: u32) -> Option<Seq<char>> {
    if value == 0 {
        None
    } else if value > max {
        Some(decimal(max as nat).push('+'))
    } else {
        Some(decimal(value as nat))
    }
}

impl Badge {
    /// A dot badge at the top right, capped at 999.
    pub fn dot() -> (res: Badge)
        ensures
            res == (Badge { content: BadgeContent::Dot, position: Position::TopRight, max: 999 }),
    {
        Badge { content: BadgeContent::Dot, position: Position::TopRight, max: 999 }
    }

    /// A count badge at the top right, capped at 999.
    pub fn count(value: u32) -> (res: Badge)
        ensures
            res == (Badge { content: BadgeContent::Count(value), position: Position::TopRight, max: 999 }),
    {
        Badge { content: BadgeContent::Count(value), position: Position::TopRight, max: 999 }
    }

    /// Sets the position.
    pub fn position(self, position: Position) -> (res: Badge)
        ensures
            res == (Badge { position, ..self }),
    {
        Badge { position, ..self }
    }

    /// Sets the largest count shown as is.
    pub fn max(self, max: u32) -> (res: Badge)
        ensures
            res == (Badge { max, ..self }),
    {
        Badge { max, ..self }
    }

    /// The text drawn in the badge: none for a dot or a zero count
    /// (which draws nothing at all), `max+` for a count above the cap,
    /// else the count.
    pub fn label(&self) -> (res: Option<String>)
        ensures
            match self.content {
                BadgeContent::Dot => res is None,
                BadgeContent::Count(v) => match count_text(v, self.max) {
                    Some(t) => res matches Some(s) && s@ == t,
                    None => res is None,
                },
            },
    {
        match self.content {
            BadgeContent::Dot => None,
            BadgeContent::Count(value) => {
                if value == 0 {
                    None
                } else if value > self.max {
                    let mut s = String::new();
                    write_decimal(&mut s, self.max as u64);
                    push_char(&mut s, '+');
                    assert(s@ =~= decimal(self.max as nat).push('+'));
                    Some(s)
                } else {
                    let mut s = String::new();
                    write_decimal(&mut s, value as u64);
                    assert(s@ =~= decimal(value as nat));
                    Some(s)
                }
            },
        }
    }
}

/// A zero count shows nothing, a count up to the cap shows its number,
/// and every count above the cap shows the same text: the cap's own
/// text followed by `+`.
pub proof fn lemma_badge_caps_counts(v: u32, w: u32, max: u32)
    ensures
        v == 0 ==> count_text(v, max) is None,
        0 < v <= max ==> count_text(v, max) == Some(decimal(v as nat)),
        v > max && w > max ==> count_text(v, max) == count_text(w, max),
        v > max && max > 0 ==> count_text(v, max) == Some(count_text(max, max)->0.push('+')),
{
}

} // verus!
