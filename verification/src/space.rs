//! Spacing tokens: amounts of space given as multiples of the theme's
//! spacing base, in quarter steps.

use vstd::prelude::*;

verus! {

/// An amount of space: `quarters / 4` times the theme's spacing base.
#[derive(Clone, Copy, Debug, PartialEq, Eq, Structural)]
pub struct Space {
    /// The multiple of the spacing base, in quarters.
    pub quarters: u32,
}

impl Space {
    /// The token of `n` quarter steps of the spacing base.
    pub open spec fn sx_quarters(n: u32) -> Space {
        Space { quarters: n }
    }

    /// The token of `n` quarter steps of the spacing base.
    pub fn quarters(n: u32) -> (res: Space)
        ensures
            res == Space::sx_quarters(n),
    {
        Space { quarters: n }
    }
}

} // verus!
