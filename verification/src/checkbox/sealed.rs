//! The value types a checkbox can hold; no others can be added.

use vstd::prelude::*;

verus! {

/// Implemented only for `bool` and `Option<bool>`.
pub trait Sealed {}

impl Sealed for bool {}

impl Sealed for Option<bool> {}

} // verus!
