//! Shared measurement and orientation primitives.

use vstd::prelude::*;

verus! {

/// A length in whole centimeters.
#[derive(Debug, Clone, Copy, PartialEq, Eq, Structural)]
pub struct Centimeters(pub u32);

/// Which side of the body an appendage belongs to.
#[derive(Debug, Clone, Copy, PartialEq, Eq, Structural)]
pub enum Direction {
    Left,
    Right,
}

} // verus!
