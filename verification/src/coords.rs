//! Coordinate primitives, counted in primitive-cell pitches.

use vstd::prelude::*;

verus! {

/// A direction along one of the two layout axes.
#[derive(Clone, Copy, Debug, PartialEq, Eq, Structural)]
pub enum Dir {
    Horiz,
    Vert,
}

/// A two-dimensional coordinate, measured in primitive pitches along each axis.
#[derive(Clone, Copy, Debug, PartialEq, Eq, Structural)]
pub struct Xy {
    pub x: i64,
    pub y: i64,
}

impl Xy {
    /// Create a coordinate from its two components.
    pub fn new(x: i64, y: i64) -> (r: Self)
        ensures
            r == (Xy { x, y }),
    {
        Xy { x, y }
    }
}

} // verus!
