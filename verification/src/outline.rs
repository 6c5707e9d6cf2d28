//! Cell outlines: the rectangular extent of a cell's shape, counted in
//! x and y pitches of the layout grid.

use vstd::prelude::*;

verus! {

/// The extent of a cell's shape.  Only the maximum extent along each axis
/// matters for placement and bounding-box queries; richer outline shapes are
/// authored by a collaborating module and reduced to these extents here.
#[derive(Clone, Copy, Debug, PartialEq, Eq, Structural)]
pub struct Outline {
    /// Maximum extent along the x axis, in pitches.
    pub x: i64,
    /// Maximum extent along the y axis, in pitches.
    pub y: i64,
}

impl Outline {
    /// Create a rectangular outline from its two maximum extents.
    pub fn rect(x: i64, y: i64) -> (r: Self)
        ensures
            r == (Outline { x, y }),
    {
        Outline { x, y }
    }

    /// Maximum extent along the x axis.
    pub fn xmax(&self) -> (r: i64)
        ensures
            r == self.x,
    {
        self.x
    }

    /// Maximum extent along the y axis.
    pub fn ymax(&self) -> (r: i64)
        ensures
            r == self.y,
    {
        self.y
    }
}

} // verus!
