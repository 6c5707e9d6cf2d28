//! Axis-aligned bounding boxes.

use vstd::prelude::*;

use crate::coords::Xy;

verus! {

/// An axis-aligned rectangle, stored as its lower-left (`p0`) and
/// upper-right (`p1`) corners.
#[derive(Clone, Copy, Debug, PartialEq, Eq, Structural)]
pub struct BoundBox {
    pub p0: Xy,
    pub p1: Xy,
}

impl BoundBox {
    /// Create a bounding box from its two corner coordinates.
    pub fn new(p0: Xy, p1: Xy) -> (r: Self)
        ensures
            r == (BoundBox { p0, p1 }),
    {
        BoundBox { p0, p1 }
    }
}

} // verus!
