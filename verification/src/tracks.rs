//! Track-grid coordinates used for wiring: intersections, and net-to-track
//! assignments.

use vstd::prelude::*;

verus! {

/// Distinguishes placement before or after a crossing point along a track.
#[derive(Clone, Copy, Debug, PartialEq, Eq, Structural)]
pub enum RelZ {
    Before,
    After,
}

/// A routing-grid coordinate: a point identified by metal layer, track index,
/// position along the track, and the side of the crossing layer.
#[derive(Clone, Copy, Debug, PartialEq, Eq, Structural)]
pub struct TrackIntersection {
    /// Metal layer index.
    pub layer: usize,
    /// Track index within the layer.
    pub track: usize,
    /// Position along the track.
    pub at: usize,
    /// Whether the intersection lies before or after the crossing point.
    pub relz: RelZ,
}

/// A net name paired with the track intersection it is assigned to.
#[derive(Clone, Debug)]
pub struct Assign {
    /// Net name.  No identity constraint: the same name may be assigned any
    /// number of times.
    pub net: String,
    /// The assigned track intersection.
    pub at: TrackIntersection,
}

} // verus!
