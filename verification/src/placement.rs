//! Placement values: a coordinate that is either already absolute or still
//! relative to an unresolved anchor.

use vstd::prelude::*;

use crate::coords::Xy;
use crate::raw::{LayoutError, LayoutResult};
use crate::text::{dec_i64, dec_int};

verus! {

/// The diagnostic rendering of a placement value.
pub open spec fn place_text(p: Place) -> Seq<char> {
    match p {
        Place::Abs(xy) => "Abs("@ + dec_int(xy.x as int) + ", "@ + dec_int(xy.y as int) + ")"@,
        Place::Rel => "Rel"@,
    }
}

/// The location of a placed object.  Resolution of relative placements is the
/// job of a collaborating placement pass; within this crate a relative
/// placement is simply one that cannot yet be turned into a coordinate.
#[derive(Clone, Copy, Debug, PartialEq, Eq, Structural)]
pub enum Place {
    /// An absolute coordinate, in primitive pitches.
    Abs(Xy),
    /// A relative specification whose anchor chain has not been resolved.
    Rel,
}

impl Place {
    /// The absolute coordinate of this placement; fails exactly when the
    /// placement is still relative.
    pub fn abs(&self) -> (r: LayoutResult<Xy>)
        ensures
            match r {
                Ok(xy) => *self == Place::Abs(xy),
                Err(e) => *self is Rel && e == LayoutError::Unresolved,
            },
    {
        match self {
            Place::Abs(xy) => Ok(*xy),
            Place::Rel => Err(LayoutError::Unresolved),
        }
    }

    /// Human-readable rendering of this placement value.
    pub fn display_string(&self) -> (s: String)
        ensures
            s@ == place_text(*self),
    {
        match self {
            Place::Abs(xy) => {
                let mut s = String::from_str("Abs(");
                let x = dec_i64(xy.x);
                s.append(x.as_str());
                s.append(", ");
                let y = dec_i64(xy.y);
                s.append(y.as_str());
                s.append(")");
                s
            },
            Place::Rel => String::from_str("Rel"),
        }
    }
}

/// A generic placeable object: something known only by name and by where it
/// is to be placed.
#[derive(Clone, Debug)]
pub struct Placeable {
    pub name: String,
    pub loc: Place,
}

} // verus!
