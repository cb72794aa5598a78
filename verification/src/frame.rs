//! What the camera's transform lends to a tick: two axes and the distance.

use vstd::prelude::*;
use crate::fixed::SCALE;
use crate::vector::Vec3;

verus! {

/// The largest orbit distance a frame may report: a thousand million units.
pub const RADIUS_LIMIT: i64 = 1_000_000_000_000_000;

/// A frame as mathematical values.
pub struct Frame {
    pub right: (int, int, int),
    pub up: (int, int, int),
    pub radius: int,
}

/// Whether a component of a direction is between minus one and one.
pub open spec fn is_direction_part(c: int) -> bool {
    -SCALE <= c <= SCALE
}

impl Frame {
    /// Whether no axis component exceeds one in magnitude, and the distance
    /// is not negative and within `RADIUS_LIMIT`.
    pub open spec fn valid(self) -> bool {
        &&& is_direction_part(self.right.0)
        &&& is_direction_part(self.right.1)
        &&& is_direction_part(self.right.2)
        &&& is_direction_part(self.up.0)
        &&& is_direction_part(self.up.1)
        &&& is_direction_part(self.up.2)
        &&& 0 <= self.radius <= RADIUS_LIMIT
    }
}

/// The camera as its transform shows it before a tick: the directions that
/// point right and up in world space, and the orbit distance. The controller
/// keeps the distance as a logarithm; whoever holds the transform supplies
/// the distance itself.
#[derive(Debug, Clone, Copy, PartialEq, Eq, Structural)]
pub struct ViewFrame {
    pub right: Vec3,
    pub up: Vec3,
    pub radius: i64,
}

impl View for ViewFrame {
    type V = Frame;

    open spec fn view(&self) -> Frame {
        Frame { right: self.right@, up: self.up@, radius: self.radius as int }
    }
}

fn is_part(c: i64) -> (r: bool)
    ensures
        r == is_direction_part(c as int),
{
    -SCALE <= c && c <= SCALE
}

impl ViewFrame {
    /// Whether no axis component exceeds one in magnitude, and the distance
    /// is not negative and within `RADIUS_LIMIT`.
    pub fn is_valid(&self) -> (r: bool)
        ensures
            r == self@.valid(),
    {
        is_part(self.right.x) && is_part(self.right.y) && is_part(self.right.z) && is_part(
            self.up.x,
        ) && is_part(self.up.y) && is_part(self.up.z) && 0 <= self.radius && self.radius
            <= RADIUS_LIMIT
    }
}

} // verus!
