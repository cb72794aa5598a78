//! Two- and three-component vectors of fixed-point numbers.

use vstd::prelude::*;

verus! {

/// A vector in a plane: screen deltas, or camera-plane displacements.
#[derive(Debug, Clone, Copy, PartialEq, Eq, Structural)]
pub struct Vec2 {
    pub x: i64,
    pub y: i64,
}

/// A vector or a point in world space.
#[derive(Debug, Clone, Copy, PartialEq, Eq, Structural)]
pub struct Vec3 {
    pub x: i64,
    pub y: i64,
    pub z: i64,
}

impl View for Vec2 {
    type V = (int, int);

    open spec fn view(&self) -> (int, int) {
        (self.x as int, self.y as int)
    }
}

impl View for Vec3 {
    type V = (int, int, int);

    open spec fn view(&self) -> (int, int, int) {
        (self.x as int, self.y as int, self.z as int)
    }
}

impl Vec2 {
    /// The vector with both components zero.
    pub fn zero() -> (v: Vec2)
        ensures
            v@ == (0int, 0int),
    {
        Vec2 { x: 0, y: 0 }
    }

    /// Whether both components are zero.
    pub fn is_zero(&self) -> (r: bool)
        ensures
            r == (self@ == (0int, 0int)),
    {
        self.x == 0 && self.y == 0
    }
}

impl Vec3 {
    /// The vector with the given components.
    pub fn new(x: i64, y: i64, z: i64) -> (v: Vec3)
        ensures
            v@ == (x as int, y as int, z as int),
    {
        Vec3 { x, y, z }
    }
}

} // verus!
