//! The transform synthesizer: from the state to what the transform holds.
//!
//! The rotation is given as three angles, to be turned in the order yaw,
//! pitch, roll. Whoever holds the transform makes the rotation of them, takes
//! from it the axis that points backward, and asks for the eye's position.

use vstd::prelude::*;
use crate::camera::PanOrbitState;
use crate::fixed::{fixed_mul, lemma_fixed_mul_bound, lemma_fixed_mul_zero, mul_fixed};
use crate::frame::{is_direction_part, RADIUS_LIMIT};
use crate::pose::Pose;
use crate::vector::Vec3;

verus! {

/// Three angles, turned about the vertical axis first, then about the axis
/// that points right, then about the axis of sight.
#[derive(Debug, Clone, Copy, PartialEq, Eq, Structural)]
pub struct EulerAngles {
    pub yaw: i64,
    pub pitch: i64,
    pub roll: i64,
}

/// Where the eye is: `radius` behind the look-at point, along `back`.
pub open spec fn eye_of(p: Pose, back: (int, int, int), radius: int) -> (int, int, int) {
    (
        p.center.0 + fixed_mul(back.0, radius),
        p.center.1 + fixed_mul(back.1, radius),
        p.center.2 + fixed_mul(back.2, radius),
    )
}

/// An eye at distance zero sits on the look-at point.
pub proof fn lemma_eye_at_no_distance(p: Pose, back: (int, int, int))
    ensures
        eye_of(p, back, 0) == p.center,
{
    lemma_fixed_mul_zero(back.0);
    lemma_fixed_mul_zero(back.1);
    lemma_fixed_mul_zero(back.2);
}

fn behind(at: i64, back: i64, radius: i64) -> (r: i64)
    requires
        -1_000_000_000_000_000 <= at <= 1_000_000_000_000_000,
        is_direction_part(back as int),
        0 <= radius <= RADIUS_LIMIT,
    ensures
        r == at + fixed_mul(back as int, radius as int),
{
    proof {
        lemma_fixed_mul_bound(back as int, radius as int, 1_000_000, 1_000_000_000_000_000);
    }
    (at as i128 + mul_fixed(back, radius)) as i64
}

impl PanOrbitState {
    /// The angles of the camera's rotation: the yaw and the pitch of the
    /// state, and no roll. This controller never rolls the camera.
    pub fn euler_angles(&self) -> (angles: EulerAngles)
        ensures
            angles.yaw == self.rotation,
            angles.pitch == self.slope,
            angles.roll == 0,
    {
        EulerAngles { yaw: self.rotation, pitch: self.slope, roll: 0 }
    }

    /// The position of the eye: at the distance `radius` from the look-at
    /// point, along `back`, the axis that points backward out of the rotated
    /// camera. At distance zero the eye sits on the look-at point.
    pub fn eye_position(&self, back: Vec3, radius: i64) -> (eye: Vec3)
        requires
            self@.valid(),
            is_direction_part(back.x as int),
            is_direction_part(back.y as int),
            is_direction_part(back.z as int),
            0 <= radius <= RADIUS_LIMIT,
        ensures
            eye@ == eye_of(self@, back@, radius as int),
    {
        Vec3 {
            x: behind(self.center.x, back.x, radius),
            y: behind(self.center.y, back.y, radius),
            z: behind(self.center.z, back.z, radius),
        }
    }
}

} // verus!
