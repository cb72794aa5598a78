//! The pose of a camera as mathematical values, and what a tick makes of it.

use vstd::prelude::*;
use crate::action::{button_in_effect, resolved, CameraAction, InputScheme};
use crate::angle::{is_upside_down, is_wrapped, wrap_angle};
use crate::fixed::{clamp, fixed_mul};
use crate::frame::Frame;
use crate::input::{ButtonState, Deltas};
use crate::settings::Tuning;

verus! {

/// The smallest logarithm of the orbit distance: the camera comes no closer
/// than `exp(-10)` units to the point it looks at.
pub const LOG_RADIUS_MIN: i64 = -10_000_000;

/// The largest logarithm of the orbit distance.
pub const LOG_RADIUS_MAX: i64 = 20_000_000;

/// How far from the origin the look-at point may go along each axis.
pub const CENTER_LIMIT: i64 = 1_000_000_000_000_000;

/// The state of a camera as mathematical values.
pub struct Pose {
    /// The point looked at.
    pub center: (int, int, int),
    /// The natural logarithm of the distance from `center` to the eye.
    pub log_radius: int,
    /// Yaw.
    pub rotation: int,
    /// Pitch.
    pub slope: int,
    /// Whether the pitch is past a pole.
    pub upside_down: bool,
    /// The action of the last tick.
    pub current_action: CameraAction,
    /// The last button state seen.
    pub button_state: ButtonState,
}

/// A coordinate brought within `CENTER_LIMIT` of zero.
pub open spec fn clamp_center(v: int) -> int {
    clamp(v, -CENTER_LIMIT, CENTER_LIMIT as int)
}

/// A logarithm of the distance brought between its two limits.
pub open spec fn clamp_log_radius(v: int) -> int {
    clamp(v, LOG_RADIUS_MIN as int, LOG_RADIUS_MAX as int)
}

/// What scrolling comes to once lines and pixels are counted in one unit.
pub open spec fn scroll_mix(d: Deltas, t: Tuning) -> (int, int) {
    (
        fixed_mul(d.scroll_lines.0, t.scroll_line_sensitivity) + fixed_mul(
            d.scroll_pixels.0,
            t.scroll_pixel_sensitivity,
        ),
        fixed_mul(d.scroll_lines.1, t.scroll_line_sensitivity) + fixed_mul(
            d.scroll_pixels.1,
            t.scroll_pixel_sensitivity,
        ),
    )
}

/// By how much a zoom lowers the logarithm of the distance.
pub open spec fn zoom_amount(d: Deltas, t: Tuning) -> int {
    fixed_mul(d.pinch, t.zoom_sensitivity)
}

/// By how much an orbit turns: yaw first, pitch second.
pub open spec fn orbit_amount(d: Deltas, t: Tuning) -> (int, int) {
    let mix = scroll_mix(d, t);
    (-fixed_mul(mix.0, t.orbit_sensitivity), -fixed_mul(mix.1, t.orbit_sensitivity))
}

/// By how much a pan or a move displaces the look-at point, along the
/// camera's right and up axes: the pointer's motion where dragging pans, the
/// opposite of the scrolling where scrolling does.
pub open spec fn pan_amount(d: Deltas, t: Tuning) -> (int, int) {
    match t.scheme {
        InputScheme::DragPan => (
            fixed_mul(d.motion.0, t.pan_sensitivity),
            fixed_mul(d.motion.1, t.pan_sensitivity),
        ),
        InputScheme::ScrollPan => {
            let mix = scroll_mix(d, t);
            (-fixed_mul(mix.0, t.pan_sensitivity), -fixed_mul(mix.1, t.pan_sensitivity))
        },
    }
}

/// One coordinate of the displacement `right * delta.0 + up * delta.1`, each
/// term multiplied by the orbit distance where scrolling pans, so that the
/// look-at point moves at a constant rate on the screen; taken as it is where
/// dragging pans.
pub open spec fn shift_part(
    scheme: InputScheme,
    right: int,
    up: int,
    radius: int,
    delta: (int, int),
) -> int {
    match scheme {
        InputScheme::DragPan => fixed_mul(right, delta.0) + fixed_mul(up, delta.1),
        InputScheme::ScrollPan => fixed_mul(fixed_mul(right, delta.0), radius) + fixed_mul(
            fixed_mul(up, delta.1),
            radius,
        ),
    }
}

/// The look-at point after a displacement of `delta` along the frame's axes:
/// taken away from the point where dragging pans, added to it where scrolling
/// does, and each coordinate kept within `CENTER_LIMIT` of zero.
pub open spec fn shifted_center(
    center: (int, int, int),
    scheme: InputScheme,
    f: Frame,
    delta: (int, int),
) -> (int, int, int) {
    let sx = shift_part(scheme, f.right.0, f.up.0, f.radius, delta);
    let sy = shift_part(scheme, f.right.1, f.up.1, f.radius, delta);
    let sz = shift_part(scheme, f.right.2, f.up.2, f.radius, delta);
    match scheme {
        InputScheme::DragPan => (
            clamp_center(center.0 - sx),
            clamp_center(center.1 - sy),
            clamp_center(center.2 - sz),
        ),
        InputScheme::ScrollPan => (
            clamp_center(center.0 + sx),
            clamp_center(center.1 + sy),
            clamp_center(center.2 + sz),
        ),
    }
}

/// What an action does under a scheme.
pub enum Effect {
    /// The distance changes.
    Zoom,
    /// The two angles change.
    Orbit,
    /// The look-at point moves.
    Shift,
    /// Nothing changes.
    Nothing,
}

/// What an action does under a scheme: `Zoom` zooms under either; `Orbit`
/// turns and `Pan` shifts only where scrolling pans; `Move` shifts only where
/// dragging pans. `Orbit` where dragging pans is reserved and does nothing.
pub open spec fn effect_of(scheme: InputScheme, action: CameraAction) -> Effect {
    match (scheme, action) {
        (_, CameraAction::Zoom) => Effect::Zoom,
        (InputScheme::ScrollPan, CameraAction::Orbit) => Effect::Orbit,
        (InputScheme::ScrollPan, CameraAction::Pan) => Effect::Shift,
        (InputScheme::DragPan, CameraAction::Move) => Effect::Shift,
        _ => Effect::Nothing,
    }
}

/// Whether an action has anything to apply: its effect has a nonzero amount.
pub open spec fn has_work(t: Tuning, action: CameraAction, d: Deltas) -> bool {
    match effect_of(t.scheme, action) {
        Effect::Zoom => zoom_amount(d, t) != 0,
        Effect::Orbit => orbit_amount(d, t) != (0int, 0int),
        Effect::Shift => pan_amount(d, t) != (0int, 0int),
        Effect::Nothing => false,
    }
}

impl Pose {
    /// Whether the pose is one that a camera can be in: the look-at point and
    /// the logarithm of the distance within their limits, both angles within
    /// half a turn of zero, `upside_down` telling whether the pitch is past a
    /// pole, and `Move` only with the button pressed.
    pub open spec fn valid(self) -> bool {
        &&& -CENTER_LIMIT <= self.center.0 <= CENTER_LIMIT
        &&& -CENTER_LIMIT <= self.center.1 <= CENTER_LIMIT
        &&& -CENTER_LIMIT <= self.center.2 <= CENTER_LIMIT
        &&& LOG_RADIUS_MIN <= self.log_radius <= LOG_RADIUS_MAX
        &&& is_wrapped(self.rotation)
        &&& is_wrapped(self.slope)
        &&& self.upside_down == is_upside_down(self.slope)
        &&& (self.current_action == CameraAction::Move ==> self.button_state
            == ButtonState::Pressed)
    }

    /// The pose after a zoom by `amount`: the distance is multiplied by
    /// `exp(-amount)`, that is, its logarithm lowered by `amount`, and kept
    /// between its limits.
    pub open spec fn zoomed(self, amount: int) -> Pose {
        Pose { log_radius: clamp_log_radius(self.log_radius - amount), ..self }
    }

    /// The pose after an orbit by `delta`: yaw and pitch each moved and
    /// wrapped. Where the pitch before the orbit is past a pole, the yaw
    /// moves the other way.
    pub open spec fn orbited(self, delta: (int, int)) -> Pose {
        let turn = if is_upside_down(self.slope) {
            -delta.0
        } else {
            delta.0
        };
        let slope = wrap_angle(self.slope + delta.1);
        Pose {
            rotation: wrap_angle(self.rotation + turn),
            slope,
            upside_down: is_upside_down(slope),
            ..self
        }
    }

    /// The pose after the look-at point is displaced by `delta` along the
    /// frame's axes.
    pub open spec fn panned(self, scheme: InputScheme, f: Frame, delta: (int, int)) -> Pose {
        Pose { center: shifted_center(self.center, scheme, f, delta), ..self }
    }

    /// The action that a tick with totals `d` resolves to.
    pub open spec fn tick_action(self, t: Tuning, d: Deltas) -> CameraAction {
        resolved(
            t.scheme,
            t.orbit_enabled,
            self.current_action,
            d,
            button_in_effect(self.button_state, d.button),
        )
    }

    /// The pose after `action` is applied with the totals `d`. An action
    /// without work leaves the pose as it is.
    pub open spec fn acted(self, t: Tuning, action: CameraAction, d: Deltas, f: Frame) -> Pose {
        if !has_work(t, action, d) {
            self
        } else {
            match effect_of(t.scheme, action) {
                Effect::Zoom => self.zoomed(zoom_amount(d, t)),
                Effect::Orbit => self.orbited(orbit_amount(d, t)),
                Effect::Shift => self.panned(t.scheme, f, pan_amount(d, t)),
                Effect::Nothing => self,
            }
        }
    }

    /// The pose after a tick with totals `d`: the button state in effect and
    /// the resolved action are recorded, and the action is applied.
    pub open spec fn ticked(self, t: Tuning, d: Deltas, f: Frame) -> Pose {
        let action = self.tick_action(t, d);
        Pose {
            button_state: button_in_effect(self.button_state, d.button),
            current_action: action,
            ..self
        }.acted(t, action, d, f)
    }

    /// Whether the transform has to be written after a tick: the action had
    /// work, or the camera was just made.
    pub open spec fn tick_refresh(self, t: Tuning, d: Deltas, newly_made: bool) -> bool {
        newly_made || has_work(t, self.tick_action(t, d), d)
    }
}

/// The pose of a camera that was just made: it looks at `(0, 2, 15)` from a
/// distance of one, level and straight, does nothing, and the button is
/// released.
pub open spec fn default_pose() -> Pose {
    Pose {
        center: (0, 2_000_000, 15_000_000),
        log_radius: 0,
        rotation: 0,
        slope: 0,
        upside_down: false,
        current_action: CameraAction::Idle,
        button_state: ButtonState::Released,
    }
}

} // verus!
