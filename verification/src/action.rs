//! The action resolver: which single thing the camera does this tick.

use vstd::prelude::*;
use crate::input::{ButtonState, Deltas, InputTotals};

verus! {

/// The single thing a camera does during one tick.
#[derive(Debug, Clone, Copy, PartialEq, Eq, Hash, Structural)]
pub enum CameraAction {
    /// Shift the look-at point, driven by scrolling.
    Pan,
    /// Turn around the look-at point.
    Orbit,
    /// Change the distance to the look-at point.
    Zoom,
    /// Shift the look-at point, driven by dragging with the button held.
    Move,
    /// Nothing.
    Idle,
}

/// How input is bound to actions.
#[derive(Debug, Clone, Copy, PartialEq, Eq, Hash, Structural)]
pub enum InputScheme {
    /// Dragging with the primary button held moves the look-at point.
    DragPan,
    /// Scrolling moves the look-at point; panning is the action of every tick
    /// that does not zoom.
    ScrollPan,
}

/// The button state in effect during a tick: what the tick's events last
/// reported, or else what held before.
pub open spec fn button_in_effect(before: ButtonState, reported: Option<ButtonState>)
    -> ButtonState {
    match reported {
        Some(s) => s,
        None => before,
    }
}

/// What the button makes of an action: `Move` lasts only while the button is
/// pressed, and every other action is kept.
pub open spec fn refined(action: CameraAction, button: ButtonState) -> CameraAction {
    match (action, button) {
        (CameraAction::Move, ButtonState::Released) => CameraAction::Idle,
        _ => action,
    }
}

/// The action of a tick.
///
/// Under either scheme a pinch means `Zoom`, whatever else happened.
///
/// Under `DragPan`, without a pinch: pointer motion means `Move`, and without
/// motion the action of the tick before stays. Either way `Move` lasts only
/// while the button is pressed: with the button released it becomes `Idle`.
///
/// Under `ScrollPan`, without a pinch, the action is `Pan`.
///
/// The transition to `Orbit` is reserved: it is taken only where
/// `orbit_enabled` is set, under `DragPan` on a twist (before motion is looked
/// at), under `ScrollPan` on any scrolling.
pub open spec fn resolved(
    scheme: InputScheme,
    orbit_enabled: bool,
    previous: CameraAction,
    d: Deltas,
    button: ButtonState,
) -> CameraAction {
    if d.pinch != 0 {
        CameraAction::Zoom
    } else {
        match scheme {
            InputScheme::DragPan => {
                if orbit_enabled && d.twist != 0 {
                    CameraAction::Orbit
                } else if d.motion != (0int, 0int) {
                    refined(CameraAction::Move, button)
                } else {
                    refined(previous, button)
                }
            },
            InputScheme::ScrollPan => {
                if orbit_enabled && (d.scroll_lines != (0int, 0int) || d.scroll_pixels != (
                    0int,
                    0int,
                )) {
                    CameraAction::Orbit
                } else {
                    CameraAction::Pan
                }
            },
        }
    }
}

/// The button state in effect during a tick.
pub fn effective_button(before: ButtonState, reported: Option<ButtonState>) -> (r: ButtonState)
    ensures
        r == button_in_effect(before, reported),
{
    match reported {
        Some(s) => s,
        None => before,
    }
}

/// Ends a `Move` when the button is released, and keeps every other action.
pub fn refine(action: CameraAction, button: ButtonState) -> (r: CameraAction)
    ensures
        r == refined(action, button),
{
    match (action, button) {
        (CameraAction::Move, ButtonState::Released) => CameraAction::Idle,
        _ => action,
    }
}

/// Resolves the action of a tick from its totals, the button state in effect
/// and the action of the tick before.
pub fn resolve_action(
    scheme: InputScheme,
    orbit_enabled: bool,
    previous: CameraAction,
    totals: &InputTotals,
    button: ButtonState,
) -> (action: CameraAction)
    ensures
        action == resolved(scheme, orbit_enabled, previous, totals@, button),
        totals@.pinch != 0 ==> action == CameraAction::Zoom,
{
    if totals.pinch != 0 {
        return CameraAction::Zoom;
    }
    match scheme {
        InputScheme::DragPan => {
            if orbit_enabled && totals.twist != 0 {
                CameraAction::Orbit
            } else if !totals.motion.is_zero() {
                refine(CameraAction::Move, button)
            } else {
                refine(previous, button)
            }
        },
        InputScheme::ScrollPan => {
            if orbit_enabled && (!totals.scroll_lines.is_zero()
                || !totals.scroll_pixels.is_zero()) {
                CameraAction::Orbit
            } else {
                CameraAction::Pan
            }
        },
    }
}

/// A pinch takes precedence: whatever else a tick holds, whichever scheme is
/// in use, and whether or not orbiting is enabled, a tick with a pinch
/// resolves to `Zoom`.
pub proof fn lemma_pinch_takes_precedence(
    scheme: InputScheme,
    orbit_enabled: bool,
    previous: CameraAction,
    d: Deltas,
    button: ButtonState,
)
    requires
        d.pinch != 0,
    ensures
        resolved(scheme, orbit_enabled, previous, d, button) == CameraAction::Zoom,
{
}

/// With orbiting disabled, no tick is resolved to `Orbit` that did not hold
/// that action before, and twisting changes nothing.
pub proof fn lemma_orbit_is_inert_when_disabled(
    scheme: InputScheme,
    previous: CameraAction,
    d: Deltas,
    button: ButtonState,
    twist: int,
)
    ensures
        resolved(scheme, false, previous, d, button) == CameraAction::Orbit ==> previous
            == CameraAction::Orbit,
        resolved(scheme, false, previous, Deltas { twist, ..d }, button) == resolved(
            scheme,
            false,
            previous,
            d,
            button,
        ),
{
}

} // verus!
