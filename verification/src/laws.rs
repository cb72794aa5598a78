//! What holds of every camera, whatever it is fed.

use vstd::prelude::*;
use crate::action::{button_in_effect, CameraAction, InputScheme};
use crate::angle::{is_upside_down, is_wrapped, lemma_wrap_angle, wrap_angle};
use crate::fixed::lemma_fixed_mul_zero;
use crate::frame::Frame;
use crate::input::{accumulated, lemma_accumulated_empty, Deltas, InputEvent};
use crate::pose::{orbit_amount, Pose, LOG_RADIUS_MAX, LOG_RADIUS_MIN};
use crate::settings::Tuning;

verus! {

/// The pose after one orbit for each of `deltas`, in order.
pub open spec fn orbited_all(p: Pose, deltas: Seq<(int, int)>) -> Pose
    decreases deltas.len(),
{
    if deltas.len() == 0 {
        p
    } else {
        orbited_all(p, deltas.drop_last()).orbited(deltas.last())
    }
}

/// One tick's input: the totals, and the frame the transform showed.
pub struct Step {
    pub deltas: Deltas,
    pub frame: Frame,
}

/// The pose after one tick for each of `steps`, in order.
pub open spec fn ticked_all(p: Pose, t: Tuning, steps: Seq<Step>) -> Pose
    decreases steps.len(),
{
    if steps.len() == 0 {
        p
    } else {
        ticked_all(p, t, steps.drop_last()).ticked(t, steps.last().deltas, steps.last().frame)
    }
}

/// An orbit leaves both angles within half a turn of zero, whatever the pose
/// and however large the orbit.
pub proof fn lemma_orbit_keeps_angles_wrapped(p: Pose, delta: (int, int))
    ensures
        is_wrapped(p.orbited(delta).rotation),
        is_wrapped(p.orbited(delta).slope),
        p.valid() ==> p.orbited(delta).valid(),
{
    let turn = if is_upside_down(p.slope) {
        -delta.0
    } else {
        delta.0
    };
    lemma_wrap_angle(p.rotation + turn);
    lemma_wrap_angle(p.slope + delta.1);
}

/// After each orbit of any sequence of orbits, both angles are within half a
/// turn of zero.
pub proof fn lemma_orbits_keep_angles_wrapped(p: Pose, deltas: Seq<(int, int)>)
    ensures
        forall|n: int|
            0 < n <= deltas.len() ==> is_wrapped(
                (#[trigger] orbited_all(p, deltas.take(n))).rotation,
            ) && is_wrapped(orbited_all(p, deltas.take(n)).slope),
{
    assert forall|n: int| 0 < n <= deltas.len() implies is_wrapped(
        (#[trigger] orbited_all(p, deltas.take(n))).rotation,
    ) && is_wrapped(orbited_all(p, deltas.take(n)).slope) by {
        let prefix = deltas.take(n);
        lemma_orbit_keeps_angles_wrapped(orbited_all(p, prefix.drop_last()), prefix.last());
    }
}

/// A tick keeps a valid pose valid, whatever the settings, the totals and the
/// frame: in particular both angles stay within half a turn of zero.
pub proof fn lemma_tick_keeps_valid(p: Pose, t: Tuning, d: Deltas, f: Frame)
    requires
        p.valid(),
    ensures
        p.ticked(t, d, f).valid(),
{
    let action = p.tick_action(t, d);
    let q = Pose {
        button_state: button_in_effect(p.button_state, d.button),
        current_action: action,
        ..p
    };
    assert(q.valid());
    lemma_orbit_keeps_angles_wrapped(q, orbit_amount(d, t));
}

/// After each tick of any sequence of ticks that starts from a valid pose,
/// the pose is valid.
pub proof fn lemma_ticks_keep_valid(p: Pose, t: Tuning, steps: Seq<Step>)
    requires
        p.valid(),
    ensures
        forall|n: int| 0 <= n <= steps.len() ==> (#[trigger] ticked_all(p, t, steps.take(n))).valid(),
{
    assert forall|n: int| 0 <= n <= steps.len() implies (#[trigger] ticked_all(
        p,
        t,
        steps.take(n),
    )).valid() by {
        lemma_ticked_all_valid(p, t, steps.take(n));
    }
}

proof fn lemma_ticked_all_valid(p: Pose, t: Tuning, steps: Seq<Step>)
    requires
        p.valid(),
    ensures
        ticked_all(p, t, steps).valid(),
    decreases steps.len(),
{
    if steps.len() > 0 {
        lemma_ticked_all_valid(p, t, steps.drop_last());
        lemma_tick_keeps_valid(
            ticked_all(p, t, steps.drop_last()),
            t,
            steps.last().deltas,
            steps.last().frame,
        );
    }
}

/// Zooming by a positive amount never raises the distance, and lowers it
/// unless it is at its floor already; zooming by a negative amount never
/// lowers it, and raises it unless it is at its ceiling; zooming by nothing
/// changes nothing. The distance is the exponential of its logarithm, so it
/// moves as the logarithm does.
pub proof fn lemma_zoom_is_monotone(p: Pose, amount: int)
    requires
        p.valid(),
    ensures
        amount == 0 ==> p.zoomed(amount) == p,
        amount > 0 ==> p.zoomed(amount).log_radius <= p.log_radius,
        amount > 0 && p.log_radius > LOG_RADIUS_MIN ==> p.zoomed(amount).log_radius
            < p.log_radius,
        amount < 0 ==> p.zoomed(amount).log_radius >= p.log_radius,
        amount < 0 && p.log_radius < LOG_RADIUS_MAX ==> p.zoomed(amount).log_radius
            > p.log_radius,
{
}

/// Zooming by `a` and then by `b` is zooming by `a + b`, as long as the first
/// zoom does not run into a limit of the distance.
pub proof fn lemma_zoom_composes(p: Pose, a: int, b: int)
    requires
        p.valid(),
        LOG_RADIUS_MIN <= p.log_radius - a <= LOG_RADIUS_MAX,
    ensures
        p.zoomed(a).zoomed(b) == p.zoomed(a + b),
{
}

/// Past a pole the yaw turns the other way. Two cameras with the same yaw,
/// one upside down and one not, orbit by the same `delta` to the right: the
/// first turns by `-delta.0`, the second by `delta.0`. Where neither result
/// has to be wrapped, the yaw of the first goes down and that of the second
/// goes up.
pub proof fn lemma_upside_down_reverses_yaw(p: Pose, q: Pose, delta: (int, int))
    requires
        p.rotation == q.rotation,
        is_upside_down(p.slope),
        !is_upside_down(q.slope),
        delta.0 > 0,
    ensures
        p.orbited(delta).rotation == wrap_angle(p.rotation - delta.0),
        q.orbited(delta).rotation == wrap_angle(q.rotation + delta.0),
        is_wrapped(p.rotation - delta.0) && is_wrapped(p.rotation + delta.0) ==> p.orbited(
            delta,
        ).rotation < p.rotation < q.orbited(delta).rotation,
{
}

/// A tick without input, on a camera that was not just made, writes no
/// transform and changes nothing of the pose but the recorded action. A tick
/// is without input where nothing moved, scrolled, pinched or twisted, and
/// the button is as it was. Where dragging pans the action stays too; where
/// scrolling pans it becomes `Pan`, so a camera whose last action was `Pan`
/// stays wholly unchanged.
pub proof fn lemma_idle_tick_changes_nothing(p: Pose, t: Tuning, d: Deltas, f: Frame)
    requires
        p.valid(),
        d.is_still(),
        button_in_effect(p.button_state, d.button) == p.button_state,
    ensures
        !p.tick_refresh(t, d, false),
        p.ticked(t, d, f) == (Pose { current_action: p.tick_action(t, d), ..p }),
        t.scheme == InputScheme::DragPan ==> p.ticked(t, d, f) == p,
        t.scheme == InputScheme::ScrollPan ==> p.tick_action(t, d) == CameraAction::Pan,
        t.scheme == InputScheme::ScrollPan && p.current_action == CameraAction::Pan ==> p.ticked(
            t,
            d,
            f,
        ) == p,
{
    lemma_fixed_mul_zero(t.zoom_sensitivity);
    lemma_fixed_mul_zero(t.pan_sensitivity);
    lemma_fixed_mul_zero(t.orbit_sensitivity);
    lemma_fixed_mul_zero(t.scroll_line_sensitivity);
    lemma_fixed_mul_zero(t.scroll_pixel_sensitivity);
}

/// A tick on a batch without events is a tick without input.
pub proof fn lemma_tick_without_events_changes_nothing(p: Pose, t: Tuning, f: Frame)
    requires
        p.valid(),
    ensures
        !p.tick_refresh(t, accumulated(Seq::<InputEvent>::empty()), false),
        p.ticked(t, accumulated(Seq::<InputEvent>::empty()), f) == (Pose {
            current_action: p.tick_action(t, accumulated(Seq::<InputEvent>::empty())),
            ..p
        }),
        t.scheme == InputScheme::DragPan ==> p.ticked(
            t,
            accumulated(Seq::<InputEvent>::empty()),
            f,
        ) == p,
{
    lemma_accumulated_empty();
    lemma_idle_tick_changes_nothing(p, t, accumulated(Seq::<InputEvent>::empty()), f);
}

/// A tick with a pinch zooms, whatever else it holds.
pub proof fn lemma_pinch_means_zoom(p: Pose, t: Tuning, d: Deltas)
    requires
        d.pinch != 0,
    ensures
        p.tick_action(t, d) == CameraAction::Zoom,
{
}

} // verus!
