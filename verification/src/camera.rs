//! The camera's state, and the tick that updates it.

use vstd::prelude::*;
use crate::action::{effective_button, resolve_action, CameraAction, InputScheme};
use crate::angle::{upside_down, wrap_diff, wrap_sum, HALF_TURN};
use crate::fixed::{clamp_to, fixed_mul, lemma_fixed_mul_bound, mul_fixed, mul_wide};
use crate::frame::ViewFrame;
use crate::input::{accumulate, accumulated, ButtonState, InputEvent, InputTotals};
use crate::pose::{default_pose, orbit_amount, pan_amount, scroll_mix, shift_part, zoom_amount};
use crate::pose::{clamp_center, Pose, CENTER_LIMIT, LOG_RADIUS_MAX, LOG_RADIUS_MIN};
use crate::settings::PanOrbitSettings;
use crate::vector::{Vec2, Vec3};

verus! {

/// The state of a pan-orbit camera. It lasts from tick to tick.
#[derive(Debug, Clone, Copy, PartialEq, Eq, Structural)]
pub struct PanOrbitState {
    /// The point looked at.
    pub center: Vec3,
    /// The natural logarithm of the distance from `center` to the eye.
    pub log_radius: i64,
    /// Yaw.
    pub rotation: i64,
    /// Pitch.
    pub slope: i64,
    /// Whether the pitch is past a pole.
    pub upside_down: bool,
    /// The action of the last tick.
    pub current_action: CameraAction,
    /// The last button state seen.
    pub button_state: ButtonState,
}

impl View for PanOrbitState {
    type V = Pose;

    open spec fn view(&self) -> Pose {
        Pose {
            center: self.center@,
            log_radius: self.log_radius as int,
            rotation: self.rotation as int,
            slope: self.slope as int,
            upside_down: self.upside_down,
            current_action: self.current_action,
            button_state: self.button_state,
        }
    }
}

/// What a tick tells whoever holds the transform.
#[derive(Debug, Clone, Copy, PartialEq, Eq, Structural)]
pub struct TickReport {
    /// The action that the tick resolved to.
    pub action: CameraAction,
    /// Whether the transform has to be written from the state.
    pub refresh: bool,
}

impl Default for PanOrbitState {
    fn default() -> (s: PanOrbitState)
        ensures
            s@ == default_pose(),
            s@.valid(),
    {
        PanOrbitState {
            center: Vec3::new(0, 2_000_000, 15_000_000),
            log_radius: 0,
            rotation: 0,
            slope: 0,
            upside_down: false,
            current_action: CameraAction::Idle,
            button_state: ButtonState::Released,
        }
    }
}

/// The product of a total, or of a sum of two scaled totals, and a
/// sensitivity.
fn scale_by(a: i64, sensitivity: i64) -> (r: i64)
    requires
        -2_000_000_000_000_000 <= a <= 2_000_000_000_000_000,
        0 < sensitivity <= 1_000_000_000,
    ensures
        r == fixed_mul(a as int, sensitivity as int),
        -2_000_000_000_000_000_000 <= r <= 2_000_000_000_000_000_000,
        -1_000_000_000_000 <= a <= 1_000_000_000_000 ==> -1_000_000_000_000_000 <= r
            <= 1_000_000_000_000_000,
{
    proof {
        lemma_fixed_mul_bound(a as int, sensitivity as int, 2_000_000_000_000_000, 1_000_000_000);
        if -1_000_000_000_000 <= a <= 1_000_000_000_000 {
            lemma_fixed_mul_bound(a as int, sensitivity as int, 1_000_000_000_000, 1_000_000_000);
        }
    }
    mul_fixed(a, sensitivity) as i64
}

/// By how much a zoom lowers the logarithm of the distance: the pinch times
/// the zoom sensitivity.
pub fn zoom_delta(totals: &InputTotals, settings: &PanOrbitSettings) -> (r: i64)
    requires
        totals@.in_range(),
        settings@.valid(),
    ensures
        r == zoom_amount(totals@, settings@),
{
    scale_by(totals.pinch, settings.zoom_sensitivity)
}

/// What scrolling comes to once lines and pixels are counted in one unit.
fn mix_scroll(totals: &InputTotals, settings: &PanOrbitSettings) -> (r: Vec2)
    requires
        totals@.in_range(),
        settings@.valid(),
    ensures
        r@ == scroll_mix(totals@, settings@),
        -2_000_000_000_000_000 <= r.x <= 2_000_000_000_000_000,
        -2_000_000_000_000_000 <= r.y <= 2_000_000_000_000_000,
{
    let lx: i64 = scale_by(totals.scroll_lines.x, settings.scroll_line_sensitivity);
    let px: i64 = scale_by(totals.scroll_pixels.x, settings.scroll_pixel_sensitivity);
    let ly: i64 = scale_by(totals.scroll_lines.y, settings.scroll_line_sensitivity);
    let py: i64 = scale_by(totals.scroll_pixels.y, settings.scroll_pixel_sensitivity);
    Vec2 { x: lx + px, y: ly + py }
}

/// By how much an orbit turns: the opposite of the scrolling, times the orbit
/// sensitivity.
pub fn orbit_delta(totals: &InputTotals, settings: &PanOrbitSettings) -> (r: Vec2)
    requires
        totals@.in_range(),
        settings@.valid(),
    ensures
        r@ == orbit_amount(totals@, settings@),
{
    let mix = mix_scroll(totals, settings);
    let x: i64 = scale_by(mix.x, settings.orbit_sensitivity);
    let y: i64 = scale_by(mix.y, settings.orbit_sensitivity);
    Vec2 { x: -x, y: -y }
}

/// By how much a pan or a move displaces the look-at point along the camera's
/// right and up axes.
pub fn pan_delta(totals: &InputTotals, settings: &PanOrbitSettings) -> (r: Vec2)
    requires
        totals@.in_range(),
        settings@.valid(),
    ensures
        r@ == pan_amount(totals@, settings@),
{
    match settings.scheme {
        InputScheme::DragPan => {
            let x: i64 = scale_by(totals.motion.x, settings.pan_sensitivity);
            let y: i64 = scale_by(totals.motion.y, settings.pan_sensitivity);
            Vec2 { x, y }
        },
        InputScheme::ScrollPan => {
            let mix = mix_scroll(totals, settings);
            let x: i64 = scale_by(mix.x, settings.pan_sensitivity);
            let y: i64 = scale_by(mix.y, settings.pan_sensitivity);
            Vec2 { x: -x, y: -y }
        },
    }
}

/// One coordinate of the displacement of the look-at point.
fn part_of_shift(scheme: InputScheme, right: i64, up: i64, radius: i64, delta: Vec2) -> (r: i128)
    requires
        -1_000_000 <= right <= 1_000_000,
        -1_000_000 <= up <= 1_000_000,
        0 <= radius <= 1_000_000_000_000_000,
    ensures
        r == shift_part(scheme, right as int, up as int, radius as int, delta@),
        -0x1000_0000_0000_0000_0000_0000_0000 <= r <= 0x1000_0000_0000_0000_0000_0000_0000,
{
    let along_right: i128 = mul_fixed(right, delta.x);
    let along_up: i128 = mul_fixed(up, delta.y);
    proof {
        lemma_fixed_mul_bound(right as int, delta.x as int, 1_000_000, 0x8000_0000_0000_0000);
        lemma_fixed_mul_bound(up as int, delta.y as int, 1_000_000, 0x8000_0000_0000_0000);
    }
    match scheme {
        InputScheme::DragPan => along_right + along_up,
        InputScheme::ScrollPan => {
            proof {
                lemma_fixed_mul_bound(
                    along_right as int,
                    radius as int,
                    0x8000_0000_0000_0000,
                    1_000_000_000_000_000,
                );
                lemma_fixed_mul_bound(
                    along_up as int,
                    radius as int,
                    0x8000_0000_0000_0000,
                    1_000_000_000_000_000,
                );
            }
            let a: i128 = mul_wide(along_right, radius as i128);
            let b: i128 = mul_wide(along_up, radius as i128);
            a + b
        },
    }
}

/// One coordinate of the look-at point after a displacement.
fn shift_coordinate(scheme: InputScheme, at: i64, by: i128) -> (r: i64)
    requires
        -0x1000_0000_0000_0000_0000_0000_0000 <= by <= 0x1000_0000_0000_0000_0000_0000_0000,
    ensures
        r == match scheme {
            InputScheme::DragPan => clamp_center(at - by),
            InputScheme::ScrollPan => clamp_center(at + by),
        },
{
    match scheme {
        InputScheme::DragPan => clamp_to(at as i128 - by, -CENTER_LIMIT, CENTER_LIMIT),
        InputScheme::ScrollPan => clamp_to(at as i128 + by, -CENTER_LIMIT, CENTER_LIMIT),
    }
}

impl PanOrbitState {
    /// Whether the state is one that a camera can be in.
    pub fn is_valid(&self) -> (r: bool)
        ensures
            r == self@.valid(),
    {
        let centered = -CENTER_LIMIT <= self.center.x && self.center.x <= CENTER_LIMIT
            && -CENTER_LIMIT <= self.center.y && self.center.y <= CENTER_LIMIT && -CENTER_LIMIT
            <= self.center.z && self.center.z <= CENTER_LIMIT;
        let distanced = LOG_RADIUS_MIN <= self.log_radius && self.log_radius <= LOG_RADIUS_MAX;
        let wrapped = -HALF_TURN <= self.rotation && self.rotation <= HALF_TURN && -HALF_TURN
            <= self.slope && self.slope <= HALF_TURN;
        let flagged = self.upside_down == upside_down(self.slope);
        let held = match (self.current_action, self.button_state) {
            (CameraAction::Move, ButtonState::Released) => false,
            _ => true,
        };
        centered && distanced && wrapped && flagged && held
    }

    /// Zooms by `amount`: the distance is multiplied by `exp(-amount)`, so its
    /// logarithm goes down by `amount`, and stays between its limits.
    pub fn apply_zoom(&mut self, amount: i64)
        requires
            old(self)@.valid(),
        ensures
            final(self)@ == old(self)@.zoomed(amount as int),
            final(self)@.valid(),
    {
        self.log_radius = clamp_to(
            self.log_radius as i128 - amount as i128,
            LOG_RADIUS_MIN,
            LOG_RADIUS_MAX,
        );
    }

    /// Orbits by `delta`: yaw and pitch each move and wrap. Where the pitch
    /// before the orbit is past a pole, the yaw moves the other way.
    pub fn apply_orbit(&mut self, delta: Vec2)
        requires
            old(self)@.valid(),
        ensures
            final(self)@ == old(self)@.orbited(delta@),
            final(self)@.valid(),
    {
        if upside_down(self.slope) {
            self.rotation = wrap_diff(self.rotation, delta.x);
        } else {
            self.rotation = wrap_sum(self.rotation, delta.x);
        }
        self.slope = wrap_sum(self.slope, delta.y);
        self.upside_down = upside_down(self.slope);
    }

    /// Displaces the look-at point by `delta` along the frame's right and up
    /// axes: against `delta` and as it is where dragging pans, along `delta`
    /// and multiplied by the orbit distance where scrolling pans.
    pub fn apply_pan(&mut self, scheme: InputScheme, frame: &ViewFrame, delta: Vec2)
        requires
            old(self)@.valid(),
            frame@.valid(),
        ensures
            final(self)@ == old(self)@.panned(scheme, frame@, delta@),
            final(self)@.valid(),
    {
        let sx: i128 = part_of_shift(scheme, frame.right.x, frame.up.x, frame.radius, delta);
        let sy: i128 = part_of_shift(scheme, frame.right.y, frame.up.y, frame.radius, delta);
        let sz: i128 = part_of_shift(scheme, frame.right.z, frame.up.z, frame.radius, delta);
        self.center = Vec3 {
            x: shift_coordinate(scheme, self.center.x, sx),
            y: shift_coordinate(scheme, self.center.y, sy),
            z: shift_coordinate(scheme, self.center.z, sz),
        };
    }

    /// One tick on totals already accumulated: records the button state in
    /// effect, resolves the action, and applies it. The report names the
    /// action and says whether the transform has to be written: it has where
    /// the action had work to do, or the camera was just made.
    pub fn apply(
        &mut self,
        settings: &PanOrbitSettings,
        frame: &ViewFrame,
        totals: &InputTotals,
        newly_made: bool,
    ) -> (report: TickReport)
        requires
            old(self)@.valid(),
            settings@.valid(),
            frame@.valid(),
            totals@.in_range(),
        ensures
            final(self)@ == old(self)@.ticked(settings@, totals@, frame@),
            final(self)@.valid(),
            report.action == old(self)@.tick_action(settings@, totals@),
            report.refresh == old(self)@.tick_refresh(settings@, totals@, newly_made),
    {
        let button = effective_button(self.button_state, totals.button);
        let action = resolve_action(
            settings.scheme,
            settings.orbit_enabled,
            self.current_action,
            totals,
            button,
        );
        self.button_state = button;
        self.current_action = action;
        let mut worked = false;
        match (settings.scheme, action) {
            (_, CameraAction::Zoom) => {
                let amount: i64 = zoom_delta(totals, settings);
                if amount != 0 {
                    self.apply_zoom(amount);
                    worked = true;
                }
            },
            (InputScheme::ScrollPan, CameraAction::Orbit) => {
                let delta = orbit_delta(totals, settings);
                if !delta.is_zero() {
                    self.apply_orbit(delta);
                    worked = true;
                }
            },
            (InputScheme::ScrollPan, CameraAction::Pan) | (
                InputScheme::DragPan,
                CameraAction::Move,
            ) => {
                let delta = pan_delta(totals, settings);
                if !delta.is_zero() {
                    self.apply_pan(settings.scheme, frame, delta);
                    worked = true;
                }
            },
            _ => {},
        }
        TickReport { action, refresh: worked || newly_made }
    }

    /// One tick: accumulates the events that came since the tick before, and
    /// applies what they come to.
    pub fn tick(
        &mut self,
        settings: &PanOrbitSettings,
        frame: &ViewFrame,
        events: &Vec<InputEvent>,
        newly_made: bool,
    ) -> (report: TickReport)
        requires
            old(self)@.valid(),
            settings@.valid(),
            frame@.valid(),
        ensures
            final(self)@ == old(self)@.ticked(settings@, accumulated(events@), frame@),
            final(self)@.valid(),
            report.action == old(self)@.tick_action(settings@, accumulated(events@)),
            report.refresh == old(self)@.tick_refresh(
                settings@,
                accumulated(events@),
                newly_made,
            ),
    {
        let totals = accumulate(events);
        self.apply(settings, frame, &totals, newly_made)
    }
}

} // verus!
