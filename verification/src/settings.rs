//! What configures a camera: sensitivities and the input scheme.

use vstd::prelude::*;
use crate::action::InputScheme;

verus! {

/// The largest sensitivity: a thousand.
pub const SENSITIVITY_LIMIT: i64 = 1_000_000_000;

/// The settings as mathematical values.
pub struct Tuning {
    pub zoom_sensitivity: int,
    pub pan_sensitivity: int,
    pub orbit_sensitivity: int,
    pub scroll_line_sensitivity: int,
    pub scroll_pixel_sensitivity: int,
    pub scheme: InputScheme,
    pub orbit_enabled: bool,
}

impl Tuning {
    /// Whether every sensitivity is positive and within `SENSITIVITY_LIMIT`.
    pub open spec fn valid(self) -> bool {
        &&& 0 < self.zoom_sensitivity <= SENSITIVITY_LIMIT
        &&& 0 < self.pan_sensitivity <= SENSITIVITY_LIMIT
        &&& 0 < self.orbit_sensitivity <= SENSITIVITY_LIMIT
        &&& 0 < self.scroll_line_sensitivity <= SENSITIVITY_LIMIT
        &&& 0 < self.scroll_pixel_sensitivity <= SENSITIVITY_LIMIT
    }
}

/// The configuration of a camera, set when it is made.
#[derive(Debug, Clone, Copy, PartialEq, Eq, Structural)]
pub struct PanOrbitSettings {
    /// Change of the distance's logarithm per unit of pinch.
    pub zoom_sensitivity: i64,
    /// Displacement of the look-at point per unit of motion or scroll.
    pub pan_sensitivity: i64,
    /// Radians turned per unit of scroll.
    pub orbit_sensitivity: i64,
    /// Units per line, for devices with a notched wheel.
    pub scroll_line_sensitivity: i64,
    /// Units per pixel, for devices that scroll smoothly.
    pub scroll_pixel_sensitivity: i64,
    /// How input is bound to actions.
    pub scheme: InputScheme,
    /// Whether the reserved transition to `Orbit` is taken. Off by default.
    pub orbit_enabled: bool,
}

impl View for PanOrbitSettings {
    type V = Tuning;

    open spec fn view(&self) -> Tuning {
        Tuning {
            zoom_sensitivity: self.zoom_sensitivity as int,
            pan_sensitivity: self.pan_sensitivity as int,
            orbit_sensitivity: self.orbit_sensitivity as int,
            scroll_line_sensitivity: self.scroll_line_sensitivity as int,
            scroll_pixel_sensitivity: self.scroll_pixel_sensitivity as int,
            scheme: self.scheme,
            orbit_enabled: self.orbit_enabled,
        }
    }
}

/// The settings a camera has unless told otherwise: zoom 5, pan and orbit a
/// tenth, sixteen units to the line and one to the pixel, scrolling pans, and
/// orbiting is off.
pub open spec fn default_tuning() -> Tuning {
    Tuning {
        zoom_sensitivity: 5_000_000,
        pan_sensitivity: 100_000,
        orbit_sensitivity: 100_000,
        scroll_line_sensitivity: 16_000_000,
        scroll_pixel_sensitivity: 1_000_000,
        scheme: InputScheme::ScrollPan,
        orbit_enabled: false,
    }
}

impl Default for PanOrbitSettings {
    fn default() -> (s: PanOrbitSettings)
        ensures
            s@ == default_tuning(),
            s@.valid(),
    {
        PanOrbitSettings {
            zoom_sensitivity: 5_000_000,
            pan_sensitivity: 100_000,
            orbit_sensitivity: 100_000,
            scroll_line_sensitivity: 16_000_000,
            scroll_pixel_sensitivity: 1_000_000,
            scheme: InputScheme::ScrollPan,
            orbit_enabled: false,
        }
    }
}

fn is_sensitivity(v: i64) -> (r: bool)
    ensures
        r == (0 < v <= SENSITIVITY_LIMIT),
{
    0 < v && v <= SENSITIVITY_LIMIT
}

impl PanOrbitSettings {
    /// Whether every sensitivity is positive and within `SENSITIVITY_LIMIT`.
    pub fn is_valid(&self) -> (r: bool)
        ensures
            r == self@.valid(),
    {
        is_sensitivity(self.zoom_sensitivity) && is_sensitivity(self.pan_sensitivity)
            && is_sensitivity(self.orbit_sensitivity) && is_sensitivity(
            self.scroll_line_sensitivity,
        ) && is_sensitivity(self.scroll_pixel_sensitivity)
    }
}

} // verus!
