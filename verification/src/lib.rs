//! A pan-orbit camera controller over fixed-point arithmetic.
//!
//! Every quantity is an `i64` counted in millionths of its unit (pixels,
//! radians, world units). The orbit distance is kept as its natural logarithm,
//! so that zooming is an addition and never leaves the positive reals.

use vstd::prelude::*;

pub mod fixed;
pub mod vector;
pub mod angle;
pub mod input;
pub mod action;
pub mod settings;
pub mod frame;
pub mod pose;
pub mod camera;
pub mod transform;
pub mod laws;

pub use action::{CameraAction, InputScheme};
pub use camera::{PanOrbitState, TickReport};
pub use frame::ViewFrame;
pub use input::{accumulate, ButtonState, InputEvent, InputTotals, ScrollUnit};
pub use settings::PanOrbitSettings;
pub use transform::EulerAngles;
pub use vector::{Vec2, Vec3};
