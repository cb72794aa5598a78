//! The input accumulator: one tick's events reduced to totals.

use vstd::prelude::*;
use crate::fixed::{clamp, clamp_to};
use crate::vector::Vec2;

verus! {

/// The largest magnitude a total may have: a million units.
pub const DELTA_LIMIT: i64 = 1_000_000_000_000;

/// Whether the primary button is held.
#[derive(Debug, Clone, Copy, PartialEq, Eq, Hash, Structural)]
pub enum ButtonState {
    Pressed,
    Released,
}

/// What a wheel event counts: notches of a wheel, or pixels of a touchpad.
#[derive(Debug, Clone, Copy, PartialEq, Eq, Hash, Structural)]
pub enum ScrollUnit {
    Line,
    Pixel,
}

/// One input event, in screen coordinates: the vertical axis points down.
#[derive(Debug, Clone, Copy, PartialEq, Eq, Structural)]
pub enum InputEvent {
    /// The pointer moved by `(dx, dy)`.
    Motion { dx: i64, dy: i64 },
    /// The wheel turned by `(x, y)`, counted in `unit`.
    Wheel { unit: ScrollUnit, x: i64, y: i64 },
    /// A pinch gesture of the given magnitude.
    Pinch { amount: i64 },
    /// A twist gesture of the given magnitude.
    Twist { amount: i64 },
    /// The primary button changed to `state`.
    Button { state: ButtonState },
}

/// One of the eight numbers that a batch of events adds up to.
pub enum Channel {
    MotionX,
    MotionY,
    LinesX,
    LinesY,
    PixelsX,
    PixelsY,
    Pinch,
    Twist,
}

/// What one event adds to one channel. Vertical components change sign:
/// events count downward, the totals upward.
pub open spec fn reading(e: InputEvent, c: Channel) -> int {
    match (e, c) {
        (InputEvent::Motion { dx, dy }, Channel::MotionX) => dx as int,
        (InputEvent::Motion { dx, dy }, Channel::MotionY) => -(dy as int),
        (InputEvent::Wheel { unit: ScrollUnit::Line, x, y }, Channel::LinesX) => x as int,
        (InputEvent::Wheel { unit: ScrollUnit::Line, x, y }, Channel::LinesY) => -(y as int),
        (InputEvent::Wheel { unit: ScrollUnit::Pixel, x, y }, Channel::PixelsX) => x as int,
        (InputEvent::Wheel { unit: ScrollUnit::Pixel, x, y }, Channel::PixelsY) => -(y as int),
        (InputEvent::Pinch { amount }, Channel::Pinch) => amount as int,
        (InputEvent::Twist { amount }, Channel::Twist) => amount as int,
        _ => 0,
    }
}

/// The sum of what the events add to one channel.
pub open spec fn total(events: Seq<InputEvent>, c: Channel) -> int
    decreases events.len(),
{
    if events.len() == 0 {
        0
    } else {
        total(events.drop_last(), c) + reading(events.last(), c)
    }
}

/// The state that the last button event reports, if there is one.
pub open spec fn last_button(events: Seq<InputEvent>) -> Option<ButtonState>
    decreases events.len(),
{
    if events.len() == 0 {
        None
    } else {
        match events.last() {
            InputEvent::Button { state } => Some(state),
            _ => last_button(events.drop_last()),
        }
    }
}

/// A total brought within `DELTA_LIMIT` of zero.
pub open spec fn clamp_delta(v: int) -> int {
    clamp(v, -DELTA_LIMIT, DELTA_LIMIT as int)
}

/// The totals of one tick as mathematical integers.
pub struct Deltas {
    pub motion: (int, int),
    pub scroll_lines: (int, int),
    pub scroll_pixels: (int, int),
    pub pinch: int,
    pub twist: int,
    pub button: Option<ButtonState>,
}

impl Deltas {
    /// Whether every total is within `DELTA_LIMIT` of zero.
    pub open spec fn in_range(self) -> bool {
        &&& -DELTA_LIMIT <= self.motion.0 <= DELTA_LIMIT
        &&& -DELTA_LIMIT <= self.motion.1 <= DELTA_LIMIT
        &&& -DELTA_LIMIT <= self.scroll_lines.0 <= DELTA_LIMIT
        &&& -DELTA_LIMIT <= self.scroll_lines.1 <= DELTA_LIMIT
        &&& -DELTA_LIMIT <= self.scroll_pixels.0 <= DELTA_LIMIT
        &&& -DELTA_LIMIT <= self.scroll_pixels.1 <= DELTA_LIMIT
        &&& -DELTA_LIMIT <= self.pinch <= DELTA_LIMIT
        &&& -DELTA_LIMIT <= self.twist <= DELTA_LIMIT
    }

    /// Whether nothing moved, scrolled, pinched or twisted.
    pub open spec fn is_still(self) -> bool {
        &&& self.motion == (0int, 0int)
        &&& self.scroll_lines == (0int, 0int)
        &&& self.scroll_pixels == (0int, 0int)
        &&& self.pinch == 0
        &&& self.twist == 0
    }

    /// Whether nothing moved, scrolled, pinched or twisted, and no button
    /// event came.
    pub open spec fn is_idle(self) -> bool {
        self.is_still() && self.button is None
    }
}

/// What a batch of events comes to: each channel's sum, brought within
/// `DELTA_LIMIT` of zero, and the last button state reported.
pub open spec fn accumulated(events: Seq<InputEvent>) -> Deltas {
    Deltas {
        motion: (
            clamp_delta(total(events, Channel::MotionX)),
            clamp_delta(total(events, Channel::MotionY)),
        ),
        scroll_lines: (
            clamp_delta(total(events, Channel::LinesX)),
            clamp_delta(total(events, Channel::LinesY)),
        ),
        scroll_pixels: (
            clamp_delta(total(events, Channel::PixelsX)),
            clamp_delta(total(events, Channel::PixelsY)),
        ),
        pinch: clamp_delta(total(events, Channel::Pinch)),
        twist: clamp_delta(total(events, Channel::Twist)),
        button: last_button(events),
    }
}

/// The totals of one tick.
#[derive(Debug, Clone, Copy, PartialEq, Eq, Structural)]
pub struct InputTotals {
    /// Pointer motion, upward positive.
    pub motion: Vec2,
    /// Wheel motion counted in lines, upward positive.
    pub scroll_lines: Vec2,
    /// Wheel motion counted in pixels, upward positive.
    pub scroll_pixels: Vec2,
    /// Pinch magnitude.
    pub pinch: i64,
    /// Twist magnitude.
    pub twist: i64,
    /// The last button state that an event reported, if any did.
    pub button: Option<ButtonState>,
}

impl View for InputTotals {
    type V = Deltas;

    open spec fn view(&self) -> Deltas {
        Deltas {
            motion: self.motion@,
            scroll_lines: self.scroll_lines@,
            scroll_pixels: self.scroll_pixels@,
            pinch: self.pinch as int,
            twist: self.twist as int,
            button: self.button,
        }
    }
}

impl InputTotals {
    /// The totals of a tick without events.
    pub fn idle() -> (t: InputTotals)
        ensures
            t@.is_idle(),
            t@.in_range(),
            t@ == accumulated(Seq::<InputEvent>::empty()),
    {
        InputTotals {
            motion: Vec2::zero(),
            scroll_lines: Vec2::zero(),
            scroll_pixels: Vec2::zero(),
            pinch: 0,
            twist: 0,
            button: None,
        }
    }

    /// Whether every total is within `DELTA_LIMIT` of zero.
    pub fn is_in_range(&self) -> (r: bool)
        ensures
            r == self@.in_range(),
    {
        within_limit(self.motion.x) && within_limit(self.motion.y) && within_limit(
            self.scroll_lines.x,
        ) && within_limit(self.scroll_lines.y) && within_limit(self.scroll_pixels.x)
            && within_limit(self.scroll_pixels.y) && within_limit(self.pinch) && within_limit(
            self.twist,
        )
    }
}

fn within_limit(v: i64) -> (r: bool)
    ensures
        r == (-DELTA_LIMIT <= v <= DELTA_LIMIT),
{
    -DELTA_LIMIT <= v && v <= DELTA_LIMIT
}

/// Adding one event to a batch adds its reading to each channel's sum.
proof fn lemma_total_step(events: Seq<InputEvent>, i: int, c: Channel)
    requires
        0 <= i < events.len(),
    ensures
        total(events.take(i + 1), c) == total(events.take(i), c) + reading(events[i], c),
        -0x8000_0000_0000_0000 <= reading(events[i], c) <= 0x8000_0000_0000_0000,
{
    assert(events.take(i + 1).drop_last() =~= events.take(i));
}

/// What the last button event among the first `i + 1` reports.
proof fn lemma_last_button_step(events: Seq<InputEvent>, i: int)
    requires
        0 <= i < events.len(),
    ensures
        last_button(events.take(i + 1)) == match events[i] {
            InputEvent::Button { state } => Some(state),
            _ => last_button(events.take(i)),
        },
{
    assert(events.take(i + 1).drop_last() =~= events.take(i));
}

/// Reduces the events of one tick to totals: the sum of each channel, with the
/// vertical axis turned upward and the sum brought within `DELTA_LIMIT` of
/// zero, and the last button state that an event reported.
pub fn accumulate(events: &Vec<InputEvent>) -> (t: InputTotals)
    ensures
        t@ == accumulated(events@),
        t@.in_range(),
{
    let mut motion_x: i128 = 0;
    let mut motion_y: i128 = 0;
    let mut lines_x: i128 = 0;
    let mut lines_y: i128 = 0;
    let mut pixels_x: i128 = 0;
    let mut pixels_y: i128 = 0;
    let mut pinch: i128 = 0;
    let mut twist: i128 = 0;
    let mut button: Option<ButtonState> = None;
    let n: usize = events.len();
    let mut i: usize = 0;
    while i < n
        invariant
            n == events.len(),
            0 <= i <= n,
            motion_x == total(events@.take(i as int), Channel::MotionX),
            motion_y == total(events@.take(i as int), Channel::MotionY),
            lines_x == total(events@.take(i as int), Channel::LinesX),
            lines_y == total(events@.take(i as int), Channel::LinesY),
            pixels_x == total(events@.take(i as int), Channel::PixelsX),
            pixels_y == total(events@.take(i as int), Channel::PixelsY),
            pinch == total(events@.take(i as int), Channel::Pinch),
            twist == total(events@.take(i as int), Channel::Twist),
            button == last_button(events@.take(i as int)),
            -(i * 0x8000_0000_0000_0000) <= motion_x <= i * 0x8000_0000_0000_0000,
            -(i * 0x8000_0000_0000_0000) <= motion_y <= i * 0x8000_0000_0000_0000,
            -(i * 0x8000_0000_0000_0000) <= lines_x <= i * 0x8000_0000_0000_0000,
            -(i * 0x8000_0000_0000_0000) <= lines_y <= i * 0x8000_0000_0000_0000,
            -(i * 0x8000_0000_0000_0000) <= pixels_x <= i * 0x8000_0000_0000_0000,
            -(i * 0x8000_0000_0000_0000) <= pixels_y <= i * 0x8000_0000_0000_0000,
            -(i * 0x8000_0000_0000_0000) <= pinch <= i * 0x8000_0000_0000_0000,
            -(i * 0x8000_0000_0000_0000) <= twist <= i * 0x8000_0000_0000_0000,
        decreases n - i,
    {
        proof {
            lemma_total_step(events@, i as int, Channel::MotionX);
            lemma_total_step(events@, i as int, Channel::MotionY);
            lemma_total_step(events@, i as int, Channel::LinesX);
            lemma_total_step(events@, i as int, Channel::LinesY);
            lemma_total_step(events@, i as int, Channel::PixelsX);
            lemma_total_step(events@, i as int, Channel::PixelsY);
            lemma_total_step(events@, i as int, Channel::Pinch);
            lemma_total_step(events@, i as int, Channel::Twist);
            lemma_last_button_step(events@, i as int);
        }
        match events[i] {
            InputEvent::Motion { dx, dy } => {
                motion_x = motion_x + dx as i128;
                motion_y = motion_y - dy as i128;
            },
            InputEvent::Wheel { unit: ScrollUnit::Line, x, y } => {
                lines_x = lines_x + x as i128;
                lines_y = lines_y - y as i128;
            },
            InputEvent::Wheel { unit: ScrollUnit::Pixel, x, y } => {
                pixels_x = pixels_x + x as i128;
                pixels_y = pixels_y - y as i128;
            },
            InputEvent::Pinch { amount } => {
                pinch = pinch + amount as i128;
            },
            InputEvent::Twist { amount } => {
                twist = twist + amount as i128;
            },
            InputEvent::Button { state } => {
                button = Some(state);
            },
        }
        i = i + 1;
    }
    proof {
        assert(events@.take(n as int) =~= events@);
    }
    InputTotals {
        motion: Vec2 {
            x: clamp_to(motion_x, -DELTA_LIMIT, DELTA_LIMIT),
            y: clamp_to(motion_y, -DELTA_LIMIT, DELTA_LIMIT),
        },
        scroll_lines: Vec2 {
            x: clamp_to(lines_x, -DELTA_LIMIT, DELTA_LIMIT),
            y: clamp_to(lines_y, -DELTA_LIMIT, DELTA_LIMIT),
        },
        scroll_pixels: Vec2 {
            x: clamp_to(pixels_x, -DELTA_LIMIT, DELTA_LIMIT),
            y: clamp_to(pixels_y, -DELTA_LIMIT, DELTA_LIMIT),
        },
        pinch: clamp_to(pinch, -DELTA_LIMIT, DELTA_LIMIT),
        twist: clamp_to(twist, -DELTA_LIMIT, DELTA_LIMIT),
        button,
    }
}

/// A batch without events comes to nothing.
pub proof fn lemma_accumulated_empty()
    ensures
        accumulated(Seq::<InputEvent>::empty()).is_idle(),
{
}

} // verus!
