use pan_orbit_camera::action::{effective_button, refine, resolve_action};
use pan_orbit_camera::input::DELTA_LIMIT;
use pan_orbit_camera::{accumulate, ButtonState, CameraAction, InputEvent, InputScheme};
use pan_orbit_camera::{InputTotals, ScrollUnit, Vec2};

fn totals_with(motion: (i64, i64), lines: (i64, i64), pinch: i64, twist: i64) -> InputTotals {
    InputTotals {
        motion: Vec2 { x: motion.0, y: motion.1 },
        scroll_lines: Vec2 { x: lines.0, y: lines.1 },
        scroll_pixels: Vec2::zero(),
        pinch,
        twist,
        button: None,
    }
}

#[test]
fn empty_batch_comes_to_nothing() {
    let totals = accumulate(&Vec::new());
    assert_eq!(totals, InputTotals::idle());
    assert_eq!(totals.motion, Vec2 { x: 0, y: 0 });
    assert_eq!(totals.scroll_lines, Vec2 { x: 0, y: 0 });
    assert_eq!(totals.scroll_pixels, Vec2 { x: 0, y: 0 });
    assert_eq!(totals.pinch, 0);
    assert_eq!(totals.twist, 0);
    assert_eq!(totals.button, None);
}

#[test]
fn motion_is_summed_and_turned_upward() {
    let events = vec![
        InputEvent::Motion { dx: 3_000_000, dy: 4_000_000 },
        InputEvent::Motion { dx: 1_000_000, dy: -1_000_000 },
    ];
    let totals = accumulate(&events);
    assert_eq!(totals.motion, Vec2 { x: 4_000_000, y: -3_000_000 });
    assert_eq!(totals.scroll_lines, Vec2::zero());
    assert_eq!(totals.scroll_pixels, Vec2::zero());
    assert_eq!(totals.pinch, 0);
}

#[test]
fn wheel_is_split_by_unit() {
    let events = vec![
        InputEvent::Wheel { unit: ScrollUnit::Line, x: 1_000_000, y: 2_000_000 },
        InputEvent::Wheel { unit: ScrollUnit::Pixel, x: 5_000_000, y: -7_000_000 },
        InputEvent::Wheel { unit: ScrollUnit::Line, x: 1_000_000, y: 1_000_000 },
        InputEvent::Wheel { unit: ScrollUnit::Pixel, x: -500_000, y: 0 },
    ];
    let totals = accumulate(&events);
    assert_eq!(totals.scroll_lines, Vec2 { x: 2_000_000, y: -3_000_000 });
    assert_eq!(totals.scroll_pixels, Vec2 { x: 4_500_000, y: 7_000_000 });
    assert_eq!(totals.motion, Vec2::zero());
}

#[test]
fn gestures_are_summed() {
    let events = vec![
        InputEvent::Pinch { amount: 250_000 },
        InputEvent::Twist { amount: -100_000 },
        InputEvent::Pinch { amount: 500_000 },
        InputEvent::Twist { amount: 400_000 },
    ];
    let totals = accumulate(&events);
    assert_eq!(totals.pinch, 750_000);
    assert_eq!(totals.twist, 300_000);
}

#[test]
fn last_button_event_wins() {
    let pressed = InputEvent::Button { state: ButtonState::Pressed };
    let released = InputEvent::Button { state: ButtonState::Released };
    let moved = InputEvent::Motion { dx: 1, dy: 1 };
    assert_eq!(accumulate(&vec![pressed]).button, Some(ButtonState::Pressed));
    assert_eq!(accumulate(&vec![pressed, released]).button, Some(ButtonState::Released));
    assert_eq!(accumulate(&vec![released, moved, pressed, moved]).button, Some(ButtonState::Pressed));
    assert_eq!(accumulate(&vec![moved]).button, None);
}

#[test]
fn events_of_every_kind_in_one_batch() {
    let events = vec![
        InputEvent::Motion { dx: 10, dy: 20 },
        InputEvent::Wheel { unit: ScrollUnit::Line, x: 1, y: 2 },
        InputEvent::Pinch { amount: 3 },
        InputEvent::Button { state: ButtonState::Pressed },
        InputEvent::Twist { amount: 4 },
        InputEvent::Wheel { unit: ScrollUnit::Pixel, x: 5, y: 6 },
    ];
    let totals = accumulate(&events);
    assert_eq!(
        totals,
        InputTotals {
            motion: Vec2 { x: 10, y: -20 },
            scroll_lines: Vec2 { x: 1, y: -2 },
            scroll_pixels: Vec2 { x: 5, y: -6 },
            pinch: 3,
            twist: 4,
            button: Some(ButtonState::Pressed),
        }
    );
}

#[test]
fn totals_stop_at_the_limit() {
    let events = vec![
        InputEvent::Motion { dx: i64::MAX, dy: i64::MIN },
        InputEvent::Motion { dx: i64::MAX, dy: i64::MIN },
        InputEvent::Pinch { amount: i64::MIN },
    ];
    let totals = accumulate(&events);
    assert_eq!(totals.motion, Vec2 { x: DELTA_LIMIT, y: DELTA_LIMIT });
    assert_eq!(totals.pinch, -DELTA_LIMIT);
    assert!(totals.is_in_range());
}

#[test]
fn sum_is_taken_before_the_limit() {
    let events = vec![
        InputEvent::Pinch { amount: i64::MAX },
        InputEvent::Pinch { amount: i64::MIN },
        InputEvent::Pinch { amount: 5 },
    ];
    assert_eq!(accumulate(&events).pinch, 4);
}

#[test]
fn totals_beyond_the_limit_are_out_of_range() {
    let mut totals = InputTotals::idle();
    assert!(totals.is_in_range());
    totals.twist = DELTA_LIMIT;
    assert!(totals.is_in_range());
    totals.twist = DELTA_LIMIT + 1;
    assert!(!totals.is_in_range());
    totals.twist = 0;
    totals.scroll_pixels.y = -DELTA_LIMIT - 1;
    assert!(!totals.is_in_range());
}

#[test]
fn button_in_effect_is_the_reported_one() {
    assert_eq!(effective_button(ButtonState::Released, None), ButtonState::Released);
    assert_eq!(effective_button(ButtonState::Pressed, None), ButtonState::Pressed);
    assert_eq!(
        effective_button(ButtonState::Released, Some(ButtonState::Pressed)),
        ButtonState::Pressed
    );
    assert_eq!(
        effective_button(ButtonState::Pressed, Some(ButtonState::Released)),
        ButtonState::Released
    );
}

#[test]
fn move_ends_when_the_button_is_released() {
    assert_eq!(refine(CameraAction::Move, ButtonState::Pressed), CameraAction::Move);
    assert_eq!(refine(CameraAction::Move, ButtonState::Released), CameraAction::Idle);
    assert_eq!(refine(CameraAction::Zoom, ButtonState::Released), CameraAction::Zoom);
    assert_eq!(refine(CameraAction::Pan, ButtonState::Released), CameraAction::Pan);
    assert_eq!(refine(CameraAction::Idle, ButtonState::Pressed), CameraAction::Idle);
}

#[test]
fn pinch_takes_precedence_over_motion() {
    let totals = totals_with((5_000_000, 5_000_000), (1_000_000, 1_000_000), 1, 7);
    for scheme in [InputScheme::DragPan, InputScheme::ScrollPan] {
        for enabled in [false, true] {
            for button in [ButtonState::Pressed, ButtonState::Released] {
                for previous in [CameraAction::Pan, CameraAction::Move, CameraAction::Idle] {
                    assert_eq!(
                        resolve_action(scheme, enabled, previous, &totals, button),
                        CameraAction::Zoom
                    );
                }
            }
        }
    }
}

#[test]
fn drag_with_button_moves() {
    let totals = totals_with((1, 0), (0, 0), 0, 0);
    assert_eq!(
        resolve_action(InputScheme::DragPan, false, CameraAction::Idle, &totals, ButtonState::Pressed),
        CameraAction::Move
    );
}

#[test]
fn drag_without_button_idles() {
    let totals = totals_with((0, -1), (0, 0), 0, 0);
    assert_eq!(
        resolve_action(InputScheme::DragPan, false, CameraAction::Zoom, &totals, ButtonState::Released),
        CameraAction::Idle
    );
}

#[test]
fn drag_scheme_keeps_the_previous_action_without_input() {
    let totals = InputTotals::idle();
    for previous in [CameraAction::Zoom, CameraAction::Orbit, CameraAction::Pan, CameraAction::Idle] {
        for button in [ButtonState::Pressed, ButtonState::Released] {
            assert_eq!(
                resolve_action(InputScheme::DragPan, false, previous, &totals, button),
                previous
            );
        }
    }
    assert_eq!(
        resolve_action(InputScheme::DragPan, false, CameraAction::Move, &totals, ButtonState::Pressed),
        CameraAction::Move
    );
}

#[test]
fn release_ends_a_move_without_motion() {
    let totals = InputTotals::idle();
    assert_eq!(
        resolve_action(InputScheme::DragPan, false, CameraAction::Move, &totals, ButtonState::Released),
        CameraAction::Idle
    );
}

#[test]
fn twist_is_inert_unless_orbit_is_enabled() {
    let twisting = totals_with((0, 0), (0, 0), 0, 9);
    assert_eq!(
        resolve_action(InputScheme::DragPan, false, CameraAction::Idle, &twisting, ButtonState::Pressed),
        CameraAction::Idle
    );
    assert_eq!(
        resolve_action(InputScheme::DragPan, true, CameraAction::Idle, &twisting, ButtonState::Pressed),
        CameraAction::Orbit
    );
    let twisting_and_moving = totals_with((3, 0), (0, 0), 0, 9);
    assert_eq!(
        resolve_action(
            InputScheme::DragPan,
            false,
            CameraAction::Idle,
            &twisting_and_moving,
            ButtonState::Pressed
        ),
        CameraAction::Move
    );
    assert_eq!(
        resolve_action(
            InputScheme::DragPan,
            true,
            CameraAction::Idle,
            &twisting_and_moving,
            ButtonState::Pressed
        ),
        CameraAction::Orbit
    );
}

#[test]
fn scroll_scheme_pans_by_default() {
    let idle = InputTotals::idle();
    let scrolling = totals_with((0, 0), (0, 1_000_000), 0, 0);
    let moving = totals_with((4, 4), (0, 0), 0, 3);
    for previous in [CameraAction::Zoom, CameraAction::Move, CameraAction::Idle] {
        for button in [ButtonState::Pressed, ButtonState::Released] {
            for totals in [&idle, &scrolling, &moving] {
                assert_eq!(
                    resolve_action(InputScheme::ScrollPan, false, previous, totals, button),
                    CameraAction::Pan
                );
            }
        }
    }
}

#[test]
fn scroll_orbits_only_when_enabled() {
    let scrolling = totals_with((0, 0), (0, 1_000_000), 0, 0);
    assert_eq!(
        resolve_action(InputScheme::ScrollPan, true, CameraAction::Pan, &scrolling, ButtonState::Released),
        CameraAction::Orbit
    );
    let mut pixels = InputTotals::idle();
    pixels.scroll_pixels = Vec2 { x: -1, y: 0 };
    assert_eq!(
        resolve_action(InputScheme::ScrollPan, true, CameraAction::Pan, &pixels, ButtonState::Released),
        CameraAction::Orbit
    );
    assert_eq!(
        resolve_action(
            InputScheme::ScrollPan,
            true,
            CameraAction::Orbit,
            &InputTotals::idle(),
            ButtonState::Released
        ),
        CameraAction::Pan
    );
}
