use fps_controller::capture::CursorCaptureState;
use fps_controller::look::{MotionSample, OrientationState, Viewport, PITCH_LIMIT};
use fps_controller::settings::MovementSettings;

const FULL_HD: Viewport = Viewport { width: 1920, height: 1080 };

fn counts(dx: i32, dy: i32) -> MotionSample {
    MotionSample {
        dx: dx.checked_mul(1_000_000).unwrap(),
        dy: dy.checked_mul(1_000_000).unwrap(),
    }
}

fn look(state: &mut OrientationState, capture: CursorCaptureState, samples: Vec<MotionSample>) {
    state.integrate(capture, &MovementSettings::default(), FULL_HD, samples);
}

#[test]
fn new_orientation_is_level() {
    let state = OrientationState::new();
    assert_eq!(state.pitch(), 0);
    assert_eq!(state.yaw(), 0);
}

#[test]
fn pitch_limit_is_one_point_five_four_radians() {
    assert_eq!(PITCH_LIMIT, 1_540_000);
}

#[test]
fn one_sample_to_the_right_turns_the_yaw_down() {
    let mut state = OrientationState::new();
    look(&mut state, CursorCaptureState::Captured, vec![counts(100, 0)]);
    // 0.00006 * 100 * 1920 = 11.52 degrees = 0.201061... radians
    assert_eq!(state.yaw(), -201_061);
    assert_eq!(state.pitch(), 0);
}

#[test]
fn one_sample_matches_the_float_formula() {
    let mut state = OrientationState::new();
    look(&mut state, CursorCaptureState::Captured, vec![counts(100, 0)]);
    let expected = -(0.00006f64 * 100.0 * 1920.0).to_radians();
    assert!((state.yaw() as f64 / 1e6 - expected).abs() < 2e-6);
}

#[test]
fn one_sample_to_the_left_turns_the_yaw_up() {
    let mut state = OrientationState::new();
    look(&mut state, CursorCaptureState::Captured, vec![counts(-100, 0)]);
    assert_eq!(state.yaw(), 201_061);
    assert_eq!(state.pitch(), 0);
}

#[test]
fn vertical_motion_turns_the_pitch_by_the_viewport_height() {
    let mut state = OrientationState::new();
    look(&mut state, CursorCaptureState::Captured, vec![counts(0, 100)]);
    // 0.00006 * 100 * 1080 = 6.48 degrees = 0.113097... radians
    assert_eq!(state.pitch(), -113_097);
    assert_eq!(state.yaw(), 0);
}

#[test]
fn samples_add_up_in_order() {
    let mut state = OrientationState::new();
    look(
        &mut state,
        CursorCaptureState::Captured,
        vec![counts(100, 100), counts(100, -300), counts(-50, 0)],
    );
    assert_eq!(state.yaw(), -201_061 - 201_061 + 100_530);
    assert_eq!(state.pitch(), -113_097 + 339_292);
}

#[test]
fn orientation_persists_across_ticks() {
    let mut state = OrientationState::new();
    look(&mut state, CursorCaptureState::Captured, vec![counts(100, 0)]);
    look(&mut state, CursorCaptureState::Captured, vec![counts(100, 100)]);
    assert_eq!(state.yaw(), -402_122);
    assert_eq!(state.pitch(), -113_097);
}

#[test]
fn pitch_stops_at_the_upper_limit() {
    let mut state = OrientationState::new();
    look(&mut state, CursorCaptureState::Captured, vec![counts(0, -1000)]);
    assert_eq!(state.pitch(), 1_130_973);
    look(&mut state, CursorCaptureState::Captured, vec![counts(0, -1000)]);
    assert_eq!(state.pitch(), PITCH_LIMIT);
}

#[test]
fn pitch_stops_at_the_lower_limit() {
    let mut state = OrientationState::new();
    look(&mut state, CursorCaptureState::Captured, vec![counts(0, 2000)]);
    assert_eq!(state.pitch(), -PITCH_LIMIT);
}

#[test]
fn pitch_is_limited_once_after_all_samples() {
    let mut state = OrientationState::new();
    // Far past the limit and all the way back: limiting every sample would
    // leave the pitch at the opposite limit.
    look(&mut state, CursorCaptureState::Captured, vec![counts(0, 2000), counts(0, -2000)]);
    assert_eq!(state.pitch(), 0);
}

#[test]
fn pitch_stays_within_limits_for_extreme_samples() {
    let settings = MovementSettings { sensitivity: u32::MAX, speed: 0, sprint_mult: 0 };
    let viewport = Viewport { width: u32::MAX, height: u32::MAX };
    let extremes = [i32::MIN, -1, 0, 1, i32::MAX];
    for dy in extremes {
        for dx in extremes {
            let mut state = OrientationState::new();
            state.integrate(
                CursorCaptureState::Captured,
                &settings,
                viewport,
                vec![MotionSample { dx, dy }, MotionSample { dx: dy, dy: dx }],
            );
            assert!(-PITCH_LIMIT <= state.pitch() && state.pitch() <= PITCH_LIMIT);
        }
    }
}

#[test]
fn yaw_is_not_limited() {
    let mut state = OrientationState::new();
    look(&mut state, CursorCaptureState::Captured, vec![counts(-2000, 0), counts(-2000, 0)]);
    assert_eq!(state.yaw(), 2 * 4_021_238);
}

#[test]
fn yaw_sticks_at_the_end_of_its_range() {
    let settings = MovementSettings { sensitivity: u32::MAX, speed: 0, sprint_mult: 0 };
    let viewport = Viewport { width: u32::MAX, height: 1 };
    let mut state = OrientationState::new();
    state.integrate(
        CursorCaptureState::Captured,
        &settings,
        viewport,
        vec![MotionSample { dx: i32::MIN, dy: 0 }],
    );
    assert_eq!(state.yaw(), i64::MAX);
    state.integrate(
        CursorCaptureState::Captured,
        &settings,
        viewport,
        vec![MotionSample { dx: i32::MAX, dy: 0 }, MotionSample { dx: i32::MAX, dy: 0 }],
    );
    assert_eq!(state.yaw(), i64::MIN);
}

#[test]
fn angles_round_toward_zero() {
    let viewport = Viewport { width: 1, height: 1 };
    let settings = MovementSettings { sensitivity: 1_000_000, speed: 0, sprint_mult: 0 };
    // One count on one pixel at sensitivity one is one degree: 17453.293 millionths of a radian.
    let mut state = OrientationState::new();
    state.integrate(
        CursorCaptureState::Captured,
        &settings,
        viewport,
        vec![MotionSample { dx: 1_000_000, dy: -1_000_000 }],
    );
    assert_eq!(state.yaw(), -17_453);
    assert_eq!(state.pitch(), 17_453);
    // Less than a millionth of a radian is no turn at all, in either direction.
    let mut state = OrientationState::new();
    state.integrate(
        CursorCaptureState::Captured,
        &settings,
        viewport,
        vec![MotionSample { dx: 57, dy: -57 }],
    );
    assert_eq!(state.yaw(), 0);
    assert_eq!(state.pitch(), 0);
    let mut state = OrientationState::new();
    state.integrate(
        CursorCaptureState::Captured,
        &settings,
        viewport,
        vec![MotionSample { dx: 58, dy: -58 }],
    );
    assert_eq!(state.yaw(), -1);
    assert_eq!(state.pitch(), 1);
}

#[test]
fn free_cursor_ignores_motion() {
    let mut state = OrientationState::new();
    look(&mut state, CursorCaptureState::Captured, vec![counts(100, 100)]);
    let (pitch, yaw) = (state.pitch(), state.yaw());
    look(&mut state, CursorCaptureState::Free, vec![counts(500, -500), counts(1, 1)]);
    assert_eq!(state.pitch(), pitch);
    assert_eq!(state.yaw(), yaw);
}

#[test]
fn empty_stream_changes_nothing() {
    let mut state = OrientationState::new();
    look(&mut state, CursorCaptureState::Captured, vec![counts(0, 2000)]);
    look(&mut state, CursorCaptureState::Captured, vec![counts(70, 0)]);
    let (pitch, yaw) = (state.pitch(), state.yaw());
    look(&mut state, CursorCaptureState::Captured, Vec::new());
    assert_eq!(state.pitch(), pitch);
    assert_eq!(state.yaw(), yaw);
    assert_eq!(pitch, -PITCH_LIMIT);
}

#[test]
fn zero_sensitivity_turns_nothing() {
    let settings = MovementSettings { sensitivity: 0, speed: 0, sprint_mult: 0 };
    let mut state = OrientationState::new();
    state.integrate(CursorCaptureState::Captured, &settings, FULL_HD, vec![counts(100, 100)]);
    assert_eq!(state.pitch(), 0);
    assert_eq!(state.yaw(), 0);
}
