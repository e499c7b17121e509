use fps_controller::capture::CursorCaptureState;
use fps_controller::keys::HeldKeys;
use fps_controller::movement::{apply_movement, resolve_intent, steer, Steering};
use fps_controller::settings::MovementSettings;
use fps_controller::vector::{Direction, Vec3};

const CAPTURED: CursorCaptureState = CursorCaptureState::Captured;
const FREE: CursorCaptureState = CursorCaptureState::Free;

/// Facing away from the viewer, along the negative z axis.
const AHEAD: Direction = Direction { x: 0, y: 0, z: -1_000_000 };

/// A tenth of a second.
const TENTH: u32 = 100_000;

fn keys(names: &str) -> HeldKeys {
    HeldKeys {
        forward: names.contains('w'),
        backward: names.contains('s'),
        left: names.contains('a'),
        right: names.contains('d'),
        ascend: names.contains(' '),
        sprint: names.contains('^'),
    }
}

fn intent(names: &str, forward: Direction) -> Option<Vec3> {
    resolve_intent(keys(names), CAPTURED, forward, &MovementSettings::default(), TENTH)
}

fn v(x: i64, y: i64, z: i64) -> Option<Vec3> {
    Some(Vec3 { x, y, z })
}

#[test]
fn steering_sums_the_held_keys() {
    assert_eq!(
        steer(keys("w"), CAPTURED),
        Steering { advance: 1, strafe: 0, ascend: 0, sprint: false }
    );
    assert_eq!(
        steer(keys("s"), CAPTURED),
        Steering { advance: -1, strafe: 0, ascend: 0, sprint: false }
    );
    assert_eq!(
        steer(keys("a"), CAPTURED),
        Steering { advance: 0, strafe: -1, ascend: 0, sprint: false }
    );
    assert_eq!(
        steer(keys("d"), CAPTURED),
        Steering { advance: 0, strafe: 1, ascend: 0, sprint: false }
    );
    assert_eq!(
        steer(keys(" "), CAPTURED),
        Steering { advance: 0, strafe: 0, ascend: 1, sprint: false }
    );
    assert_eq!(
        steer(keys("^"), CAPTURED),
        Steering { advance: 0, strafe: 0, ascend: 0, sprint: true }
    );
    assert_eq!(
        steer(keys("wsad ^"), CAPTURED),
        Steering { advance: 0, strafe: 0, ascend: 1, sprint: true }
    );
    assert_eq!(
        steer(keys("wd^"), CAPTURED),
        Steering { advance: 1, strafe: 1, ascend: 0, sprint: true }
    );
}

#[test]
fn steering_is_empty_while_free() {
    assert_eq!(
        steer(keys("wd ^"), FREE),
        Steering { advance: 0, strafe: 0, ascend: 0, sprint: false }
    );
}

#[test]
fn forward_key_adds_speed_times_elapsed_time() {
    // speed 12, a tenth of a second: 1.2 along the heading
    assert_eq!(intent("w", AHEAD), v(0, 0, -1_200_000));
}

#[test]
fn each_key_moves_along_its_own_axis() {
    assert_eq!(intent("s", AHEAD), v(0, 0, 1_200_000));
    assert_eq!(intent("d", AHEAD), v(1_200_000, 0, 0));
    assert_eq!(intent("a", AHEAD), v(-1_200_000, 0, 0));
    assert_eq!(intent(" ", AHEAD), v(0, 1_200_000, 0));
}

#[test]
fn right_is_a_quarter_turn_clockwise_from_the_heading() {
    let east = Direction { x: 1_000_000, y: 0, z: 0 };
    assert_eq!(intent("w", east), v(1_200_000, 0, 0));
    assert_eq!(intent("d", east), v(0, 0, 1_200_000));
    let back = Direction { x: 0, y: 0, z: 1_000_000 };
    assert_eq!(intent("d", back), v(-1_200_000, 0, 0));
}

#[test]
fn sprint_multiplies_the_movement() {
    assert_eq!(intent("w^", AHEAD), v(0, 0, -1_800_000));
    assert_eq!(intent("d^", AHEAD), v(1_800_000, 0, 0));
}

#[test]
fn sprint_keeps_the_direction() {
    let settings = MovementSettings::default();
    let walk = resolve_intent(keys("wd"), CAPTURED, AHEAD, &settings, 16_667);
    let sprint = resolve_intent(keys("wd^"), CAPTURED, AHEAD, &settings, 16_667);
    assert_eq!(walk, v(141_424, 0, -141_424));
    assert_eq!(sprint, v(212_136, 0, -212_136));
}

#[test]
fn diagonal_movement_is_no_faster() {
    assert_eq!(intent("wd", AHEAD), v(848_527, 0, -848_527));
    assert_eq!(intent("w ", AHEAD), v(0, 848_527, -848_527));
    assert_eq!(intent("wd ", AHEAD), v(692_820, 692_820, -692_820));
    let change = intent("wd ", AHEAD).unwrap();
    let length_squared = change.x * change.x + change.y * change.y + change.z * change.z;
    assert!(length_squared <= 1_200_000 * 1_200_000);
}

#[test]
fn opposite_keys_cancel() {
    assert_eq!(intent("ws", AHEAD), None);
    assert_eq!(intent("ad", AHEAD), None);
    assert_eq!(intent("wsad", AHEAD), None);
    assert_eq!(intent("wsad^", AHEAD), None);
}

#[test]
fn opposite_keys_leave_the_other_axis_alone() {
    assert_eq!(intent("wsd", AHEAD), v(1_200_000, 0, 0));
    assert_eq!(intent("adw", AHEAD), v(0, 0, -1_200_000));
    assert_eq!(intent("ws ", AHEAD), v(0, 1_200_000, 0));
}

#[test]
fn no_keys_no_intent() {
    assert_eq!(intent("", AHEAD), None);
}

#[test]
fn sprint_alone_moves_nothing() {
    assert_eq!(intent("^", AHEAD), None);
}

#[test]
fn free_cursor_ignores_every_key() {
    let settings = MovementSettings::default();
    for names in ["w", "s", "a", "d", " ", "^", "wd ^", "wsad ^"] {
        assert_eq!(resolve_intent(keys(names), FREE, AHEAD, &settings, TENTH), None);
    }
}

#[test]
fn heading_is_projected_onto_the_ground() {
    let tilted = Direction { x: 600_000, y: -800_000, z: 0 };
    assert_eq!(intent("w", tilted), v(1_200_000, 0, 0));
    assert_eq!(intent("d", tilted), v(0, 0, 1_200_000));
}

#[test]
fn vertical_heading_gives_no_direction() {
    let up = Direction { x: 0, y: 1_000_000, z: 0 };
    assert_eq!(intent("w", up), None);
    assert_eq!(intent("d", up), None);
    assert_eq!(intent("w ", up), v(0, 1_200_000, 0));
}

#[test]
fn heading_need_not_have_length_one() {
    assert_eq!(intent("w", Direction { x: 0, y: 0, z: -2_000_000 }), v(0, 0, -1_200_000));
    assert_eq!(intent("w", Direction { x: 0, y: 0, z: -1 }), v(0, 0, -1_200_000));
    assert_eq!(
        intent("w", Direction { x: 300_000, y: 0, z: -400_000 }),
        v(720_000, 0, -960_000)
    );
    assert_eq!(
        intent("wd", Direction { x: 300_000, y: 0, z: -400_000 }),
        v(1_187_938, 0, -169_705)
    );
}

#[test]
fn movement_scales_with_elapsed_time() {
    let settings = MovementSettings::default();
    assert_eq!(resolve_intent(keys("w"), CAPTURED, AHEAD, &settings, 16_667), v(0, 0, -200_004));
    assert_eq!(resolve_intent(keys("w"), CAPTURED, AHEAD, &settings, 1_000_000), v(0, 0, -12_000_000));
    assert_eq!(resolve_intent(keys("w"), CAPTURED, AHEAD, &settings, 0), v(0, 0, 0));
}

#[test]
fn movement_rounds_toward_zero() {
    let settings = MovementSettings { sensitivity: 60, speed: 1_500_000, sprint_mult: 1_500_000 };
    // 1.5 per second for a millionth of a second: one and a half millionths
    assert_eq!(resolve_intent(keys("w"), CAPTURED, AHEAD, &settings, 1), v(0, 0, -1));
    assert_eq!(resolve_intent(keys("s"), CAPTURED, AHEAD, &settings, 1), v(0, 0, 1));
}

#[test]
fn extreme_inputs_are_resolved() {
    let settings = MovementSettings { sensitivity: 1, speed: u32::MAX, sprint_mult: u32::MAX };
    let corner = Direction { x: i32::MIN, y: 0, z: i32::MIN };
    assert_eq!(
        resolve_intent(keys("wd ^"), CAPTURED, corner, &settings, u32::MAX),
        v(0, 18_380_933_690_470, -79_228_083_230_761_646)
    );
    let far = Direction { x: 0, y: i32::MAX, z: i32::MAX };
    assert_eq!(
        resolve_intent(keys("w^"), CAPTURED, far, &settings, u32::MAX),
        v(0, 0, 79_228_162_458_924_105)
    );
}

#[test]
fn intent_is_added_to_the_velocity() {
    let settings = MovementSettings::default();
    let mut velocity = Vec3 { x: 5_000_000, y: -9_810_000, z: 250_000 };
    let added = apply_movement(&mut velocity, keys("w"), CAPTURED, AHEAD, &settings, TENTH);
    assert!(added);
    assert_eq!(velocity, Vec3 { x: 5_000_000, y: -9_810_000, z: -950_000 });
    let added = apply_movement(&mut velocity, keys("w"), CAPTURED, AHEAD, &settings, TENTH);
    assert!(added);
    assert_eq!(velocity, Vec3 { x: 5_000_000, y: -9_810_000, z: -2_150_000 });
}

#[test]
fn velocity_is_untouched_without_intent() {
    let settings = MovementSettings::default();
    let start = Vec3 { x: 5_000_000, y: -9_810_000, z: 250_000 };
    let mut velocity = start;
    for _ in 0..100 {
        assert!(!apply_movement(&mut velocity, keys(""), CAPTURED, AHEAD, &settings, TENTH));
        assert!(!apply_movement(&mut velocity, keys("^"), CAPTURED, AHEAD, &settings, TENTH));
    }
    assert_eq!(velocity, start);
    assert!(!apply_movement(&mut velocity, keys("ws"), CAPTURED, AHEAD, &settings, TENTH));
    assert_eq!(velocity, start);
    assert!(!apply_movement(&mut velocity, keys("wd ^"), FREE, AHEAD, &settings, TENTH));
    assert_eq!(velocity, start);
}

#[test]
fn velocity_sticks_at_the_end_of_its_range() {
    let settings = MovementSettings::default();
    let mut velocity = Vec3 { x: i64::MAX - 5, y: 0, z: i64::MIN + 5 };
    assert!(apply_movement(&mut velocity, keys("wd"), CAPTURED, AHEAD, &settings, TENTH));
    assert_eq!(velocity, Vec3 { x: i64::MAX, y: 0, z: i64::MIN });
}

#[test]
fn zero_vector_is_zero() {
    assert_eq!(Vec3::zero(), Vec3 { x: 0, y: 0, z: 0 });
}
