use character_control::camera::{
    camera_mode_after_toggle, update_camera, CameraMode, PlayerCamera, CAMERA_PULL_IN_FP,
    THIRD_PERSON_OFFSET_FP,
};
use character_control::controller::{
    move_character, update_grounded, PlayerController, Vec2Fx, Vec3Fx,
    DEFAULT_GRAVITY_FP, DEFAULT_JUMP_FORCE_FP, DEFAULT_MASS_FP, DEFAULT_MOVEMENT_SPEED_FP,
    DEFAULT_TERMINAL_VELOCITY_FP, PITCH_LIMIT_FP, SNAP_DISTANCE_FP, STEP_MAX_HEIGHT_FP,
    STEP_MIN_WIDTH_FP, TWO_PI_FP,
};
use character_control::fixed::{fp_clamp, fp_mul, fp_wrap, FP_SCALE};
use character_control::input::{
    update_cursor, update_input, CursorCommand, InputEnabled, KeyboardSnapshot, PlayerInput,
};

/// One tick at sixty frames per second, in fixed-point seconds.
const DT_60HZ: i64 = 3200;

fn no_input() -> PlayerInput {
    PlayerInput {
        forward: false,
        backward: false,
        left: false,
        right: false,
        jump: false,
        toggle_view: false,
    }
}

fn no_delta() -> Vec2Fx {
    Vec2Fx { x: 0, y: 0 }
}

#[test]
fn default_tunables() {
    let c = PlayerController::default();
    assert_eq!(c.movement_speed, DEFAULT_MOVEMENT_SPEED_FP);
    assert_eq!(c.movement_speed, 10 * FP_SCALE);
    assert_eq!(c.jump_force, DEFAULT_JUMP_FORCE_FP);
    assert_eq!(c.gravity, DEFAULT_GRAVITY_FP);
    assert_eq!(c.mass, DEFAULT_MASS_FP);
    assert_eq!(c.mass, 100 * FP_SCALE);
    assert_eq!(c.terminal_velocity, DEFAULT_TERMINAL_VELOCITY_FP);
    assert_eq!(c.terminal_velocity, 180 * FP_SCALE);
    assert!(!c.grounded);
    assert_eq!(c.velocity, Vec3Fx { x: 0, y: 0, z: 0 });
    assert_eq!(c.acceleration, Vec3Fx { x: 0, y: 0, z: 0 });
    assert_eq!(c.rotation, Vec2Fx { x: 0, y: 0 });
}

#[test]
fn fixed_point_ops() {
    // 1 * 1 == 1, -2 * 0.5 == -1, rounding is toward zero
    assert_eq!(fp_mul(FP_SCALE, FP_SCALE), FP_SCALE);
    assert_eq!(fp_mul(-2 * FP_SCALE, FP_SCALE / 2), -FP_SCALE);
    assert_eq!(fp_mul(1, 1), 0);
    assert_eq!(fp_mul(-1, 1), 0);
    assert_eq!(fp_clamp(5, -3, 3), 3);
    assert_eq!(fp_clamp(-5, -3, 3), -3);
    assert_eq!(fp_clamp(2, -3, 3), 2);
    assert_eq!(fp_wrap(-1, 10), 9);
    assert_eq!(fp_wrap(25, 10), 5);
    assert_eq!(fp_wrap(0, 10), 0);
}

#[test]
fn yaw_wraps_into_one_winding() {
    // 1000 pixels of pointer travel: scaled by the sensitivity that is
    // 1.5 fixed-point radians
    let mut c = PlayerController::default();
    let delta = Vec2Fx { x: 1000 * FP_SCALE, y: 0 };
    move_character(&mut c, &no_input(), delta, DT_60HZ);
    // yaw = (0 - 288_000) wrapped into [0, TWO_PI_FP)
    assert_eq!(c.rotation.y, TWO_PI_FP - 288_000);
    assert!(0 <= c.rotation.y && c.rotation.y < TWO_PI_FP);
    // turning the other way stays below a full turn
    let mut c2 = PlayerController::default();
    let delta2 = Vec2Fx { x: -1000 * FP_SCALE, y: 0 };
    move_character(&mut c2, &no_input(), delta2, DT_60HZ);
    assert_eq!(c2.rotation.y, 288_000);
}

#[test]
fn pitch_clamps_and_extreme_input_never_escapes() {
    let mut c = PlayerController::default();
    // 2000 pixels up at once: 0.576 million sub-units, past the limit
    let extreme = Vec2Fx { x: 0, y: -2000 * FP_SCALE };
    move_character(&mut c, &no_input(), extreme, DT_60HZ);
    assert_eq!(c.rotation.x, PITCH_LIMIT_FP);
    // repeating the extreme input does not push past the bound
    move_character(&mut c, &no_input(), extreme, DT_60HZ);
    assert_eq!(c.rotation.x, PITCH_LIMIT_FP);
    // and all the way to the other pole
    let opposite = Vec2Fx { x: 0, y: 4000 * FP_SCALE };
    move_character(&mut c, &no_input(), opposite, DT_60HZ);
    assert_eq!(c.rotation.x, -PITCH_LIMIT_FP);
    // a small delta moves freely within the clamp
    let mut c2 = PlayerController::default();
    move_character(&mut c2, &no_input(), Vec2Fx { x: 0, y: -1000 * FP_SCALE }, DT_60HZ);
    assert_eq!(c2.rotation.x, 288_000);
}

#[test]
fn opposite_flags_cancel() {
    let mut c = PlayerController::default();
    let mut input = no_input();
    input.forward = true;
    input.backward = true;
    input.left = true;
    input.right = true;
    let intent = move_character(&mut c, &input, no_delta(), DT_60HZ);
    assert_eq!(intent.axis_forward, 0);
    assert_eq!(intent.axis_strafe, 0);
    assert_eq!(intent.planar_speed, 0);
    assert_eq!(intent.planar_step, 0);
}

#[test]
fn diagonal_is_not_faster() {
    let mut c = PlayerController::default();
    let mut diagonal = no_input();
    diagonal.forward = true;
    diagonal.left = true;
    let intent = move_character(&mut c, &diagonal, no_delta(), DT_60HZ);
    assert_eq!(intent.axis_forward, -1);
    assert_eq!(intent.axis_strafe, -1);
    // magnitude is the movement speed, not the speed times sqrt(2)
    assert_eq!(intent.planar_speed, DEFAULT_MOVEMENT_SPEED_FP);
    let mut c2 = PlayerController::default();
    let mut straight = no_input();
    straight.forward = true;
    let intent2 = move_character(&mut c2, &straight, no_delta(), DT_60HZ);
    assert_eq!(intent2.planar_speed, intent.planar_speed);
    // 10 units per second for one sixtieth of a second
    assert_eq!(intent.planar_step, DEFAULT_MOVEMENT_SPEED_FP / 60);
}

#[test]
fn jump_is_an_impulse_and_zeroes_downward_residue() {
    let mut c = PlayerController::default();
    c.grounded = true;
    c.velocity.y = -500_000;
    c.acceleration.y = -DEFAULT_GRAVITY_FP;
    let mut input = no_input();
    input.jump = true;
    move_character(&mut c, &input, no_delta(), DT_60HZ);
    // the downward residue was zeroed first, then the impulse added
    assert_eq!(c.velocity.y, DEFAULT_JUMP_FORCE_FP);
    assert_eq!(c.acceleration.y, 0);
}

#[test]
fn held_jump_reapplies_the_impulse_while_grounded() {
    let mut c = PlayerController::default();
    c.grounded = true;
    let mut input = no_input();
    input.jump = true;
    move_character(&mut c, &input, no_delta(), DT_60HZ);
    assert_eq!(c.velocity.y, DEFAULT_JUMP_FORCE_FP);
    // still reported grounded: the impulse stacks (no edge-triggering)
    move_character(&mut c, &input, no_delta(), DT_60HZ);
    assert_eq!(c.velocity.y, 2 * DEFAULT_JUMP_FORCE_FP);
}

#[test]
fn airborne_velocity_is_monotone_down_to_terminal() {
    let mut c = PlayerController::default();
    assert!(!c.grounded);
    move_character(&mut c, &no_input(), no_delta(), DT_60HZ);
    // gravity armed and integrated: 9.8 units per second over one tick
    assert_eq!(c.acceleration.y, -DEFAULT_GRAVITY_FP);
    assert_eq!(c.velocity.y, -31_360);
    let before = c.velocity.y;
    move_character(&mut c, &no_input(), no_delta(), DT_60HZ);
    assert!(c.velocity.y <= before);
    assert_eq!(c.velocity.y, -62_720);
    // near terminal velocity the clamp engages exactly
    let mut f = PlayerController::default();
    f.velocity.y = -DEFAULT_TERMINAL_VELOCITY_FP + 10_000;
    f.acceleration.y = -DEFAULT_GRAVITY_FP;
    move_character(&mut f, &no_input(), no_delta(), DT_60HZ);
    assert_eq!(f.velocity.y, -DEFAULT_TERMINAL_VELOCITY_FP);
    // and never exceeds it
    move_character(&mut f, &no_input(), no_delta(), DT_60HZ);
    assert_eq!(f.velocity.y, -DEFAULT_TERMINAL_VELOCITY_FP);
}

#[test]
fn probe_never_grounds_a_rising_character() {
    let mut c = PlayerController::default();
    c.velocity.y = 1;
    update_grounded(&mut c, true);
    assert!(!c.grounded);
    c.velocity.y = 0;
    update_grounded(&mut c, true);
    assert!(c.grounded);
    c.velocity.y = -1;
    update_grounded(&mut c, true);
    assert!(c.grounded);
    // no overlap, no grounding, whatever the velocity
    c.velocity.y = -1;
    update_grounded(&mut c, false);
    assert!(!c.grounded);
}

#[test]
fn rest_on_flat_ground_is_a_fixed_point() {
    // at rest on flat ground, no input, one tick at dt = 1/60
    let mut c = PlayerController::default();
    c.grounded = true;
    let intent = move_character(&mut c, &no_input(), no_delta(), DT_60HZ);
    // no displacement is requested, so the position stays put
    assert_eq!(intent.planar_step, 0);
    assert_eq!(intent.vertical_step, 0);
    assert_eq!(c.velocity.y, 0);
    // the probe still overlaps the ground: grounded stays true
    update_grounded(&mut c, true);
    assert!(c.grounded);
}

#[test]
fn spawn_settles_onto_ground() {
    // a fresh controller starts airborne; standing on flat ground, the
    // first tick's probe grounds it and the next tick clears the residue
    let mut c = PlayerController::default();
    move_character(&mut c, &no_input(), no_delta(), DT_60HZ);
    assert_eq!(c.velocity.y, -31_360);
    update_grounded(&mut c, true);
    assert!(c.grounded);
    move_character(&mut c, &no_input(), no_delta(), DT_60HZ);
    assert_eq!(c.velocity.y, 0);
    assert_eq!(c.acceleration.y, 0);
}

#[test]
fn one_tick_jump_leaves_the_ground() {
    let mut c = PlayerController::default();
    c.grounded = true;
    let mut input = no_input();
    input.jump = true;
    move_character(&mut c, &input, no_delta(), DT_60HZ);
    // vertical velocity becomes exactly the jump force
    assert_eq!(c.velocity.y, DEFAULT_JUMP_FORCE_FP);
    // the probe may still overlap the ground, but the character rises
    update_grounded(&mut c, true);
    assert!(!c.grounded);
    // next tick, jump released: airborne, gravity takes over
    move_character(&mut c, &no_input(), no_delta(), DT_60HZ);
    assert_eq!(c.velocity.y, DEFAULT_JUMP_FORCE_FP - 31_360);
    update_grounded(&mut c, false);
    assert!(!c.grounded);
}

#[test]
fn sweep_policy_follows_grounding() {
    let mut c = PlayerController::default();
    c.grounded = true;
    let grounded_intent = move_character(&mut c, &no_input(), no_delta(), DT_60HZ);
    let step = grounded_intent.sweep.autostep.expect("grounded sweep must auto-step");
    assert_eq!(step.max_height, STEP_MAX_HEIGHT_FP);
    assert_eq!(step.min_width, STEP_MIN_WIDTH_FP);
    assert!(step.include_dynamic_bodies);
    assert_eq!(grounded_intent.sweep.snap_to_ground, Some(SNAP_DISTANCE_FP));
    assert!(grounded_intent.sweep.slide);

    let mut a = PlayerController::default();
    a.grounded = false;
    let airborne_intent = move_character(&mut a, &no_input(), no_delta(), DT_60HZ);
    assert_eq!(airborne_intent.sweep.autostep, None);
    assert_eq!(airborne_intent.sweep.snap_to_ground, None);
    assert!(airborne_intent.sweep.slide);
}

#[test]
fn occluding_wall_pulls_the_camera_in() {
    let mut cam = PlayerCamera {
        mode: CameraMode::ThirdPerson,
    };
    let mut t = Vec3Fx { x: 0, y: 0, z: THIRD_PERSON_OFFSET_FP };
    // wall five units behind the pivot: the camera lands at 5 - 1 = 4
    update_camera(&mut cam, &mut t, false, Some(5 * FP_SCALE));
    assert_eq!(t, Vec3Fx { x: 0, y: 0, z: 4 * FP_SCALE });
    assert_eq!(CAMERA_PULL_IN_FP, FP_SCALE);
    // with a clear view the camera returns to the default offset
    update_camera(&mut cam, &mut t, false, None);
    assert_eq!(t, Vec3Fx { x: 0, y: 0, z: THIRD_PERSON_OFFSET_FP });
}

#[test]
fn toggle_snaps_between_modes() {
    let mut cam = PlayerCamera::default();
    assert_eq!(cam.mode, CameraMode::FirstPerson);
    let mut t = Vec3Fx { x: 0, y: 0, z: 0 };
    // the mode the rig will end in decides whether the ray is cast
    assert_eq!(camera_mode_after_toggle(&cam, true), CameraMode::ThirdPerson);
    update_camera(&mut cam, &mut t, true, None);
    assert_eq!(cam.mode, CameraMode::ThirdPerson);
    assert_eq!(t, Vec3Fx { x: 0, y: 0, z: THIRD_PERSON_OFFSET_FP });
    assert_eq!(THIRD_PERSON_OFFSET_FP, 10 * FP_SCALE);
    // toggling back snaps to first person at the origin
    update_camera(&mut cam, &mut t, true, None);
    assert_eq!(cam.mode, CameraMode::FirstPerson);
    assert_eq!(t, Vec3Fx { x: 0, y: 0, z: 0 });
    // no toggle, first person: the translation is untouched
    t = Vec3Fx { x: 7, y: 8, z: 9 };
    update_camera(&mut cam, &mut t, false, None);
    assert_eq!(cam.mode, CameraMode::FirstPerson);
    assert_eq!(t, Vec3Fx { x: 7, y: 8, z: 9 });
}

#[test]
fn input_snapshot_follows_keys_only_while_enabled() {
    let keys = KeyboardSnapshot {
        forward: true,
        backward: false,
        left: true,
        right: false,
        jump: true,
        toggle_view_just_pressed: true,
    };
    let mut input = PlayerInput::default();
    update_input(&InputEnabled(false), &keys, &mut input);
    assert!(!input.forward && !input.left && !input.jump && !input.toggle_view);
    update_input(&InputEnabled(true), &keys, &mut input);
    assert!(input.forward && input.left && input.jump && input.toggle_view);
    assert!(!input.backward && !input.right);
    // releasing the keys clears the snapshot on the next tick
    let released = KeyboardSnapshot {
        forward: false,
        backward: false,
        left: false,
        right: false,
        jump: false,
        toggle_view_just_pressed: false,
    };
    update_input(&InputEnabled(true), &released, &mut input);
    assert!(!input.forward && !input.left && !input.jump && !input.toggle_view);
}

#[test]
fn cursor_lock_and_release() {
    let mut enabled = InputEnabled(false);
    let cmd = update_cursor(&mut enabled, true, false);
    assert!(matches!(cmd, CursorCommand::Lock));
    assert!(enabled.0);
    let cmd = update_cursor(&mut enabled, false, false);
    assert!(matches!(cmd, CursorCommand::Keep));
    assert!(enabled.0);
    let cmd = update_cursor(&mut enabled, false, true);
    assert!(matches!(cmd, CursorCommand::Release));
    assert!(!enabled.0);
    // a click and an escape in one tick: the release wins
    let cmd = update_cursor(&mut enabled, true, true);
    assert!(matches!(cmd, CursorCommand::Release));
    assert!(!enabled.0);
}
