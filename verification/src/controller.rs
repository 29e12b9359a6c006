//! The character controller: per-tick motion integration and grounding.
//!
//! Each simulation tick runs, in order: [`move_character`], which turns the
//! input snapshot, the tick's pointer delta and the elapsed time into new
//! rotation and velocity plus a [`MoveIntent`]; the engine's collider sweep,
//! which applies the intent to the world; and [`update_grounded`], which
//! classifies the post-sweep ground-probe result. The probe's verdict feeds
//! the next tick's gravity/jump branch.

use vstd::prelude::*;
use vstd::arithmetic::div_mod::{lemma_div_of0, lemma_mod_division_less_than_divisor};
use crate::fixed::{
    fp_clamp, fp_mul, fp_wrap, spec_clamp, spec_fp_mul, lemma_fp_mul_nonpos, FP_MAX, FP_SCALE,
};
use crate::input::PlayerInput;

verus! {

/// Pointer sensitivity: radians of rotation per pixel of pointer travel.
pub const SENSITIVITY_FP: i64 = 288;

/// A half turn of `FP_SCALE`-scaled radians (pi).
pub const PI_FP: i64 = 603_186;

/// A full turn of `FP_SCALE`-scaled radians (two pi); yaw wraps into
/// `[0, TWO_PI_FP)`.
pub const TWO_PI_FP: i64 = 2 * PI_FP;

/// Guard kept between the pitch and the poles, so the camera basis never
/// degenerates.
pub const PITCH_GUARD_FP: i64 = 375;

/// Pitch is clamped into `[-PITCH_LIMIT_FP, PITCH_LIMIT_FP]`: half of
/// `PI_FP`, short of the pole by `PITCH_GUARD_FP`.
pub const PITCH_LIMIT_FP: i64 = 301_593 - PITCH_GUARD_FP;

/// Default planar movement speed (units per second).
pub const DEFAULT_MOVEMENT_SPEED_FP: i64 = 1_920_000;

/// Default jump impulse (units per second, added to vertical velocity).
pub const DEFAULT_JUMP_FORCE_FP: i64 = 1_881_600;

/// Default character mass, handed to the collider sweep.
pub const DEFAULT_MASS_FP: i64 = 19_200_000;

/// Default gravity (units per second squared).
pub const DEFAULT_GRAVITY_FP: i64 = 1_881_600;

/// Default terminal velocity: vertical speed never exceeds it.
pub const DEFAULT_TERMINAL_VELOCITY_FP: i64 = 34_560_000;

/// Main collider: half height of the capsule-like cylinder.
pub const COLLIDER_HALF_HEIGHT_FP: i64 = 432_000;

/// Main collider radius.
pub const COLLIDER_RADIUS_FP: i64 = 240_000;

/// Spawn height of the controller above the origin.
pub const SPAWN_Y_FP: i64 = 576_000;

/// While grounded, the sweep may climb ledges up to this height.
pub const STEP_MAX_HEIGHT_FP: i64 = 316_800;

/// Minimal ledge width the auto-step accepts.
pub const STEP_MIN_WIDTH_FP: i64 = 19_200;

/// While grounded, the sweep snaps to walkable ground within this distance.
pub const SNAP_DISTANCE_FP: i64 = 9_600;

/// The ground probe sits this far below the controller origin (half the
/// main collider's height, downward).
pub const PROBE_OFFSET_Y_FP: i64 = -432_000;

/// Half height of the short probe collider.
pub const PROBE_HALF_HEIGHT_FP: i64 = 9_600;

/// Probe radius: slightly narrower than the main collider, so wall contact
/// alone never grounds the character.
pub const PROBE_RADIUS_FP: i64 = 238_080;

/// A fixed-point 2D vector. For rotation, `x` carries pitch and `y` yaw.
#[derive(Clone, Copy, PartialEq, Eq, Structural, Debug)]
pub struct Vec2Fx {
    pub x: i64,
    pub y: i64,
}

/// A fixed-point 3D vector; `y` is up.
#[derive(Clone, Copy, PartialEq, Eq, Structural, Debug)]
pub struct Vec3Fx {
    pub x: i64,
    pub y: i64,
    pub z: i64,
}

/// Marker for the visual body mesh: it carries the yaw rotation (and only
/// the yaw — pitch goes to the camera pivot).
pub struct PlayerModel();

/// Marker for the camera pivot: the node that carries the pitch rotation.
pub struct PlayerCameraPivot();

/// Mutable state of the character controller, plus its session tunables.
#[derive(Clone, Copy, PartialEq, Eq, Structural, Debug)]
pub struct PlayerController {
    pub acceleration: Vec3Fx,
    pub velocity: Vec3Fx,
    /// `x` is pitch, `y` is yaw.
    pub rotation: Vec2Fx,
    pub movement_speed: i64,
    pub jump_force: i64,
    pub mass: i64,
    pub gravity: i64,
    pub terminal_velocity: i64,
    pub grounded: bool,
}

impl PlayerController {
    /// Well-formedness: tunables are positive and bounded, only the vertical
    /// axis carries acceleration/velocity, vertical speed respects the
    /// terminal clamp, yaw is wrapped and pitch clamped.
    pub open spec fn wf(self) -> bool {
        &&& 0 < self.movement_speed <= FP_MAX
        &&& 0 <= self.jump_force <= FP_MAX
        &&& 0 < self.mass <= FP_MAX
        &&& 0 <= self.gravity <= FP_MAX
        &&& 0 < self.terminal_velocity <= FP_MAX
        &&& self.velocity.x == 0
        &&& self.velocity.z == 0
        &&& -self.terminal_velocity <= self.velocity.y <= self.terminal_velocity
        &&& self.acceleration.x == 0
        &&& self.acceleration.z == 0
        &&& -FP_MAX <= self.acceleration.y <= 0
        &&& 0 <= self.rotation.y < TWO_PI_FP
        &&& -PITCH_LIMIT_FP <= self.rotation.x <= PITCH_LIMIT_FP
    }
}

impl Default for PlayerController {
    /// A controller at rest, airborne until the first probe, with the
    /// session's default tunables.
    fn default() -> (r: Self)
        ensures
            r == (PlayerController {
                acceleration: Vec3Fx { x: 0, y: 0, z: 0 },
                velocity: Vec3Fx { x: 0, y: 0, z: 0 },
                rotation: Vec2Fx { x: 0, y: 0 },
                movement_speed: DEFAULT_MOVEMENT_SPEED_FP,
                jump_force: DEFAULT_JUMP_FORCE_FP,
                mass: DEFAULT_MASS_FP,
                gravity: DEFAULT_GRAVITY_FP,
                terminal_velocity: DEFAULT_TERMINAL_VELOCITY_FP,
                grounded: false,
            }),
            r.wf(),
    {
        PlayerController {
            acceleration: Vec3Fx { x: 0, y: 0, z: 0 },
            velocity: Vec3Fx { x: 0, y: 0, z: 0 },
            rotation: Vec2Fx { x: 0, y: 0 },
            movement_speed: DEFAULT_MOVEMENT_SPEED_FP,
            jump_force: DEFAULT_JUMP_FORCE_FP,
            mass: DEFAULT_MASS_FP,
            gravity: DEFAULT_GRAVITY_FP,
            terminal_velocity: DEFAULT_TERMINAL_VELOCITY_FP,
            grounded: false,
        }
    }
}

/// Auto-step policy the collider sweep runs with while grounded.
#[derive(Clone, Copy, PartialEq, Eq, Structural, Debug)]
pub struct AutoStep {
    pub max_height: i64,
    pub min_width: i64,
    pub include_dynamic_bodies: bool,
}

/// How the collider sweep must be performed this tick.
#[derive(Clone, Copy, PartialEq, Eq, Structural, Debug)]
pub struct SweepPolicy {
    /// Step small ledges — only while grounded.
    pub autostep: Option<AutoStep>,
    /// Snap to walkable ground within this distance — only while grounded.
    pub snap_to_ground: Option<i64>,
    /// Slide along contact normals — always.
    pub slide: bool,
}

/// The desired move for one tick, in the controller's own terms. The
/// world-space displacement is the unit planar direction — the local axes
/// rotated by `yaw`, an isometry — times `planar_step`, plus
/// `vertical_step` upward.
#[derive(Clone, Copy, PartialEq, Eq, Structural, Debug)]
pub struct MoveIntent {
    /// -1 while only `forward` is held, 1 while only `backward` is, else 0.
    pub axis_forward: i64,
    /// -1 while only `left` is held, 1 while only `right` is, else 0.
    pub axis_strafe: i64,
    /// Magnitude of the planar velocity: `movement_speed`, or 0 with no
    /// directional input.
    pub planar_speed: i64,
    /// Planar displacement this tick: `planar_speed * dt`.
    pub planar_step: i64,
    /// Vertical displacement this tick: the new vertical velocity times `dt`.
    pub vertical_step: i64,
    /// Yaw the planar direction is rotated by.
    pub yaw: i64,
    pub sweep: SweepPolicy,
}

/// One directional axis: two opposing flags yield -1, 0 or 1; both held
/// cancel to exactly 0.
pub open spec fn spec_axis(neg: bool, pos: bool) -> int {
    (if pos {
        1int
    } else {
        0int
    }) - (if neg {
        1int
    } else {
        0int
    })
}

/// Magnitude of the planar move vector: with any directional input the
/// (normalized) move has magnitude `speed`, else 0.
pub open spec fn spec_planar_speed(input: PlayerInput, speed: int) -> int {
    if spec_axis(input.forward, input.backward) == 0 && spec_axis(input.left, input.right) == 0 {
        0
    } else {
        speed
    }
}

/// A pointer delta scaled by the sensitivity.
pub open spec fn spec_scaled_delta(d: int) -> int {
    spec_fp_mul(d, SENSITIVITY_FP as int)
}

/// Pitch after a pointer delta: subtract, then clamp away from the poles.
pub open spec fn spec_next_pitch(pitch: int, dy: int) -> int {
    spec_clamp(pitch - spec_scaled_delta(dy), -PITCH_LIMIT_FP as int, PITCH_LIMIT_FP as int)
}

/// Yaw after a pointer delta: subtract, then wrap into one winding.
pub open spec fn spec_next_yaw(yaw: int, dx: int) -> int {
    (yaw - spec_scaled_delta(dx)) % (TWO_PI_FP as int)
}

/// Vertical velocity with grounded residue cancelled: any downward
/// velocity (or one accompanying a downward acceleration) is zeroed.
pub open spec fn spec_cancel_ground_vel(c: PlayerController) -> int {
    if c.acceleration.y < 0 || c.velocity.y < 0 {
        0
    } else {
        c.velocity.y as int
    }
}

/// Vertical acceleration after the grounded/airborne branch: grounded
/// cancels downward acceleration; airborne arms gravity while the vertical
/// velocity is still non-negative.
pub open spec fn spec_next_acc_y(c: PlayerController) -> int {
    if c.grounded {
        if c.acceleration.y < 0 || c.velocity.y < 0 {
            0
        } else {
            c.acceleration.y as int
        }
    } else {
        if c.velocity.y >= 0 {
            -(c.gravity as int)
        } else {
            c.acceleration.y as int
        }
    }
}

/// Vertical velocity after one tick: the grounded branch cancels downward
/// residue and applies the jump impulse; then the new acceleration is
/// integrated over `dt` and the result clamped to the terminal velocity.
pub open spec fn spec_next_vel_y(c: PlayerController, jump: bool, dt: int) -> int {
    let base = if c.grounded {
        if jump {
            spec_cancel_ground_vel(c) + c.jump_force
        } else {
            spec_cancel_ground_vel(c)
        }
    } else {
        c.velocity.y as int
    };
    spec_clamp(
        base + spec_fp_mul(spec_next_acc_y(c), dt),
        -c.terminal_velocity as int,
        c.terminal_velocity as int,
    )
}

/// The sweep policy for a tick: auto-stepping and ground-snapping exactly
/// while grounded, sliding always.
pub open spec fn spec_sweep_policy(grounded: bool) -> SweepPolicy {
    if grounded {
        SweepPolicy {
            autostep: Some(
                AutoStep {
                    max_height: STEP_MAX_HEIGHT_FP,
                    min_width: STEP_MIN_WIDTH_FP,
                    include_dynamic_bodies: true,
                },
            ),
            snap_to_ground: Some(SNAP_DISTANCE_FP),
            slide: true,
        }
    } else {
        SweepPolicy { autostep: None, snap_to_ground: None, slide: true }
    }
}

/// One tick of the motion integrator: apply the pointer delta to pitch and
/// yaw, derive the planar axes from the directional flags, run the
/// grounded/airborne vertical branch, integrate the velocity, and return
/// the move the collider sweep must perform.
///
/// `mouse_delta` is the tick's accumulated pointer travel in fixed-point
/// pixels; `dt` the elapsed time in fixed-point seconds.
pub fn move_character(
    ctrl: &mut PlayerController,
    input: &PlayerInput,
    mouse_delta: Vec2Fx,
    dt: i64,
) -> (intent: MoveIntent)
    requires
        old(ctrl).wf(),
        0 <= dt <= FP_MAX,
        -FP_MAX <= mouse_delta.x <= FP_MAX,
        -FP_MAX <= mouse_delta.y <= FP_MAX,
    ensures
        final (ctrl).wf(),
        // rotation
        final (ctrl).rotation.x == spec_next_pitch(
            old(ctrl).rotation.x as int,
            mouse_delta.y as int,
        ),
        final (ctrl).rotation.y == spec_next_yaw(old(ctrl).rotation.y as int, mouse_delta.x as int),
        -PITCH_LIMIT_FP <= final (ctrl).rotation.x <= PITCH_LIMIT_FP,
        0 <= final (ctrl).rotation.y < TWO_PI_FP,
        // vertical dynamics
        final (ctrl).acceleration.y == spec_next_acc_y(*old(ctrl)),
        final (ctrl).velocity.y == spec_next_vel_y(*old(ctrl), input.jump, dt as int),
        -final (ctrl).terminal_velocity <= final (ctrl).velocity.y,
        final (ctrl).velocity.y <= final (ctrl).terminal_velocity,
        !old(ctrl).grounded ==> final (ctrl).velocity.y <= old(ctrl).velocity.y,
        // untouched state
        final (ctrl).velocity.x == 0 && final (ctrl).velocity.z == 0,
        final (ctrl).acceleration.x == 0 && final (ctrl).acceleration.z == 0,
        final (ctrl).grounded == old(ctrl).grounded,
        final (ctrl).movement_speed == old(ctrl).movement_speed,
        final (ctrl).jump_force == old(ctrl).jump_force,
        final (ctrl).mass == old(ctrl).mass,
        final (ctrl).gravity == old(ctrl).gravity,
        final (ctrl).terminal_velocity == old(ctrl).terminal_velocity,
        // the move handed to the collider sweep
        intent.axis_forward == spec_axis(input.forward, input.backward),
        intent.axis_strafe == spec_axis(input.left, input.right),
        input.forward && input.backward ==> intent.axis_forward == 0,
        input.left && input.right ==> intent.axis_strafe == 0,
        intent.planar_speed == spec_planar_speed(*input, old(ctrl).movement_speed as int),
        intent.planar_step == spec_fp_mul(intent.planar_speed as int, dt as int),
        intent.vertical_step == spec_fp_mul(final (ctrl).velocity.y as int, dt as int),
        intent.yaw == final (ctrl).rotation.y,
        intent.sweep == spec_sweep_policy(old(ctrl).grounded),
{
    // Pointer delta, scaled by the sensitivity, drives pitch (clamped away
    // from the poles) and yaw (wrapped to one winding).
    let dy = fp_mul(mouse_delta.y, SENSITIVITY_FP);
    let dx = fp_mul(mouse_delta.x, SENSITIVITY_FP);
    ctrl.rotation.x = fp_clamp(ctrl.rotation.x - dy, -PITCH_LIMIT_FP, PITCH_LIMIT_FP);
    ctrl.rotation.y = fp_wrap(ctrl.rotation.y - dx, TWO_PI_FP);

    // Directional axes: opposing flags cancel to zero.
    let mut axis_forward: i64 = 0;
    let mut axis_strafe: i64 = 0;
    if input.forward {
        axis_forward = axis_forward - 1;
    }
    if input.backward {
        axis_forward = axis_forward + 1;
    }
    if input.left {
        axis_strafe = axis_strafe - 1;
    }
    if input.right {
        axis_strafe = axis_strafe + 1;
    }
    // The planar move is the yaw-rotated unit direction of the axes, scaled
    // by the movement speed; normalization keeps diagonal input exactly as
    // fast as axis-aligned input, and the zero vector stays zero.
    let planar_speed: i64 = if axis_forward == 0 && axis_strafe == 0 {
        0
    } else {
        ctrl.movement_speed
    };

    // Vertical branch on last tick's grounding.
    if ctrl.grounded {
        // Cancel any downwards acceleration and velocity since we are
        // grounded.
        if ctrl.acceleration.y < 0 || ctrl.velocity.y < 0 {
            ctrl.acceleration.y = 0;
            ctrl.velocity.y = 0;
        }
        if input.jump {
            ctrl.velocity.y = ctrl.velocity.y + ctrl.jump_force;
        }
    } else {
        // Arm gravity while the vertical velocity is still non-negative.
        if ctrl.velocity.y >= 0 {
            ctrl.acceleration.y = -ctrl.gravity;
        }
    }

    // Integrate, then clamp the vertical speed to the terminal velocity.
    let dv = fp_mul(ctrl.acceleration.y, dt);
    proof {
        lemma_fp_mul_nonpos(ctrl.acceleration.y as int, dt as int);
    }
    ctrl.velocity.y = fp_clamp(
        ctrl.velocity.y + dv,
        -ctrl.terminal_velocity,
        ctrl.terminal_velocity,
    );

    let planar_step = fp_mul(planar_speed, dt);
    let vertical_step = fp_mul(ctrl.velocity.y, dt);

    // Auto-stepping and ground-snapping only while grounded, so an air-borne
    // arc is never pulled back onto the ground.
    let sweep = if ctrl.grounded {
        SweepPolicy {
            autostep: Some(
                AutoStep {
                    max_height: STEP_MAX_HEIGHT_FP,
                    min_width: STEP_MIN_WIDTH_FP,
                    include_dynamic_bodies: true,
                },
            ),
            snap_to_ground: Some(SNAP_DISTANCE_FP),
            slide: true,
        }
    } else {
        SweepPolicy { autostep: None, snap_to_ground: None, slide: true }
    };

    MoveIntent {
        axis_forward,
        axis_strafe,
        planar_speed,
        planar_step,
        vertical_step,
        yaw: ctrl.rotation.y,
        sweep,
    }
}

/// Whether the probe result grounds the character: only an overlap found
/// while not moving upward counts.
pub open spec fn spec_grounded_after_probe(probe_hit: bool, vel_y: int) -> bool {
    probe_hit && vel_y <= 0
}

/// Classify the ground-probe result, run after the sweep has been applied.
/// The probe's overlap verdict is consulted instead of the sweep's own
/// contact report; an overlap counts only while the vertical velocity is
/// non-positive, so rising through geometry never grounds the character.
pub fn update_grounded(ctrl: &mut PlayerController, probe_hit: bool)
    requires
        old(ctrl).wf(),
    ensures
        final (ctrl).wf(),
        final (ctrl).grounded == spec_grounded_after_probe(probe_hit, old(ctrl).velocity.y as int),
        old(ctrl).velocity.y > 0 ==> !final (ctrl).grounded,
        final (ctrl).acceleration == old(ctrl).acceleration,
        final (ctrl).velocity == old(ctrl).velocity,
        final (ctrl).rotation == old(ctrl).rotation,
        final (ctrl).movement_speed == old(ctrl).movement_speed,
        final (ctrl).jump_force == old(ctrl).jump_force,
        final (ctrl).mass == old(ctrl).mass,
        final (ctrl).gravity == old(ctrl).gravity,
        final (ctrl).terminal_velocity == old(ctrl).terminal_velocity,
{
    if probe_hit {
        if ctrl.velocity.y <= 0 {
            ctrl.grounded = true;
        } else {
            ctrl.grounded = false;
        }
    } else {
        ctrl.grounded = false;
    }
}

/// Law: yaw is always wrapped — after any pointer delta the new yaw lies in
/// `[0, TWO_PI_FP)`.
pub proof fn lemma_yaw_wrapped(yaw: int, dx: int)
    ensures
        0 <= spec_next_yaw(yaw, dx) < TWO_PI_FP,
{
    lemma_mod_division_less_than_divisor(yaw - spec_scaled_delta(dx), TWO_PI_FP as int);
}

/// Law: pitch never escapes its clamp — any number of pointer deltas, each
/// arbitrarily extreme, leaves it in `[-PITCH_LIMIT_FP, PITCH_LIMIT_FP]`.
pub proof fn lemma_pitch_clamped(pitch: int, dy1: int, dy2: int)
    ensures
        -PITCH_LIMIT_FP <= spec_next_pitch(pitch, dy1) <= PITCH_LIMIT_FP,
        -PITCH_LIMIT_FP <= spec_next_pitch(spec_next_pitch(pitch, dy1), dy2) <= PITCH_LIMIT_FP,
{
}

/// Law: opposing directional flags held together contribute exactly zero
/// to the planar move.
pub proof fn lemma_opposite_flags_cancel(neg: bool, pos: bool)
    requires
        neg && pos,
    ensures
        spec_axis(neg, pos) == 0,
{
}

/// Law: diagonal input is exactly as fast as axis-aligned input — the
/// planar move's magnitude is `speed`, not `speed` times the square root
/// of two.
pub proof fn lemma_diagonal_not_faster(diagonal: PlayerInput, straight: PlayerInput, speed: int)
    requires
        diagonal.forward && diagonal.left && !diagonal.backward && !diagonal.right,
        straight.forward && !straight.backward && !straight.left && !straight.right,
    ensures
        spec_planar_speed(diagonal, speed) == speed,
        spec_planar_speed(diagonal, speed) == spec_planar_speed(straight, speed),
{
}

/// Law: while grounded with jump pressed, the tick first zeroes any
/// downward residue and then adds exactly `jump_force` to the vertical
/// velocity — an impulse, not a force. The statement excludes impulses the
/// terminal clamp would cut.
pub proof fn lemma_jump_impulse(c: PlayerController, dt: int)
    requires
        c.wf(),
        c.grounded,
        0 <= dt,
        spec_cancel_ground_vel(c) + c.jump_force <= c.terminal_velocity,
    ensures
        spec_next_acc_y(c) == 0,
        spec_next_vel_y(c, true, dt) == spec_cancel_ground_vel(c) + c.jump_force,
        c.velocity.y < 0 || c.acceleration.y < 0 ==> spec_next_vel_y(c, true, dt) == c.jump_force,
{
    assert(spec_next_acc_y(c) == 0);
    assert(spec_fp_mul(0, dt) == 0) by {
        lemma_div_of0(FP_SCALE as int);
    }
}

/// Law: while airborne the vertical velocity never increases, and the
/// terminal clamp keeps it within `[-terminal_velocity, terminal_velocity]`.
pub proof fn lemma_airborne_velocity_monotone(c: PlayerController, jump: bool, dt: int)
    requires
        c.wf(),
        !c.grounded,
        0 <= dt,
    ensures
        spec_next_vel_y(c, jump, dt) <= c.velocity.y,
        -c.terminal_velocity <= spec_next_vel_y(c, jump, dt) <= c.terminal_velocity,
{
    lemma_fp_mul_nonpos(spec_next_acc_y(c), dt);
}

/// Law: a rising character is never grounded, whatever the probe overlaps.
pub proof fn lemma_rising_never_grounded(probe_hit: bool, vel_y: int)
    requires
        vel_y > 0,
    ensures
        !spec_grounded_after_probe(probe_hit, vel_y),
{
}

} // verus!
