//! The camera rig: first/third-person mode and occlusion avoidance.
//!
//! The camera hangs from a pivot that carries the controller's pitch; the
//! pivot hangs from the body, which carries the yaw. In third-person mode
//! the camera sits behind the pivot and is pulled in front of anything a
//! backward ray from the pivot hits.

use vstd::prelude::*;
use crate::controller::Vec3Fx;

verus! {

/// Default third-person camera offset behind the pivot.
pub const THIRD_PERSON_OFFSET_FP: i64 = 1_920_000;

/// Length of the occlusion ray cast backward from the pivot.
pub const CAMERA_RAY_LENGTH_FP: i64 = 2_112_000;

/// How far in front of an occluding hit the camera is placed.
pub const CAMERA_PULL_IN_FP: i64 = 192_000;

/// First-person or over-the-shoulder third-person view.
#[derive(Clone, Copy, PartialEq, Eq, Structural, Debug)]
pub enum CameraMode {
    FirstPerson,
    ThirdPerson,
}

impl Default for CameraMode {
    /// The session starts in first person.
    fn default() -> (r: Self)
        ensures
            r == CameraMode::FirstPerson,
    {
        CameraMode::FirstPerson
    }
}

/// Camera state: which view mode is active.
pub struct PlayerCamera {
    pub mode: CameraMode,
}

impl Default for PlayerCamera {
    /// The session starts in first person.
    fn default() -> (r: Self)
        ensures
            r.mode == CameraMode::FirstPerson,
    {
        PlayerCamera { mode: CameraMode::FirstPerson }
    }
}

/// The mode after an (edge-triggered) view toggle: flipped on the tick the
/// toggle fires, unchanged otherwise.
pub open spec fn spec_toggled_mode(mode: CameraMode, toggle_view: bool) -> CameraMode {
    if toggle_view {
        match mode {
            CameraMode::FirstPerson => CameraMode::ThirdPerson,
            CameraMode::ThirdPerson => CameraMode::FirstPerson,
        }
    } else {
        mode
    }
}

/// The camera's local offset behind the pivot while in third person: just
/// in front of the occluding hit, or the default offset with a clear view.
pub open spec fn spec_third_person_z(ray_toi: Option<i64>) -> int {
    match ray_toi {
        Some(toi) => toi - CAMERA_PULL_IN_FP,
        None => THIRD_PERSON_OFFSET_FP as int,
    }
}

/// What the occlusion ray may report: a time of impact within the ray's
/// length, or no hit.
pub open spec fn valid_ray_hit(ray_toi: Option<i64>) -> bool {
    match ray_toi {
        Some(toi) => 0 <= toi <= CAMERA_RAY_LENGTH_FP,
        None => true,
    }
}

/// The view mode the tick will end in, before the occlusion ray is cast —
/// the ray is only worth casting when this is third person.
pub fn camera_mode_after_toggle(camera: &PlayerCamera, toggle_view: bool) -> (m: CameraMode)
    ensures
        m == spec_toggled_mode(camera.mode, toggle_view),
{
    if toggle_view {
        match camera.mode {
            CameraMode::FirstPerson => CameraMode::ThirdPerson,
            CameraMode::ThirdPerson => CameraMode::FirstPerson,
        }
    } else {
        match camera.mode {
            CameraMode::FirstPerson => CameraMode::FirstPerson,
            CameraMode::ThirdPerson => CameraMode::ThirdPerson,
        }
    }
}

/// One tick of the camera rig. A toggle flips the mode and snaps the local
/// translation — no interpolation. Then, in third-person mode (whether or
/// not just entered), the occlusion ray's verdict places the camera: just
/// in front of a hit, or at the default offset. In first-person mode the
/// translation is only touched by a toggle, which zeroes it.
///
/// `ray_toi` is the backward occlusion ray's time of impact, cast after the
/// toggle is decided; its value is ignored in first-person mode.
pub fn update_camera(
    camera: &mut PlayerCamera,
    translation: &mut Vec3Fx,
    toggle_view: bool,
    ray_toi: Option<i64>,
)
    requires
        valid_ray_hit(ray_toi),
    ensures
        final (camera).mode == spec_toggled_mode(old(camera).mode, toggle_view),
        final (camera).mode == CameraMode::ThirdPerson ==> *final (translation) == (Vec3Fx {
            x: 0,
            y: 0,
            z: spec_third_person_z(ray_toi) as i64,
        }),
        final (camera).mode == CameraMode::FirstPerson && toggle_view ==> *final (translation) == (
        Vec3Fx { x: 0, y: 0, z: 0 }),
        final (camera).mode == CameraMode::FirstPerson && !toggle_view ==> *final (translation)
            == *old(translation),
{
    if toggle_view {
        match camera.mode {
            CameraMode::FirstPerson => {
                camera.mode = CameraMode::ThirdPerson;
                *translation = Vec3Fx { x: 0, y: 0, z: THIRD_PERSON_OFFSET_FP };
            },
            CameraMode::ThirdPerson => {
                camera.mode = CameraMode::FirstPerson;
                *translation = Vec3Fx { x: 0, y: 0, z: 0 };
            },
        }
    }
    match camera.mode {
        CameraMode::ThirdPerson => {
            match ray_toi {
                Some(toi) => {
                    // The ray hit something: place the camera at the
                    // distance of impact, pulled one unit closer.
                    *translation = Vec3Fx { x: 0, y: 0, z: toi - CAMERA_PULL_IN_FP };
                },
                None => {
                    // Nothing hit: the default third-person offset.
                    *translation = Vec3Fx { x: 0, y: 0, z: THIRD_PERSON_OFFSET_FP };
                },
            }
        },
        CameraMode::FirstPerson => {},
    }
}

/// Law: a toggle in first person enters third person, and with a clear
/// view the camera snaps to the default offset that same tick.
pub proof fn lemma_toggle_enters_third_person(mode: CameraMode)
    requires
        mode == CameraMode::FirstPerson,
    ensures
        spec_toggled_mode(mode, true) == CameraMode::ThirdPerson,
        spec_third_person_z(None) == THIRD_PERSON_OFFSET_FP,
{
}

/// Law: an occluding hit places the camera exactly one unit in front of
/// the impact, instead of at the default offset.
pub proof fn lemma_occlusion_pulls_camera_in(toi: i64)
    ensures
        spec_third_person_z(Some(toi)) == toi - CAMERA_PULL_IN_FP,
{
}

} // verus!
