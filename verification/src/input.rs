//! Input snapshot and cursor-lock state.
//!
//! The engine polls the keyboard and mouse; the decisions — which snapshot
//! flags to set, when pointer input counts, when the cursor is grabbed or
//! released — live here, verified.

use vstd::prelude::*;

verus! {

/// Whether pointer/keyboard input currently drives the controller.
/// While disabled, the input snapshot is left untouched.
pub struct InputEnabled(pub bool);

/// The per-tick input snapshot the motion integrator consumes.
pub struct PlayerInput {
    // Directional
    pub forward: bool,
    pub backward: bool,
    pub left: bool,
    pub right: bool,
    // Action
    pub jump: bool,
    pub toggle_view: bool,
}

impl Default for PlayerInput {
    /// All flags start cleared.
    fn default() -> (r: Self)
        ensures
            !r.forward,
            !r.backward,
            !r.left,
            !r.right,
            !r.jump,
            !r.toggle_view,
    {
        PlayerInput {
            forward: false,
            backward: false,
            left: false,
            right: false,
            jump: false,
            toggle_view: false,
        }
    }
}

/// What the keyboard reports for one tick: the held movement keys and the
/// edge-triggered view toggle (true only on the tick its key went down).
pub struct KeyboardSnapshot {
    pub forward: bool,
    pub backward: bool,
    pub left: bool,
    pub right: bool,
    pub jump: bool,
    pub toggle_view_just_pressed: bool,
}

/// Refresh the input snapshot from the keyboard. While input is disabled
/// the snapshot keeps its previous values.
pub fn update_input(input_enabled: &InputEnabled, keys: &KeyboardSnapshot, input: &mut PlayerInput)
    ensures
        input_enabled.0 ==> final (input).forward == keys.forward
            && final (input).backward == keys.backward && final (input).left == keys.left
            && final (input).right == keys.right && final (input).jump == keys.jump
            && final (input).toggle_view == keys.toggle_view_just_pressed,
        !input_enabled.0 ==> *final (input) == *old(input),
{
    if !input_enabled.0 {
        return ;
    }
    input.forward = keys.forward;
    input.backward = keys.backward;
    input.left = keys.left;
    input.right = keys.right;
    input.jump = keys.jump;
    input.toggle_view = keys.toggle_view_just_pressed;
}

/// What the window layer must do with the cursor after a tick.
pub enum CursorCommand {
    /// Grab the cursor and hide it.
    Lock,
    /// Release the cursor and show it.
    Release,
    /// Leave the cursor as it is.
    Keep,
}

/// Cursor-lock and input-enable transitions: a primary click locks the
/// cursor and enables input; an escape press releases it and disables
/// input. When both arrive in one tick the release wins, since it is
/// applied second.
pub fn update_cursor(input_enabled: &mut InputEnabled, click_just_pressed: bool, escape_just_pressed: bool) -> (cmd:
    CursorCommand)
    ensures
        escape_just_pressed ==> !final (input_enabled).0 && cmd == CursorCommand::Release,
        !escape_just_pressed && click_just_pressed ==> final (input_enabled).0 && cmd
            == CursorCommand::Lock,
        !escape_just_pressed && !click_just_pressed ==> final (input_enabled).0 == old(
            input_enabled,
        ).0 && cmd == CursorCommand::Keep,
{
    let mut cmd = CursorCommand::Keep;
    if click_just_pressed {
        input_enabled.0 = true;
        cmd = CursorCommand::Lock;
    }
    if escape_just_pressed {
        input_enabled.0 = false;
        cmd = CursorCommand::Release;
    }
    cmd
}

} // verus!
