//! Keyboard decisions of the orthographic camera rig: Q/E rotate the view a
//! quarter turn, WASD pans, Shift pans faster.

use vstd::prelude::*;

verus! {

/// The camera keys this frame: the rotation keys as "just pressed", the pan
/// and Shift keys as "held".
#[derive(Clone, Copy, Debug, Default, PartialEq, Eq, Structural)]
pub struct CameraKeys {
    /// Q was just pressed.
    pub rotate_counter_clockwise: bool,
    /// E was just pressed.
    pub rotate_clockwise: bool,
    /// W is held.
    pub pan_up: bool,
    /// S is held.
    pub pan_down: bool,
    /// D is held.
    pub pan_right: bool,
    /// A is held.
    pub pan_left: bool,
    /// Left Shift is held.
    pub shift_left: bool,
    /// Right Shift is held.
    pub shift_right: bool,
}

/// What the keys ask of the camera this frame.
#[derive(Clone, Copy, Debug, PartialEq, Eq, Structural)]
pub struct CameraCommand {
    /// Step the target yaw a quarter turn counter-clockwise (applied first).
    pub turn_counter_clockwise: bool,
    /// Step the target yaw a quarter turn clockwise (applied second).
    pub turn_clockwise: bool,
    /// Pan along the screen's right direction: -1, 0 or 1.
    pub pan_right: i8,
    /// Pan along the screen's up direction (away from the camera): -1, 0 or 1.
    pub pan_away: i8,
    /// Pan at the Shift speed.
    pub fast: bool,
}

pub open spec fn key_value(held: bool) -> int {
    if held {
        1
    } else {
        0
    }
}

/// The camera command for this frame's keys: W minus S pans away, D minus A
/// pans right, either Shift key pans fast, Q and E each step the rotation
/// target.
pub open spec fn camera_command_spec(keys: CameraKeys) -> CameraCommand {
    CameraCommand {
        turn_counter_clockwise: keys.rotate_counter_clockwise,
        turn_clockwise: keys.rotate_clockwise,
        pan_right: (key_value(keys.pan_right) - key_value(keys.pan_left)) as i8,
        pan_away: (key_value(keys.pan_up) - key_value(keys.pan_down)) as i8,
        fast: keys.shift_left || keys.shift_right,
    }
}

/// Decides the camera command for this frame's keys.
pub fn camera_command(keys: CameraKeys) -> (c: CameraCommand)
    ensures
        c == camera_command_spec(keys),
{
    let mut away: i8 = 0;
    if keys.pan_up {
        away = away + 1;
    }
    if keys.pan_down {
        away = away - 1;
    }
    let mut right: i8 = 0;
    if keys.pan_right {
        right = right + 1;
    }
    if keys.pan_left {
        right = right - 1;
    }
    CameraCommand {
        turn_counter_clockwise: keys.rotate_counter_clockwise,
        turn_clockwise: keys.rotate_clockwise,
        pan_right: right,
        pan_away: away,
        fast: keys.shift_left || keys.shift_right,
    }
}

/// Opposite pan keys cancel, and each pan component is -1, 0 or 1.
pub proof fn law_opposite_pan_keys_cancel(keys: CameraKeys)
    ensures
        -1 <= camera_command_spec(keys).pan_away <= 1,
        -1 <= camera_command_spec(keys).pan_right <= 1,
        keys.pan_up == keys.pan_down ==> camera_command_spec(keys).pan_away == 0,
        keys.pan_right == keys.pan_left ==> camera_command_spec(keys).pan_right == 0,
{
}

/// Either Shift key makes the pan fast, and only a Shift key does: the
/// command pans fast exactly when Left Shift or Right Shift is held, whatever
/// the other keys.
pub proof fn law_either_shift_pans_fast(keys: CameraKeys)
    ensures
        keys.shift_left ==> camera_command_spec(keys).fast,
        keys.shift_right ==> camera_command_spec(keys).fast,
        !keys.shift_left && !keys.shift_right ==> !camera_command_spec(keys).fast,
{
}

/// W pans away and S towards the camera, D right and A left; each pan
/// component is 1, -1 or 0 by exactly these keys, and Q and E each ask for
/// their own quarter turn.
pub proof fn law_keys_map_to_their_moves(keys: CameraKeys)
    ensures
        camera_command_spec(keys).pan_away == 1 <==> keys.pan_up && !keys.pan_down,
        camera_command_spec(keys).pan_away == -1 <==> !keys.pan_up && keys.pan_down,
        camera_command_spec(keys).pan_right == 1 <==> keys.pan_right && !keys.pan_left,
        camera_command_spec(keys).pan_right == -1 <==> !keys.pan_right && keys.pan_left,
        camera_command_spec(keys).turn_counter_clockwise == keys.rotate_counter_clockwise,
        camera_command_spec(keys).turn_clockwise == keys.rotate_clockwise,
{
}

} // verus!
