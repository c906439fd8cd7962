//! Static configuration: the keymap from logical actions to key codes,
//! the camera's base offset, and the fixed rig speeds. Settings are
//! built once with defaults and never change during simulation.

use vstd::prelude::*;
use crate::geom::Vec3Fx;

verus! {

/// Key codes are plain numbers; letter keys use their ASCII value.
pub const KEY_CODE_W: u32 = 87;

pub const KEY_CODE_S: u32 = 83;

pub const KEY_CODE_A: u32 = 65;

pub const KEY_CODE_D: u32 = 68;

pub const KEY_CODE_ARROW_UP: u32 = 128;

pub const KEY_CODE_ARROW_DOWN: u32 = 129;

pub const KEY_CODE_ARROW_LEFT: u32 = 130;

pub const KEY_CODE_ARROW_RIGHT: u32 = 131;

/// Walking speed: 10 world units per second, in micro-units.
pub const WALK_SPEED_MICRO_PER_S: u64 = 10_000_000;

/// Character turn rate: 5 radians per second, in millidegrees.
pub const CHAR_TURN_SPEED_MDEG_PER_S: u32 = 286_479;

/// Keyboard camera nudge rate: 1 radian per second, in millidegrees.
pub const CAMERA_SPEED_MDEG_PER_S: u32 = 57_296;

/// Mouse sensitivity: 0.8 radians per count per second, in millidegrees.
pub const MOUSE_SPEED_MDEG_PER_COUNT_S: u32 = 45_837;

/// Where the camera node sits relative to its pivot before any motion.
#[derive(Clone, Copy, Debug, PartialEq, Eq, Structural)]
pub struct CameraSettings {
    pub translation: Vec3Fx,
}

impl Default for CameraSettings {
    /// Ten units behind the pivot, on the positive `z` side.
    fn default() -> (r: CameraSettings)
        ensures
            r.translation == (Vec3Fx { x: 0, y: 0, z: 10_000_000 }),
    {
        CameraSettings { translation: Vec3Fx { x: 0, y: 0, z: 10_000_000 } }
    }
}

/// The mapping from logical movement and camera actions to key codes.
#[derive(Clone, Copy, Debug, PartialEq, Eq, Structural)]
pub struct UserKeymap {
    pub forward: u32,
    pub back: u32,
    pub left: u32,
    pub right: u32,
    pub camera_up: u32,
    pub camera_down: u32,
    pub camera_left: u32,
    pub camera_right: u32,
}

impl Default for UserKeymap {
    /// Movement on the W, S, A and D keys; the camera on the arrows.
    fn default() -> (r: UserKeymap)
        ensures
            r.forward == KEY_CODE_W,
            r.back == KEY_CODE_S,
            r.left == KEY_CODE_A,
            r.right == KEY_CODE_D,
            r.camera_up == KEY_CODE_ARROW_UP,
            r.camera_down == KEY_CODE_ARROW_DOWN,
            r.camera_left == KEY_CODE_ARROW_LEFT,
            r.camera_right == KEY_CODE_ARROW_RIGHT,
    {
        UserKeymap {
            forward: KEY_CODE_W,
            back: KEY_CODE_S,
            left: KEY_CODE_A,
            right: KEY_CODE_D,
            camera_up: KEY_CODE_ARROW_UP,
            camera_down: KEY_CODE_ARROW_DOWN,
            camera_left: KEY_CODE_ARROW_LEFT,
            camera_right: KEY_CODE_ARROW_RIGHT,
        }
    }
}

/// All process-wide configuration, loaded once at startup.
#[derive(Clone, Copy, Debug, PartialEq, Eq, Structural)]
pub struct UserSettings {
    pub camera_settings: CameraSettings,
    pub mouse_keyboard_keymap: UserKeymap,
}

impl Default for UserSettings {
    fn default() -> (r: UserSettings)
        ensures
            r.camera_settings.translation == (Vec3Fx { x: 0, y: 0, z: 10_000_000 }),
            r.mouse_keyboard_keymap == (UserKeymap {
                forward: KEY_CODE_W,
                back: KEY_CODE_S,
                left: KEY_CODE_A,
                right: KEY_CODE_D,
                camera_up: KEY_CODE_ARROW_UP,
                camera_down: KEY_CODE_ARROW_DOWN,
                camera_left: KEY_CODE_ARROW_LEFT,
                camera_right: KEY_CODE_ARROW_RIGHT,
            }),
    {
        UserSettings {
            camera_settings: CameraSettings::default(),
            mouse_keyboard_keymap: UserKeymap::default(),
        }
    }
}

} // verus!
