//! The camera pivot: a point that always sits at the character's
//! position but whose own rotation is driven independently by mouse
//! and keyboard camera input. The pivot's orientation is a world-up
//! yaw followed by a local pitch, so two wrapped headings describe it
//! completely; the pitch is deliberately not clamped. The actual
//! camera is a rigid child offset from this pivot.

use vstd::math::abs;
use vstd::prelude::*;
use crate::angle::{wrapped, Angle};
use crate::geom::Vec3Fx;
use crate::input::{accumulate_mouse, camera_key_spec, deltas_bounded, sum_dx, sum_dy, HeldKeys,
    MouseDelta};
use crate::settings::{UserKeymap, MOUSE_SPEED_MDEG_PER_COUNT_S};

verus! {

/// The camera pivot: position synchronized to the character, rotation
/// free-running under camera input.
#[derive(Clone, Copy, Debug, PartialEq, Eq, Structural)]
pub struct ThirdPersCameraPivot {
    /// Synchronized every tick to the character's position; the pivot
    /// never translates on its own.
    pub position: Vec3Fx,
    /// Rotation about the world up axis.
    pub yaw: Angle,
    /// Rotation about the pivot's local right axis, applied after the
    /// yaw; unclamped, so the camera may pass the vertical.
    pub pitch: Angle,
}

impl ThirdPersCameraPivot {
    pub open spec fn wf(self) -> bool {
        self.yaw.wf() && self.pitch.wf()
    }
}

impl Default for ThirdPersCameraPivot {
    /// At the origin, with no rotation.
    fn default() -> (r: ThirdPersCameraPivot)
        ensures
            r.wf(),
            r.position == (Vec3Fx { x: 0, y: 0, z: 0 }),
            r.yaw.mdeg == 0,
            r.pitch.mdeg == 0,
    {
        ThirdPersCameraPivot {
            position: Vec3Fx { x: 0, y: 0, z: 0 },
            yaw: Angle { mdeg: 0 },
            pitch: Angle { mdeg: 0 },
        }
    }
}

/// The size of the turn one accumulated mouse delta produces in one
/// tick: its magnitude times sensitivity times elapsed time, reduced
/// into a single turn.
pub open spec fn mouse_turn_mag(delta: int, sens: int, dt_us: int) -> int {
    ((abs(delta) * sens * dt_us) / 1_000_000) % 360_000
}

/// The signed turn one accumulated mouse delta produces in one tick:
/// sensitivity times elapsed time, reduced into a single turn, against
/// the delta's sign — a positive delta turns the heading clockwise.
pub open spec fn mouse_turn_spec(delta: int, sens: int, dt_us: int) -> int {
    let m = mouse_turn_mag(delta, sens, dt_us);
    if delta >= 0 {
        -m
    } else {
        m
    }
}

/// What the mouse contribution leaves behind: yaw and pitch each turn
/// by the reduced product of their accumulated delta, the mouse
/// sensitivity, and the elapsed time.
pub open spec fn mouse_control_spec(
    p: ThirdPersCameraPivot,
    dx: int,
    dy: int,
    dt_us: int,
) -> ThirdPersCameraPivot {
    ThirdPersCameraPivot {
        yaw: Angle {
            mdeg: wrapped(
                p.yaw.mdeg as int,
                mouse_turn_spec(dx, MOUSE_SPEED_MDEG_PER_COUNT_S as int, dt_us),
            ) as u32,
        },
        pitch: Angle {
            mdeg: wrapped(
                p.pitch.mdeg as int,
                mouse_turn_spec(dy, MOUSE_SPEED_MDEG_PER_COUNT_S as int, dt_us),
            ) as u32,
        },
        ..p
    }
}

/// What the keyboard contribution leaves behind: each held camera key
/// independently nudges yaw or pitch by `step`, so opposing keys held
/// together cancel.
pub open spec fn keyboard_control_spec(
    p: ThirdPersCameraPivot,
    keys: HeldKeys,
    km: UserKeymap,
    step: int,
) -> ThirdPersCameraPivot {
    let yaw_off = (if keys.holds(km.camera_right) {
        step
    } else {
        0
    }) - (if keys.holds(km.camera_left) {
        step
    } else {
        0
    });
    let pitch_off = (if keys.holds(km.camera_down) {
        step
    } else {
        0
    }) - (if keys.holds(km.camera_up) {
        step
    } else {
        0
    });
    ThirdPersCameraPivot {
        yaw: Angle { mdeg: wrapped(p.yaw.mdeg as int, yaw_off) as u32 },
        pitch: Angle { mdeg: wrapped(p.pitch.mdeg as int, pitch_off) as u32 },
        ..p
    }
}

/// The signed turn of one accumulated mouse delta, computed exactly as
/// `mouse_turn_spec` states it.
pub fn mouse_turn(delta: i64, sens: u32, dt_us: u64) -> (off: i32)
    requires
        -1_000_000_000_000 <= delta <= 1_000_000_000_000,
        sens <= 1_000_000,
    ensures
        off == mouse_turn_spec(delta as int, sens as int, dt_us as int),
        -360_000 < off < 360_000,
{
    let mag: u64 = if delta >= 0 {
        delta as u64
    } else {
        (-delta) as u64
    };
    assert(mag as int * sens as int <= 1_000_000_000_000_000_000) by (nonlinear_arith)
        requires mag <= 1_000_000_000_000 && sens <= 1_000_000,
    ;
    assert(mag as int * sens as int * dt_us as int
        <= 1_000_000_000_000_000_000 * 18_446_744_073_709_551_615) by (nonlinear_arith)
        requires mag as int * sens as int <= 1_000_000_000_000_000_000
            && 0 <= mag as int * sens as int && dt_us <= 18_446_744_073_709_551_615u64,
    ;
    let prod: u128 = mag as u128 * sens as u128 * dt_us as u128;
    let m: u32 = ((prod / 1_000_000) % 360_000) as u32;
    assert(prod == abs(delta as int) * (sens as int) * (dt_us as int));
    if delta >= 0 {
        -(m as i32)
    } else {
        m as i32
    }
}

impl ThirdPersCameraPivot {
    /// Position sync: unconditionally copies the character's position
    /// into the pivot; one-directional, and the rotation is untouched.
    pub fn camera_pivot_inherit_cube_translation(&mut self, target_position: Vec3Fx)
        requires
            old(self).wf(),
        ensures
            final(self).wf(),
            final(self).position == target_position,
            final(self).yaw == old(self).yaw,
            final(self).pitch == old(self).pitch,
    {
        self.position = target_position;
    }

    /// Mouse contribution: all pointer-motion deltas of the tick are
    /// summed, then yaw and pitch turn against the summed delta,
    /// scaled by sensitivity and elapsed time. A zero summed delta
    /// leaves the rotation unchanged.
    pub fn mouse_camera_control(&mut self, deltas: &Vec<MouseDelta>, dt_us: u64)
        requires
            old(self).wf(),
            deltas_bounded(deltas@),
        ensures
            final(self).wf(),
            *final(self) == mouse_control_spec(
                *old(self),
                sum_dx(deltas@),
                sum_dy(deltas@),
                dt_us as int,
            ),
    {
        let (dx, dy) = accumulate_mouse(deltas);
        let yaw_off = mouse_turn(dx, MOUSE_SPEED_MDEG_PER_COUNT_S, dt_us);
        let pitch_off = mouse_turn(dy, MOUSE_SPEED_MDEG_PER_COUNT_S, dt_us);
        self.yaw = self.yaw.add_signed(yaw_off);
        self.pitch = self.pitch.add_signed(pitch_off);
    }

    /// Keyboard contribution: each held camera key independently
    /// nudges yaw or pitch by `step` millidegrees; keys are checked
    /// independently, so opposing keys cancel.
    pub fn keyboard_camera_control(&mut self, keys: &HeldKeys, km: &UserKeymap, step: u32)
        requires
            old(self).wf(),
            step < 360_000,
        ensures
            final(self).wf(),
            *final(self) == keyboard_control_spec(*old(self), *keys, *km, step as int),
            !camera_key_spec(*keys, *km) ==> *final(self) == *old(self),
    {
        let mut yaw_off: i32 = 0;
        let mut pitch_off: i32 = 0;
        if keys.pressed(km.camera_up) {
            pitch_off = pitch_off - step as i32;
        }
        if keys.pressed(km.camera_down) {
            pitch_off = pitch_off + step as i32;
        }
        if keys.pressed(km.camera_left) {
            yaw_off = yaw_off - step as i32;
        }
        if keys.pressed(km.camera_right) {
            yaw_off = yaw_off + step as i32;
        }
        self.yaw = self.yaw.add_signed(yaw_off);
        self.pitch = self.pitch.add_signed(pitch_off);
    }
}

} // verus!
