//! The character target: its world position, its current facing, and
//! the desired look direction that the facing chases. Movement is
//! planar, so both directions are headings about the world up axis and
//! the facing's up vector is always world-up.

use vstd::math::abs;
use vstd::prelude::*;
use crate::angle::{diff_spec, iter_rotate, lemma_bounded_rotation_time_step_invariant,
    rotate_towards_spec, wrapped, Angle};
use crate::geom::{step_headroom, translate_along, translate_along_spec, Vec3Fx, MAX_STEP_MICRO};
use crate::input::{command_offset, command_offset_spec, resolve_command, resolve_command_spec,
    HeldKeys};
use crate::settings::UserKeymap;

verus! {

/// The controlled character: position, facing, and the desired look
/// direction the facing smoothly turns toward.
#[derive(Clone, Copy, Debug, PartialEq, Eq, Structural)]
pub struct ThirdPersCameraTarget {
    /// World-space location, owned exclusively by the movement step.
    pub position: Vec3Fx,
    /// Current planar orientation; mutated only by the smoothing step.
    pub facing: Angle,
    /// Normalized target direction; mutated only by input resolution.
    pub look_dir: Angle,
}

impl ThirdPersCameraTarget {
    pub open spec fn wf(self) -> bool {
        self.facing.wf() && self.look_dir.wf()
    }
}

impl Default for ThirdPersCameraTarget {
    /// At the origin, facing the reference direction and desiring to
    /// keep looking there.
    fn default() -> (r: ThirdPersCameraTarget)
        ensures
            r.wf(),
            r.position == (Vec3Fx { x: 0, y: 0, z: 0 }),
            r.facing.mdeg == 0,
            r.look_dir.mdeg == 0,
    {
        ThirdPersCameraTarget {
            position: Vec3Fx { x: 0, y: 0, z: 0 },
            facing: Angle { mdeg: 0 },
            look_dir: Angle { mdeg: 0 },
        }
    }
}

/// What the look update leaves behind: if the held movement keys
/// resolve to a command, the desired look snaps to the command's
/// heading in the given basis; otherwise everything stays.
pub open spec fn update_look_spec(
    t: ThirdPersCameraTarget,
    basis: int,
    keys: HeldKeys,
    km: UserKeymap,
) -> ThirdPersCameraTarget {
    match resolve_command_spec(keys, km) {
        Some(c) => ThirdPersCameraTarget {
            look_dir: Angle { mdeg: wrapped(basis, command_offset_spec(c)) as u32 },
            ..t
        },
        None => t,
    }
}

/// What one smoothing step leaves behind: the facing advances toward
/// the desired look direction by at most `step` millidegrees.
pub open spec fn smooth_facing_spec(t: ThirdPersCameraTarget, step: int) -> ThirdPersCameraTarget {
    ThirdPersCameraTarget {
        facing: Angle {
            mdeg: rotate_towards_spec(t.facing.mdeg as int, t.look_dir.mdeg as int, step) as u32,
        },
        ..t
    }
}

/// What one movement step leaves behind: the position advances `dist`
/// micro-units along the current facing.
pub open spec fn move_forward_spec(t: ThirdPersCameraTarget, dist: int) -> ThirdPersCameraTarget {
    ThirdPersCameraTarget {
        position: translate_along_spec(t.position, t.facing.mdeg as int, dist),
        ..t
    }
}

/// The character after `n` smoothing steps with the same turn budget
/// each.
pub open spec fn iter_smooth(t: ThirdPersCameraTarget, step: int, n: nat) -> ThirdPersCameraTarget
    decreases n,
{
    if n == 0 {
        t
    } else {
        iter_smooth(smooth_facing_spec(t, step), step, (n - 1) as nat)
    }
}

/// Each smoothing step only turns the facing, so `n` steps iterate the
/// bounded rotation on the facing and leave everything else alone.
proof fn lemma_iter_smooth_is_iter_rotate(t: ThirdPersCameraTarget, step: int, n: nat)
    requires
        t.wf(),
        0 <= step,
    ensures
        iter_smooth(t, step, n).wf(),
        iter_smooth(t, step, n) == (ThirdPersCameraTarget {
            facing: Angle {
                mdeg: iter_rotate(t.facing.mdeg as int, t.look_dir.mdeg as int, step, n) as u32,
            },
            ..t
        }),
    decreases n,
{
    if n == 0 {
        assert(iter_smooth(t, step, n) =~= (ThirdPersCameraTarget {
            facing: Angle { mdeg: iter_rotate(t.facing.mdeg as int, t.look_dir.mdeg as int, step, n) as u32 },
            ..t
        }));
    } else {
        lemma_iter_smooth_is_iter_rotate(smooth_facing_spec(t, step), step, (n - 1) as nat);
    }
}

/// Smoothing is time-step-invariant once saturated: with a fixed
/// desired look, `n` smoothing steps with a turn budget of `step` each
/// end at exactly the same character as one smoothing step with the
/// whole budget `n * step`, whenever that budget covers the remaining
/// angle — in both cases the facing arrives exactly at the desired
/// look.
pub proof fn lemma_smoothing_time_step_invariant(t: ThirdPersCameraTarget, step: int, n: nat)
    requires
        t.wf(),
        0 <= step,
        n * step >= abs(diff_spec(t.facing.mdeg as int, t.look_dir.mdeg as int)),
    ensures
        iter_smooth(t, step, n) == smooth_facing_spec(t, n * step),
        iter_smooth(t, step, n).facing == t.look_dir,
{
    lemma_iter_smooth_is_iter_rotate(t, step, n);
    lemma_bounded_rotation_time_step_invariant(
        t.facing.mdeg as int,
        t.look_dir.mdeg as int,
        step,
        n,
    );
}

impl ThirdPersCameraTarget {
    /// Input resolution: snaps the desired look direction to the
    /// heading the held movement keys resolve to, expressed in the
    /// given basis; with no movement key held the previous desired
    /// look is retained. Position and facing are untouched.
    pub fn update_target_look(&mut self, basis: Angle, keys: &HeldKeys, km: &UserKeymap)
        requires
            old(self).wf(),
            basis.wf(),
        ensures
            final(self).wf(),
            *final(self) == update_look_spec(*old(self), basis.mdeg as int, *keys, *km),
    {
        if let Some(c) = resolve_command(keys, km) {
            let off = command_offset(c);
            self.look_dir = basis.add_signed(off);
        }
    }

    /// Smoothing: bounded-step rotation of the facing toward the
    /// desired look direction — the heading never overshoots, and
    /// arrives exactly once `step` covers the remaining angle.
    pub fn sync_target_with_look(&mut self, step: u32)
        requires
            old(self).wf(),
        ensures
            final(self).wf(),
            *final(self) == smooth_facing_spec(*old(self), step as int),
    {
        self.facing = self.facing.rotate_towards(self.look_dir, step);
    }

    /// Movement: walks `dist` micro-units along the current facing,
    /// which was already updated this tick, so movement lags rotation
    /// by at most one tick's worth of turn.
    pub fn character_keyboard_control(&mut self, dist: u64)
        requires
            old(self).wf(),
            dist <= MAX_STEP_MICRO,
            step_headroom(old(self).position),
        ensures
            final(self).wf(),
            *final(self) == move_forward_spec(*old(self), dist as int),
    {
        self.position = translate_along(self.position, self.facing, dist);
    }
}

} // verus!
