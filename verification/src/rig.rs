//! The top-level rig controller: it owns the optional character target
//! and camera pivot, and runs the fixed per-tick pipeline — resolve
//! input, snap the desired look, smooth the facing, translate, copy
//! the character's position into the pivot, then rotate the pivot from
//! mouse and keyboard. A step whose singleton state is absent is a
//! no-op for the tick.

use vstd::arithmetic::div_mod::{lemma_div_is_ordered, lemma_mod_bound,
    lemma_mod_multiples_vanish, lemma_small_mod};
use vstd::arithmetic::mul::lemma_mul_inequality;
use vstd::math::abs;
use vstd::prelude::*;
use crate::angle::{norm360, rotate_towards_spec};
use crate::character::{move_forward_spec, smooth_facing_spec, update_look_spec,
    ThirdPersCameraTarget};
use crate::geom::{offset_bounded, rotate_x, rotate_x_spec, rotate_y, rotate_y_spec,
    step_headroom, Vec3Fx, MAX_STEP_MICRO, OFFSET_LIMIT_MICRO};
use crate::input::{camera_key_spec, deltas_bounded, direction_command_is_pressed,
    direction_command_spec, sum_dx, sum_dy, HeldKeys, MouseDelta};
use crate::pivot::{keyboard_control_spec, mouse_control_spec, mouse_turn_mag, mouse_turn_spec,
    ThirdPersCameraPivot};
use crate::settings::{UserSettings, CAMERA_SPEED_MDEG_PER_S, CHAR_TURN_SPEED_MDEG_PER_S,
    MOUSE_SPEED_MDEG_PER_COUNT_S, WALK_SPEED_MICRO_PER_S};

verus! {

/// Longest tick accepted by the movement step, in microseconds; keeps
/// one tick's walking distance within `MAX_STEP_MICRO`.
pub const MAX_TICK_US: u64 = 100_000_000_000;

/// A turn budget for one bounded rotation step: rate times elapsed
/// time, saturated at a half turn — the shorter arc is never longer,
/// so saturation never changes where the step ends.
pub open spec fn turn_step_spec(speed: int, dt_us: int) -> int {
    let s = (speed * dt_us) / 1_000_000;
    if s > 180_000 {
        180_000
    } else {
        s
    }
}

/// A free-running turn for one tick: rate times elapsed time, reduced
/// into a single turn.
pub open spec fn nudge_step_spec(speed: int, dt_us: int) -> int {
    ((speed * dt_us) / 1_000_000) % 360_000
}

/// One tick's walking distance in micro-units.
pub open spec fn walk_dist_spec(dt_us: int) -> int {
    (WALK_SPEED_MICRO_PER_S * dt_us) / 1_000_000
}

/// Saturating the turn budget at a half turn does not change where a
/// bounded rotation step ends, because no shorter arc exceeds a half
/// turn.
pub proof fn lemma_turn_step_saturates(cur: int, tgt: int, speed: int, dt_us: int)
    requires
        0 <= cur < 360_000,
        0 <= tgt < 360_000,
        0 <= speed,
        0 <= dt_us,
    ensures
        rotate_towards_spec(cur, tgt, turn_step_spec(speed, dt_us)) == rotate_towards_spec(
            cur,
            tgt,
            (speed * dt_us) / 1_000_000,
        ),
{
    let raw = (speed * dt_us) / 1_000_000;
    assert(speed * dt_us >= 0) by (nonlinear_arith)
        requires 0 <= speed && 0 <= dt_us,
    ;
    lemma_div_is_ordered(0, speed * dt_us, 1_000_000);
}

/// Rate times elapsed time, saturated at a half turn.
pub fn turn_step(speed: u32, dt_us: u64) -> (s: u32)
    ensures
        s == turn_step_spec(speed as int, dt_us as int),
        s <= 180_000,
{
    assert(speed as int * dt_us as int <= 4_294_967_295 * 18_446_744_073_709_551_615)
        by (nonlinear_arith)
        requires speed <= 4_294_967_295u32 && dt_us <= 18_446_744_073_709_551_615u64,
    ;
    let prod: u128 = speed as u128 * dt_us as u128;
    let q: u128 = prod / 1_000_000;
    if q > 180_000 {
        180_000
    } else {
        q as u32
    }
}

/// Rate times elapsed time, reduced into a single turn.
pub fn nudge_step(speed: u32, dt_us: u64) -> (s: u32)
    ensures
        s == nudge_step_spec(speed as int, dt_us as int),
        s < 360_000,
{
    assert(speed as int * dt_us as int <= 4_294_967_295 * 18_446_744_073_709_551_615)
        by (nonlinear_arith)
        requires speed <= 4_294_967_295u32 && dt_us <= 18_446_744_073_709_551_615u64,
    ;
    let prod: u128 = speed as u128 * dt_us as u128;
    ((prod / 1_000_000) % 360_000) as u32
}

/// One tick's walking distance.
pub fn walk_dist(dt_us: u64) -> (d: u64)
    requires
        dt_us <= MAX_TICK_US,
    ensures
        d == walk_dist_spec(dt_us as int),
        d <= MAX_STEP_MICRO,
{
    let prod: u64 = WALK_SPEED_MICRO_PER_S * dt_us;
    proof {
        lemma_div_is_ordered(prod as int, 1_000_000_000_000_000_000, 1_000_000);
    }
    prod / 1_000_000
}

/// The rig controller: explicit owned singleton state, at most one
/// character target and at most one camera pivot.
#[derive(Debug)]
pub struct Rig {
    pub character: Option<ThirdPersCameraTarget>,
    pub pivot: Option<ThirdPersCameraPivot>,
    pub settings: UserSettings,
}

impl Rig {
    pub open spec fn wf(self) -> bool {
        &&& (self.character is Some ==> self.character->0.wf())
        &&& (self.pivot is Some ==> self.pivot->0.wf())
    }

    /// An empty rig: nothing spawned yet, every step a no-op.
    pub fn new(settings: UserSettings) -> (r: Rig)
        ensures
            r.wf(),
            r.character is None,
            r.pivot is None,
            r.settings == settings,
    {
        Rig { character: None, pivot: None, settings }
    }

    /// Scene setup: spawns the character one and a half units above
    /// the origin facing the reference direction, and the pivot at the
    /// origin with no rotation. Both persist for the process lifetime.
    pub fn setup_scene(settings: UserSettings) -> (r: Rig)
        ensures
            r.wf(),
            r.character == Some(ThirdPersCameraTarget {
                position: Vec3Fx { x: 0, y: 1_500_000, z: 0 },
                facing: crate::angle::Angle { mdeg: 0 },
                look_dir: crate::angle::Angle { mdeg: 0 },
            }),
            r.pivot == Some(ThirdPersCameraPivot {
                position: Vec3Fx { x: 0, y: 0, z: 0 },
                yaw: crate::angle::Angle { mdeg: 0 },
                pitch: crate::angle::Angle { mdeg: 0 },
            }),
            r.settings == settings,
    {
        Rig {
            character: Some(ThirdPersCameraTarget {
                position: Vec3Fx { x: 0, y: 1_500_000, z: 0 },
                facing: crate::angle::Angle { mdeg: 0 },
                look_dir: crate::angle::Angle { mdeg: 0 },
            }),
            pivot: Some(ThirdPersCameraPivot {
                position: Vec3Fx { x: 0, y: 0, z: 0 },
                yaw: crate::angle::Angle { mdeg: 0 },
                pitch: crate::angle::Angle { mdeg: 0 },
            }),
            settings,
        }
    }
}

/// Where the camera node sits in the world: the pivot's position plus
/// the configured base offset, rotated by the pivot's pitch and then
/// its yaw — the explicit composition of the pivot's transform with
/// the camera's fixed local offset.
pub open spec fn camera_world_spec(p: ThirdPersCameraPivot, offset: Vec3Fx) -> Vec3Fx {
    let turned = rotate_y_spec(rotate_x_spec(offset, p.pitch.mdeg as int), p.yaw.mdeg as int);
    Vec3Fx {
        x: (p.position.x + turned.x) as i64,
        y: (p.position.y + turned.y) as i64,
        z: (p.position.z + turned.z) as i64,
    }
}

/// True when the pivot's position leaves room to add a rotated camera
/// offset to every coordinate.
pub open spec fn camera_headroom(pos: Vec3Fx) -> bool {
    &&& pos.x + OFFSET_LIMIT_MICRO <= i64::MAX && pos.x - OFFSET_LIMIT_MICRO >= i64::MIN
    &&& pos.y + OFFSET_LIMIT_MICRO <= i64::MAX && pos.y - OFFSET_LIMIT_MICRO >= i64::MIN
    &&& pos.z + OFFSET_LIMIT_MICRO <= i64::MAX && pos.z - OFFSET_LIMIT_MICRO >= i64::MIN
}

impl Rig {
    /// Computes the camera node's world position on demand: the pivot
    /// parents a rigidly offset camera, so the position is the pivot's
    /// plus its rotation applied to the configured base offset. With
    /// no pivot spawned there is no camera position.
    pub fn camera_world_position(&self) -> (r: Option<Vec3Fx>)
        requires
            self.wf(),
            offset_bounded(
                self.settings.camera_settings.translation,
                OFFSET_LIMIT_MICRO as int / 4,
            ),
            self.pivot is Some ==> camera_headroom(self.pivot->0.position),
        ensures
            r is Some <==> self.pivot is Some,
            self.pivot is Some ==> r->0 == camera_world_spec(
                self.pivot->0,
                self.settings.camera_settings.translation,
            ),
    {
        match &self.pivot {
            Some(p) => {
                let offset = self.settings.camera_settings.translation;
                let tilted = rotate_x(offset, p.pitch);
                let turned = rotate_y(tilted, p.yaw);
                Some(Vec3Fx {
                    x: p.position.x + turned.x,
                    y: p.position.y + turned.y,
                    z: p.position.z + turned.z,
                })
            },
            None => None,
        }
    }
}

/// Input resolution stage: snaps the character's desired look to the
/// command the held movement keys resolve to, in the camera pivot's
/// planar basis; a no-op when character or pivot is absent.
pub open spec fn spec_update_look(rig: Rig, keys: HeldKeys) -> Rig {
    match (rig.character, rig.pivot) {
        (Some(c), Some(p)) => Rig {
            character: Some(
                update_look_spec(c, p.yaw.mdeg as int, keys, rig.settings.mouse_keyboard_keymap),
            ),
            ..rig
        },
        _ => rig,
    }
}

/// Smoothing stage: the facing advances toward the desired look by the
/// turn rate times the elapsed time.
pub open spec fn spec_smooth(rig: Rig, dt_us: int) -> Rig {
    match rig.character {
        Some(c) => Rig {
            character: Some(
                smooth_facing_spec(c, turn_step_spec(CHAR_TURN_SPEED_MDEG_PER_S as int, dt_us)),
            ),
            ..rig
        },
        None => rig,
    }
}

/// Movement stage: the character walks along its current facing.
pub open spec fn spec_move(rig: Rig, dt_us: int) -> Rig {
    match rig.character {
        Some(c) => Rig { character: Some(move_forward_spec(c, walk_dist_spec(dt_us))), ..rig },
        None => rig,
    }
}

/// Position sync stage: the pivot's position becomes the character's.
pub open spec fn spec_inherit(rig: Rig) -> Rig {
    match (rig.character, rig.pivot) {
        (Some(c), Some(p)) => Rig {
            pivot: Some(ThirdPersCameraPivot { position: c.position, ..p }),
            ..rig
        },
        _ => rig,
    }
}

/// Mouse camera stage: yaw and pitch turn against the summed deltas.
pub open spec fn spec_mouse(rig: Rig, deltas: Seq<MouseDelta>, dt_us: int) -> Rig {
    match rig.pivot {
        Some(p) => Rig {
            pivot: Some(mouse_control_spec(p, sum_dx(deltas), sum_dy(deltas), dt_us)),
            ..rig
        },
        None => rig,
    }
}

/// Keyboard camera stage: each held camera key nudges yaw or pitch.
pub open spec fn spec_keyboard_camera(rig: Rig, keys: HeldKeys, dt_us: int) -> Rig {
    match rig.pivot {
        Some(p) => Rig {
            pivot: Some(
                keyboard_control_spec(
                    p,
                    keys,
                    rig.settings.mouse_keyboard_keymap,
                    nudge_step_spec(CAMERA_SPEED_MDEG_PER_S as int, dt_us),
                ),
            ),
            ..rig
        },
        None => rig,
    }
}

/// One full tick: the orientation and movement block runs only while a
/// movement key is held; the pivot then inherits the character's
/// position and takes its own camera input.
pub open spec fn spec_tick(rig: Rig, keys: HeldKeys, deltas: Seq<MouseDelta>, dt_us: int) -> Rig {
    let moved = if direction_command_spec(keys, rig.settings.mouse_keyboard_keymap) {
        spec_move(spec_smooth(spec_update_look(rig, keys), dt_us), dt_us)
    } else {
        rig
    };
    spec_keyboard_camera(spec_mouse(spec_inherit(moved), deltas, dt_us), keys, dt_us)
}

/// The rig after `n` full ticks with the same input snapshot each
/// tick.
pub open spec fn spec_ticks(
    rig: Rig,
    keys: HeldKeys,
    deltas: Seq<MouseDelta>,
    dt_us: int,
    n: nat,
) -> Rig
    decreases n,
{
    if n == 0 {
        rig
    } else {
        spec_ticks(spec_tick(rig, keys, deltas, dt_us), keys, deltas, dt_us, (n - 1) as nat)
    }
}

/// With no movement key held, running the full tick pipeline any
/// number of times leaves the character — position, facing and
/// desired look — exactly unchanged.
pub proof fn lemma_idle_ticks_freeze_character(
    rig: Rig,
    keys: HeldKeys,
    deltas: Seq<MouseDelta>,
    dt_us: int,
    n: nat,
)
    requires
        !direction_command_spec(keys, rig.settings.mouse_keyboard_keymap),
    ensures
        spec_ticks(rig, keys, deltas, dt_us, n).character == rig.character,
        spec_ticks(rig, keys, deltas, dt_us, n).settings == rig.settings,
    decreases n,
{
    if n > 0 {
        let next = spec_tick(rig, keys, deltas, dt_us);
        assert(next.character == rig.character);
        assert(next.settings == rig.settings);
        lemma_idle_ticks_freeze_character(next, keys, deltas, dt_us, (n - 1) as nat);
    }
}

/// A tick whose summed mouse deltas are zero, with no camera key
/// held, leaves the pivot's rotation exactly unchanged.
pub proof fn lemma_quiet_camera_tick_keeps_rotation(
    rig: Rig,
    keys: HeldKeys,
    deltas: Seq<MouseDelta>,
    dt_us: int,
)
    requires
        rig.pivot is Some ==> rig.pivot->0.wf(),
        sum_dx(deltas) == 0,
        sum_dy(deltas) == 0,
        !camera_key_spec(keys, rig.settings.mouse_keyboard_keymap),
    ensures
        spec_tick(rig, keys, deltas, dt_us).pivot is Some <==> rig.pivot is Some,
        rig.pivot is Some ==> spec_tick(rig, keys, deltas, dt_us).pivot->0.yaw
            == rig.pivot->0.yaw,
        rig.pivot is Some ==> spec_tick(rig, keys, deltas, dt_us).pivot->0.pitch
            == rig.pivot->0.pitch,
{
    assert(mouse_turn_spec(0, MOUSE_SPEED_MDEG_PER_COUNT_S as int, dt_us) == 0) by {
        assert(abs(0int) == 0);
        assert(abs(0int) * (MOUSE_SPEED_MDEG_PER_COUNT_S as int) * dt_us == 0) by (nonlinear_arith)
            requires abs(0int) == 0,
        ;
        assert((0int / 1_000_000) % 360_000 == 0);
    }
}

/// One tick's effect on the pivot's yaw under a steady rightward
/// mouse: the yaw turns clockwise by exactly the per-tick magnitude.
proof fn lemma_steady_mouse_one_tick(rig: Rig, keys: HeldKeys, deltas: Seq<MouseDelta>, dt_us: int)
    requires
        rig.pivot is Some,
        rig.pivot->0.yaw.mdeg < 360_000,
        rig.pivot->0.pitch.mdeg < 360_000,
        sum_dx(deltas) >= 0,
        !camera_key_spec(keys, rig.settings.mouse_keyboard_keymap),
    ensures
        spec_tick(rig, keys, deltas, dt_us).pivot is Some,
        spec_tick(rig, keys, deltas, dt_us).pivot->0.yaw.mdeg == norm360(
            rig.pivot->0.yaw.mdeg - mouse_turn_mag(
                sum_dx(deltas),
                MOUSE_SPEED_MDEG_PER_COUNT_S as int,
                dt_us,
            ),
        ),
        spec_tick(rig, keys, deltas, dt_us).pivot->0.yaw.mdeg < 360_000,
        spec_tick(rig, keys, deltas, dt_us).pivot->0.pitch.mdeg < 360_000,
        spec_tick(rig, keys, deltas, dt_us).settings == rig.settings,
{
    let m = mouse_turn_mag(sum_dx(deltas), MOUSE_SPEED_MDEG_PER_COUNT_S as int, dt_us);
    assert(0 <= m < 360_000) by {
        lemma_mod_bound(
            (abs(sum_dx(deltas)) * (MOUSE_SPEED_MDEG_PER_COUNT_S as int) * dt_us) / 1_000_000,
            360_000,
        );
    }
    assert(mouse_turn_spec(sum_dx(deltas), MOUSE_SPEED_MDEG_PER_COUNT_S as int, dt_us) == -m);
}

/// Under a sustained rightward mouse (a positive summed horizontal
/// delta each tick, no camera key held), the pivot's yaw after `n`
/// ticks is exactly the starting yaw minus `n` per-tick turns, reduced
/// into a single turn: the heading descends monotonically in the
/// clockwise direction, one turn magnitude per tick.
pub proof fn lemma_sustained_mouse_yaw(
    rig: Rig,
    keys: HeldKeys,
    deltas: Seq<MouseDelta>,
    dt_us: int,
    n: nat,
)
    requires
        rig.pivot is Some,
        rig.pivot->0.yaw.mdeg < 360_000,
        rig.pivot->0.pitch.mdeg < 360_000,
        sum_dx(deltas) >= 0,
        !camera_key_spec(keys, rig.settings.mouse_keyboard_keymap),
    ensures
        ({
            let m = mouse_turn_mag(sum_dx(deltas), MOUSE_SPEED_MDEG_PER_COUNT_S as int, dt_us);
            let after = spec_ticks(rig, keys, deltas, dt_us, n);
            &&& after.pivot is Some
            &&& after.pivot->0.yaw.mdeg == (rig.pivot->0.yaw.mdeg - n * m) % 360_000
        }),
    decreases n,
{
    let y0 = rig.pivot->0.yaw.mdeg as int;
    let m = mouse_turn_mag(sum_dx(deltas), MOUSE_SPEED_MDEG_PER_COUNT_S as int, dt_us);
    lemma_mod_bound(
        (abs(sum_dx(deltas)) * (MOUSE_SPEED_MDEG_PER_COUNT_S as int) * dt_us) / 1_000_000,
        360_000,
    );
    if n == 0 {
        assert(n * m == 0) by (nonlinear_arith)
            requires n == 0,
        ;
        lemma_small_mod(rig.pivot->0.yaw.mdeg as nat, 360_000nat);
    } else {
        let next = spec_tick(rig, keys, deltas, dt_us);
        lemma_steady_mouse_one_tick(rig, keys, deltas, dt_us);
        lemma_sustained_mouse_yaw(next, keys, deltas, dt_us, (n - 1) as nat);
        let y1 = next.pivot->0.yaw.mdeg as int;
        assert(y1 == norm360(y0 - m));
        assert((n - 1) * m == n * m - m) by (nonlinear_arith);
        if y0 - m >= 0 {
            assert(y1 == y0 - m);
            assert(y1 - (n - 1) * m == y0 - n * m);
        } else {
            assert(y1 == y0 - m + 360_000);
            assert(y1 - (n - 1) * m == (y0 - n * m) + 360_000);
            lemma_mod_multiples_vanish(1, y0 - n * m, 360_000);
        }
    }
}

/// More ticks of the sustained mouse never turn the unwrapped heading
/// back: the descent the sustained-mouse law describes is monotone.
pub proof fn lemma_unwrapped_yaw_monotone(y0: int, m: int, k1: nat, k2: nat)
    requires
        0 <= m,
        k1 <= k2,
    ensures
        y0 - k2 * m <= y0 - k1 * m,
{
    lemma_mul_inequality(k1 as int, k2 as int, m);
}

impl Rig {
    /// Runs the fixed per-tick pipeline in order: input resolution,
    /// desired-look snap, bounded-step facing rotation, translation
    /// along the new facing, pivot position sync, then the pivot's
    /// mouse and keyboard rotation. Immediately after the sync the
    /// pivot's position equals the character's, and camera rotation
    /// never moves it again within the tick.
    pub fn tick(&mut self, keys: &HeldKeys, deltas: &Vec<MouseDelta>, dt_us: u64)
        requires
            old(self).wf(),
            deltas_bounded(deltas@),
            dt_us <= MAX_TICK_US,
            old(self).character is Some ==> step_headroom(old(self).character->0.position),
        ensures
            final(self).wf(),
            *final(self) == spec_tick(*old(self), *keys, deltas@, dt_us as int),
            final(self).settings == old(self).settings,
            old(self).character is Some && old(self).pivot is Some ==> {
                &&& final(self).character is Some
                &&& final(self).pivot is Some
                &&& final(self).pivot->0.position == final(self).character->0.position
            },
    {
        let km = self.settings.mouse_keyboard_keymap;
        if direction_command_is_pressed(keys, &km) {
            if self.pivot.is_some() {
                let basis = match &self.pivot {
                    Some(p) => p.yaw,
                    None => crate::angle::Angle { mdeg: 0 },
                };
                if let Some(c) = &mut self.character {
                    c.update_target_look(basis, keys, &km);
                }
            }
            let step = turn_step(CHAR_TURN_SPEED_MDEG_PER_S, dt_us);
            if let Some(c) = &mut self.character {
                c.sync_target_with_look(step);
            }
            let dist = walk_dist(dt_us);
            if let Some(c) = &mut self.character {
                c.character_keyboard_control(dist);
            }
        }
        if self.character.is_some() {
            let target_position = match &self.character {
                Some(c) => c.position,
                None => Vec3Fx { x: 0, y: 0, z: 0 },
            };
            if let Some(p) = &mut self.pivot {
                p.camera_pivot_inherit_cube_translation(target_position);
            }
        }
        if let Some(p) = &mut self.pivot {
            p.mouse_camera_control(deltas, dt_us);
        }
        let cam_step = nudge_step(CAMERA_SPEED_MDEG_PER_S, dt_us);
        if let Some(p) = &mut self.pivot {
            p.keyboard_camera_control(keys, &km, cam_step);
        }
    }
}

} // verus!
