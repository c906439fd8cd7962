//! Fixed-point world positions and planar movement. Coordinates are
//! micro-units: one million stands for one world unit. The world is
//! right-handed with the up axis on `y`; the reference facing (a zero
//! heading) points along negative `z`, and a quarter turn to the right
//! points along positive `x`.

use vstd::arithmetic::div_mod::{lemma_div_by_multiple, lemma_div_is_ordered};
use vstd::arithmetic::mul::lemma_mul_inequality;
use vstd::math::abs;
use vstd::prelude::*;
use crate::angle::Angle;
use crate::trig::{cos_fixed, cos_spec, sin_fixed, sin_spec};

verus! {

/// Micro-units per world unit.
pub const COORD_SCALE: u64 = 1_000_000;

/// Largest distance one translation step may cover, in micro-units.
pub const MAX_STEP_MICRO: u64 = 1_000_000_000_000;

/// A world-space point or offset in micro-units.
#[derive(Clone, Copy, Debug, PartialEq, Eq, Structural)]
pub struct Vec3Fx {
    pub x: i64,
    pub y: i64,
    pub z: i64,
}

impl Vec3Fx {
    pub fn new(x: i64, y: i64, z: i64) -> (r: Vec3Fx)
        ensures
            r == (Vec3Fx { x, y, z }),
    {
        Vec3Fx { x, y, z }
    }

    /// The origin.
    pub fn zero() -> (r: Vec3Fx)
        ensures
            r == (Vec3Fx { x: 0, y: 0, z: 0 }),
    {
        Vec3Fx { x: 0, y: 0, z: 0 }
    }
}

/// A unit direction component `c` (scaled by 1_000_000) applied to a
/// nonnegative distance `d`: the product scaled back down, truncated
/// toward zero.
pub open spec fn scaled(c: int, d: int) -> int {
    if c >= 0 {
        (c * d) / 1_000_000
    } else {
        -(((-c) * d) / 1_000_000)
    }
}

/// Multiplies a direction component by a distance and scales back down.
pub fn scale_component(c: i32, d: u64) -> (r: i64)
    requires
        -1_000_000 <= c <= 1_000_000,
        d <= MAX_STEP_MICRO,
    ensures
        r == scaled(c as int, d as int),
        -(d as int) <= r <= d as int,
{
    let mag: u64 = if c >= 0 {
        c as u64
    } else {
        (-c) as u64
    };
    assert(mag * d <= 1_000_000 * d) by {
        lemma_mul_inequality(mag as int, 1_000_000, d as int);
    }
    let q: u64 = (mag * d) / 1_000_000;
    assert(q <= d) by {
        lemma_div_is_ordered(mag as int * d as int, 1_000_000 * d as int, 1_000_000);
        lemma_div_by_multiple(d as int, 1_000_000);
        assert(1_000_000 * d as int == d as int * 1_000_000);
    }
    if c >= 0 {
        q as i64
    } else {
        -(q as i64)
    }
}

/// The `x` part of a unit step along a heading: minus the sine.
pub open spec fn dir_x_spec(yaw: int) -> int {
    -sin_spec(yaw)
}

/// The `z` part of a unit step along a heading: minus the cosine.
pub open spec fn dir_z_spec(yaw: int) -> int {
    -cos_spec(yaw)
}

/// Where a point ends after moving `dist` micro-units along the planar
/// heading `yaw`: `x` and `z` advance by the scaled direction
/// components, the height does not change.
pub open spec fn translate_along_spec(pos: Vec3Fx, yaw: int, dist: int) -> Vec3Fx {
    Vec3Fx {
        x: (pos.x + scaled(dir_x_spec(yaw), dist)) as i64,
        y: pos.y,
        z: (pos.z + scaled(dir_z_spec(yaw), dist)) as i64,
    }
}

/// True when the point has room for one translation step of at most
/// `MAX_STEP_MICRO` in every planar direction.
pub open spec fn step_headroom(pos: Vec3Fx) -> bool {
    &&& pos.x + MAX_STEP_MICRO <= i64::MAX
    &&& pos.x - MAX_STEP_MICRO >= i64::MIN
    &&& pos.z + MAX_STEP_MICRO <= i64::MAX
    &&& pos.z - MAX_STEP_MICRO >= i64::MIN
}

/// Largest coordinate accepted by the rotation helpers, in
/// micro-units; keeps their products within the working range.
pub const OFFSET_LIMIT_MICRO: i64 = 10_000_000_000_000;

/// A signed coordinate times a signed unit component (scaled by
/// 1_000_000), scaled back down, truncated toward zero.
pub open spec fn mul_scale(a: int, c: int) -> int {
    if a * c >= 0 {
        (a * c) / 1_000_000
    } else {
        -((-(a * c)) / 1_000_000)
    }
}

/// Multiplies a signed coordinate by a signed unit component and
/// scales back down; the result is never larger than the coordinate.
pub fn scale_signed(a: i64, c: i32) -> (r: i64)
    requires
        -OFFSET_LIMIT_MICRO <= a <= OFFSET_LIMIT_MICRO,
        -1_000_000 <= c <= 1_000_000,
    ensures
        r == mul_scale(a as int, c as int),
        abs(r as int) <= abs(a as int),
{
    let mag_a: u64 = if a >= 0 {
        a as u64
    } else {
        (-a) as u64
    };
    let mag_c: u64 = if c >= 0 {
        c as u64
    } else {
        (-c) as u64
    };
    assert(mag_a * mag_c <= 10_000_000_000_000 * 1_000_000) by (nonlinear_arith)
        requires mag_a <= 10_000_000_000_000u64 && mag_c <= 1_000_000u64,
    ;
    assert(mag_a * mag_c == abs(a as int * c as int)) by (nonlinear_arith)
        requires
            mag_a == abs(a as int) && mag_c == abs(c as int),
    ;
    let prod: u64 = mag_a * mag_c;
    let q: u64 = prod / 1_000_000;
    assert(q <= mag_a) by {
        lemma_mul_inequality(mag_c as int, 1_000_000, mag_a as int);
        assert(mag_a as int * mag_c as int == mag_c as int * mag_a as int) by (nonlinear_arith);
        lemma_div_is_ordered(prod as int, 1_000_000 * mag_a as int, 1_000_000);
        lemma_div_by_multiple(mag_a as int, 1_000_000);
        assert(1_000_000 * mag_a as int == mag_a as int * 1_000_000);
    }
    let negative: bool = (a < 0) != (c < 0);
    let signed: i64 = if negative {
        -(q as i64)
    } else {
        q as i64
    };
    proof {
        let p = a as int * c as int;
        if negative {
            assert(p <= 0) by (nonlinear_arith)
                requires
                    p == a as int * c as int,
                    (a < 0 && c >= 0) || (a >= 0 && c < 0),
            ;
            assert(prod == -p);
            if p == 0 {
                assert(q == 0int / 1_000_000);
                assert(signed == mul_scale(a as int, c as int));
            } else {
                assert(signed == mul_scale(a as int, c as int));
            }
        } else {
            assert(p >= 0) by (nonlinear_arith)
                requires
                    p == a as int * c as int,
                    (a < 0 && c < 0) || (a >= 0 && c >= 0),
            ;
            assert(prod == p);
            assert(signed == mul_scale(a as int, c as int));
        }
    }
    signed
}

/// A rotation about the `x` axis by a heading `a`, in fixed point:
/// the `y` and `z` parts turn, `x` stays.
pub open spec fn rotate_x_spec(v: Vec3Fx, a: int) -> Vec3Fx {
    Vec3Fx {
        x: v.x,
        y: (mul_scale(v.y as int, cos_spec(a)) - mul_scale(v.z as int, sin_spec(a))) as i64,
        z: (mul_scale(v.y as int, sin_spec(a)) + mul_scale(v.z as int, cos_spec(a))) as i64,
    }
}

/// A rotation about the world up axis by a heading `a`, in fixed
/// point: the `x` and `z` parts turn, the height stays.
pub open spec fn rotate_y_spec(v: Vec3Fx, a: int) -> Vec3Fx {
    Vec3Fx {
        x: (mul_scale(v.x as int, cos_spec(a)) + mul_scale(v.z as int, sin_spec(a))) as i64,
        y: v.y,
        z: (mul_scale(v.z as int, cos_spec(a)) - mul_scale(v.x as int, sin_spec(a))) as i64,
    }
}

/// True when every coordinate is small enough for the rotation
/// helpers.
pub open spec fn offset_bounded(v: Vec3Fx, bound: int) -> bool {
    &&& -bound <= v.x <= bound
    &&& -bound <= v.y <= bound
    &&& -bound <= v.z <= bound
}

/// Rotates an offset about the `x` axis.
pub fn rotate_x(v: Vec3Fx, a: Angle) -> (r: Vec3Fx)
    requires
        a.wf(),
        offset_bounded(v, OFFSET_LIMIT_MICRO as int / 2),
    ensures
        r == rotate_x_spec(v, a.mdeg as int),
        r.x == v.x,
        abs(r.y as int) <= abs(v.y as int) + abs(v.z as int),
        abs(r.z as int) <= abs(v.y as int) + abs(v.z as int),
{
    let s: i32 = sin_fixed(a.mdeg);
    let c: i32 = cos_fixed(a.mdeg);
    Vec3Fx {
        x: v.x,
        y: scale_signed(v.y, c) - scale_signed(v.z, s),
        z: scale_signed(v.y, s) + scale_signed(v.z, c),
    }
}

/// Rotates an offset about the world up axis.
pub fn rotate_y(v: Vec3Fx, a: Angle) -> (r: Vec3Fx)
    requires
        a.wf(),
        offset_bounded(v, OFFSET_LIMIT_MICRO as int / 2),
    ensures
        r == rotate_y_spec(v, a.mdeg as int),
        r.y == v.y,
        abs(r.x as int) <= abs(v.x as int) + abs(v.z as int),
        abs(r.z as int) <= abs(v.x as int) + abs(v.z as int),
{
    let s: i32 = sin_fixed(a.mdeg);
    let c: i32 = cos_fixed(a.mdeg);
    Vec3Fx {
        x: scale_signed(v.x, c) + scale_signed(v.z, s),
        y: v.y,
        z: scale_signed(v.z, c) - scale_signed(v.x, s),
    }
}

/// Moves a point `dist` micro-units along the planar heading `yaw`.
pub fn translate_along(pos: Vec3Fx, yaw: Angle, dist: u64) -> (r: Vec3Fx)
    requires
        yaw.wf(),
        dist <= MAX_STEP_MICRO,
        step_headroom(pos),
    ensures
        r == translate_along_spec(pos, yaw.mdeg as int, dist as int),
        r.x - pos.x <= dist && pos.x - r.x <= dist,
        r.z - pos.z <= dist && pos.z - r.z <= dist,
        r.y == pos.y,
{
    let s: i32 = sin_fixed(yaw.mdeg);
    let c: i32 = cos_fixed(yaw.mdeg);
    let dx: i64 = scale_component(-s, dist);
    let dz: i64 = scale_component(-c, dist);
    Vec3Fx { x: pos.x + dx, y: pos.y, z: pos.z + dz }
}

} // verus!
