//! Planar headings in millidegrees, and the bounded-step rotation that the
//! character's facing uses to chase its desired look direction.

use vstd::math::abs;
use vstd::prelude::*;

verus! {

/// Millidegrees in a full turn.
pub const FULL_TURN_MDEG: u32 = 360_000;

/// Millidegrees in a half turn.
pub const HALF_TURN_MDEG: u32 = 180_000;

/// Brings a value of `(-360_000, 720_000)` into `[0, 360_000)`.
pub open spec fn norm360(v: int) -> int {
    if v < 0 {
        v + 360_000
    } else if v >= 360_000 {
        v - 360_000
    } else {
        v
    }
}

/// The heading reached from `a` by turning `off` millidegrees
/// (counter-clockwise when positive), for `a` in `[0, 360_000)` and
/// `off` in `[-360_000, 360_000]`.
pub open spec fn wrapped(a: int, off: int) -> int {
    norm360(a + off)
}

/// Signed angle of the shorter arc from `from` to `to`, in
/// `(-180_000, 180_000]`; a half turn counts as `+180_000`.
pub open spec fn diff_spec(from: int, to: int) -> int {
    let raw = norm360(to - from);
    if raw > 180_000 {
        raw - 360_000
    } else {
        raw
    }
}

/// One bounded rotation step: move from `cur` toward `tgt` along the
/// shorter arc, by at most `step` millidegrees, never overshooting.
pub open spec fn rotate_towards_spec(cur: int, tgt: int, step: int) -> int {
    let d = diff_spec(cur, tgt);
    if -step <= d <= step {
        tgt
    } else if d >= 0 {
        wrapped(cur, step)
    } else {
        wrapped(cur, -step)
    }
}

/// `n` bounded rotation steps of `step` millidegrees each.
pub open spec fn iter_rotate(cur: int, tgt: int, step: int, n: nat) -> int
    decreases n,
{
    if n == 0 {
        cur
    } else {
        iter_rotate(rotate_towards_spec(cur, tgt, step), tgt, step, (n - 1) as nat)
    }
}

/// A planar heading: millidegrees counter-clockwise (seen from above)
/// from the reference facing, always in `[0, 360_000)`.
#[derive(Clone, Copy, Debug, PartialEq, Eq, Structural)]
pub struct Angle {
    pub mdeg: u32,
}

impl Angle {
    /// Well-formed: within one full turn.
    pub open spec fn wf(self) -> bool {
        self.mdeg < 360_000
    }

    pub fn new(mdeg: u32) -> (r: Angle)
        requires
            mdeg < 360_000,
        ensures
            r.wf(),
            r.mdeg == mdeg,
    {
        Angle { mdeg }
    }

    /// The reference heading (the world-forward facing).
    pub fn zero() -> (r: Angle)
        ensures
            r.wf(),
            r.mdeg == 0,
    {
        Angle { mdeg: 0 }
    }

    /// Turns by a signed offset, wrapping around the full turn.
    pub fn add_signed(self, off: i32) -> (r: Angle)
        requires
            self.wf(),
            -360_000 <= off <= 360_000,
        ensures
            r.wf(),
            r.mdeg == wrapped(self.mdeg as int, off as int),
    {
        let mut s: i64 = self.mdeg as i64 + off as i64;
        if s < 0 {
            s = s + 360_000;
        } else if s >= 360_000 {
            s = s - 360_000;
        }
        Angle { mdeg: s as u32 }
    }

    /// Signed shorter-arc angle from `self` to `to`.
    pub fn signed_diff_to(self, to: Angle) -> (d: i32)
        requires
            self.wf(),
            to.wf(),
        ensures
            d == diff_spec(self.mdeg as int, to.mdeg as int),
            -180_000 < d <= 180_000,
    {
        let raw: i64 = {
            let mut v: i64 = to.mdeg as i64 - self.mdeg as i64;
            if v < 0 {
                v = v + 360_000;
            }
            v
        };
        if raw > 180_000 {
            (raw - 360_000) as i32
        } else {
            raw as i32
        }
    }

    /// Rotates toward `tgt` along the shorter arc by at most `step`
    /// millidegrees: arrives exactly once the remaining angle is within
    /// `step`, and never overshoots.
    pub fn rotate_towards(self, tgt: Angle, step: u32) -> (r: Angle)
        requires
            self.wf(),
            tgt.wf(),
        ensures
            r.wf(),
            r.mdeg == rotate_towards_spec(self.mdeg as int, tgt.mdeg as int, step as int),
    {
        let d = self.signed_diff_to(tgt);
        if -(step as i64) <= d as i64 && d as i64 <= step as i64 {
            tgt
        } else if d >= 0 {
            self.add_signed(step as i32)
        } else {
            self.add_signed(-(step as i32))
        }
    }
}

/// After an unsaturated step toward the target, the remaining angle has
/// kept its sign and shrunk by exactly the step.
pub proof fn lemma_rotate_step_progress(cur: int, tgt: int, step: int)
    requires
        0 <= cur < 360_000,
        0 <= tgt < 360_000,
        0 <= step,
        !(-step <= diff_spec(cur, tgt) <= step),
    ensures
        0 <= rotate_towards_spec(cur, tgt, step) < 360_000,
        diff_spec(cur, tgt) > 0 ==> diff_spec(rotate_towards_spec(cur, tgt, step), tgt)
            == diff_spec(cur, tgt) - step,
        diff_spec(cur, tgt) < 0 ==> diff_spec(rotate_towards_spec(cur, tgt, step), tgt)
            == diff_spec(cur, tgt) + step,
{
}

/// The target is a fixed point of the bounded rotation step.
pub proof fn lemma_rotate_fixed_point(tgt: int, step: int)
    requires
        0 <= tgt < 360_000,
        0 <= step,
    ensures
        rotate_towards_spec(tgt, tgt, step) == tgt,
{
}

/// Once at the target, further bounded steps stay there.
pub proof fn lemma_iter_rotate_stays(tgt: int, step: int, n: nat)
    requires
        0 <= tgt < 360_000,
        0 <= step,
    ensures
        iter_rotate(tgt, tgt, step, n) == tgt,
    decreases n,
{
    if n > 0 {
        lemma_rotate_fixed_point(tgt, step);
        lemma_iter_rotate_stays(tgt, step, (n - 1) as nat);
    }
}

/// Bounded-step rotation reaches the target exactly once enough turn
/// budget has accumulated: `n` steps of `step` millidegrees arrive
/// whenever `n * step` covers the remaining angle.
pub proof fn lemma_iter_rotate_reaches(cur: int, tgt: int, step: int, n: nat)
    requires
        0 <= cur < 360_000,
        0 <= tgt < 360_000,
        0 <= step,
        n * step >= abs(diff_spec(cur, tgt)),
    ensures
        iter_rotate(cur, tgt, step, n) == tgt,
    decreases n,
{
    let d = diff_spec(cur, tgt);
    if -step <= d <= step {
        if n == 0 {
            assert(n * step == 0) by (nonlinear_arith)
                requires n == 0,
            ;
            assert(d == 0);
        } else {
            assert(rotate_towards_spec(cur, tgt, step) == tgt);
            lemma_iter_rotate_stays(tgt, step, (n - 1) as nat);
        }
    } else {
        assert(n >= 1) by {
            if n == 0 {
                assert(n * step == 0) by (nonlinear_arith)
                    requires n == 0,
                ;
            }
        }
        let next = rotate_towards_spec(cur, tgt, step);
        lemma_rotate_step_progress(cur, tgt, step);
        assert((n - 1) * step == n * step - step) by (nonlinear_arith);
        lemma_iter_rotate_reaches(next, tgt, step, (n - 1) as nat);
    }
}

/// Stepping orientation is time-step-invariant once saturated: `n` steps
/// of `step` each end at exactly the same facing as one step with the
/// whole budget `n * step`, whenever that budget covers the remaining
/// angle — both arrive exactly at the target.
pub proof fn lemma_bounded_rotation_time_step_invariant(cur: int, tgt: int, step: int, n: nat)
    requires
        0 <= cur < 360_000,
        0 <= tgt < 360_000,
        0 <= step,
        n * step >= abs(diff_spec(cur, tgt)),
    ensures
        iter_rotate(cur, tgt, step, n) == rotate_towards_spec(cur, tgt, n * step),
        iter_rotate(cur, tgt, step, n) == tgt,
{
    lemma_iter_rotate_reaches(cur, tgt, step, n);
    assert(-(n * step) <= diff_spec(cur, tgt) <= n * step);
}

} // verus!
