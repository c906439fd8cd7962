//! Per-tick input snapshots and the movement-input resolver: the held
//! key codes, the accumulated mouse motion, and the priority order that
//! collapses held movement keys into one direction command.

use vstd::prelude::*;
use crate::angle::{diff_spec, wrapped};
use crate::settings::UserKeymap;

verus! {

/// The snapshot of key codes held during a tick.
#[derive(Debug)]
pub struct HeldKeys {
    pub codes: Vec<u32>,
}

impl HeldKeys {
    /// Whether the key with this code is held.
    pub open spec fn holds(self, code: u32) -> bool {
        self.codes@.contains(code)
    }

    /// A snapshot with nothing held.
    pub fn none() -> (r: HeldKeys)
        ensures
            forall|c: u32| !r.holds(c),
    {
        HeldKeys { codes: Vec::new() }
    }

    pub fn from_codes(codes: Vec<u32>) -> (r: HeldKeys)
        ensures
            r.codes == codes,
    {
        HeldKeys { codes }
    }

    /// Whether the key with this code is held.
    pub fn pressed(&self, code: u32) -> (r: bool)
        ensures
            r == self.holds(code),
    {
        let mut i: usize = 0;
        while i < self.codes.len()
            invariant
                i <= self.codes@.len(),
                forall|j: int| 0 <= j < i ==> self.codes@[j] != code,
            decreases self.codes@.len() - i,
        {
            if self.codes[i] == code {
                return true;
            }
            i = i + 1;
        }
        false
    }
}

/// One pointer-motion event's delta, in counts.
#[derive(Clone, Copy, Debug, PartialEq, Eq, Structural)]
pub struct MouseDelta {
    pub dx: i32,
    pub dy: i32,
}

/// Sum of the horizontal mouse deltas of a tick.
pub open spec fn sum_dx(s: Seq<MouseDelta>) -> int
    decreases s.len(),
{
    if s.len() == 0 {
        0
    } else {
        sum_dx(s.drop_last()) + s.last().dx
    }
}

/// Sum of the vertical mouse deltas of a tick.
pub open spec fn sum_dy(s: Seq<MouseDelta>) -> int
    decreases s.len(),
{
    if s.len() == 0 {
        0
    } else {
        sum_dy(s.drop_last()) + s.last().dy
    }
}

/// True when every delta and the number of deltas are small enough for
/// the accumulated sums to stay within one tick's working range.
pub open spec fn deltas_bounded(s: Seq<MouseDelta>) -> bool {
    &&& s.len() <= 1_000_000
    &&& forall|j: int|
        0 <= j < s.len() ==> -1_000_000 <= (#[trigger] s[j]).dx <= 1_000_000
            && -1_000_000 <= s[j].dy <= 1_000_000
}

/// Adds up all pointer-motion deltas received since the last tick; the
/// order of the events does not matter to the sums.
pub fn accumulate_mouse(deltas: &Vec<MouseDelta>) -> (r: (i64, i64))
    requires
        deltas_bounded(deltas@),
    ensures
        r.0 == sum_dx(deltas@),
        r.1 == sum_dy(deltas@),
        -1_000_000_000_000 <= r.0 <= 1_000_000_000_000,
        -1_000_000_000_000 <= r.1 <= 1_000_000_000_000,
{
    let mut tx: i64 = 0;
    let mut ty: i64 = 0;
    let mut i: usize = 0;
    while i < deltas.len()
        invariant
            i <= deltas@.len(),
            deltas_bounded(deltas@),
            tx == sum_dx(deltas@.take(i as int)),
            ty == sum_dy(deltas@.take(i as int)),
            -1_000_000 * i <= tx <= 1_000_000 * i,
            -1_000_000 * i <= ty <= 1_000_000 * i,
        decreases deltas@.len() - i,
    {
        proof {
            assert(deltas@.take(i + 1).drop_last() =~= deltas@.take(i as int));
            assert(deltas@.take(i + 1).last() == deltas@[i as int]);
        }
        tx = tx + deltas[i].dx as i64;
        ty = ty + deltas[i].dy as i64;
        i = i + 1;
    }
    proof {
        assert(deltas@.take(deltas@.len() as int) =~= deltas@);
    }
    (tx, ty)
}

/// The single direction command that the held movement keys resolve to.
#[derive(Clone, Copy, Debug, PartialEq, Eq, Structural)]
pub enum MoveCommand {
    ForwardRight,
    ForwardLeft,
    BackRight,
    BackLeft,
    Forward,
    Back,
    Left,
    Right,
}

/// The command's heading relative to the reference basis, in
/// millidegrees counter-clockwise. Each diagonal is the angular
/// bisector of its two single commands.
pub open spec fn command_offset_spec(c: MoveCommand) -> int {
    match c {
        MoveCommand::ForwardRight => -45_000,
        MoveCommand::ForwardLeft => 45_000,
        MoveCommand::BackRight => -135_000,
        MoveCommand::BackLeft => 135_000,
        MoveCommand::Forward => 0,
        MoveCommand::Back => 180_000,
        MoveCommand::Left => 90_000,
        MoveCommand::Right => -90_000,
    }
}

/// The command's heading relative to the reference basis.
pub fn command_offset(c: MoveCommand) -> (off: i32)
    ensures
        off == command_offset_spec(c),
        -180_000 <= off <= 180_000,
{
    match c {
        MoveCommand::ForwardRight => -45_000,
        MoveCommand::ForwardLeft => 45_000,
        MoveCommand::BackRight => -135_000,
        MoveCommand::BackLeft => 135_000,
        MoveCommand::Forward => 0,
        MoveCommand::Back => 180_000,
        MoveCommand::Left => 90_000,
        MoveCommand::Right => -90_000,
    }
}

/// Diagonal resolution is deterministic and exact: in any planar
/// basis, each diagonal command's heading is the angular bisector of
/// its two single commands — the same shorter arc of forty-five
/// degrees separates it from both, in the order forward-to-diagonal
/// and diagonal-to-side.
pub proof fn lemma_diagonal_is_bisector(basis: int)
    requires
        0 <= basis < 360_000,
    ensures
        diff_spec(wrapped(basis, command_offset_spec(MoveCommand::Forward)),
            wrapped(basis, command_offset_spec(MoveCommand::ForwardRight))) == -45_000,
        diff_spec(wrapped(basis, command_offset_spec(MoveCommand::ForwardRight)),
            wrapped(basis, command_offset_spec(MoveCommand::Right))) == -45_000,
        diff_spec(wrapped(basis, command_offset_spec(MoveCommand::Forward)),
            wrapped(basis, command_offset_spec(MoveCommand::ForwardLeft))) == 45_000,
        diff_spec(wrapped(basis, command_offset_spec(MoveCommand::ForwardLeft)),
            wrapped(basis, command_offset_spec(MoveCommand::Left))) == 45_000,
        diff_spec(wrapped(basis, command_offset_spec(MoveCommand::Back)),
            wrapped(basis, command_offset_spec(MoveCommand::BackRight))) == 45_000,
        diff_spec(wrapped(basis, command_offset_spec(MoveCommand::BackRight)),
            wrapped(basis, command_offset_spec(MoveCommand::Right))) == 45_000,
        diff_spec(wrapped(basis, command_offset_spec(MoveCommand::Back)),
            wrapped(basis, command_offset_spec(MoveCommand::BackLeft))) == -45_000,
        diff_spec(wrapped(basis, command_offset_spec(MoveCommand::BackLeft)),
            wrapped(basis, command_offset_spec(MoveCommand::Left))) == -45_000,
{
}

/// The priority order of movement keys: diagonals before singles, first
/// match wins, so three or more held keys collapse to the first
/// matching two-key diagonal.
pub open spec fn resolve_command_spec(keys: HeldKeys, km: UserKeymap) -> Option<MoveCommand> {
    if keys.holds(km.forward) && keys.holds(km.right) {
        Some(MoveCommand::ForwardRight)
    } else if keys.holds(km.forward) && keys.holds(km.left) {
        Some(MoveCommand::ForwardLeft)
    } else if keys.holds(km.back) && keys.holds(km.right) {
        Some(MoveCommand::BackRight)
    } else if keys.holds(km.back) && keys.holds(km.left) {
        Some(MoveCommand::BackLeft)
    } else if keys.holds(km.forward) {
        Some(MoveCommand::Forward)
    } else if keys.holds(km.back) {
        Some(MoveCommand::Back)
    } else if keys.holds(km.left) {
        Some(MoveCommand::Left)
    } else if keys.holds(km.right) {
        Some(MoveCommand::Right)
    } else {
        None
    }
}

/// Whether any movement key is held.
pub open spec fn direction_command_spec(keys: HeldKeys, km: UserKeymap) -> bool {
    keys.holds(km.forward) || keys.holds(km.back) || keys.holds(km.left) || keys.holds(km.right)
}

/// Whether any camera key is held.
pub open spec fn camera_key_spec(keys: HeldKeys, km: UserKeymap) -> bool {
    keys.holds(km.camera_up) || keys.holds(km.camera_down) || keys.holds(km.camera_left)
        || keys.holds(km.camera_right)
}

/// Maps the held movement keys to a single direction command, or to
/// nothing when no movement key is held.
pub fn resolve_command(keys: &HeldKeys, km: &UserKeymap) -> (r: Option<MoveCommand>)
    ensures
        r == resolve_command_spec(*keys, *km),
        r is Some <==> direction_command_spec(*keys, *km),
{
    let fwd = keys.pressed(km.forward);
    let back = keys.pressed(km.back);
    let left = keys.pressed(km.left);
    let right = keys.pressed(km.right);
    if fwd && right {
        Some(MoveCommand::ForwardRight)
    } else if fwd && left {
        Some(MoveCommand::ForwardLeft)
    } else if back && right {
        Some(MoveCommand::BackRight)
    } else if back && left {
        Some(MoveCommand::BackLeft)
    } else if fwd {
        Some(MoveCommand::Forward)
    } else if back {
        Some(MoveCommand::Back)
    } else if left {
        Some(MoveCommand::Left)
    } else if right {
        Some(MoveCommand::Right)
    } else {
        None
    }
}

/// Whether any movement key is held: the guard in front of the
/// orientation and movement block of a tick.
pub fn direction_command_is_pressed(keys: &HeldKeys, km: &UserKeymap) -> (r: bool)
    ensures
        r == direction_command_spec(*keys, *km),
{
    keys.pressed(km.forward) || keys.pressed(km.back) || keys.pressed(km.left) || keys.pressed(
        km.right,
    )
}

/// Whether any camera key is held: the guard in front of the keyboard
/// camera nudges.
pub fn camera_key_is_pressed(keys: &HeldKeys, km: &UserKeymap) -> (r: bool)
    ensures
        r == camera_key_spec(*keys, *km),
{
    keys.pressed(km.camera_up) || keys.pressed(km.camera_down) || keys.pressed(km.camera_left)
        || keys.pressed(km.camera_right)
}

} // verus!
