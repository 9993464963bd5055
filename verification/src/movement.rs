use vstd::prelude::*;

use crate::input::InputState;
use crate::math::{isqrt, lemma_sqrt_floor_bounds, sqrt_floor, V3, Vec3, POS_MAX};

verus! {

/// Linear speed of the player: 5 world units per second, which is 5
/// milli-units per millisecond.
pub const SPEED: i64 = 5;

/// Largest delta-time, in milliseconds, that one update accepts. The bound
/// exists only so that every intermediate product fits in an `i64`.
pub const DT_MAX: i64 = 1_000_000;

/// Horizontal direction requested along the world X axis: `right` pulls
/// toward +X, `left` toward -X, and the two cancel when held together.
pub open spec fn dir_x(i: InputState) -> int {
    (if i.move_right { 1int } else { 0int }) - (if i.move_left { 1int } else { 0int })
}

/// Horizontal direction requested along the world Z axis: `backward` pulls
/// toward +Z, `forward` toward -Z, and the two cancel when held together.
pub open spec fn dir_z(i: InputState) -> int {
    (if i.move_backward { 1int } else { 0int }) - (if i.move_forward { 1int } else { 0int })
}

/// Distance, in milli-units, covered in `dt` milliseconds at full speed.
pub open spec fn step_len(dt: int) -> int {
    SPEED * dt
}

/// Length of each diagonal component: the full step scaled by the inverse
/// square root of two, rounded down to whole milli-units.
pub open spec fn diag_len(dt: int) -> int {
    sqrt_floor(((step_len(dt) * step_len(dt)) / 2) as nat) as int
}

/// Displacement of the player over `dt` milliseconds: the requested direction
/// normalized to length `step_len(dt)` (exactly on an axis, to the nearest
/// milli-unit on a diagonal), and zero when the requested direction is zero.
pub open spec fn displacement(i: InputState, dt: int) -> V3 {
    let dx = dir_x(i);
    let dz = dir_z(i);
    if dx != 0 && dz != 0 {
        V3 { x: dx * diag_len(dt), y: 0, z: dz * diag_len(dt) }
    } else {
        V3 { x: dx * step_len(dt), y: 0, z: dz * step_len(dt) }
    }
}

/// The player position after one movement step.
pub open spec fn moved(p: V3, i: InputState, dt: int) -> V3 {
    p.plus(displacement(i, dt))
}

/// Each displacement coordinate is at most the full step in magnitude.
pub proof fn lemma_displacement_bounded(i: InputState, dt: int)
    requires
        0 <= dt,
    ensures
        displacement(i, dt).bounded(SPEED * dt),
{
    let s = step_len(dt);
    let n = ((s * s) / 2) as nat;
    assert(0 <= s * s) by (nonlinear_arith)
        requires 0 <= s;
    assert(s * s / 2 <= s * s);
    lemma_sqrt_floor_bounds(n);
    let c = sqrt_floor(n) as int;
    assert(c <= s) by (nonlinear_arith)
        requires
            0 <= c,
            0 <= s,
            c * c <= s * s,
    ;
    assert(-1 <= dir_x(i) <= 1);
    assert(-1 <= dir_z(i) <= 1);
}

/// Move the player position by one frame's displacement: build the direction
/// from the four key booleans, skip the frame when it is zero, otherwise
/// normalize it to constant speed and integrate over `dt`.
pub fn update_player_movement(pos: &mut Vec3, input: &InputState, dt: i64)
    requires
        0 <= dt <= DT_MAX,
        old(pos)@.bounded(POS_MAX as int),
    ensures
        final(pos)@ == moved(old(pos)@, *input, dt as int),
{
    let mut dx: i64 = 0;
    let mut dz: i64 = 0;
    if input.move_right {
        dx = dx + 1;
    }
    if input.move_left {
        dx = dx - 1;
    }
    if input.move_backward {
        dz = dz + 1;
    }
    if input.move_forward {
        dz = dz - 1;
    }
    assert(dx as int == dir_x(*input));
    assert(dz as int == dir_z(*input));
    if dx == 0 && dz == 0 {
        assert(moved(old(pos)@, *input, dt as int) == old(pos)@);
        return ;
    }
    let s: i64 = SPEED * dt;
    proof {
        lemma_displacement_bounded(*input, dt as int);
    }
    if dx != 0 && dz != 0 {
        assert((s as int) * (s as int) <= 25_000_000_000_000) by (nonlinear_arith)
            requires
                0 <= (s as int),
                (s as int) <= 5_000_000,
        ;
        let s_sq: u64 = (s as u64) * (s as u64);
        assert(s_sq == step_len(dt as int) * step_len(dt as int)) by (nonlinear_arith)
            requires
                0 <= s <= 5_000_000,
                s_sq == (s as u64) * (s as u64),
                s == step_len(dt as int),
        ;
        let c = isqrt(s_sq / 2) as i64;
        assert(c as int == diag_len(dt as int));
        pos.x = pos.x + dx * c;
        pos.z = pos.z + dz * c;
    } else {
        pos.x = pos.x + dx * s;
        pos.z = pos.z + dz * s;
    }
}

} // verus!
