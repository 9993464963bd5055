use vstd::prelude::*;

use vstd::arithmetic::div_mod::lemma_div_nonincreasing;

use crate::math::{V3, Vec3, MILLI, POS_MAX};
use crate::movement::DT_MAX;
use crate::pose::{Pose, PoseV};

verus! {

/// World-axis-aligned offset from the player to the camera's target spot:
/// 3 units above and 5 units behind the player.
pub const CAMERA_OFFSET_X: i64 = 0;

pub const CAMERA_OFFSET_Y: i64 = 3_000;

pub const CAMERA_OFFSET_Z: i64 = 5_000;

/// Easing rate of the camera: it covers `LERP_RATE * dt` thousandths of its
/// remaining distance to the target in `dt` milliseconds (2.0 per second,
/// applied without a clamp).
pub const LERP_RATE: i64 = 2;

/// Largest coordinate magnitude `lerp_component` accepts; wide enough for a
/// player position after one movement step plus the camera offset.
pub const LERP_ARG_MAX: i64 = 2_000_000_000_000;

/// Bound on every coordinate `lerp_component` can return.
pub const LERP_OUT_MAX: i64 = 9_000_000_000_000_000;

/// One linearly interpolated coordinate: move from `c` toward `t` by
/// `LERP_RATE * dt` thousandths of the distance, rounded down to whole
/// milli-units.
pub open spec fn lerp1(c: int, t: int, dt: int) -> int {
    let m = if t >= c {
        t - c
    } else {
        c - t
    };
    let step = (m * (LERP_RATE * dt)) / (MILLI as int);
    if t >= c {
        c + step
    } else {
        c - step
    }
}

/// The spot the camera eases toward: the player position plus the fixed
/// offset.
pub open spec fn cam_target(p: V3) -> V3 {
    V3 { x: p.x + CAMERA_OFFSET_X, y: p.y + CAMERA_OFFSET_Y, z: p.z + CAMERA_OFFSET_Z }
}

/// The camera position after one update: each coordinate eased toward the
/// target.
pub open spec fn cam_pos_after(p: V3, c: V3, dt: int) -> V3 {
    let t = cam_target(p);
    V3 { x: lerp1(c.x, t.x, dt), y: lerp1(c.y, t.y, dt), z: lerp1(c.z, t.z, dt) }
}

/// The camera forward vector after one update: toward the player from the new
/// camera position, recomputed from scratch; when the two coincide that
/// direction is undefined, and the previous forward vector is retained.
pub open spec fn look_after(p: V3, new_c: V3, old_look: V3) -> V3 {
    let d = p.minus(new_c);
    if d == V3::zero() {
        old_look
    } else {
        d
    }
}

/// The whole camera pose after one update.
pub open spec fn cam_after(p: V3, cam: PoseV, dt: int) -> PoseV {
    let np = cam_pos_after(p, cam.position, dt);
    PoseV { position: np, look: look_after(p, np, cam.look) }
}

/// One interpolated coordinate, executable.
pub fn lerp_component(c: i64, t: i64, dt: i64) -> (r: i64)
    requires
        0 <= dt <= DT_MAX,
        -LERP_ARG_MAX <= c <= LERP_ARG_MAX,
        -LERP_ARG_MAX <= t <= LERP_ARG_MAX,
    ensures
        r as int == lerp1(c as int, t as int, dt as int),
        -LERP_OUT_MAX <= r <= LERP_OUT_MAX,
{
    let m: i64 = if t >= c {
        t - c
    } else {
        c - t
    };
    let f: i64 = LERP_RATE * dt;
    assert((m as int) * (f as int) <= 8_000_000_000_000_000_000) by (nonlinear_arith)
        requires
            0 <= (m as int) <= 4_000_000_000_000,
            0 <= (f as int) <= 2_000_000,
    ;
    let prod: u64 = (m as u64) * (f as u64);
    let step_w: u64 = prod / 1000;
    proof {
        lemma_div_nonincreasing(prod as int, 1000);
    }
    let step: i64 = step_w as i64;
    if t >= c {
        c + step
    } else {
        c - step
    }
}

/// Advance the camera one frame: ease its position toward the player's spot
/// plus the fixed offset, then point it at the player, keeping the previous
/// direction if the camera sits exactly on the player.
pub fn update_camera(player_pos: &Vec3, camera: &mut Pose, dt: i64)
    requires
        0 <= dt <= DT_MAX,
        player_pos@.bounded(POS_MAX + 5_000_000),
        old(camera)@.position.bounded(POS_MAX as int),
    ensures
        final(camera)@ == cam_after(player_pos@, old(camera)@, dt as int),
        old(camera)@.wf() ==> final(camera)@.wf(),
{
    let tx = player_pos.x + CAMERA_OFFSET_X;
    let ty = player_pos.y + CAMERA_OFFSET_Y;
    let tz = player_pos.z + CAMERA_OFFSET_Z;
    let nx = lerp_component(camera.position.x, tx, dt);
    let ny = lerp_component(camera.position.y, ty, dt);
    let nz = lerp_component(camera.position.z, tz, dt);
    camera.position = Vec3 { x: nx, y: ny, z: nz };
    let lx = player_pos.x - nx;
    let ly = player_pos.y - ny;
    let lz = player_pos.z - nz;
    if lx != 0 || ly != 0 || lz != 0 {
        camera.look = Vec3 { x: lx, y: ly, z: lz };
    }
}

} // verus!
