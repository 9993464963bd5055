use vstd::prelude::*;

use vstd::arithmetic::div_mod::{
    lemma_div_is_ordered, lemma_div_multiples_vanish, lemma_div_pos_is_pos,
    lemma_fundamental_div_mod, lemma_mod_bound,
};

use crate::camera::{cam_after, cam_pos_after, cam_target, lerp1, LERP_RATE};
use crate::game::frame;
use crate::input::InputState;
use crate::math::{lemma_sqrt_floor_bounds, sqrt_floor, MILLI, V3};
use crate::movement::{dir_x, dir_z, displacement, step_len};
use crate::pose::PoseV;

verus! {

/// `v` lies on the closed segment from `c` to `t`.
pub open spec fn between(c: int, v: int, t: int) -> bool {
    if t >= c {
        c <= v <= t
    } else {
        t <= v <= c
    }
}

/// Distance between two coordinates.
pub open spec fn gap(c: int, t: int) -> int {
    if t >= c {
        t - c
    } else {
        c - t
    }
}

/// Movement magnitude over one frame: zero when the four keys request no
/// direction (all released, or opposing keys cancelling); otherwise the
/// squared displacement length is `(speed * dt)^2` — exactly on an axis, and
/// to the nearest whole milli-unit on a diagonal, where the ideal length is
/// irrational. Diagonal movement is thus as fast as axis-aligned movement,
/// and never faster.
pub proof fn lemma_movement_magnitude(i: InputState, dt: int)
    requires
        0 <= dt,
    ensures
        displacement(i, dt).y == 0,
        dir_x(i) == 0 && dir_z(i) == 0 ==> displacement(i, dt) == V3::zero(),
        (dir_x(i) == 0) != (dir_z(i) == 0) ==> displacement(i, dt).mag_sq() == step_len(dt)
            * step_len(dt),
        dir_x(i) != 0 && dir_z(i) != 0 ==> step_len(dt) * step_len(dt) - 4 * step_len(dt) - 1
            <= displacement(i, dt).mag_sq() <= step_len(dt) * step_len(dt),
{
    let s = step_len(dt);
    let dx = dir_x(i);
    let dz = dir_z(i);
    assert(0 <= s * s) by (nonlinear_arith)
        requires 0 <= s;
    if dx != 0 && dz != 0 {
        let n = ((s * s) / 2) as nat;
        lemma_div_pos_is_pos(s * s, 2);
        lemma_fundamental_div_mod(s * s, 2);
        lemma_mod_bound(s * s, 2);
        assert(2 * n <= s * s <= 2 * n + 1);
        lemma_sqrt_floor_bounds(n);
        let c = sqrt_floor(n) as int;
        assert((dx * c) * (dx * c) == c * c) by (nonlinear_arith)
            requires dx == 1 || dx == -1;
        assert((dz * c) * (dz * c) == c * c) by (nonlinear_arith)
            requires dz == 1 || dz == -1;
        assert(displacement(i, dt).mag_sq() == c * c + c * c);
        assert((c + 1) * (c + 1) == c * c + 2 * c + 1) by (nonlinear_arith);
        assert(c * c + c * c >= s * s - 4 * c - 1);
        assert(c <= s) by (nonlinear_arith)
            requires
                0 <= c,
                0 <= s,
                c * c <= s * s,
        ;
    } else if dx != 0 || dz != 0 {
        assert((dx * s) * (dx * s) + (dz * s) * (dz * s) == s * s) by (nonlinear_arith)
            requires
                (dx == 0 && (dz == 1 || dz == -1)) || (dz == 0 && (dx == 1 || dx == -1)),
        ;
    }
}

/// Opposing keys cancel exactly: with `forward` and `backward` both held the
/// displacement has no Z contribution, and with `left` and `right` both held
/// it has no X contribution, whatever the other keys do.
pub proof fn lemma_opposing_keys_cancel(i: InputState, dt: int)
    ensures
        i.move_forward && i.move_backward ==> dir_z(i) == 0 && displacement(i, dt).z == 0,
        i.move_left && i.move_right ==> dir_x(i) == 0 && displacement(i, dt).x == 0,
{
}

/// One eased coordinate never leaves the segment from its old value to the
/// target while the easing factor is at most one, it falls strictly short of
/// the target while the factor is strictly below one, and it strictly leaves
/// the old value as soon as the remaining distance times the factor amounts
/// to at least one milli-unit.
pub proof fn lemma_lerp_between(c: int, t: int, dt: int)
    requires
        0 <= dt,
        LERP_RATE * dt <= MILLI,
    ensures
        between(c, lerp1(c, t, dt), t),
        LERP_RATE * dt < MILLI && c != t ==> lerp1(c, t, dt) != t,
        gap(c, t) * (LERP_RATE * dt) >= MILLI ==> lerp1(c, t, dt) != c,
{
    let m = gap(c, t);
    let f = LERP_RATE * dt;
    let step = (m * f) / (MILLI as int);
    assert(0 <= m * f) by (nonlinear_arith)
        requires
            0 <= m,
            0 <= f,
    ;
    lemma_div_pos_is_pos(m * f, MILLI as int);
    assert(m * f <= 1000 * m) by (nonlinear_arith)
        requires
            0 <= m,
            f <= 1000,
    ;
    lemma_div_is_ordered(m * f, 1000 * m, 1000);
    lemma_div_multiples_vanish(m, 1000);
    assert(step <= m);
    if f < 1000 && m > 0 {
        assert(m * f < 1000 * m) by (nonlinear_arith)
            requires
                0 < m,
                f < 1000,
        ;
        lemma_fundamental_div_mod(m * f, 1000);
        lemma_mod_bound(m * f, 1000);
        assert(1000 * step <= m * f);
        assert(step < m);
    }
    if m * f >= 1000 {
        lemma_div_is_ordered(1000, m * f, 1000);
        assert(step >= 1);
    }
}

/// The camera position after one update lies on the segment from its previous
/// position to `player + offset`, coordinate by coordinate: easing with a
/// factor of at most one never overshoots the target. Strictly between the
/// two whenever rounding to whole milli-units permits: short of the target
/// while the factor is below one, and off the old position wherever the
/// distance times the factor reaches a milli-unit.
pub proof fn lemma_camera_never_overshoots(p: V3, c: V3, dt: int)
    requires
        0 <= dt,
        LERP_RATE * dt <= MILLI,
    ensures
        between(c.x, cam_pos_after(p, c, dt).x, cam_target(p).x),
        between(c.y, cam_pos_after(p, c, dt).y, cam_target(p).y),
        between(c.z, cam_pos_after(p, c, dt).z, cam_target(p).z),
        LERP_RATE * dt < MILLI ==> (c.x != cam_target(p).x ==> cam_pos_after(p, c, dt).x
            != cam_target(p).x) && (c.y != cam_target(p).y ==> cam_pos_after(p, c, dt).y
            != cam_target(p).y) && (c.z != cam_target(p).z ==> cam_pos_after(p, c, dt).z
            != cam_target(p).z),
        gap(c.x, cam_target(p).x) * (LERP_RATE * dt) >= MILLI ==> cam_pos_after(p, c, dt).x != c.x,
        gap(c.y, cam_target(p).y) * (LERP_RATE * dt) >= MILLI ==> cam_pos_after(p, c, dt).y != c.y,
        gap(c.z, cam_target(p).z) * (LERP_RATE * dt) >= MILLI ==> cam_pos_after(p, c, dt).z != c.z,
{
    lemma_lerp_between(c.x, cam_target(p).x, dt);
    lemma_lerp_between(c.y, cam_target(p).y, dt);
    lemma_lerp_between(c.z, cam_target(p).z, dt);
}

/// After any update that leaves the camera off the player, the camera's
/// forward vector is exactly the vector from the new camera position to the
/// player: the camera looks at the player, with no accumulated drift.
pub proof fn lemma_camera_looks_at_player(p: V3, cam: PoseV, dt: int)
    ensures
        cam_after(p, cam, dt).position != p ==> cam_after(p, cam, dt).look == p.minus(
            cam_after(p, cam, dt).position,
        ),
{
    let np = cam_after(p, cam, dt).position;
    if np != p {
        assert(!(p.minus(np) == V3::zero()));
    }
}

/// When the updated camera position coincides with the player, the look
/// direction is undefined; the previous forward vector is retained, so a well
/// formed camera pose stays well formed through every update.
pub proof fn lemma_coincident_camera_keeps_look(p: V3, cam: PoseV, dt: int)
    ensures
        cam_after(p, cam, dt).position == p ==> cam_after(p, cam, dt).look == cam.look,
        cam.wf() ==> cam_after(p, cam, dt).wf(),
{
    let np = cam_after(p, cam, dt).position;
    if np == p {
        assert(p.minus(np) == V3::zero());
    }
}

/// A frame with zero elapsed time moves neither pose's position, and a second
/// zero-time frame is the identity on both whole poses: the first frame may
/// only re-derive the camera's forward vector, which the second then leaves
/// alone.
pub proof fn lemma_zero_dt_frame_idempotent(player: PoseV, camera: PoseV, input: InputState)
    ensures
        frame(player, camera, input, 0).0.position == player.position,
        frame(player, camera, input, 0).1.position == camera.position,
        frame(frame(player, camera, input, 0).0, frame(player, camera, input, 0).1, input, 0)
            == frame(player, camera, input, 0),
{
    let np = frame(player, camera, input, 0).0.position;
    let nc = frame(player, camera, input, 0).1.position;
    lemma_zero_dt_pos(player.position, input);
    lemma_zero_dt_cam(np, camera.position);
    lemma_zero_dt_cam(np, nc);
}

/// With zero elapsed time the displacement is the zero vector.
proof fn lemma_zero_dt_pos(p: V3, input: InputState)
    ensures
        crate::movement::moved(p, input, 0) == p,
{
    assert(sqrt_floor(0nat) == 0);
    assert(step_len(0) == 0);
    assert(0int / 2 == 0);
    assert(crate::movement::diag_len(0) == 0);
    assert(displacement(input, 0) == V3::zero());
    assert(p.plus(V3::zero()) == p);
}

/// With zero elapsed time one eased coordinate stays put.
proof fn lemma_zero_dt_lerp(c: int, t: int)
    ensures
        lerp1(c, t, 0) == c,
{
    let m = if t >= c {
        t - c
    } else {
        c - t
    };
    assert(m * (LERP_RATE * 0int) == 0) by (nonlinear_arith);
    assert(0int / 1000 == 0);
}

/// With zero elapsed time the eased camera position stays put.
proof fn lemma_zero_dt_cam(p: V3, c: V3)
    ensures
        cam_pos_after(p, c, 0) == c,
{
    lemma_zero_dt_lerp(c.x, cam_target(p).x);
    lemma_zero_dt_lerp(c.y, cam_target(p).y);
    lemma_zero_dt_lerp(c.z, cam_target(p).z);
}

} // verus!
