use vstd::prelude::*;

use crate::camera::{cam_after, update_camera};
use crate::input::{with_key, with_mouse_delta, InputState, Key};
use crate::math::{V3, Vec3, POS_MAX};
use crate::movement::{lemma_displacement_bounded, moved, update_player_movement, DT_MAX};
use crate::pose::{Pose, PoseV};

verus! {

/// The state the simulation owns between frames: the accumulated input. The
/// two entity poses belong to the host scene and are borrowed for the length
/// of one update call.
#[derive(Clone, Copy, PartialEq, Eq, Structural, Debug)]
pub struct Game {
    pub input_state: InputState,
}

/// Both poses after one frame: the player moves first, then the camera eases
/// toward the player's already-updated position — the order is load-bearing.
pub open spec fn frame(player: PoseV, camera: PoseV, input: InputState, dt: int) -> (PoseV, PoseV) {
    let np = moved(player.position, input, dt);
    let player2 = PoseV { position: np, look: player.look };
    (player2, cam_after(np, camera, dt))
}

/// The player's starting pose: one unit above the origin, facing -Z.
pub fn initial_player_pose() -> (p: Pose)
    ensures
        p@.position == (V3 { x: 0, y: 1_000, z: 0 }),
        p@.look == (V3 { x: 0, y: 0, z: -1_000 }),
        p@.wf(),
{
    Pose::new(Vec3::new(0, 1_000, 0), Vec3::new(0, 0, -1_000))
}

/// The camera's starting pose: three units up and five back from the origin,
/// already pointed at the player's starting position.
pub fn initial_camera_pose() -> (p: Pose)
    ensures
        p@.position == (V3 { x: 0, y: 3_000, z: 5_000 }),
        p@.look == (V3 { x: 0, y: -2_000, z: -5_000 }),
        p@.wf(),
{
    Pose::new(Vec3::new(0, 3_000, 5_000), Vec3::new(0, -2_000, -5_000))
}

impl Game {
    /// A fresh simulation: no key held, no mouse motion seen.
    pub fn new() -> (g: Game)
        ensures
            g.input_state == InputState::initial(),
    {
        Game { input_state: InputState::default() }
    }

    /// Record a key transition: the matching directional boolean takes the
    /// new pressed state; unrecognized keys are ignored.
    pub fn handle_key_input(&mut self, key: Key, pressed: bool)
        ensures
            final(self).input_state == with_key(old(self).input_state, key, pressed),
    {
        match key {
            Key::W => self.input_state.move_forward = pressed,
            Key::S => self.input_state.move_backward = pressed,
            Key::A => self.input_state.move_left = pressed,
            Key::D => self.input_state.move_right = pressed,
            Key::Other => {},
        }
    }

    /// Record a mouse-motion sample in milli-pixels: the stored delta is
    /// overwritten, not summed — the last sample before a frame wins.
    pub fn handle_device_event(&mut self, dx: i64, dy: i64)
        ensures
            final(self).input_state == with_mouse_delta(old(self).input_state, dx, dy),
    {
        self.input_state.mouse_dx = dx;
        self.input_state.mouse_dy = dy;
    }

    /// Advance one frame: integrate the player's movement over `dt`
    /// milliseconds, then let the camera follow the updated player.
    pub fn update(&self, player: &mut Pose, camera: &mut Pose, dt: i64)
        requires
            0 <= dt <= DT_MAX,
            old(player)@.position.bounded(POS_MAX as int),
            old(camera)@.position.bounded(POS_MAX as int),
        ensures
            final(player)@ == frame(old(player)@, old(camera)@, self.input_state, dt as int).0,
            final(camera)@ == frame(old(player)@, old(camera)@, self.input_state, dt as int).1,
            old(camera)@.wf() ==> final(camera)@.wf(),
    {
        update_player_movement(&mut player.position, &self.input_state, dt);
        proof {
            lemma_displacement_bounded(self.input_state, dt as int);
        }
        update_camera(&player.position, camera, dt);
    }
}

} // verus!
