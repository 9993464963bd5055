use follow_cam::camera::{lerp_component, update_camera};
use follow_cam::game::{initial_camera_pose, initial_player_pose, Game};
use follow_cam::input::Key;
use follow_cam::math::{isqrt, Vec3};
use follow_cam::movement::update_player_movement;
use follow_cam::pose::Pose;

fn game_with(keys: &[Key]) -> Game {
    let mut g = Game::new();
    for &k in keys {
        g.handle_key_input(k, true);
    }
    g
}

#[test]
fn new_game_has_no_input() {
    let g = Game::new();
    assert!(!g.input_state.move_forward);
    assert!(!g.input_state.move_backward);
    assert!(!g.input_state.move_left);
    assert!(!g.input_state.move_right);
    assert_eq!(g.input_state.mouse_dx, 0);
    assert_eq!(g.input_state.mouse_dy, 0);
}

#[test]
fn key_press_and_release_toggle_the_booleans() {
    let mut g = Game::new();
    g.handle_key_input(Key::W, true);
    g.handle_key_input(Key::A, true);
    assert!(g.input_state.move_forward);
    assert!(g.input_state.move_left);
    g.handle_key_input(Key::W, false);
    assert!(!g.input_state.move_forward);
    assert!(g.input_state.move_left);
    g.handle_key_input(Key::S, true);
    g.handle_key_input(Key::D, true);
    assert!(g.input_state.move_backward);
    assert!(g.input_state.move_right);
}

#[test]
fn unrecognized_key_is_ignored() {
    let mut g = game_with(&[Key::W]);
    g.handle_key_input(Key::Other, true);
    g.handle_key_input(Key::Other, false);
    assert!(g.input_state.move_forward);
    assert!(!g.input_state.move_backward);
    assert!(!g.input_state.move_left);
    assert!(!g.input_state.move_right);
}

#[test]
fn mouse_delta_is_overwritten_not_summed() {
    let mut g = Game::new();
    g.handle_device_event(1_500, -250);
    g.handle_device_event(40, 60);
    assert_eq!(g.input_state.mouse_dx, 40);
    assert_eq!(g.input_state.mouse_dy, 60);
    assert!(!g.input_state.move_forward);
}

#[test]
fn forward_for_one_second_moves_five_units() {
    let g = game_with(&[Key::W]);
    let mut pos = Vec3::new(0, 0, 0);
    update_player_movement(&mut pos, &g.input_state, 1000);
    assert_eq!(pos, Vec3::new(0, 0, -5_000));
}

#[test]
fn each_axis_moves_at_speed_times_dt() {
    let cases = [
        (Key::W, Vec3::new(0, 0, -80)),
        (Key::S, Vec3::new(0, 0, 80)),
        (Key::A, Vec3::new(-80, 0, 0)),
        (Key::D, Vec3::new(80, 0, 0)),
    ];
    for (key, expected) in cases {
        let g = game_with(&[key]);
        let mut pos = Vec3::new(0, 0, 0);
        update_player_movement(&mut pos, &g.input_state, 16);
        assert_eq!(pos, expected);
    }
}

#[test]
fn no_keys_means_no_movement() {
    let g = Game::new();
    let mut pos = Vec3::new(123, 456, 789);
    update_player_movement(&mut pos, &g.input_state, 1000);
    assert_eq!(pos, Vec3::new(123, 456, 789));
}

#[test]
fn opposing_keys_cancel_exactly() {
    let g = game_with(&[Key::W, Key::S]);
    let mut pos = Vec3::new(5, 6, 7);
    update_player_movement(&mut pos, &g.input_state, 1000);
    assert_eq!(pos, Vec3::new(5, 6, 7));

    let g = game_with(&[Key::A, Key::D]);
    let mut pos = Vec3::new(5, 6, 7);
    update_player_movement(&mut pos, &g.input_state, 1000);
    assert_eq!(pos, Vec3::new(5, 6, 7));

    let g = game_with(&[Key::W, Key::S, Key::A, Key::D]);
    let mut pos = Vec3::new(5, 6, 7);
    update_player_movement(&mut pos, &g.input_state, 1000);
    assert_eq!(pos, Vec3::new(5, 6, 7));
}

#[test]
fn cancelled_axis_leaves_a_pure_axis_move() {
    // Left and right cancel; forward remains, at full speed.
    let g = game_with(&[Key::W, Key::A, Key::D]);
    let mut pos = Vec3::new(0, 0, 0);
    update_player_movement(&mut pos, &g.input_state, 200);
    assert_eq!(pos, Vec3::new(0, 0, -1_000));
}

#[test]
fn diagonal_speed_matches_axis_speed() {
    // One second forward-right: each component is floor(sqrt(5000^2 / 2)).
    let g = game_with(&[Key::W, Key::D]);
    let mut pos = Vec3::new(0, 0, 0);
    update_player_movement(&mut pos, &g.input_state, 1000);
    assert_eq!(pos, Vec3::new(3_535, 0, -3_535));
    // Squared magnitude within a milli-unit of rounding of (speed * dt)^2.
    let mag_sq = 3_535i64 * 3_535 + 3_535 * 3_535;
    let s_sq = 5_000i64 * 5_000;
    assert!(mag_sq <= s_sq);
    assert!(mag_sq >= s_sq - 4 * 5_000 - 1);
}

#[test]
fn diagonal_backward_left_mirrors_forward_right() {
    let g = game_with(&[Key::S, Key::A]);
    let mut pos = Vec3::new(1_000, 2_000, 3_000);
    update_player_movement(&mut pos, &g.input_state, 1000);
    assert_eq!(pos, Vec3::new(1_000 - 3_535, 2_000, 3_000 + 3_535));
}

#[test]
fn scenario_forward_then_camera_snaps_to_target() {
    // Player at the origin, forward held, one full second: five units ahead.
    let g = game_with(&[Key::W]);
    let mut player = Vec3::new(0, 0, 0);
    update_player_movement(&mut player, &g.input_state, 1000);
    assert_eq!(player, Vec3::new(0, 0, -5_000));

    // Camera at (0, 3, 5); half a second gives easing factor exactly one,
    // so the camera lands exactly on target = player + (0, 3, 5) = (0, 3, 0).
    let mut camera = Pose::new(Vec3::new(0, 3_000, 5_000), Vec3::new(0, 0, -1_000));
    update_camera(&player, &mut camera, 500);
    assert_eq!(camera.position, Vec3::new(0, 3_000, 0));
    // And it looks at the player from there.
    assert_eq!(camera.look, Vec3::new(0, -3_000, -5_000));
}

#[test]
fn camera_lies_between_old_position_and_target() {
    // dt = 100 ms: factor 0.2, camera covers a fifth of each distance.
    let player = Vec3::new(0, 0, -5_000);
    let mut camera = Pose::new(Vec3::new(0, 3_000, 5_000), Vec3::new(0, 0, -1_000));
    update_camera(&player, &mut camera, 100);
    // Target is (0, 3000, 0): only z moves, by 5000 * 200 / 1000 = 1000.
    assert_eq!(camera.position, Vec3::new(0, 3_000, 4_000));
    assert!(camera.position.z < 5_000 && camera.position.z > 0);
}

#[test]
fn lerp_component_matches_exact_fractions() {
    assert_eq!(lerp_component(0, 1_000, 100), 200);
    assert_eq!(lerp_component(1_000, 0, 100), 800);
    assert_eq!(lerp_component(-500, 500, 250), 0);
    // Rounding is toward the old value: 3 * 200 / 1000 rounds to 0.
    assert_eq!(lerp_component(0, 3, 100), 0);
    // Factor exactly one reaches the target.
    assert_eq!(lerp_component(7, 1_007, 500), 1_007);
}

#[test]
fn long_frame_overshoots_without_a_clamp() {
    // dt = 1 s gives factor 2.0: the camera oversteps the target by the
    // distance itself, mirroring the unclamped easing.
    assert_eq!(lerp_component(0, 1_000, 1_000), 2_000);
}

#[test]
fn zero_dt_update_twice_changes_nothing() {
    let g = game_with(&[Key::W, Key::D]);
    let mut player = initial_player_pose();
    let mut camera = initial_camera_pose();
    g.update(&mut player, &mut camera, 0);
    let player_after_one = player;
    let camera_after_one = camera;
    assert_eq!(player.position, initial_player_pose().position);
    assert_eq!(camera.position, initial_camera_pose().position);
    g.update(&mut player, &mut camera, 0);
    assert_eq!(player, player_after_one);
    assert_eq!(camera, camera_after_one);
}

#[test]
fn coincident_camera_keeps_its_look_direction() {
    // Camera exactly on the player's target-free position: zero look vector
    // is never produced; the previous direction is retained.
    let player = Vec3::new(10, 20, 30);
    let mut camera = Pose::new(Vec3::new(10, 20, 30), Vec3::new(0, 0, -1_000));
    // dt = 0 keeps the camera exactly on the player.
    update_camera(&player, &mut camera, 0);
    assert_eq!(camera.position, Vec3::new(10, 20, 30));
    assert_eq!(camera.look, Vec3::new(0, 0, -1_000));
    assert!(camera.look != Vec3::new(0, 0, 0));
}

#[test]
fn camera_converges_toward_target_over_many_frames() {
    let player = Vec3::new(0, 0, 0);
    let mut camera = Pose::new(Vec3::new(0, 0, 100_000), Vec3::new(0, 0, -1_000));
    let mut last_gap = (camera.position.z - 5_000).abs();
    for _ in 0..60 {
        update_camera(&player, &mut camera, 16);
        let gap = (camera.position.z - 5_000).abs();
        assert!(gap <= last_gap);
        last_gap = gap;
    }
    assert!(last_gap < 15_000);
}

#[test]
fn update_moves_player_before_camera() {
    // The camera's target uses the player's already-updated position: from
    // rest, factor one lands the camera exactly on new player + offset.
    let g = game_with(&[Key::W]);
    let mut player = Pose::new(Vec3::new(0, 0, 0), Vec3::new(0, 0, -1_000));
    let mut camera = Pose::new(Vec3::new(0, 3_000, 5_000), Vec3::new(0, -2_000, -5_000));
    g.update(&mut player, &mut camera, 500);
    assert_eq!(player.position, Vec3::new(0, 0, -2_500));
    assert_eq!(camera.position, Vec3::new(0, 3_000, -2_500 + 5_000));
}

#[test]
fn isqrt_exact_values() {
    assert_eq!(isqrt(0), 0);
    assert_eq!(isqrt(1), 1);
    assert_eq!(isqrt(2), 1);
    assert_eq!(isqrt(3), 1);
    assert_eq!(isqrt(4), 2);
    assert_eq!(isqrt(12_499_999), 3_535);
    assert_eq!(isqrt(12_500_000), 3_535);
    assert_eq!(isqrt(12_503_296), 3_536);
    assert_eq!(isqrt(8_999_999_999_999_999_999), 2_999_999_999);
}

#[test]
fn extremes_of_the_coordinate_range_stay_exact() {
    // Largest accepted position and delta-time: one step still lands exactly
    // at speed * dt further out.
    let pos_max: i64 = 1_000_000_000_000;
    let dt_max: i64 = 1_000_000;
    let g = game_with(&[Key::D]);
    let mut pos = Vec3::new(pos_max, 0, -pos_max);
    update_player_movement(&mut pos, &g.input_state, dt_max);
    assert_eq!(pos, Vec3::new(pos_max + 5_000_000, 0, -pos_max));

    // A camera a full world away, eased over the largest delta-time, steps
    // an unclamped factor of 2000 past the target without overflowing.
    let player = Vec3::new(pos_max, 0, 0);
    let mut camera = Pose::new(Vec3::new(-pos_max, 0, 0), Vec3::new(0, 0, -1_000));
    update_camera(&player, &mut camera, dt_max);
    // target.x = pos_max; distance 2 * pos_max; step = distance * 2_000_000 / 1000.
    assert_eq!(camera.position.x, -pos_max + 2_000 * 2 * pos_max);
}

#[test]
fn initial_poses_match_the_scene_constants() {
    let p = initial_player_pose();
    assert_eq!(p.position, Vec3::new(0, 1_000, 0));
    let c = initial_camera_pose();
    assert_eq!(c.position, Vec3::new(0, 3_000, 5_000));
    assert!(c.look != Vec3::new(0, 0, 0));
}
