use platformer::camera::{
    debug_change_camera_mode, desired_position, lerp_to_camera_position, occlusion_ray,
    rotate_camera, update_camera_target_position, wrap_angle,
};
use platformer::{CameraController, CameraMode, RayHit, Vector3};

fn following() -> CameraController {
    let mut camera = CameraController::default();
    camera.mode = CameraMode::Normal;
    camera
}

#[test]
fn the_camera_starts_in_fixed_mode() {
    let camera = CameraController::default();
    assert_eq!(camera.z_distance, 10_000);
    assert_eq!(camera.y_distance, 7_000);
    assert_eq!(camera.angle, 0);
    assert_eq!(camera.easing, 4_000);
    assert_eq!(
        camera.mode,
        CameraMode::Fixed { position: Vector3::new(0, 40_000, -23_000), look_target: Vector3::zero() }
    );
    assert!(!camera.blocked_by_a_wall);
}

#[test]
fn the_height_steps_at_its_threshold() {
    let camera = CameraController::default();
    assert_eq!(camera.desired_y_height(i64::MIN), 3_500);
    assert_eq!(camera.desired_y_height(0), 3_500);
    assert_eq!(camera.desired_y_height(4_999), 3_500);
    assert_eq!(camera.desired_y_height(5_000), 7_000);
    assert_eq!(camera.desired_y_height(5_001), 7_000);
    assert_eq!(camera.desired_y_height(i64::MAX), 7_000);
}

#[test]
fn the_distance_steps_at_its_threshold() {
    let camera = CameraController::default();
    assert_eq!(camera.desired_z_distance(i64::MIN), 10_000);
    assert_eq!(camera.desired_z_distance(9_999), 10_000);
    assert_eq!(camera.desired_z_distance(10_000), 15_000);
    assert_eq!(camera.desired_z_distance(10_001), 15_000);
    assert_eq!(camera.desired_z_distance(i64::MAX), 15_000);
}

#[test]
fn halves_round_down() {
    let mut camera = CameraController::default();
    camera.y_distance = 7_001;
    assert_eq!(camera.desired_y_height(0), 3_500);
    camera.y_distance = -7_001;
    assert_eq!(camera.desired_y_height(0), -3_501);
}

#[test]
fn the_easing_speed_depends_on_mode_and_walls() {
    let mut camera = CameraController::default();
    assert_eq!(camera.desired_easing_speed(), 20_000);
    camera.mode = CameraMode::Normal;
    assert_eq!(camera.desired_easing_speed(), 4_000);
    camera.blocked_by_a_wall = true;
    assert_eq!(camera.desired_easing_speed(), 10_000);
}

#[test]
fn the_orbit_angle_wraps_at_the_boundaries() {
    let mut camera = following();
    camera.angle = 359_900;
    camera.rotate_by(1_000);
    assert_eq!(camera.angle, 900);
    camera.angle = -359_900;
    camera.rotate_by(-1_000);
    assert_eq!(camera.angle, -900);
    camera.angle = 359_900;
    camera.rotate_by(100);
    assert_eq!(camera.angle, 360_000);
    camera.rotate_by(-720_000);
    assert_eq!(camera.angle, -360_000);
    camera.rotate_by(-1);
    assert_eq!(camera.angle, -1);
    assert_eq!(wrap_angle(360_001), 1);
    assert_eq!(wrap_angle(-360_000), -360_000);
    assert_eq!(wrap_angle(-360_001), -1);
}

#[test]
fn the_rotate_buttons_step_by_45_degrees() {
    let mut camera = following();
    rotate_camera(&mut camera, false, false);
    assert_eq!(camera.angle, 0);
    rotate_camera(&mut camera, true, false);
    assert_eq!(camera.angle, -45_000);
    rotate_camera(&mut camera, true, true);
    assert_eq!(camera.angle, -45_000);
    for _ in 0..8 {
        rotate_camera(&mut camera, false, true);
    }
    assert_eq!(camera.angle, 315_000);
    rotate_camera(&mut camera, false, true);
    assert_eq!(camera.angle, 360_000);
    rotate_camera(&mut camera, false, true);
    assert_eq!(camera.angle, 45_000);
    camera.angle = -350_000;
    rotate_camera(&mut camera, true, false);
    assert_eq!(camera.angle, -35_000);
}

#[test]
fn the_mode_button_toggles() {
    let mut camera = following();
    debug_change_camera_mode(&mut camera, false);
    assert_eq!(camera.mode, CameraMode::Normal);
    debug_change_camera_mode(&mut camera, true);
    assert_eq!(
        camera.mode,
        CameraMode::Fixed { position: Vector3::new(0, 30_000, -20_000), look_target: Vector3::zero() }
    );
    debug_change_camera_mode(&mut camera, true);
    assert_eq!(camera.mode, CameraMode::Normal);
}

#[test]
fn the_wanted_place_is_behind_and_above_the_player() {
    let camera = following();
    let player = Vector3::new(1_000, 2_000, 3_000);
    let back = Vector3::new(0, 0, 1_000);
    assert_eq!(desired_position(&camera, player, back, 0), Vector3::new(1_000, 5_500, 13_000));
    assert_eq!(desired_position(&camera, player, back, 5_000), Vector3::new(1_000, 9_000, 13_000));
    assert_eq!(desired_position(&camera, player, back, 10_000), Vector3::new(1_000, 9_000, 18_000));
    let ray = occlusion_ray(&camera, player, back, 10_000, 7);
    assert_eq!(ray.origin, player);
    assert_eq!(ray.target, Vector3::new(1_000, 9_000, 18_000));
    assert!(ray.solid && ray.exclude_sensors && !ray.exclude_dynamic);
    assert_eq!(ray.exclude_collider, Some(7));
}

#[test]
fn a_wall_clamps_the_target_to_the_hit_point() {
    let mut camera = following();
    let player = Vector3::new(1_000, 2_000, 3_000);
    let back = Vector3::new(0, 0, 1_000);
    let wall = RayHit { point: Vector3::new(1_000, 3_000, 6_000), normal: Vector3::new(0, 0, -1_000) };
    update_camera_target_position(&mut camera, player, back, 0, Some(wall));
    assert_eq!(camera.target_position, wall.point);
    assert_ne!(camera.target_position, desired_position(&camera, player, back, 0));
    assert_eq!(camera.player_position, player);
    assert!(camera.blocked_by_a_wall);
    update_camera_target_position(&mut camera, player, back, 0, None);
    assert_eq!(camera.target_position, Vector3::new(1_000, 5_500, 13_000));
    assert!(!camera.blocked_by_a_wall);
}

#[test]
fn the_camera_eases_on_ticks_shorter_than_a_millisecond() {
    let mut camera = following();
    camera.target_position = Vector3::new(10_000, 0, -10_000);
    let mut place = Vector3::zero();
    lerp_to_camera_position(&camera, &mut place, 500_000);
    assert_eq!(place, Vector3::new(20, 0, -20));
}

#[test]
fn the_camera_eases_towards_its_goal() {
    let mut camera = following();
    camera.target_position = Vector3::new(10_000, 0, -10_000);
    camera.player_position = Vector3::new(1, 2, 3);
    let mut place = Vector3::zero();
    let look = lerp_to_camera_position(&camera, &mut place, 100_000_000);
    assert_eq!(place, Vector3::new(4_000, 0, -4_000));
    assert_eq!(look, Vector3::new(1, 2, 3));
    camera.blocked_by_a_wall = true;
    let mut place = Vector3::zero();
    lerp_to_camera_position(&camera, &mut place, 100_000_000);
    assert_eq!(place, Vector3::new(10_000, 0, -10_000));
    let fixed = CameraController::default();
    let mut place = Vector3::zero();
    let look = lerp_to_camera_position(&fixed, &mut place, 10_000_000);
    assert_eq!(place, Vector3::new(0, 8_000, -4_600));
    assert_eq!(look, Vector3::zero());
}
