use platformer::locomotion::{
    axis, get_direction_in_camera_space, handle_player_acceleration, move_player_from_rotation,
    rotate_to_direction, set_player_direction, Turn,
};
use platformer::wind::{handle_entering_wind_zones, same_pair};
use platformer::{
    CollisionEvent, Drift, GroundedState, Momentum, Movement, OutsideForce, PlayerBody, PlayerSpeed,
    Vector3, WindZone,
};

fn standing() -> PlayerBody {
    PlayerBody::new(Vector3::zero(), Vector3::new(0, 0, -1_000))
}

#[test]
fn the_speed_model_starts_at_the_base_speed() {
    let speed = PlayerSpeed::default();
    assert_eq!(speed.current(), 7_500);
    assert_eq!(speed.base_speed, 7_500);
    assert_eq!(speed.top_speed, 15_000);
    assert_eq!(speed.min_speed, -20_000);
    assert_eq!(speed.acceleration, 2_000);
    assert_eq!(speed.accel_timer.duration, 1_500_000_000);
}

#[test]
fn the_speed_waits_for_the_delay() {
    let mut speed = PlayerSpeed::default();
    speed.accelerate(1_400_000_000);
    assert_eq!(speed.current(), 7_500);
    speed.accelerate(99_999_999);
    assert_eq!(speed.current(), 7_500);
}

#[test]
fn the_speed_closes_its_share_of_the_gap() {
    let mut speed = PlayerSpeed::default();
    speed.accelerate(1_400_000_000);
    speed.accelerate(100_000_000);
    assert_eq!(speed.current(), 9_000);
    speed.accelerate(100_000_000);
    assert_eq!(speed.current(), 10_200);
    speed.accelerate(250_000_000);
    assert_eq!(speed.current(), 12_600);
}

#[test]
fn the_speed_builds_up_on_ticks_shorter_than_a_millisecond() {
    let mut speed = PlayerSpeed::default();
    speed.accelerate(1_500_000_000 - 500_000);
    assert_eq!(speed.current(), 7_500);
    speed.accelerate(500_000);
    assert_eq!(speed.current(), 7_507);
    let mut body = standing();
    body.movement = Movement(Vector3::new(1_000, 0, 0));
    assert_eq!(
        rotate_to_direction(&body, 500_000),
        Some(Turn { toward: Vector3::new(1_000, 0, 0), fraction: 5 })
    );
}

#[test]
fn the_speed_never_passes_the_top_speed() {
    let mut speed = PlayerSpeed::default();
    speed.accelerate(1_500_000_000);
    assert_eq!(speed.current(), 15_000);
    speed.accelerate(1);
    assert_eq!(speed.current(), 15_000);
    let mut near = PlayerSpeed::default();
    near.accelerate(1_500_000_000 - 1);
    near.current_speed = 14_701;
    near.accelerate(1);
    assert_eq!(near.current(), 15_000);
    near.current_speed = 14_700;
    near.accelerate(1_000_000);
    assert_eq!(near.current(), 14_700);
    near.accelerate(10_000_000);
    assert_eq!(near.current(), 14_706);
}

#[test]
fn stopping_puts_the_speed_back() {
    let mut speed = PlayerSpeed::default();
    let moving = Movement(Vector3::new(1_000, 0, 0));
    handle_player_acceleration(&mut speed, &moving, 1_500_000_000);
    assert_eq!(speed.current(), 15_000);
    handle_player_acceleration(&mut speed, &Movement::default(), 1);
    assert_eq!(speed, PlayerSpeed::default());
    speed.current_speed = 1;
    speed.reset();
    assert_eq!(speed, PlayerSpeed::default());
}

#[test]
fn buttons_make_axes() {
    assert_eq!(axis(true, false), 1_000);
    assert_eq!(axis(false, true), -1_000);
    assert_eq!(axis(true, true), 0);
    assert_eq!(axis(false, false), 0);
}

#[test]
fn the_direction_follows_the_camera() {
    let forward = Vector3::new(0, 0, -1_000);
    let right = Vector3::new(1_000, 0, 0);
    let none = get_direction_in_camera_space(forward, right, false, false, false, false);
    assert_eq!(none, Vector3::zero());
    let ahead = get_direction_in_camera_space(forward, right, true, false, false, false);
    assert_eq!(ahead, forward);
    let back = get_direction_in_camera_space(forward, right, false, true, false, false);
    assert_eq!(back, Vector3::new(0, 0, 1_000));
    let left = get_direction_in_camera_space(forward, right, false, false, true, false);
    assert_eq!(left, Vector3::new(-1_000, 0, 0));
    let sideways = get_direction_in_camera_space(forward, right, false, false, false, true);
    assert_eq!(sideways, right);
    let cancelled = get_direction_in_camera_space(forward, right, true, true, true, true);
    assert_eq!(cancelled, Vector3::zero());
    let turned = get_direction_in_camera_space(
        Vector3::new(707, 0, -707),
        Vector3::new(707, 0, 707),
        true,
        false,
        true,
        false,
    );
    assert_eq!(turned, Vector3::new(0, 0, -1_000));
}

#[test]
fn a_diagonal_direction_is_of_unit_length() {
    let forward = Vector3::new(0, 0, -1_000);
    let right = Vector3::new(1_000, 0, 0);
    let both = get_direction_in_camera_space(forward, right, true, false, false, true);
    assert_eq!(both, Vector3::new(707, 0, -708));
    let other = get_direction_in_camera_space(forward, right, false, true, true, false);
    assert_eq!(other, Vector3::new(-708, 0, 707));
    for direction in [both, other] {
        let squared = direction.squared_length();
        assert!(996 * 996 <= squared && squared <= 1_004 * 1_004);
    }
}

#[test]
fn the_camera_axes_are_laid_flat_and_brought_to_unit_length() {
    let tilted = Vector3::new(0, -600, -800);
    let right = Vector3::new(1_000, 0, 0);
    let ahead = get_direction_in_camera_space(tilted, right, true, false, false, false);
    assert_eq!(ahead, Vector3::new(0, 0, -1_000));
    let both = get_direction_in_camera_space(tilted, right, true, false, false, true);
    assert_eq!(both, Vector3::new(707, 0, -708));
    let long = get_direction_in_camera_space(
        Vector3::new(0, 0, -5_000_000),
        Vector3::new(3_000_000, 0, 0),
        true,
        false,
        false,
        true,
    );
    assert_eq!(long, Vector3::new(707, 0, -708));
}

#[test]
fn a_camera_that_looks_straight_down_has_no_forward() {
    let down = Vector3::new(0, -1_000, 0);
    let right = Vector3::new(1_000, 0, 0);
    let ahead = get_direction_in_camera_space(down, right, true, false, false, false);
    assert_eq!(ahead, Vector3::zero());
    let both = get_direction_in_camera_space(down, right, true, false, false, true);
    assert_eq!(both, right);
}

#[test]
fn parallel_camera_axes_can_cancel() {
    let forward = Vector3::new(1_000, 0, 0);
    let against = Vector3::new(-1_000, 0, 0);
    let cancelled = get_direction_in_camera_space(forward, against, true, false, false, true);
    assert_eq!(cancelled, Vector3::zero());
    let doubled = get_direction_in_camera_space(forward, forward, true, false, false, true);
    assert_eq!(doubled, Vector3::new(1_000, 0, 0));
    let across = Vector3::new(0, 0, 1_000);
    for (up, down, left, right) in
        [(true, false, false, false), (true, false, true, false), (false, true, false, true)]
    {
        let direction = get_direction_in_camera_space(forward, across, up, down, left, right);
        assert_ne!(direction, Vector3::zero());
    }
}

#[test]
fn the_direction_is_stored_in_the_body() {
    let mut body = standing();
    let before = body;
    set_player_direction(
        &mut body,
        Vector3::new(0, -600, -800),
        Vector3::new(1_000, 0, 0),
        true,
        false,
        false,
        true,
    );
    assert_eq!(body.movement, Movement(Vector3::new(707, 0, -708)));
    assert!(body.movement.is_moving());
    body.movement = before.movement;
    assert_eq!(body, before);
    set_player_direction(
        &mut body,
        Vector3::new(0, 0, -1_000),
        Vector3::new(1_000, 0, 0),
        false,
        false,
        false,
        false,
    );
    assert!(!body.movement.is_moving());
}

#[test]
fn the_body_turns_only_on_the_ground_and_with_a_direction() {
    let mut body = standing();
    assert_eq!(rotate_to_direction(&body, 16_000_000), None);
    body.movement = Movement(Vector3::new(600, 300, -800));
    assert!(body.movement.is_moving());
    assert_eq!(
        rotate_to_direction(&body, 16_000_000),
        Some(Turn { toward: Vector3::new(600, 0, -800), fraction: 160 })
    );
    body.grounded.state = GroundedState::Falling;
    assert_eq!(rotate_to_direction(&body, 16_000_000), None);
    body.grounded.state = GroundedState::Grounded;
    body.movement = Movement(Vector3::new(0, 1_000, 0));
    assert_eq!(rotate_to_direction(&body, 16_000_000), None);
}

#[test]
fn the_velocity_comes_from_the_facing_and_the_speed() {
    let speed = PlayerSpeed::default();
    let mut body = standing();
    body.velocity = Vector3::new(1, 2, 3);
    move_player_from_rotation(&mut body, &speed);
    assert_eq!(body.velocity, Vector3::new(1, 2, 3));
    body.movement = Movement(Vector3::new(1_000, 0, 0));
    move_player_from_rotation(&mut body, &speed);
    assert_eq!(body.velocity, Vector3::new(0, 2, -7_500));
    body.facing = Vector3::new(600, 0, 800);
    body.outside_force = Some(OutsideForce(Vector3::new(4_000, 9_000, 4_000)));
    move_player_from_rotation(&mut body, &speed);
    assert_eq!(body.velocity, Vector3::new(8_500, 2, 10_000));
    body.movement = Movement(Vector3::zero());
    move_player_from_rotation(&mut body, &speed);
    assert_eq!(body.velocity, Vector3::new(4_000, 2, 4_000));
}

#[test]
fn wind_pushes_while_the_body_is_in_the_zone() {
    let zone: u64 = 30;
    let me: u64 = 1;
    let wind = WindZone(Vector3::new(4_000, 0, 4_000));
    assert_eq!(wind.get_force(), OutsideForce(Vector3::new(4_000, 0, 4_000)));
    assert!(same_pair(1, 2, 2, 1));
    assert!(same_pair(1, 2, 1, 2));
    assert!(!same_pair(1, 2, 1, 3));
    let mut body = standing();
    handle_entering_wind_zones(&mut body, &CollisionEvent::Started(zone, 99), zone, &wind, me);
    assert_eq!(body.outside_force, None);
    handle_entering_wind_zones(&mut body, &CollisionEvent::Started(me, zone), zone, &wind, me);
    assert_eq!(body.outside_force, Some(OutsideForce(Vector3::new(4_000, 0, 4_000))));
    let other = WindZone(Vector3::new(1, 1, 1));
    handle_entering_wind_zones(&mut body, &CollisionEvent::Started(31, me), 31, &other, me);
    assert_eq!(body.outside_force, Some(OutsideForce(Vector3::new(4_000, 0, 4_000))));
    handle_entering_wind_zones(&mut body, &CollisionEvent::Stopped(zone, 99), zone, &wind, me);
    assert!(body.outside_force.is_some());
    handle_entering_wind_zones(&mut body, &CollisionEvent::Stopped(zone, me), zone, &wind, me);
    assert_eq!(body.outside_force, None);
}

#[test]
fn the_small_components_do_what_they_say() {
    let mut momentum = Momentum::default();
    assert!(!momentum.has_momentum());
    momentum.set(5_000);
    momentum.add(2_500);
    assert_eq!(momentum.get(), 7_500);
    momentum.add(i64::MAX);
    assert_eq!(momentum.get(), i64::MAX);
    assert!(momentum.has_momentum());
    momentum.reset();
    assert_eq!(momentum.get(), 0);
    let mut drift = Drift::default();
    assert!(!drift.has_drift());
    drift.set(Vector3::new(1, 2, 3));
    drift.add(Vector3::new(10, 20, 30));
    assert_eq!(drift.0, Vector3::new(11, 22, 33));
    assert!(drift.has_drift());
    drift.reset();
    assert!(!drift.has_drift());
    assert!(!Movement::default().is_moving());
    assert_eq!(OutsideForce::default().0, Vector3::zero());
}
