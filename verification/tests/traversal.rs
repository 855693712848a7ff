use platformer::ledges::{detect_ledges, handle_ledge_grab, ledge_candidate, ledge_ray};
use platformer::traversal::{
    add_friction_when_landing, aerial_drift, buffer_jump, classify_pair, contains_id, ground_ray,
    handle_grounded, handle_jump_buffer, handle_jumping, handle_self_removing_components,
    reset_jumps_after_landing,
};
use platformer::walls::{
    detect_walls, handle_wall_jumping, handle_wall_sliding, wall_candidate, wall_ray,
};
use platformer::{
    Busy, CollisionEvent, Grounded, GroundedState, JumpStage, Landing, Momentum, PlayerBody, RayHit,
    Vector3,
};

const PLAYER: u64 = 1;
const SENSOR: u64 = 2;
const WALL: u64 = 10;
const OTHER_WALL: u64 = 11;
const LEDGE: u64 = 20;

fn standing() -> PlayerBody {
    PlayerBody::new(Vector3::new(0, 1_000, 0), Vector3::new(0, 0, -1_000))
}

fn in_state(state: GroundedState) -> PlayerBody {
    let mut body = standing();
    body.grounded.state = state;
    body
}

fn hit(normal: Vector3) -> RayHit {
    RayHit { point: Vector3::new(5_000, 1_000, 0), normal }
}

#[test]
fn a_new_body_stands_at_rest() {
    let body = standing();
    assert_eq!(body.grounded, Grounded::default());
    assert!(body.grounded.is_grounded());
    assert!(!body.grounded.is_airborne());
    assert!(body.grounded.can_jump());
    assert!(!body.grounded.can_wall_slide());
    assert!(!body.grounded.can_grab_ledge());
    assert_eq!(body.velocity, Vector3::zero());
    assert_eq!(body.friction, 1_000);
    assert_eq!(body.gravity_scale, 1_000);
    assert_eq!(body.momentum, Momentum(0));
    assert_eq!(body.landing, None);
}

#[test]
fn grounded_jump_end_to_end() {
    let mut body = standing();
    buffer_jump(&mut body, true);
    assert!(handle_jumping(&mut body));
    assert_eq!(body.velocity.y, 10_000);
    assert_eq!(body.velocity.x, 0);
    assert_eq!(body.grounded.state, GroundedState::Rising);
    assert_eq!(body.jump.jump_stage, JumpStage::Double);
    assert!(!body.jump.jump_buffered);
    assert!(!handle_jumping(&mut body));
}

#[test]
fn wall_jump_end_to_end() {
    let mut body = in_state(GroundedState::WallSliding(Vector3::new(1_000, 0, 0)));
    body.jump.buffer_jump();
    handle_wall_jumping(&mut body, true);
    assert_eq!(body.velocity, Vector3::new(15_000, 15_000, 0));
    assert_eq!(body.grounded.state, GroundedState::Rising);
    assert_eq!(body.facing, Vector3::new(1_000, 0, 0));
    assert_eq!(body.momentum, Momentum(15_000));
    assert!(!body.jump.jump_buffered);
}

#[test]
fn no_wall_jump_without_a_press_or_a_wall() {
    let mut sliding = in_state(GroundedState::WallSliding(Vector3::new(1_000, 0, 0)));
    let before = sliding;
    handle_wall_jumping(&mut sliding, false);
    assert_eq!(sliding, before);
    let mut falling = in_state(GroundedState::Falling);
    let before = falling;
    handle_wall_jumping(&mut falling, true);
    assert_eq!(falling, before);
}

#[test]
fn no_jump_while_falling_until_the_body_lands() {
    let mut body = in_state(GroundedState::Falling);
    buffer_jump(&mut body, true);
    assert!(!handle_jumping(&mut body));
    assert!(body.jump.jump_buffered);
    assert_eq!(body.velocity.y, 0);
    assert!(handle_grounded(&mut body, true));
    assert!(handle_jumping(&mut body));
    assert_eq!(body.velocity.y, 10_000);
}

#[test]
fn a_jump_counts_during_coyote_time() {
    let mut body = standing();
    assert!(!handle_grounded(&mut body, false));
    assert_eq!(body.grounded.state, GroundedState::Coyote);
    handle_self_removing_components(&mut body, 199_999_999);
    assert_eq!(body.grounded.state, GroundedState::Coyote);
    buffer_jump(&mut body, true);
    assert!(handle_jumping(&mut body));
    assert_eq!(body.grounded.state, GroundedState::Rising);
    assert_eq!(body.grounded.coyote_timer.0.elapsed, 0);
}

#[test]
fn coyote_time_runs_out_into_falling() {
    let mut body = standing();
    handle_grounded(&mut body, false);
    handle_self_removing_components(&mut body, 100_000_000);
    assert_eq!(body.grounded.state, GroundedState::Coyote);
    handle_self_removing_components(&mut body, 100_000_000);
    assert_eq!(body.grounded.state, GroundedState::Falling);
    buffer_jump(&mut body, true);
    assert!(!handle_jumping(&mut body));
}

#[test]
fn round_trip_restores_stage_and_drift() {
    let mut body = standing();
    body.jump.jump_stage = JumpStage::Triple;
    handle_grounded(&mut body, false);
    handle_self_removing_components(&mut body, 200_000_000);
    assert_eq!(body.grounded.state, GroundedState::Falling);
    aerial_drift(&mut body, Vector3::new(1_000, 0, 0), 100_000_000);
    assert_eq!(body.drift.0, Vector3::new(1_000, 0, 0));
    body.friction = 0;
    assert!(handle_grounded(&mut body, true));
    assert_eq!(body.grounded.state, GroundedState::Grounded);
    assert_eq!(body.drift.0, Vector3::zero());
    assert_eq!(body.friction, 1_000);
    assert_eq!(body.landing, Some(Landing::new()));
    reset_jumps_after_landing(&mut body);
    assert_eq!(body.jump.jump_stage, JumpStage::Triple);
    handle_self_removing_components(&mut body, 149_999_999);
    reset_jumps_after_landing(&mut body);
    assert_eq!(body.jump.jump_stage, JumpStage::Triple);
    handle_self_removing_components(&mut body, 1);
    assert_eq!(body.landing, None);
    reset_jumps_after_landing(&mut body);
    assert_eq!(body.jump.jump_stage, JumpStage::Single);
    assert!(!handle_grounded(&mut body, true));
}

#[test]
fn the_jump_stage_is_kept_in_the_air() {
    let mut body = in_state(GroundedState::Falling);
    body.jump.jump_stage = JumpStage::Double;
    reset_jumps_after_landing(&mut body);
    assert_eq!(body.jump.jump_stage, JumpStage::Double);
}

#[test]
fn landing_from_a_ledge_gives_the_weight_back() {
    let mut body = in_state(GroundedState::LedgeGrabbed(Vector3::new(0, 0, -1_000)));
    body.gravity_scale = 0;
    assert!(handle_grounded(&mut body, true));
    assert_eq!(body.gravity_scale, 1_000);
    let mut light = in_state(GroundedState::Falling);
    light.gravity_scale = 500;
    handle_grounded(&mut light, true);
    assert_eq!(light.gravity_scale, 500);
}

#[test]
fn the_ground_ray_points_down() {
    let body = standing();
    let ray = ground_ray(&body);
    assert_eq!(ray.origin, Vector3::new(0, 1_000, 0));
    assert_eq!(ray.target, Vector3::new(0, -100, 0));
    assert!(ray.solid && ray.exclude_sensors && ray.exclude_dynamic);
    assert_eq!(ray.exclude_collider, None);
}

#[test]
fn friction_comes_back_on_landing() {
    let mut body = standing();
    body.friction = 0;
    add_friction_when_landing(&mut body);
    assert_eq!(body.friction, 1_000);
}

#[test]
fn the_jump_buffer_ticks_with_the_body() {
    let mut body = standing();
    buffer_jump(&mut body, false);
    assert!(!body.jump.jump_buffered);
    buffer_jump(&mut body, true);
    handle_jump_buffer(&mut body, 200_000_000);
    assert!(!body.jump.jump_buffered);
}

#[test]
fn drift_builds_up_only_in_free_air() {
    let push = Vector3::new(0, 0, -1_000);
    let mut grounded = standing();
    aerial_drift(&mut grounded, push, 1_000_000_000);
    assert!(!grounded.drift.has_drift());
    let mut hanging = in_state(GroundedState::LedgeGrabbed(Vector3::zero()));
    aerial_drift(&mut hanging, push, 1_000_000_000);
    assert!(!hanging.drift.has_drift());
    let mut rising = in_state(GroundedState::Rising);
    aerial_drift(&mut rising, push, 16_000_000);
    assert_eq!(rising.drift.0, Vector3::new(0, 0, -160));
    aerial_drift(&mut rising, push, 16_000_000);
    assert_eq!(rising.drift.0, Vector3::new(0, 0, -320));
    aerial_drift(&mut rising, push, 500_000);
    assert_eq!(rising.drift.0, Vector3::new(0, 0, -325));
}

#[test]
fn pairs_are_classified_in_either_order() {
    let walls = vec![WALL, OTHER_WALL];
    assert!(contains_id(&walls, OTHER_WALL));
    assert!(!contains_id(&walls, SENSOR));
    assert_eq!(classify_pair(&CollisionEvent::Started(SENSOR, WALL), SENSOR, &walls), Some(WALL));
    assert_eq!(classify_pair(&CollisionEvent::Stopped(WALL, SENSOR), SENSOR, &walls), Some(WALL));
    assert_eq!(classify_pair(&CollisionEvent::Started(PLAYER, WALL), SENSOR, &walls), None);
    assert_eq!(classify_pair(&CollisionEvent::Started(SENSOR, LEDGE), SENSOR, &walls), None);
    assert_eq!(classify_pair(&CollisionEvent::Started(WALL, OTHER_WALL), SENSOR, &walls), None);
    assert_eq!(classify_pair(&CollisionEvent::Started(SENSOR, SENSOR), SENSOR, &vec![]), None);
    assert_eq!(CollisionEvent::Stopped(3, 4).pair(), (3, 4));
}

#[test]
fn a_wall_slide_begins_in_the_air() {
    let walls = vec![WALL];
    let started = CollisionEvent::Started(WALL, SENSOR);
    let normal = Vector3::new(-1_000, 0, 0);
    let mut body = in_state(GroundedState::Falling);
    body.velocity = Vector3::new(3_000, -4_000, 5_000);
    assert_eq!(wall_candidate(&body, &started, SENSOR, &walls), Some(WALL));
    let ray = wall_ray(&body, Vector3::new(9_000, 1_000, 0), PLAYER);
    assert_eq!(ray.origin, body.position);
    assert_eq!(ray.target, Vector3::new(9_000, 1_000, 0));
    assert!(ray.exclude_sensors && !ray.exclude_dynamic);
    assert_eq!(ray.exclude_collider, Some(PLAYER));
    detect_walls(&mut body, &started, SENSOR, &walls, Some(hit(normal)));
    assert_eq!(body.grounded.state, GroundedState::WallSliding(normal));
    assert_eq!(body.grounded.wall, WALL);
    assert_eq!(body.velocity, Vector3::new(0, -4_000, 0));
    assert_eq!(body.friction, 0);
    assert!(body.grounded.is_wall_sliding());
    handle_wall_sliding(&mut body);
    assert_eq!(body.velocity, Vector3::new(0, -2_000, 0));
}

#[test]
fn no_wall_slide_without_a_confirming_ray() {
    let walls = vec![WALL];
    let started = CollisionEvent::Started(SENSOR, WALL);
    let mut body = in_state(GroundedState::Rising);
    let before = body;
    detect_walls(&mut body, &started, SENSOR, &walls, None);
    assert_eq!(body, before);
}

#[test]
fn no_wall_slide_from_the_ground_a_wall_a_ledge_or_on_hold() {
    let walls = vec![WALL];
    let started = CollisionEvent::Started(SENSOR, WALL);
    let normal = Vector3::new(0, 0, 1_000);
    for state in [
        GroundedState::Grounded,
        GroundedState::WallSliding(Vector3::new(1_000, 0, 0)),
        GroundedState::LedgeGrabbed(Vector3::new(1_000, 0, 0)),
    ] {
        let mut body = in_state(state);
        let before = body;
        assert_eq!(wall_candidate(&body, &started, SENSOR, &walls), None);
        detect_walls(&mut body, &started, SENSOR, &walls, Some(hit(normal)));
        assert_eq!(body, before);
    }
    let mut held = in_state(GroundedState::Falling);
    held.busy = Some(Busy::new(1_000));
    let before = held;
    detect_walls(&mut held, &started, SENSOR, &walls, Some(hit(normal)));
    assert_eq!(held, before);
    let mut coyote = in_state(GroundedState::Coyote);
    detect_walls(&mut coyote, &started, SENSOR, &walls, Some(hit(normal)));
    assert_eq!(coyote.grounded.state, GroundedState::WallSliding(normal));
    let mut falling = in_state(GroundedState::Falling);
    let before = falling;
    handle_wall_sliding(&mut falling);
    assert_eq!(falling, before);
}

#[test]
fn a_wall_slide_ends_when_the_sensor_leaves_that_wall() {
    let walls = vec![WALL, OTHER_WALL];
    let normal = Vector3::new(-1_000, 0, 0);
    let mut body = in_state(GroundedState::Falling);
    detect_walls(&mut body, &CollisionEvent::Started(SENSOR, WALL), SENSOR, &walls, Some(hit(normal)));
    let sliding = body;
    detect_walls(&mut body, &CollisionEvent::Stopped(SENSOR, OTHER_WALL), SENSOR, &walls, None);
    assert_eq!(body, sliding);
    detect_walls(&mut body, &CollisionEvent::Stopped(PLAYER, WALL), SENSOR, &walls, None);
    assert_eq!(body, sliding);
    detect_walls(&mut body, &CollisionEvent::Stopped(WALL, SENSOR), SENSOR, &walls, None);
    assert_eq!(body.grounded.state, GroundedState::Grounded);
    assert_eq!(body.friction, 1_000);
    let mut free = in_state(GroundedState::Falling);
    free.friction = 0;
    let before = free;
    detect_walls(&mut free, &CollisionEvent::Stopped(WALL, SENSOR), SENSOR, &walls, None);
    assert_eq!(free, before);
}

#[test]
fn a_ledge_is_grabbed_from_the_air_and_from_a_wall() {
    let ledges = vec![LEDGE];
    let started = CollisionEvent::Started(LEDGE, SENSOR);
    let normal = Vector3::new(0, 0, 1_000);
    for state in [
        GroundedState::Coyote,
        GroundedState::Rising,
        GroundedState::Falling,
        GroundedState::WallSliding(Vector3::new(1_000, 0, 0)),
    ] {
        let mut body = in_state(state);
        body.velocity = Vector3::new(1, 2, 3);
        assert_eq!(ledge_candidate(&body, &started, SENSOR, &ledges), Some(LEDGE));
        assert!(detect_ledges(&mut body, &started, SENSOR, &ledges, Some(hit(normal))));
        assert_eq!(body.grounded.state, GroundedState::LedgeGrabbed(Vector3::new(0, 0, -1_000)));
        assert_eq!(body.velocity, Vector3::zero());
        assert_eq!(body.gravity_scale, 0);
        assert!(body.grounded.is_ledge_grabbed());
    }
}

#[test]
fn no_ledge_grab_from_the_ground_twice_or_unconfirmed() {
    let ledges = vec![LEDGE];
    let started = CollisionEvent::Started(SENSOR, LEDGE);
    let normal = Vector3::new(0, 0, 1_000);
    for state in [GroundedState::Grounded, GroundedState::LedgeGrabbed(Vector3::up())] {
        let mut body = in_state(state);
        let before = body;
        assert!(!detect_ledges(&mut body, &started, SENSOR, &ledges, Some(hit(normal))));
        assert_eq!(body, before);
    }
    let mut body = in_state(GroundedState::Falling);
    let before = body;
    assert!(!detect_ledges(&mut body, &started, SENSOR, &ledges, None));
    assert!(!detect_ledges(&mut body, &CollisionEvent::Stopped(SENSOR, LEDGE), SENSOR, &ledges, Some(hit(normal))));
    assert!(!detect_ledges(&mut body, &CollisionEvent::Started(SENSOR, WALL), SENSOR, &ledges, Some(hit(normal))));
    assert_eq!(body, before);
}

#[test]
fn the_ledge_ray_is_level_with_the_ledge() {
    let body = standing();
    let ray = ledge_ray(&body, Vector3::new(4_000, 3_000, -2_000), PLAYER);
    assert_eq!(ray.origin, Vector3::new(0, 3_000, 0));
    assert_eq!(ray.target, Vector3::new(4_000, 3_000, -2_000));
    assert!(ray.solid && !ray.exclude_sensors && !ray.exclude_dynamic);
    assert_eq!(ray.exclude_collider, Some(PLAYER));
}

#[test]
fn climbing_and_dropping_from_a_ledge() {
    let into_ledge = Vector3::new(0, 0, -1_000);
    let mut hanging = in_state(GroundedState::LedgeGrabbed(into_ledge));
    hanging.gravity_scale = 0;
    let mut idle = hanging;
    handle_ledge_grab(&mut idle, false, false);
    assert_eq!(idle, hanging);
    let mut climbing = hanging;
    handle_ledge_grab(&mut climbing, true, false);
    assert_eq!(climbing.position, Vector3::new(0, 2_800, -1_500));
    assert_eq!(climbing.gravity_scale, 1_000);
    assert_eq!(climbing.grounded.state, GroundedState::Rising);
    let mut both = hanging;
    handle_ledge_grab(&mut both, true, true);
    assert_eq!(both, climbing);
    let mut dropping = hanging;
    handle_ledge_grab(&mut dropping, false, true);
    assert_eq!(dropping.position, hanging.position);
    assert_eq!(dropping.gravity_scale, 1_000);
    assert_eq!(dropping.grounded.state, GroundedState::Falling);
    let mut falling = in_state(GroundedState::Falling);
    let before = falling;
    handle_ledge_grab(&mut falling, true, true);
    assert_eq!(falling, before);
}

#[test]
fn the_state_methods_move_between_states() {
    let mut grounded = Grounded::default();
    grounded.coyote_timer.tick(50);
    grounded.walk_off();
    assert_eq!(grounded.state, GroundedState::Coyote);
    assert_eq!(grounded.coyote_timer.0.elapsed, 0);
    grounded.coyote_tick(150_000_000);
    assert_eq!(grounded.state, GroundedState::Coyote);
    grounded.jump();
    assert_eq!(grounded.state, GroundedState::Rising);
    assert_eq!(grounded.coyote_timer.0.elapsed, 0);
    grounded.coyote_tick(1_000_000_000);
    assert_eq!(grounded.state, GroundedState::Rising);
    assert_eq!(grounded.coyote_timer.0.elapsed, 0);
    grounded.land();
    assert!(grounded.is_grounded());
}
