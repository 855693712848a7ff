//! The follow camera: where it wants to be, how walls between it and the
//! player pull it in, and how it eases towards its target.

use vstd::prelude::*;
use crate::traversal::{RayHit, RayQuery};
use crate::units::{accrued, floor_div, narrow, plus, saturate, scale, spec_accrued, spec_scale};
use crate::vector::Vector3;

verus! {

/// Below this momentum the camera sits at half its height: 5 units.
pub const HEIGHT_MOMENTUM: i64 = 5_000;

/// From this momentum on the camera falls back further: 10 units.
pub const DISTANCE_MOMENTUM: i64 = 10_000;

/// How much further back the camera sits at high momentum: 1.5 times.
pub const FAR_FACTOR: i64 = 1_500;

/// How much faster the camera eases while a wall blocks it: 2.5 times.
pub const BLOCKED_EASING_FACTOR: i64 = 2_500;

/// How much faster the camera eases in fixed mode: 5 times.
pub const FIXED_EASING_FACTOR: i64 = 5_000;

/// One step of the orbit: 45 degrees.
pub const ORBIT_STEP: i64 = 45_000;

/// A full turn: 360 degrees.
pub const FULL_TURN: i64 = 360_000;

/// Height of the fixed camera that a new controller starts with: 40 units.
pub const START_HEIGHT: i64 = 40_000;

/// Depth of the fixed camera that a new controller starts with: 23 units
/// behind the origin.
pub const START_DEPTH: i64 = -23_000;

/// Height of the fixed camera that the mode button switches to: 30 units.
pub const TOGGLE_HEIGHT: i64 = 30_000;

/// Depth of the fixed camera that the mode button switches to: 20 units
/// behind the origin.
pub const TOGGLE_DEPTH: i64 = -20_000;

/// How the camera picks its place.
#[derive(Clone, Copy, Debug, PartialEq, Eq, Structural)]
pub enum CameraMode {
    /// Orbits the player and follows behind.
    Normal,
    /// Stays at `position` and looks at `look_target`.
    Fixed { position: Vector3, look_target: Vector3 },
}

/// The state of the follow camera.
#[derive(Clone, Copy, Debug, PartialEq, Eq, Structural)]
pub struct CameraController {
    /// How far behind the player the camera sits at low momentum.
    pub z_distance: i64,
    /// How far above the player the camera sits at high momentum.
    pub y_distance: i64,
    /// The orbit angle in degrees, kept between -360 and 360.
    pub angle: i64,
    /// The easing rate per second.
    pub easing: i64,
    /// Where the camera wants to be, computed each tick.
    pub target_position: Vector3,
    /// Where the player was when the target was computed.
    pub player_position: Vector3,
    pub mode: CameraMode,
    /// Whether a wall stood between the player and the wanted place.
    pub blocked_by_a_wall: bool,
}

/// The angle brought back towards zero by one full turn where it has left
/// the range from -360 to 360 degrees.
pub open spec fn spec_wrap_angle(angle: int) -> int {
    if angle > FULL_TURN {
        angle - FULL_TURN
    } else if angle < -FULL_TURN {
        angle + FULL_TURN
    } else {
        angle
    }
}

impl CameraController {
    /// The camera as it starts out: in fixed mode, high above and behind
    /// the origin.
    pub open spec fn spec_default() -> CameraController {
        CameraController {
            z_distance: 10_000,
            y_distance: 7_000,
            angle: 0,
            easing: 4_000,
            target_position: Vector3::spec_zero(),
            player_position: Vector3::spec_zero(),
            mode: CameraMode::Fixed {
                position: Vector3 { x: 0, y: START_HEIGHT, z: START_DEPTH },
                look_target: Vector3::spec_zero(),
            },
            blocked_by_a_wall: false,
        }
    }

    /// The orbit angle is within one full turn of zero.
    pub open spec fn wf(self) -> bool {
        -FULL_TURN <= self.angle <= FULL_TURN
    }

    /// The wanted height above the player: half the configured height
    /// below the height threshold, all of it from the threshold on.
    pub open spec fn spec_desired_y_height(self, momentum: i64) -> i64 {
        if momentum < HEIGHT_MOMENTUM {
            (self.y_distance / 2) as i64
        } else {
            self.y_distance
        }
    }

    /// The wanted distance behind the player: the configured distance
    /// below the distance threshold, one and a half times it from the
    /// threshold on.
    pub open spec fn spec_desired_z_distance(self, momentum: i64) -> i64 {
        if momentum < DISTANCE_MOMENTUM {
            self.z_distance
        } else {
            spec_scale(self.z_distance as int, FAR_FACTOR as int) as i64
        }
    }

    /// The easing rate in force: the configured rate, raised while a wall
    /// blocks the camera in normal mode, and raised further in fixed mode.
    pub open spec fn spec_desired_easing_speed(self) -> i64 {
        match self.mode {
            CameraMode::Normal => if self.blocked_by_a_wall {
                spec_scale(self.easing as int, BLOCKED_EASING_FACTOR as int) as i64
            } else {
                self.easing
            },
            CameraMode::Fixed { .. } => spec_scale(self.easing as int, FIXED_EASING_FACTOR as int) as i64,
        }
    }

    /// The camera after its orbit angle has been turned by `degrees` and
    /// wrapped.
    pub open spec fn spec_rotate_by(self, degrees: i64) -> CameraController {
        CameraController {
            angle: spec_wrap_angle(saturate(self.angle + degrees)) as i64,
            ..self
        }
    }

    /// The camera after the rotate inputs of one tick: a step to the left
    /// first, then a step to the right, each where its button has just
    /// gone down, and one wrap at the end.
    pub open spec fn spec_rotate_camera(self, left: bool, right: bool) -> CameraController {
        let after_left = if left {
            saturate(self.angle - ORBIT_STEP)
        } else {
            self.angle as int
        };
        let after_right = if right {
            saturate(after_left + ORBIT_STEP)
        } else {
            after_left
        };
        CameraController { angle: spec_wrap_angle(after_right) as i64, ..self }
    }

    /// The camera after the mode button: normal mode turns into fixed mode
    /// above and behind the origin, fixed mode into normal mode.
    pub open spec fn spec_toggle_mode(self) -> CameraController {
        CameraController {
            mode: match self.mode {
                CameraMode::Normal => CameraMode::Fixed {
                    position: Vector3 { x: 0, y: TOGGLE_HEIGHT, z: TOGGLE_DEPTH },
                    look_target: Vector3::spec_zero(),
                },
                CameraMode::Fixed { .. } => CameraMode::Normal,
            },
            ..self
        }
    }

    /// Where the camera wants to be with no wall in the way: at the player,
    /// moved along `orbit_direction` by the wanted distance and up by the
    /// wanted height.
    pub open spec fn spec_desired_position(
        self,
        player_position: Vector3,
        orbit_direction: Vector3,
        momentum: i64,
    ) -> Vector3 {
        player_position.spec_plus(
            orbit_direction.spec_scaled(self.spec_desired_z_distance(momentum) as int),
        ).spec_plus(Vector3 { x: 0, y: self.spec_desired_y_height(momentum), z: 0 })
    }

    /// The ray that looks for a wall between the player and the wanted
    /// place, through sensors and the player's own collider.
    pub open spec fn spec_occlusion_ray(
        self,
        player_position: Vector3,
        orbit_direction: Vector3,
        momentum: i64,
        player: u64,
    ) -> RayQuery {
        RayQuery {
            origin: player_position,
            target: self.spec_desired_position(player_position, orbit_direction, momentum),
            solid: true,
            exclude_sensors: true,
            exclude_dynamic: false,
            exclude_collider: Some(player),
        }
    }

    /// The camera after its target has been computed, where `hit` is what
    /// the occlusion ray met. The target is the point that the ray met, or
    /// the wanted place where it met nothing.
    pub open spec fn spec_update_target(
        self,
        player_position: Vector3,
        orbit_direction: Vector3,
        momentum: i64,
        hit: Option<RayHit>,
    ) -> CameraController {
        CameraController {
            player_position,
            target_position: match hit {
                Some(h) => h.point,
                None => self.spec_desired_position(player_position, orbit_direction, momentum),
            },
            blocked_by_a_wall: hit is Some,
            ..self
        }
    }

    /// The fraction of the way to its goal that the camera covers in
    /// `delta` nanoseconds.
    pub open spec fn spec_easing_fraction(self, delta: u64) -> i64 {
        spec_accrued(self.spec_desired_easing_speed() as int, delta as int) as i64
    }

    /// The place that the camera eases towards.
    pub open spec fn spec_goal(self) -> Vector3 {
        match self.mode {
            CameraMode::Normal => self.target_position,
            CameraMode::Fixed { position, .. } => position,
        }
    }

    /// The point that the camera looks at.
    pub open spec fn spec_look_target(self) -> Vector3 {
        match self.mode {
            CameraMode::Normal => self.player_position,
            CameraMode::Fixed { look_target, .. } => look_target,
        }
    }

    pub fn desired_y_height(&self, momentum: i64) -> (height: i64)
        ensures
            height == self.spec_desired_y_height(momentum),
    {
        if momentum < HEIGHT_MOMENTUM {
            narrow(floor_div(self.y_distance as i128, 2))
        } else {
            self.y_distance
        }
    }

    pub fn desired_z_distance(&self, momentum: i64) -> (distance: i64)
        ensures
            distance == self.spec_desired_z_distance(momentum),
    {
        if momentum < DISTANCE_MOMENTUM {
            self.z_distance
        } else {
            scale(self.z_distance, FAR_FACTOR)
        }
    }

    pub fn desired_easing_speed(&self) -> (speed: i64)
        ensures
            speed == self.spec_desired_easing_speed(),
    {
        match self.mode {
            CameraMode::Normal => {
                if self.blocked_by_a_wall {
                    scale(self.easing, BLOCKED_EASING_FACTOR)
                } else {
                    self.easing
                }
            },
            CameraMode::Fixed { position: _, look_target: _ } => scale(
                self.easing,
                FIXED_EASING_FACTOR,
            ),
        }
    }

    /// Turns the orbit by `degrees`, in thousandths of a degree, and wraps
    /// the angle once.
    pub fn rotate_by(&mut self, degrees: i64)
        ensures
            *final(self) == old(self).spec_rotate_by(degrees),
            old(self).wf() && -FULL_TURN <= degrees <= FULL_TURN ==> final(self).wf(),
    {
        self.angle = wrap_angle(plus(self.angle, degrees));
    }
}

impl Default for CameraController {
    fn default() -> (camera: CameraController)
        ensures
            camera == CameraController::spec_default(),
            camera.wf(),
    {
        CameraController {
            z_distance: 10_000,
            y_distance: 7_000,
            angle: 0,
            easing: 4_000,
            target_position: Vector3::zero(),
            player_position: Vector3::zero(),
            mode: CameraMode::Fixed {
                position: Vector3 { x: 0, y: START_HEIGHT, z: START_DEPTH },
                look_target: Vector3::zero(),
            },
            blocked_by_a_wall: false,
        }
    }
}

/// Wraps an angle once: past 360 degrees it loses a full turn, past -360
/// degrees it gains one.
pub fn wrap_angle(angle: i64) -> (wrapped: i64)
    ensures
        wrapped == spec_wrap_angle(angle as int),
{
    if angle > FULL_TURN {
        angle - FULL_TURN
    } else if angle < -FULL_TURN {
        angle + FULL_TURN
    } else {
        angle
    }
}

/// Turns the orbit by one step for each rotate button that has just gone
/// down.
pub fn rotate_camera(camera: &mut CameraController, left_just_pressed: bool, right_just_pressed: bool)
    ensures
        *final(camera) == old(camera).spec_rotate_camera(left_just_pressed, right_just_pressed),
        old(camera).wf() ==> final(camera).wf(),
{
    let mut angle: i64 = camera.angle;
    if left_just_pressed {
        angle = plus(angle, -ORBIT_STEP);
    }
    if right_just_pressed {
        angle = plus(angle, ORBIT_STEP);
    }
    camera.angle = wrap_angle(angle);
}

/// Switches between normal and fixed mode when the mode button has just
/// gone down.
pub fn debug_change_camera_mode(camera: &mut CameraController, mode_just_pressed: bool)
    ensures
        *final(camera) == if mode_just_pressed {
            old(camera).spec_toggle_mode()
        } else {
            *old(camera)
        },
{
    if mode_just_pressed {
        camera.mode = match camera.mode {
            CameraMode::Normal => CameraMode::Fixed {
                position: Vector3 { x: 0, y: TOGGLE_HEIGHT, z: TOGGLE_DEPTH },
                look_target: Vector3::zero(),
            },
            CameraMode::Fixed { position: _, look_target: _ } => CameraMode::Normal,
        };
    }
}

/// Where the camera wants to be with no wall in the way. `orbit_direction`
/// is the unit vector that the orbit angle points along.
pub fn desired_position(
    camera: &CameraController,
    player_position: Vector3,
    orbit_direction: Vector3,
    momentum: i64,
) -> (place: Vector3)
    ensures
        place == camera.spec_desired_position(player_position, orbit_direction, momentum),
{
    player_position.plus(orbit_direction.scaled(camera.desired_z_distance(momentum))).plus(
        Vector3 { x: 0, y: camera.desired_y_height(momentum), z: 0 },
    )
}

/// The ray to cast from the player towards the wanted place of the camera.
pub fn occlusion_ray(
    camera: &CameraController,
    player_position: Vector3,
    orbit_direction: Vector3,
    momentum: i64,
    player: u64,
) -> (query: RayQuery)
    ensures
        query == camera.spec_occlusion_ray(player_position, orbit_direction, momentum, player),
{
    RayQuery {
        origin: player_position,
        target: desired_position(camera, player_position, orbit_direction, momentum),
        solid: true,
        exclude_sensors: true,
        exclude_dynamic: false,
        exclude_collider: Some(player),
    }
}

/// Computes the target of the camera for this tick. `hit` is what the ray
/// of `occlusion_ray` met.
pub fn update_camera_target_position(
    camera: &mut CameraController,
    player_position: Vector3,
    orbit_direction: Vector3,
    momentum: i64,
    hit: Option<RayHit>,
)
    ensures
        *final(camera) == old(camera).spec_update_target(
            player_position,
            orbit_direction,
            momentum,
            hit,
        ),
        hit matches Some(h) ==> final(camera).target_position == h.point,
{
    camera.player_position = player_position;
    match hit {
        Some(h) => {
            camera.target_position = h.point;
            camera.blocked_by_a_wall = true;
        },
        None => {
            camera.target_position = desired_position(
                camera,
                player_position,
                orbit_direction,
                momentum,
            );
            camera.blocked_by_a_wall = false;
        },
    }
}

/// Eases the camera from `place` towards its goal for `delta`
/// nanoseconds. Returns the point for the camera to look at.
pub fn lerp_to_camera_position(
    camera: &CameraController,
    place: &mut Vector3,
    delta: u64,
) -> (look_target: Vector3)
    ensures
        *final(place) == old(place).spec_lerp(
            camera.spec_goal(),
            camera.spec_easing_fraction(delta) as int,
        ),
        look_target == camera.spec_look_target(),
{
    let fraction = accrued(camera.desired_easing_speed(), delta);
    match camera.mode {
        CameraMode::Normal => {
            *place = place.lerp(camera.target_position, fraction);
            camera.player_position
        },
        CameraMode::Fixed { position, look_target } => {
            *place = place.lerp(position, fraction);
            look_target
        },
    }
}

impl CameraController {
    /// The wanted height and distance are step functions of the momentum:
    /// two momenta on the same side of a threshold give the same result,
    /// and a momentum exactly at a threshold counts as above it.
    pub proof fn lemma_steps(self, m1: i64, m2: i64)
        ensures
            (m1 < HEIGHT_MOMENTUM) == (m2 < HEIGHT_MOMENTUM) ==> self.spec_desired_y_height(m1)
                == self.spec_desired_y_height(m2),
            (m1 < DISTANCE_MOMENTUM) == (m2 < DISTANCE_MOMENTUM) ==> self.spec_desired_z_distance(
                m1,
            ) == self.spec_desired_z_distance(m2),
            self.spec_desired_y_height(HEIGHT_MOMENTUM) == self.y_distance,
            self.spec_desired_z_distance(DISTANCE_MOMENTUM) == spec_scale(
                self.z_distance as int,
                FAR_FACTOR as int,
            ),
    {
    }

    /// Where the occlusion ray meets a wall, the target of the camera is
    /// the point that it met, whatever the wanted place was.
    pub proof fn lemma_clamped_to_hit(
        self,
        player_position: Vector3,
        orbit_direction: Vector3,
        momentum: i64,
        hit: RayHit,
    )
        ensures
            self.spec_update_target(
                player_position,
                orbit_direction,
                momentum,
                Some(hit),
            ).target_position == hit.point,
            self.spec_update_target(
                player_position,
                orbit_direction,
                momentum,
                Some(hit),
            ).blocked_by_a_wall,
    {
    }

    /// An angle within a full turn of zero that is turned by at most a full
    /// turn stays within a full turn of zero: past 360 degrees it loses 360,
    /// past -360 degrees it gains 360, and in between it is the plain sum.
    pub proof fn lemma_orbit_wraps(self, degrees: i64)
        requires
            self.wf(),
            -FULL_TURN <= degrees <= FULL_TURN,
        ensures
            self.spec_rotate_by(degrees).wf(),
            self.angle + degrees > FULL_TURN ==> self.spec_rotate_by(degrees).angle == self.angle
                + degrees - FULL_TURN,
            self.angle + degrees < -FULL_TURN ==> self.spec_rotate_by(degrees).angle == self.angle
                + degrees + FULL_TURN,
            -FULL_TURN <= self.angle + degrees <= FULL_TURN ==> self.spec_rotate_by(
                degrees,
            ).angle == self.angle + degrees,
    {
    }
}

} // verus!
