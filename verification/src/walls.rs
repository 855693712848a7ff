//! Wall detection, the wall slide and the jump off a wall.

use vstd::prelude::*;
use crate::body::{Momentum, PlayerBody};
use crate::jump::WALL_JUMP_FORCE;
use crate::traversal::{classify_pair, spec_classify_pair};
use crate::traversal::{CollisionEvent, Grounded, GroundedState, RayHit, RayQuery};
use crate::traversal::WALL_SLIDE_SPEED;
use crate::units::UNIT;
use crate::vector::Vector3;

verus! {

impl PlayerBody {
    /// The wall that `event` brings within reach: the wall sensor has begun
    /// to overlap a wall while the body is free in the air and wall
    /// detection is not on hold.
    pub open spec fn spec_wall_candidate(
        self,
        event: CollisionEvent,
        sensor: u64,
        walls: Seq<u64>,
    ) -> Option<u64> {
        match event {
            CollisionEvent::Started(a, b) => if self.grounded.can_wall_slide() && self.busy
                is None {
                spec_classify_pair(a, b, sensor, walls)
            } else {
                None
            },
            CollisionEvent::Stopped(_, _) => None,
        }
    }

    /// The ray that confirms a wall at `wall_position`: from the body to
    /// the wall, through sensors and the player's own collider.
    pub open spec fn spec_wall_ray(self, wall_position: Vector3, player: u64) -> RayQuery {
        RayQuery {
            origin: self.position,
            target: wall_position,
            solid: true,
            exclude_sensors: true,
            exclude_dynamic: false,
            exclude_collider: Some(player),
        }
    }

    /// The body as it starts to slide down `wall`, which the ray met at
    /// `hit`: no sideways speed, no friction.
    pub open spec fn spec_begin_wall_slide(self, wall: u64, hit: RayHit) -> PlayerBody {
        PlayerBody {
            velocity: Vector3 { x: 0, y: self.velocity.y, z: 0 },
            friction: 0,
            grounded: Grounded {
                state: GroundedState::WallSliding(hit.normal),
                wall,
                ..self.grounded
            },
            ..self
        }
    }

    /// Whether `event` says that the wall sensor has left the wall that the
    /// body slides on.
    pub open spec fn spec_wall_released(
        self,
        event: CollisionEvent,
        sensor: u64,
        walls: Seq<u64>,
    ) -> bool {
        match event {
            CollisionEvent::Started(_, _) => false,
            CollisionEvent::Stopped(a, b) => self.grounded.is_wall_sliding() && spec_classify_pair(
                a,
                b,
                sensor,
                walls,
            ) == Some(self.grounded.wall),
        }
    }

    /// The body after the slide has ended: grounded, with friction back.
    pub open spec fn spec_end_wall_slide(self) -> PlayerBody {
        PlayerBody { friction: UNIT, grounded: self.grounded.spec_land(), ..self }
    }

    /// The body after `event`, where `probe` is what the wall ray met. A
    /// slide begins when the event names a wall within reach and the ray
    /// confirms it. A slide ends when the sensor leaves the wall slid on.
    /// Otherwise nothing changes.
    pub open spec fn spec_detect_walls(
        self,
        event: CollisionEvent,
        sensor: u64,
        walls: Seq<u64>,
        probe: Option<RayHit>,
    ) -> PlayerBody {
        match (self.spec_wall_candidate(event, sensor, walls), probe) {
            (Some(wall), Some(hit)) => self.spec_begin_wall_slide(wall, hit),
            _ => if self.spec_wall_released(event, sensor, walls) {
                self.spec_end_wall_slide()
            } else {
                self
            },
        }
    }

    /// While sliding down a wall the body sinks at the slide speed.
    pub open spec fn spec_handle_wall_sliding(self) -> PlayerBody {
        if self.grounded.is_wall_sliding() {
            PlayerBody {
                velocity: Vector3 { y: WALL_SLIDE_SPEED, ..self.velocity },
                ..self
            }
        } else {
            self
        }
    }

    /// The velocity of a jump off a wall with the surface normal `normal`:
    /// up and away from the wall, each with the wall jump force.
    pub open spec fn spec_wall_jump_velocity(normal: Vector3) -> Vector3 {
        Vector3::spec_up().spec_plus(normal).spec_scaled(WALL_JUMP_FORCE as int)
    }

    /// The body after a tick in which the jump button may have gone down
    /// during a wall slide: it turns away from the wall, leaps up and away
    /// from it and rises. Any buffered jump press is dropped.
    pub open spec fn spec_handle_wall_jumping(self, jump_just_pressed: bool) -> PlayerBody {
        match self.grounded.state {
            GroundedState::WallSliding(normal) => if jump_just_pressed {
                PlayerBody {
                    facing: normal,
                    velocity: PlayerBody::spec_wall_jump_velocity(normal),
                    momentum: Momentum(WALL_JUMP_FORCE),
                    jump: self.jump.spec_reset_input(),
                    grounded: Grounded { state: GroundedState::Rising, ..self.grounded },
                    ..self
                }
            } else {
                self
            },
            _ => self,
        }
    }
}

/// Names the wall to cast a ray at for `event`, if there is one.
pub fn wall_candidate(
    body: &PlayerBody,
    event: &CollisionEvent,
    sensor: u64,
    walls: &Vec<u64>,
) -> (wall: Option<u64>)
    ensures
        wall == body.spec_wall_candidate(*event, sensor, walls@),
{
    match *event {
        CollisionEvent::Started(_, _) => {
            if body.grounded.can_wall_slide() && body.busy.is_none() {
                classify_pair(event, sensor, walls)
            } else {
                None
            }
        },
        CollisionEvent::Stopped(_, _) => None,
    }
}

/// The ray to cast at a wall candidate that sits at `wall_position`.
pub fn wall_ray(body: &PlayerBody, wall_position: Vector3, player: u64) -> (query: RayQuery)
    ensures
        query == body.spec_wall_ray(wall_position, player),
{
    RayQuery {
        origin: body.position,
        target: wall_position,
        solid: true,
        exclude_sensors: true,
        exclude_dynamic: false,
        exclude_collider: Some(player),
    }
}

/// Handles one collision event of the wall sensor. `probe` is what the ray
/// of `wall_ray` met for the candidate of this event, or `None` where there
/// is no candidate or the ray met nothing.
pub fn detect_walls(
    body: &mut PlayerBody,
    event: &CollisionEvent,
    sensor: u64,
    walls: &Vec<u64>,
    probe: Option<RayHit>,
)
    ensures
        *final(body) == old(body).spec_detect_walls(*event, sensor, walls@, probe),
{
    match (wall_candidate(body, event, sensor, walls), probe) {
        (Some(wall), Some(hit)) => {
            body.velocity.x = 0;
            body.velocity.z = 0;
            body.friction = 0;
            body.grounded.state = GroundedState::WallSliding(hit.normal);
            body.grounded.wall = wall;
        },
        _ => {
            match *event {
                CollisionEvent::Started(_, _) => {},
                CollisionEvent::Stopped(_, _) => {
                    if body.grounded.is_wall_sliding() {
                        match classify_pair(event, sensor, walls) {
                            Some(wall) => {
                                if wall == body.grounded.wall {
                                    body.friction = UNIT;
                                    body.grounded.land();
                                }
                            },
                            None => {},
                        }
                    }
                },
            }
        },
    }
}

/// Keeps the body sinking at the slide speed while it is on a wall.
pub fn handle_wall_sliding(body: &mut PlayerBody)
    ensures
        *final(body) == old(body).spec_handle_wall_sliding(),
{
    if body.grounded.is_wall_sliding() {
        body.velocity.y = WALL_SLIDE_SPEED;
    }
}

/// Jumps off the wall when the jump button has just gone down during a
/// slide.
pub fn handle_wall_jumping(body: &mut PlayerBody, jump_just_pressed: bool)
    ensures
        *final(body) == old(body).spec_handle_wall_jumping(jump_just_pressed),
{
    match body.grounded.state {
        GroundedState::WallSliding(normal) => {
            if jump_just_pressed {
                body.facing = normal;
                let force = body.jump.get_wall_jump_force();
                body.momentum.set(force);
                body.velocity = Vector3::up().plus(normal).scaled(force);
                body.grounded.state = GroundedState::Rising;
            }
        },
        _ => {},
    }
}

} // verus!
