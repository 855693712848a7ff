//! Ledge detection and what the player can do while hanging on a ledge.

use vstd::prelude::*;
use crate::body::PlayerBody;
use crate::traversal::{classify_pair, spec_classify_pair};
use crate::traversal::{CollisionEvent, Grounded, GroundedState, RayHit, RayQuery};
use crate::traversal::{LEDGE_CLIMB_FORWARD, LEDGE_CLIMB_UP};
use crate::units::UNIT;
use crate::vector::Vector3;

verus! {

impl PlayerBody {
    /// The ledge that `event` brings within reach: the ledge sensor has
    /// begun to overlap a ledge while the body is in the air and not yet
    /// hanging on one.
    pub open spec fn spec_ledge_candidate(
        self,
        event: CollisionEvent,
        sensor: u64,
        ledges: Seq<u64>,
    ) -> Option<u64> {
        match event {
            CollisionEvent::Started(a, b) => if self.grounded.can_grab_ledge() {
                spec_classify_pair(a, b, sensor, ledges)
            } else {
                None
            },
            CollisionEvent::Stopped(_, _) => None,
        }
    }

    /// The ray that confirms a ledge at `ledge_position`: level with the
    /// ledge, from the body's place to the ledge, through the player's own
    /// collider.
    pub open spec fn spec_ledge_ray(self, ledge_position: Vector3, player: u64) -> RayQuery {
        RayQuery {
            origin: Vector3 { x: self.position.x, y: ledge_position.y, z: self.position.z },
            target: ledge_position,
            solid: true,
            exclude_sensors: false,
            exclude_dynamic: false,
            exclude_collider: Some(player),
        }
    }

    /// The body as it hangs on the ledge that the ray met at `hit`: at
    /// rest, weightless, and remembering the direction into the ledge.
    pub open spec fn spec_grab_ledge(self, hit: RayHit) -> PlayerBody {
        PlayerBody {
            velocity: Vector3::spec_zero(),
            gravity_scale: 0,
            grounded: Grounded {
                state: GroundedState::LedgeGrabbed(hit.normal.spec_negated()),
                ..self.grounded
            },
            ..self
        }
    }

    /// The body after `event`, where `probe` is what the ledge ray met. The
    /// ledge is grabbed when the event names a ledge within reach and the
    /// ray confirms it; otherwise nothing changes.
    pub open spec fn spec_detect_ledges(
        self,
        event: CollisionEvent,
        sensor: u64,
        ledges: Seq<u64>,
        probe: Option<RayHit>,
    ) -> PlayerBody {
        match (self.spec_ledge_candidate(event, sensor, ledges), probe) {
            (Some(_), Some(hit)) => self.spec_grab_ledge(hit),
            _ => self,
        }
    }

    /// Where a climb puts the body that hangs on a ledge in the direction
    /// `into_ledge`.
    pub open spec fn spec_climbed_position(self, into_ledge: Vector3) -> Vector3 {
        self.position.spec_plus(into_ledge.spec_scaled(LEDGE_CLIMB_FORWARD as int)).spec_plus(
            Vector3 { x: 0, y: LEDGE_CLIMB_UP, z: 0 },
        )
    }

    /// The body after the inputs of one tick while it may hang on a ledge.
    /// A jump press climbs the ledge, a grab press lets go of it; both give
    /// the body its weight back. The jump press wins over the grab press.
    pub open spec fn spec_handle_ledge_grab(
        self,
        jump_just_pressed: bool,
        grab_just_pressed: bool,
    ) -> PlayerBody {
        match self.grounded.state {
            GroundedState::LedgeGrabbed(into_ledge) => if jump_just_pressed {
                PlayerBody {
                    position: self.spec_climbed_position(into_ledge),
                    gravity_scale: UNIT,
                    grounded: Grounded { state: GroundedState::Rising, ..self.grounded },
                    ..self
                }
            } else if grab_just_pressed {
                PlayerBody {
                    gravity_scale: UNIT,
                    grounded: Grounded { state: GroundedState::Falling, ..self.grounded },
                    ..self
                }
            } else {
                self
            },
            _ => self,
        }
    }
}

/// Names the ledge to cast a ray at for `event`, if there is one.
pub fn ledge_candidate(
    body: &PlayerBody,
    event: &CollisionEvent,
    sensor: u64,
    ledges: &Vec<u64>,
) -> (ledge: Option<u64>)
    ensures
        ledge == body.spec_ledge_candidate(*event, sensor, ledges@),
{
    match *event {
        CollisionEvent::Started(_, _) => {
            if body.grounded.can_grab_ledge() {
                classify_pair(event, sensor, ledges)
            } else {
                None
            }
        },
        CollisionEvent::Stopped(_, _) => None,
    }
}

/// The ray to cast at a ledge candidate that sits at `ledge_position`.
pub fn ledge_ray(body: &PlayerBody, ledge_position: Vector3, player: u64) -> (query: RayQuery)
    ensures
        query == body.spec_ledge_ray(ledge_position, player),
{
    RayQuery {
        origin: Vector3 { x: body.position.x, y: ledge_position.y, z: body.position.z },
        target: ledge_position,
        solid: true,
        exclude_sensors: false,
        exclude_dynamic: false,
        exclude_collider: Some(player),
    }
}

/// Handles one collision event of the ledge sensor. `probe` is what the ray
/// of `ledge_ray` met for the candidate of this event, or `None` where there
/// is no candidate or the ray met nothing. Returns whether a ledge was
/// grabbed.
pub fn detect_ledges(
    body: &mut PlayerBody,
    event: &CollisionEvent,
    sensor: u64,
    ledges: &Vec<u64>,
    probe: Option<RayHit>,
) -> (grabbed: bool)
    ensures
        *final(body) == old(body).spec_detect_ledges(*event, sensor, ledges@, probe),
        grabbed == (old(body).spec_ledge_candidate(*event, sensor, ledges@) is Some
            && probe is Some),
{
    match (ledge_candidate(body, event, sensor, ledges), probe) {
        (Some(_), Some(hit)) => {
            body.velocity = Vector3::zero();
            body.gravity_scale = 0;
            body.grounded.state = GroundedState::LedgeGrabbed(hit.normal.negated());
            true
        },
        _ => false,
    }
}

/// Climbs or lets go of the ledge that the body hangs on, as the input
/// asks.
pub fn handle_ledge_grab(body: &mut PlayerBody, jump_just_pressed: bool, grab_just_pressed: bool)
    ensures
        *final(body) == old(body).spec_handle_ledge_grab(jump_just_pressed, grab_just_pressed),
{
    match body.grounded.state {
        GroundedState::LedgeGrabbed(into_ledge) => {
            if jump_just_pressed {
                body.position = body.position.plus(into_ledge.scaled(LEDGE_CLIMB_FORWARD)).plus(
                    Vector3 { x: 0, y: LEDGE_CLIMB_UP, z: 0 },
                );
                body.gravity_scale = UNIT;
                body.grounded.state = GroundedState::Rising;
            } else if grab_just_pressed {
                body.gravity_scale = UNIT;
                body.grounded.state = GroundedState::Falling;
            }
        },
        _ => {},
    }
}

} // verus!
