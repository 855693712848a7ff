//! The traversal state machine: standing, coyote time, rising, falling,
//! sliding down a wall and hanging on a ledge, and the rules that lead from
//! one to the next.
//!
//! The machine casts no rays itself. For each question it has about the
//! world it names the ray to cast, and it takes the answer as an argument.

use vstd::prelude::*;
use crate::body::{Drift, PlayerBody};
use crate::jump::JumpStage;
use crate::timer::{handle_busy, handle_landing, spec_handle_busy, spec_handle_landing};
use crate::timer::{Countdown, Coyote, Landing, COYOTE_NANOS, LANDING_NANOS};
use crate::units::{accrued, minus, saturate, spec_accrued, UNIT};
use crate::vector::Vector3;

verus! {

/// How far below the body the ground is looked for: 1.1 units.
pub const GROUND_RAY_LENGTH: i64 = 1_100;

/// The vertical speed while sliding down a wall: 2 units downwards.
pub const WALL_SLIDE_SPEED: i64 = -2_000;

/// How far a climb moves the body onto the ledge: 1.5 units.
pub const LEDGE_CLIMB_FORWARD: i64 = 1_500;

/// How far a climb lifts the body: 1.8 units.
pub const LEDGE_CLIMB_UP: i64 = 1_800;

/// How fast steering in the air builds up drift: 10 units per second.
pub const DRIFT_RATE: i64 = 10_000;

/// The start or the end of an overlap between two colliders, each named by
/// the identifier of its entity. Either entity may come first.
#[derive(Clone, Copy, Debug, PartialEq, Eq, Structural)]
pub enum CollisionEvent {
    Started(u64, u64),
    Stopped(u64, u64),
}

/// Where a ray met a surface, and the normal of the surface there.
#[derive(Clone, Copy, Debug, PartialEq, Eq, Structural)]
pub struct RayHit {
    pub point: Vector3,
    pub normal: Vector3,
}

/// A ray for the physics engine to cast: from `origin` towards `target` and
/// no further.
#[derive(Clone, Copy, Debug, PartialEq, Eq, Structural)]
pub struct RayQuery {
    pub origin: Vector3,
    pub target: Vector3,
    /// Whether a ray that starts inside a shape hits it at once.
    pub solid: bool,
    /// Whether sensor volumes are passed through.
    pub exclude_sensors: bool,
    /// Whether dynamic bodies are passed through.
    pub exclude_dynamic: bool,
    /// A collider that the ray passes through, if any.
    pub exclude_collider: Option<u64>,
}

/// The traversal state of the player. Exactly one holds at a time.
#[derive(Clone, Copy, Debug, PartialEq, Eq, Structural)]
pub enum GroundedState {
    /// Standing on something solid.
    Grounded,
    /// Just left the ground; a jump still counts.
    Coyote,
    /// Going up after a jump.
    Rising,
    /// In the air with nothing to hold on to.
    Falling,
    /// Sliding down a wall with the given surface normal.
    WallSliding(Vector3),
    /// Hanging on a ledge; the vector points from the body into the ledge.
    LedgeGrabbed(Vector3),
}

/// The traversal state together with what it needs to remember.
#[derive(Clone, Copy, Debug, PartialEq, Eq, Structural)]
pub struct Grounded {
    /// Runs while the state is `Coyote`.
    pub coyote_timer: Coyote,
    pub state: GroundedState,
    /// The wall that is slid on; it means something only while the state is
    /// `WallSliding`.
    pub wall: u64,
}

impl Grounded {
    /// Standing, with a fresh coyote timer.
    pub open spec fn spec_default() -> Grounded {
        Grounded {
            coyote_timer: Coyote(Countdown::spec_new(COYOTE_NANOS)),
            state: GroundedState::Grounded,
            wall: 0,
        }
    }

    pub open spec fn spec_is_grounded(&self) -> bool {
        self.state is Grounded
    }

    pub open spec fn spec_is_airborne(&self) -> bool {
        !(self.state is Grounded)
    }

    pub open spec fn spec_is_wall_sliding(&self) -> bool {
        self.state is WallSliding
    }

    pub open spec fn spec_is_ledge_grabbed(&self) -> bool {
        self.state is LedgeGrabbed
    }

    /// A jump can start from the ground and during coyote time.
    pub open spec fn spec_can_jump(&self) -> bool {
        self.state is Grounded || self.state is Coyote
    }

    /// A wall slide can start while in the air and neither on a wall nor on
    /// a ledge.
    pub open spec fn spec_can_wall_slide(&self) -> bool {
        self.state is Coyote || self.state is Rising || self.state is Falling
    }

    /// A ledge can be grabbed while in the air and not yet on a ledge.
    pub open spec fn spec_can_grab_ledge(&self) -> bool {
        self.is_airborne() && !self.is_ledge_grabbed()
    }

    /// Leaving the ground opens the coyote window.
    pub open spec fn spec_walk_off(self) -> Grounded {
        Grounded {
            coyote_timer: Coyote(Countdown::spec_new(self.coyote_timer.0.duration)),
            state: GroundedState::Coyote,
            ..self
        }
    }

    /// A jump starts the coyote timer over and leads to `Rising`.
    pub open spec fn spec_jump(self) -> Grounded {
        Grounded {
            coyote_timer: Coyote(Countdown::spec_new(self.coyote_timer.0.duration)),
            state: GroundedState::Rising,
            ..self
        }
    }

    pub open spec fn spec_land(self) -> Grounded {
        Grounded { state: GroundedState::Grounded, ..self }
    }

    /// Coyote time runs out into `Falling`; in every other state time
    /// changes nothing.
    pub open spec fn spec_coyote_tick(self, delta: u64) -> Grounded {
        if self.state is Coyote {
            Grounded {
                coyote_timer: Coyote(self.coyote_timer.0.spec_tick(delta)),
                state: if self.coyote_timer.0.spec_tick(delta).finished {
                    GroundedState::Falling
                } else {
                    GroundedState::Coyote
                },
                ..self
            }
        } else {
            self
        }
    }

    #[verifier::when_used_as_spec(spec_is_airborne)]
    pub fn is_airborne(&self) -> (r: bool)
        ensures
            r == self.spec_is_airborne(),
    {
        match self.state {
            GroundedState::Grounded => false,
            _ => true,
        }
    }

    #[verifier::when_used_as_spec(spec_is_grounded)]
    pub fn is_grounded(&self) -> (r: bool)
        ensures
            r == self.spec_is_grounded(),
    {
        match self.state {
            GroundedState::Grounded => true,
            _ => false,
        }
    }

    #[verifier::when_used_as_spec(spec_is_wall_sliding)]
    pub fn is_wall_sliding(&self) -> (r: bool)
        ensures
            r == self.spec_is_wall_sliding(),
    {
        match self.state {
            GroundedState::WallSliding(_) => true,
            _ => false,
        }
    }

    #[verifier::when_used_as_spec(spec_is_ledge_grabbed)]
    pub fn is_ledge_grabbed(&self) -> (r: bool)
        ensures
            r == self.spec_is_ledge_grabbed(),
    {
        match self.state {
            GroundedState::LedgeGrabbed(_) => true,
            _ => false,
        }
    }

    #[verifier::when_used_as_spec(spec_can_jump)]
    pub fn can_jump(&self) -> (r: bool)
        ensures
            r == self.spec_can_jump(),
    {
        match self.state {
            GroundedState::Grounded | GroundedState::Coyote => true,
            _ => false,
        }
    }

    #[verifier::when_used_as_spec(spec_can_wall_slide)]
    pub fn can_wall_slide(&self) -> (r: bool)
        ensures
            r == self.spec_can_wall_slide(),
    {
        match self.state {
            GroundedState::Coyote | GroundedState::Rising | GroundedState::Falling => true,
            _ => false,
        }
    }

    #[verifier::when_used_as_spec(spec_can_grab_ledge)]
    pub fn can_grab_ledge(&self) -> (r: bool)
        ensures
            r == self.spec_can_grab_ledge(),
    {
        self.is_airborne() && !self.is_ledge_grabbed()
    }

    pub fn walk_off(&mut self)
        ensures
            *final(self) == old(self).spec_walk_off(),
    {
        self.coyote_timer.0.reset();
        self.state = GroundedState::Coyote;
    }

    pub fn jump(&mut self)
        ensures
            *final(self) == old(self).spec_jump(),
    {
        self.coyote_timer.0.reset();
        self.state = GroundedState::Rising;
    }

    pub fn land(&mut self)
        ensures
            *final(self) == old(self).spec_land(),
    {
        self.state = GroundedState::Grounded;
    }

    pub fn coyote_tick(&mut self, delta: u64)
        ensures
            *final(self) == old(self).spec_coyote_tick(delta),
    {
        if self.state == GroundedState::Coyote {
            self.coyote_timer.tick(delta);
            if self.coyote_timer.finished() {
                self.state = GroundedState::Falling;
            }
        }
    }
}

impl Default for Grounded {
    fn default() -> (g: Grounded)
        ensures
            g == Grounded::spec_default(),
    {
        Grounded { coyote_timer: Coyote::new(), state: GroundedState::Grounded, wall: 0 }
    }
}

/// The other entity of a pair in which one is the sensor and the other
/// carries the tag, whichever of the two comes first.
pub open spec fn spec_classify_pair(a: u64, b: u64, sensor: u64, tagged: Seq<u64>) -> Option<u64> {
    if a == sensor && tagged.contains(b) {
        Some(b)
    } else if b == sensor && tagged.contains(a) {
        Some(a)
    } else {
        None
    }
}

impl CollisionEvent {
    /// The two entities of the event, in the order given.
    pub open spec fn spec_pair(self) -> (u64, u64) {
        match self {
            CollisionEvent::Started(a, b) => (a, b),
            CollisionEvent::Stopped(a, b) => (a, b),
        }
    }

    pub fn pair(&self) -> (p: (u64, u64))
        ensures
            p == self.spec_pair(),
    {
        match *self {
            CollisionEvent::Started(a, b) => (a, b),
            CollisionEvent::Stopped(a, b) => (a, b),
        }
    }
}

/// Whether `id` is among `ids`.
pub fn contains_id(ids: &Vec<u64>, id: u64) -> (found: bool)
    ensures
        found == ids@.contains(id),
{
    let mut i: usize = 0;
    while i < ids.len()
        invariant
            i <= ids.len(),
            forall|k: int| 0 <= k < i ==> ids@[k] != id,
        decreases ids.len() - i,
    {
        if ids[i] == id {
            return true;
        }
        i += 1;
    }
    false
}

/// Tells which tagged entity met the sensor in `event`, if one did. The
/// sensor may be either of the two entities of the event.
pub fn classify_pair(event: &CollisionEvent, sensor: u64, tagged: &Vec<u64>) -> (other: Option<u64>)
    ensures
        other == spec_classify_pair(event.spec_pair().0, event.spec_pair().1, sensor, tagged@),
{
    let (a, b) = event.pair();
    if a == sensor && contains_id(tagged, b) {
        Some(b)
    } else if b == sensor && contains_id(tagged, a) {
        Some(a)
    } else {
        None
    }
}

impl PlayerBody {
    /// The ray that looks for the ground: straight down from the body,
    /// through sensors and dynamic bodies.
    pub open spec fn spec_ground_ray(self) -> RayQuery {
        RayQuery {
            origin: self.position,
            target: Vector3 {
                y: saturate(self.position.y - GROUND_RAY_LENGTH) as i64,
                ..self.position
            },
            solid: true,
            exclude_sensors: true,
            exclude_dynamic: true,
            exclude_collider: None,
        }
    }

    /// A body that has just touched down has its friction back.
    pub open spec fn spec_add_friction_when_landing(self) -> PlayerBody {
        PlayerBody { friction: UNIT, ..self }
    }

    /// The body after the ground ray has been cast. With ground below, a
    /// body that was not grounded lands: its drift is gone, its friction is
    /// back, the landing marker starts, and a body that hung on a ledge has
    /// its weight back. With no ground below, a grounded body enters coyote
    /// time. Otherwise nothing changes.
    pub open spec fn spec_handle_grounded(self, ground_hit: bool) -> PlayerBody {
        if ground_hit && self.grounded.is_airborne() {
            PlayerBody {
                grounded: self.grounded.spec_land(),
                drift: Drift(Vector3::spec_zero()),
                landing: Some(Landing(Countdown::spec_new(LANDING_NANOS))),
                gravity_scale: if self.grounded.is_ledge_grabbed() {
                    UNIT
                } else {
                    self.gravity_scale
                },
                ..self
            }.spec_add_friction_when_landing()
        } else if !ground_hit && self.grounded.is_grounded() {
            PlayerBody { grounded: self.grounded.spec_walk_off(), ..self }
        } else {
            self
        }
    }

    /// A jump press is buffered, whatever the traversal state.
    pub open spec fn spec_buffer_jump(self, jump_just_pressed: bool) -> PlayerBody {
        if jump_just_pressed {
            PlayerBody { jump: self.jump.spec_buffer_jump(), ..self }
        } else {
            self
        }
    }

    pub open spec fn spec_handle_jump_buffer(self, delta: u64) -> PlayerBody {
        PlayerBody { jump: self.jump.spec_update(delta), ..self }
    }

    /// Whether a jump is carried out now: the body stands or is in coyote
    /// time, and a press is buffered.
    pub open spec fn spec_jumps(self) -> bool {
        self.grounded.can_jump() && self.jump.jump_buffered
    }

    /// The body after the jump has been resolved. A jump that is carried
    /// out uses the press up, sets the upward speed to the force of the
    /// stage, moves the cycle on and leads to `Rising`.
    pub open spec fn spec_handle_jumping(self) -> PlayerBody {
        if self.spec_jumps() {
            PlayerBody {
                velocity: Vector3 { y: self.jump.jump_stage.spec_force(), ..self.velocity },
                jump: self.jump.spec_after_jump(),
                grounded: self.grounded.spec_jump(),
                ..self
            }
        } else {
            self
        }
    }

    /// The jump cycle goes back to the single jump while the body stands and
    /// the landing marker is gone.
    pub open spec fn spec_reset_jumps_after_landing(self) -> PlayerBody {
        if self.grounded.is_grounded() && self.landing is None {
            PlayerBody { jump: self.jump.spec_reset_jump_stage(), ..self }
        } else {
            self
        }
    }

    /// Steering in the air adds to the drift, in proportion to the time
    /// that has passed; not on the ground and not on a ledge.
    pub open spec fn spec_aerial_drift(self, direction: Vector3, delta: u64) -> PlayerBody {
        if self.grounded.is_airborne() && !self.grounded.is_ledge_grabbed() {
            PlayerBody {
                drift: Drift(
                    self.drift.0.spec_plus(
                        direction.spec_scaled(spec_accrued(DRIFT_RATE as int, delta as int)),
                    ),
                ),
                ..self
            }
        } else {
            self
        }
    }

    /// The body after `delta` nanoseconds have run on its markers: the busy
    /// and the landing marker go when they run out, and coyote time runs out
    /// into falling.
    pub open spec fn spec_handle_self_removing_components(self, delta: u64) -> PlayerBody {
        PlayerBody {
            busy: spec_handle_busy(self.busy, delta),
            landing: spec_handle_landing(self.landing, delta),
            grounded: self.grounded.spec_coyote_tick(delta),
            ..self
        }
    }
}

/// The ray to cast to look for the ground below the body.
pub fn ground_ray(body: &PlayerBody) -> (query: RayQuery)
    ensures
        query == body.spec_ground_ray(),
{
    RayQuery {
        origin: body.position,
        target: Vector3 {
            x: body.position.x,
            y: minus(body.position.y, GROUND_RAY_LENGTH),
            z: body.position.z,
        },
        solid: true,
        exclude_sensors: true,
        exclude_dynamic: true,
        exclude_collider: None,
    }
}

/// Gives the body that has just touched down its friction back.
pub fn add_friction_when_landing(body: &mut PlayerBody)
    ensures
        *final(body) == old(body).spec_add_friction_when_landing(),
{
    body.friction = UNIT;
}

/// Takes the answer of the ground ray. Returns whether the body has just
/// landed.
pub fn handle_grounded(body: &mut PlayerBody, ground_hit: bool) -> (landed: bool)
    ensures
        *final(body) == old(body).spec_handle_grounded(ground_hit),
        landed == (ground_hit && old(body).grounded.is_airborne()),
{
    let is_grounded = body.grounded.is_grounded();
    if ground_hit {
        if !is_grounded {
            if body.grounded.is_ledge_grabbed() {
                body.gravity_scale = UNIT;
            }
            body.drift.reset();
            body.grounded.land();
            body.landing = Some(Landing::new());
            add_friction_when_landing(body);
            return true;
        }
    } else if is_grounded {
        body.grounded.walk_off();
    }
    false
}

/// Buffers a jump when the jump button has just gone down.
pub fn buffer_jump(body: &mut PlayerBody, jump_just_pressed: bool)
    ensures
        *final(body) == old(body).spec_buffer_jump(jump_just_pressed),
{
    if jump_just_pressed {
        body.jump.buffer_jump();
    }
}

/// Lets `delta` nanoseconds run on the jump buffer.
pub fn handle_jump_buffer(body: &mut PlayerBody, delta: u64)
    ensures
        *final(body) == old(body).spec_handle_jump_buffer(delta),
{
    body.jump.update(delta);
}

/// Carries out a buffered jump if the body can jump. Returns whether it
/// did.
pub fn handle_jumping(body: &mut PlayerBody) -> (jumped: bool)
    ensures
        *final(body) == old(body).spec_handle_jumping(),
        jumped == old(body).spec_jumps(),
{
    if body.grounded.can_jump() {
        match body.jump.get_jump_force() {
            Some(force) => {
                body.grounded.jump();
                body.velocity.y = force;
                return true;
            },
            None => {},
        }
    }
    false
}

/// Puts the jump cycle back at the single jump once the body stands and the
/// landing marker is gone.
pub fn reset_jumps_after_landing(body: &mut PlayerBody)
    ensures
        *final(body) == old(body).spec_reset_jumps_after_landing(),
{
    if body.grounded.is_grounded() && body.landing.is_none() {
        body.jump.reset_jump_stage();
    }
}

/// Builds up drift from the direction steered in while in the air.
pub fn aerial_drift(body: &mut PlayerBody, direction: Vector3, delta: u64)
    ensures
        *final(body) == old(body).spec_aerial_drift(direction, delta),
{
    if body.grounded.is_airborne() && !body.grounded.is_ledge_grabbed() {
        let factor: i64 = accrued(DRIFT_RATE, delta);
        body.drift.add(direction.scaled(factor));
    }
}

/// Lets `delta` nanoseconds run on the markers that remove themselves.
pub fn handle_self_removing_components(body: &mut PlayerBody, delta: u64)
    ensures
        *final(body) == old(body).spec_handle_self_removing_components(delta),
{
    handle_busy(&mut body.busy, delta);
    handle_landing(&mut body.landing, delta);
    body.grounded.coyote_tick(delta);
}

impl PlayerBody {
    /// A body that loses the ground under its feet enters coyote time, and
    /// falls once the coyote window has run out.
    pub proof fn lemma_lose_ground(self, fall_time: u64)
        requires
            self.grounded.state is Grounded,
            fall_time >= self.grounded.coyote_timer.0.duration,
        ensures
            self.spec_handle_grounded(false).grounded.state is Coyote,
            self.spec_handle_grounded(false).spec_handle_self_removing_components(
                fall_time,
            ).grounded.state is Falling,
    {
    }

    /// A body in the air that finds ground below lands: it is grounded, its
    /// drift is zero, its friction is back and the landing marker has
    /// started. While that marker lasts, the jump stage is kept.
    pub proof fn lemma_landing(self)
        requires
            self.grounded.is_airborne(),
        ensures
            self.spec_handle_grounded(true).grounded.state is Grounded,
            self.spec_handle_grounded(true).drift.0 == Vector3::spec_zero(),
            self.spec_handle_grounded(true).friction == UNIT,
            self.spec_handle_grounded(true).landing == Some(
                Landing(Countdown::spec_new(LANDING_NANOS)),
            ),
            self.spec_handle_grounded(true).spec_reset_jumps_after_landing()
                == self.spec_handle_grounded(true),
    {
    }

    /// Once a landed body has rested for the landing window, the jump cycle
    /// is back at the single jump, whatever stage it was at in the air.
    pub proof fn lemma_rest_resets_stage(self, rest_time: u64)
        requires
            self.grounded.is_airborne(),
            rest_time >= LANDING_NANOS,
        ensures
            ({
                let rested = self.spec_handle_grounded(true).spec_handle_self_removing_components(
                    rest_time,
                ).spec_reset_jumps_after_landing();
                &&& rested.grounded.state is Grounded
                &&& rested.landing is None
                &&& rested.jump.jump_stage == JumpStage::Single
                &&& rested.drift.0 == Vector3::spec_zero()
            }),
    {
    }

    /// The round trip from the ground into the air and back: the body
    /// stands again, its drift is zero, and after the landing window the
    /// jump cycle is back at the single jump.
    pub proof fn lemma_round_trip(self, fall_time: u64, rest_time: u64)
        requires
            self.grounded.state is Grounded,
            fall_time >= self.grounded.coyote_timer.0.duration,
            rest_time >= LANDING_NANOS,
        ensures
            ({
                let fallen = self.spec_handle_grounded(false).spec_handle_self_removing_components(
                    fall_time,
                );
                let landed = fallen.spec_handle_grounded(true);
                let rested = landed.spec_handle_self_removing_components(
                    rest_time,
                ).spec_reset_jumps_after_landing();
                &&& fallen.grounded.state is Falling
                &&& landed.grounded.state is Grounded
                &&& landed.drift.0 == Vector3::spec_zero()
                &&& rested.grounded.state is Grounded
                &&& rested.drift.0 == Vector3::spec_zero()
                &&& rested.jump.jump_stage == JumpStage::Single
            }),
    {
        self.lemma_lose_ground(fall_time);
        let fallen = self.spec_handle_grounded(false).spec_handle_self_removing_components(
            fall_time,
        );
        fallen.lemma_landing();
        fallen.lemma_rest_resets_stage(rest_time);
    }
}

} // verus!
