//! The player body and the small components that make it up.

use vstd::prelude::*;
use crate::jump::Jump;
use crate::timer::{Busy, Landing};
use crate::traversal::Grounded;
use crate::units::{plus, saturate, UNIT};
use crate::vector::Vector3;

verus! {

/// The direction the player asks to move in: camera-relative, of unit
/// length or zero.
#[derive(Clone, Copy, Debug, PartialEq, Eq, Structural)]
pub struct Movement(pub Vector3);

impl Movement {
    /// Whether any direction is asked for.
    pub fn is_moving(&self) -> (r: bool)
        ensures
            r == (self.0 != Vector3::spec_zero()),
    {
        !self.0.is_zero()
    }
}

impl Default for Movement {
    fn default() -> (m: Movement)
        ensures
            m.0 == Vector3::spec_zero(),
    {
        Movement(Vector3::zero())
    }
}

/// The forward speed of the player as a scalar, kept apart from the
/// velocity vector.
#[derive(Clone, Copy, Debug, PartialEq, Eq, Structural)]
pub struct Momentum(pub i64);

impl Momentum {
    pub fn has_momentum(&self) -> (r: bool)
        ensures
            r == (self.0 != 0),
    {
        self.0 != 0
    }

    pub fn reset(&mut self)
        ensures
            final(self).0 == 0,
    {
        self.0 = 0;
    }

    pub fn get(&self) -> (r: i64)
        ensures
            r == self.0,
    {
        self.0
    }

    pub fn set(&mut self, momentum: i64)
        ensures
            final(self).0 == momentum,
    {
        self.0 = momentum;
    }

    /// Adds to the momentum; the sum sticks at the ends of the range.
    pub fn add(&mut self, momentum: i64)
        ensures
            final(self).0 == saturate(old(self).0 + momentum),
    {
        self.0 = plus(self.0, momentum);
    }
}

impl Default for Momentum {
    fn default() -> (m: Momentum)
        ensures
            m.0 == 0,
    {
        Momentum(0)
    }
}

/// The sideways push that the player has steered up while in the air.
#[derive(Clone, Copy, Debug, PartialEq, Eq, Structural)]
pub struct Drift(pub Vector3);

impl Drift {
    pub fn has_drift(&self) -> (r: bool)
        ensures
            r == (self.0 != Vector3::spec_zero()),
    {
        !self.0.is_zero()
    }

    pub fn reset(&mut self)
        ensures
            final(self).0 == Vector3::spec_zero(),
    {
        self.0 = Vector3::zero();
    }

    pub fn set(&mut self, drift: Vector3)
        ensures
            final(self).0 == drift,
    {
        self.0 = drift;
    }

    pub fn add(&mut self, drift: Vector3)
        ensures
            final(self).0 == old(self).0.spec_plus(drift),
    {
        self.0 = self.0.plus(drift);
    }
}

impl Default for Drift {
    fn default() -> (d: Drift)
        ensures
            d.0 == Vector3::spec_zero(),
    {
        Drift(Vector3::zero())
    }
}

/// A force from outside that pushes a movable body while it stays inside
/// the volume that the force comes from.
#[derive(Clone, Copy, Debug, PartialEq, Eq, Structural)]
pub struct OutsideForce(pub Vector3);

impl Default for OutsideForce {
    fn default() -> (f: OutsideForce)
        ensures
            f.0 == Vector3::spec_zero(),
    {
        OutsideForce(Vector3::zero())
    }
}

/// A volume in which wind pushes every movable body.
#[derive(Clone, Copy, Debug, PartialEq, Eq, Structural)]
pub struct WindZone(pub Vector3);

impl WindZone {
    /// The force that the zone puts on a body inside it.
    pub fn get_force(&self) -> (f: OutsideForce)
        ensures
            f.0 == self.0,
    {
        OutsideForce(self.0)
    }
}

/// The controlled entity: everything the controller reads and writes of the
/// player in one tick.
#[derive(Clone, Copy, Debug, PartialEq, Eq, Structural)]
pub struct PlayerBody {
    /// Where the body is, in world space.
    pub position: Vector3,
    /// The direction the body faces, of unit length.
    pub facing: Vector3,
    /// The linear velocity handed to the physics engine.
    pub velocity: Vector3,
    /// The direction asked for by the input.
    pub movement: Movement,
    pub momentum: Momentum,
    pub drift: Drift,
    /// The friction coefficient: 0 while sliding down a wall, else 1.
    pub friction: i64,
    /// The gravity scale: 0 while hanging on a ledge, else 1.
    pub gravity_scale: i64,
    /// The traversal state.
    pub grounded: Grounded,
    pub jump: Jump,
    /// Present for a short time after touching down.
    pub landing: Option<Landing>,
    /// Present while wall detection is on hold.
    pub busy: Option<Busy>,
    /// Present while the body is inside a wind zone.
    pub outside_force: Option<OutsideForce>,
}

impl PlayerBody {
    /// A body at rest on the ground at `position`, facing along `facing`.
    pub open spec fn spec_new(position: Vector3, facing: Vector3) -> PlayerBody {
        PlayerBody {
            position,
            facing,
            velocity: Vector3::spec_zero(),
            movement: Movement(Vector3::spec_zero()),
            momentum: Momentum(0),
            drift: Drift(Vector3::spec_zero()),
            friction: UNIT,
            gravity_scale: UNIT,
            grounded: Grounded::spec_default(),
            jump: Jump::spec_default(),
            landing: None,
            busy: None,
            outside_force: None,
        }
    }

    pub fn new(position: Vector3, facing: Vector3) -> (body: PlayerBody)
        ensures
            body == PlayerBody::spec_new(position, facing),
    {
        PlayerBody {
            position,
            facing,
            velocity: Vector3::zero(),
            movement: Movement(Vector3::zero()),
            momentum: Momentum(0),
            drift: Drift(Vector3::zero()),
            friction: UNIT,
            gravity_scale: UNIT,
            grounded: Grounded::default(),
            jump: Jump::default(),
            landing: None,
            busy: None,
            outside_force: None,
        }
    }
}

} // verus!
