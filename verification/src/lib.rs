//! The decision core of a third-person platformer character controller:
//! grounded and airborne state, buffered multi-stage jumps, wall slides,
//! ledge grabs, the speed model and the collision-aware follow camera.
//!
//! The core is deterministic and holds no engine state. A host feeds it the
//! per-tick input snapshot, ray-cast results and collision events, and
//! applies the velocities, positions and state changes that come back.

pub mod units;
pub mod body;
pub mod camera;
pub mod ideas;
pub mod items;
pub mod jump;
pub mod ledges;
pub mod locomotion;
pub mod pickup;
pub mod timer;
pub mod traversal;
pub mod vector;
pub mod walls;
pub mod wind;

pub use crate::body::{Drift, Momentum, Movement, OutsideForce, PlayerBody, WindZone};
pub use crate::camera::{CameraController, CameraMode};
pub use crate::ideas::{CreationType, Idea, PlayerIdeas};
pub use crate::items::{HeldItem, Item, ItemId, ItemsInRange, ThrownItem, Weight};
pub use crate::jump::{Jump, JumpStage};
pub use crate::locomotion::PlayerSpeed;
pub use crate::pickup::Pickup;
pub use crate::timer::{Busy, Countdown, Coyote, Landing};
pub use crate::traversal::{CollisionEvent, Grounded, GroundedState, RayHit, RayQuery};
pub use crate::vector::Vector3;
