//! Wind zones: volumes that push a movable body for as long as it overlaps
//! them.

use vstd::prelude::*;
use crate::body::{OutsideForce, PlayerBody, WindZone};
use crate::traversal::CollisionEvent;

verus! {

/// Whether the pair `a`, `b` is made of `first` and `second`, in either
/// order.
pub open spec fn spec_same_pair(a: u64, b: u64, first: u64, second: u64) -> bool {
    (a == first && b == second) || (b == first && a == second)
}

impl PlayerBody {
    /// The body after `event`, seen from the wind zone `zone` with the wind
    /// `wind`, where `movable` names the body's own collider. The body takes
    /// on the force of the zone when their overlap starts and it has no
    /// outside force yet. It loses its outside force when their overlap
    /// ends. Events of other pairs change nothing.
    pub open spec fn spec_handle_entering_wind_zones(
        self,
        event: CollisionEvent,
        zone: u64,
        wind: WindZone,
        movable: u64,
    ) -> PlayerBody {
        match event {
            CollisionEvent::Started(a, b) => if spec_same_pair(a, b, zone, movable)
                && self.outside_force is None {
                PlayerBody { outside_force: Some(OutsideForce(wind.0)), ..self }
            } else {
                self
            },
            CollisionEvent::Stopped(a, b) => if spec_same_pair(a, b, zone, movable) {
                PlayerBody { outside_force: None, ..self }
            } else {
                self
            },
        }
    }
}

/// Tells whether the pair `a`, `b` is made of `first` and `second`.
pub fn same_pair(a: u64, b: u64, first: u64, second: u64) -> (same: bool)
    ensures
        same == spec_same_pair(a, b, first, second),
{
    (a == first && b == second) || (b == first && a == second)
}

/// Handles one collision event for one wind zone and the body.
pub fn handle_entering_wind_zones(
    body: &mut PlayerBody,
    event: &CollisionEvent,
    zone: u64,
    wind: &WindZone,
    movable: u64,
)
    ensures
        *final(body) == old(body).spec_handle_entering_wind_zones(*event, zone, *wind, movable),
{
    match *event {
        CollisionEvent::Started(a, b) => {
            if same_pair(a, b, zone, movable) && body.outside_force.is_none() {
                body.outside_force = Some(wind.get_force());
            }
        },
        CollisionEvent::Stopped(a, b) => {
            if same_pair(a, b, zone, movable) && body.outside_force.is_some() {
                body.outside_force = None;
            }
        },
    }
}

} // verus!
