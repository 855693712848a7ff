//! The locomotion integrator: the direction asked for by the input, the
//! speed model, and the horizontal velocity that comes of them.

use vstd::prelude::*;
use crate::body::{Movement, PlayerBody};
use crate::timer::Countdown;
use crate::units::{accrued, lerp, spec_accrued, spec_lerp, spec_scale, UNIT};
use crate::vector::Vector3;

verus! {

/// How fast the body turns towards the direction asked for: per second,
/// ten times the turn that is left.
pub const PLAYER_ROTATION_SPEED: i64 = 10_000;

/// How long the player has to keep moving before the speed builds up:
/// 1.5 s.
pub const ACCELERATION_DELAY_NANOS: u64 = 1_500_000_000;

/// Within this distance of the top speed the speed jumps to it: 0.3 units.
pub const SPEED_SNAP: i64 = 300;

/// The lowest speed of the model as it starts out: 20 units backwards.
pub const MIN_SPEED: i64 = -20_000;

/// The forward speed of the player, which builds up towards a top speed
/// while the player keeps moving.
#[derive(Clone, Copy, Debug, PartialEq, Eq, Structural)]
pub struct PlayerSpeed {
    /// Holds the speed back for a while after the player starts to move.
    pub accel_timer: Countdown,
    /// The speed that the player starts out with.
    pub base_speed: i64,
    pub current_speed: i64,
    pub top_speed: i64,
    pub min_speed: i64,
    /// The share of the gap to the top speed that is closed per second.
    pub acceleration: i64,
}

impl PlayerSpeed {
    /// The speed model as it starts out: 7.5 units at rest, 15 units at
    /// most, and a rate of 2 per second after a delay of 1.5 s.
    pub open spec fn spec_default() -> PlayerSpeed {
        PlayerSpeed {
            accel_timer: Countdown::spec_new(ACCELERATION_DELAY_NANOS),
            base_speed: 7_500,
            current_speed: 7_500,
            top_speed: 15_000,
            min_speed: MIN_SPEED,
            acceleration: 2_000,
        }
    }

    /// The model after the player has stopped: back at the base speed, with
    /// the delay starting over.
    pub open spec fn spec_reset(self) -> PlayerSpeed {
        PlayerSpeed {
            current_speed: self.base_speed,
            accel_timer: Countdown::spec_new(self.accel_timer.duration),
            ..self
        }
    }

    /// The share of the gap to the top speed that is closed in `delta`
    /// nanoseconds.
    pub open spec fn spec_gain(self, delta: u64) -> i64 {
        spec_accrued(self.acceleration as int, delta as int) as i64
    }

    /// The speed one tick of `delta` nanoseconds after the delay has run
    /// out: within the snap distance of the top speed it is the top speed;
    /// below that it closes its share of the gap and never passes the top
    /// speed.
    pub open spec fn spec_gathered(self, delta: u64) -> i64 {
        if self.current_speed + SPEED_SNAP <= self.top_speed {
            let closer = spec_lerp(
                self.current_speed as int,
                self.top_speed as int,
                self.spec_gain(delta) as int,
            );
            if closer > self.top_speed {
                self.top_speed
            } else {
                closer as i64
            }
        } else {
            self.top_speed
        }
    }

    /// The model after the player has moved for `delta` more nanoseconds.
    /// The speed stays as it is until the delay has run out.
    pub open spec fn spec_accelerate(self, delta: u64) -> PlayerSpeed {
        PlayerSpeed {
            accel_timer: self.accel_timer.spec_tick(delta),
            current_speed: if self.accel_timer.spec_tick(delta).finished {
                self.spec_gathered(delta)
            } else {
                self.current_speed
            },
            ..self
        }
    }

    pub fn reset(&mut self)
        ensures
            *final(self) == old(self).spec_reset(),
    {
        self.current_speed = self.base_speed;
        self.accel_timer.reset();
    }

    pub fn accelerate(&mut self, delta: u64)
        ensures
            *final(self) == old(self).spec_accelerate(delta),
    {
        let gathered = self.gathered(delta);
        self.accel_timer.tick(delta);
        if self.accel_timer.finished() {
            self.current_speed = gathered;
        }
    }

    fn gathered(&self, delta: u64) -> (speed: i64)
        ensures
            speed == self.spec_gathered(delta),
    {
        if self.current_speed as i128 + SPEED_SNAP as i128 <= self.top_speed as i128 {
            let gain = accrued(self.acceleration, delta);
            let closer = lerp(self.current_speed, self.top_speed, gain);
            if closer > self.top_speed {
                self.top_speed
            } else {
                closer
            }
        } else {
            self.top_speed
        }
    }

    pub fn current(&self) -> (speed: i64)
        ensures
            speed == self.current_speed,
    {
        self.current_speed
    }
}

impl Default for PlayerSpeed {
    fn default() -> (speed: PlayerSpeed)
        ensures
            speed == PlayerSpeed::spec_default(),
    {
        PlayerSpeed {
            accel_timer: Countdown::new(ACCELERATION_DELAY_NANOS),
            base_speed: 7_500,
            current_speed: 7_500,
            top_speed: 15_000,
            min_speed: MIN_SPEED,
            acceleration: 2_000,
        }
    }
}

/// The value of an input axis: one unit while only the positive button is
/// down, minus one unit while only the negative one is, zero otherwise.
pub open spec fn spec_axis(positive: bool, negative: bool) -> i64 {
    if positive && !negative {
        UNIT
    } else if negative && !positive {
        (-UNIT) as i64
    } else {
        0
    }
}

/// The two input axes laid along the two given vectors and added up: the
/// sideways axis along `right`, the forward axis along `forward`.
pub open spec fn spec_combined_axes(
    forward: Vector3,
    right: Vector3,
    up_pressed: bool,
    down_pressed: bool,
    left_pressed: bool,
    right_pressed: bool,
) -> Vector3 {
    right.spec_scaled(spec_axis(right_pressed, left_pressed) as int).spec_plus(
        forward.spec_scaled(spec_axis(up_pressed, down_pressed) as int),
    )
}

/// The direction asked for by the four direction buttons, in world space.
/// The forward and right vectors of the camera are laid flat and brought to
/// unit length, the input axes are laid along them and added up, and the
/// sum is brought to unit length.
pub open spec fn spec_direction_in_camera_space(
    forward: Vector3,
    right: Vector3,
    up_pressed: bool,
    down_pressed: bool,
    left_pressed: bool,
    right_pressed: bool,
) -> Vector3 {
    spec_combined_axes(
        forward.spec_flat().spec_unit_or_zero(),
        right.spec_flat().spec_unit_or_zero(),
        up_pressed,
        down_pressed,
        left_pressed,
        right_pressed,
    ).spec_unit_or_zero()
}

/// A turn of the body for the host to carry out: towards `toward`, by the
/// fraction `fraction` of the turn that is left.
#[derive(Clone, Copy, Debug, PartialEq, Eq, Structural)]
pub struct Turn {
    pub toward: Vector3,
    pub fraction: i64,
}

impl PlayerBody {
    /// The direction asked for, laid flat.
    pub open spec fn spec_flat_direction(self) -> Vector3 {
        Vector3 { x: self.movement.0.x, y: 0, z: self.movement.0.z }
    }

    /// The turn to make in a tick of `delta` nanoseconds: towards the flat
    /// direction asked for while there is one and the body stands, none
    /// otherwise.
    pub open spec fn spec_rotate_to_direction(self, delta: u64) -> Option<Turn> {
        if self.spec_flat_direction() != Vector3::spec_zero() && self.grounded.is_grounded() {
            Some(
                Turn {
                    toward: self.spec_flat_direction(),
                    fraction: spec_accrued(PLAYER_ROTATION_SPEED as int, delta as int) as i64,
                },
            )
        } else {
            None
        }
    }

    /// The horizontal velocity that the forces on the body add up to: the
    /// outside force, if there is one, plus the speed along the facing, if
    /// the player moves. The vertical component is that of the speed along
    /// the facing alone.
    pub open spec fn spec_speed_to_apply(self, speed: i64) -> Vector3 {
        let pushed = match self.outside_force {
            Some(force) => Vector3 { x: force.0.x, y: 0, z: force.0.z },
            None => Vector3::spec_zero(),
        };
        if self.movement.0 != Vector3::spec_zero() {
            pushed.spec_plus(self.facing.spec_scaled(speed as int))
        } else {
            pushed
        }
    }

    /// The body after the velocity has been written. The horizontal
    /// velocity changes only while a force pushes or the player moves;
    /// the vertical velocity never changes.
    pub open spec fn spec_move_player_from_rotation(self, speed: i64) -> PlayerBody {
        if self.outside_force is Some || self.movement.0 != Vector3::spec_zero() {
            PlayerBody {
                velocity: Vector3 {
                    x: self.spec_speed_to_apply(speed).x,
                    y: self.velocity.y,
                    z: self.spec_speed_to_apply(speed).z,
                },
                ..self
            }
        } else {
            self
        }
    }
}

/// Reads one input axis off its two buttons.
pub fn axis(positive: bool, negative: bool) -> (value: i64)
    ensures
        value == spec_axis(positive, negative),
{
    if positive && !negative {
        UNIT
    } else if negative && !positive {
        -UNIT
    } else {
        0
    }
}

/// Turns the four direction buttons into a direction in world space.
/// `forward` and `right` are the forward and right vectors of the camera,
/// as they are. The result is flat, and of unit length or zero.
pub fn get_direction_in_camera_space(
    forward: Vector3,
    right: Vector3,
    up_pressed: bool,
    down_pressed: bool,
    left_pressed: bool,
    right_pressed: bool,
) -> (direction: Vector3)
    ensures
        direction == spec_direction_in_camera_space(
            forward,
            right,
            up_pressed,
            down_pressed,
            left_pressed,
            right_pressed,
        ),
{
    let flat_forward = forward.flat().unit_or_zero();
    let flat_right = right.flat().unit_or_zero();
    let x = axis(right_pressed, left_pressed);
    let z = axis(up_pressed, down_pressed);
    flat_right.scaled(x).plus(flat_forward.scaled(z)).unit_or_zero()
}

/// Stores the direction asked for by the four direction buttons in the
/// body.
pub fn set_player_direction(
    body: &mut PlayerBody,
    forward: Vector3,
    right: Vector3,
    up_pressed: bool,
    down_pressed: bool,
    left_pressed: bool,
    right_pressed: bool,
)
    ensures
        *final(body) == (PlayerBody {
            movement: Movement(
                spec_direction_in_camera_space(
                    forward,
                    right,
                    up_pressed,
                    down_pressed,
                    left_pressed,
                    right_pressed,
                ),
            ),
            ..*old(body)
        }),
{
    body.movement = Movement(
        get_direction_in_camera_space(
            forward,
            right,
            up_pressed,
            down_pressed,
            left_pressed,
            right_pressed,
        ),
    );
}

/// Tells the host how to turn the body in this tick, if at all.
pub fn rotate_to_direction(body: &PlayerBody, delta: u64) -> (turn: Option<Turn>)
    ensures
        turn == body.spec_rotate_to_direction(delta),
{
    let flat = Vector3 { x: body.movement.0.x, y: 0, z: body.movement.0.z };
    if !flat.is_zero() && body.grounded.is_grounded() {
        Some(Turn { toward: flat, fraction: accrued(PLAYER_ROTATION_SPEED, delta) })
    } else {
        None
    }
}

/// Builds the speed up while the player moves and puts it back when the
/// player stops.
pub fn handle_player_acceleration(speed: &mut PlayerSpeed, movement: &Movement, delta: u64)
    ensures
        *final(speed) == if movement.0 != Vector3::spec_zero() {
            old(speed).spec_accelerate(delta)
        } else {
            old(speed).spec_reset()
        },
{
    if movement.is_moving() {
        speed.accelerate(delta);
    } else {
        speed.reset();
    }
}

/// Writes the horizontal velocity of the body from the forces on it.
pub fn move_player_from_rotation(body: &mut PlayerBody, speed: &PlayerSpeed)
    ensures
        *final(body) == old(body).spec_move_player_from_rotation(speed.current_speed),
{
    let mut speed_to_apply = Vector3::zero();
    let mut should_change_velocity = false;
    match body.outside_force {
        Some(force) => {
            should_change_velocity = true;
            speed_to_apply.x = force.0.x;
            speed_to_apply.z = force.0.z;
        },
        None => {},
    }
    if body.movement.is_moving() {
        should_change_velocity = true;
        speed_to_apply = speed_to_apply.plus(body.facing.scaled(speed.current()));
    }
    if should_change_velocity {
        body.velocity.x = speed_to_apply.x;
        body.velocity.z = speed_to_apply.z;
    }
}

impl PlayerSpeed {
    /// While the speed is at most the top speed and the rate is not
    /// negative, moving on never lowers the speed and never takes it past
    /// the top speed.
    pub proof fn lemma_accelerate_bounds(self, delta: u64)
        requires
            self.current_speed <= self.top_speed,
            self.acceleration >= 0,
        ensures
            self.current_speed <= self.spec_accelerate(delta).current_speed <= self.top_speed,
    {
        let gain = self.spec_gain(delta) as int;
        assert(self.acceleration * delta >= 0) by (nonlinear_arith)
            requires
                delta >= 0,
                self.acceleration >= 0,
        ;
        assert(gain >= 0);
        let gap = self.top_speed - self.current_speed;
        assert(gap * gain >= 0) by (nonlinear_arith)
            requires
                gap >= 0,
                gain >= 0,
        ;
    }
}

/// A flat vector stays flat when it is brought to unit length.
proof fn lemma_flat_unit(v: Vector3)
    requires
        v.y == 0,
    ensures
        v.spec_unit_or_zero().y == 0,
{
    if v != Vector3::spec_zero() {
        v.lemma_unit_length();
    }
}

/// The direction asked for is flat. It is zero while neither axis is used,
/// and where it is not zero it is of unit length within four thousandths:
/// each component lies between minus one and one unit, and the squared
/// length lies between the squares of 0.996 and 1.004.
pub proof fn lemma_direction_is_flat_unit(
    forward: Vector3,
    right: Vector3,
    up_pressed: bool,
    down_pressed: bool,
    left_pressed: bool,
    right_pressed: bool,
)
    ensures
        ({
            let direction = spec_direction_in_camera_space(
                forward,
                right,
                up_pressed,
                down_pressed,
                left_pressed,
                right_pressed,
            );
            &&& direction.y == 0
            &&& -UNIT <= direction.x <= UNIT
            &&& -UNIT <= direction.z <= UNIT
            &&& spec_axis(right_pressed, left_pressed) == 0 && spec_axis(up_pressed, down_pressed)
                == 0 ==> direction == Vector3::spec_zero()
            &&& direction != Vector3::spec_zero() ==> (UNIT - 4) * (UNIT - 4)
                <= direction.spec_squared_length() <= (UNIT + 4) * (UNIT + 4)
        }),
{
    let flat_forward = forward.spec_flat().spec_unit_or_zero();
    let flat_right = right.spec_flat().spec_unit_or_zero();
    lemma_flat_unit(forward.spec_flat());
    lemma_flat_unit(right.spec_flat());
    let x = spec_axis(right_pressed, left_pressed) as int;
    let z = spec_axis(up_pressed, down_pressed) as int;
    let sum = spec_combined_axes(
        flat_forward,
        flat_right,
        up_pressed,
        down_pressed,
        left_pressed,
        right_pressed,
    );
    assert(flat_right.y * x == 0 && flat_forward.y * z == 0) by (nonlinear_arith)
        requires
            flat_right.y == 0,
            flat_forward.y == 0,
    ;
    assert(sum.y == 0);
    if x == 0 && z == 0 {
        assert(flat_right.x * x == 0 && flat_right.z * x == 0 && flat_forward.x * z == 0
            && flat_forward.z * z == 0) by (nonlinear_arith)
            requires
                x == 0,
                z == 0,
        ;
        assert(sum == Vector3::spec_zero());
    }
    if sum != Vector3::spec_zero() {
        sum.lemma_unit_length();
    }
}

/// A component of a unit vector laid along an input axis: itself, its
/// opposite or nothing.
proof fn lemma_scale_by_axis(c: int, axis: int)
    requires
        -UNIT <= c <= UNIT,
        axis == UNIT || axis == -UNIT || axis == 0,
    ensures
        spec_scale(c, axis) == if axis == UNIT {
            c
        } else if axis == -UNIT {
            -c
        } else {
            0
        },
{
    if axis == UNIT {
        assert(c * axis == c * 1000) by (nonlinear_arith)
            requires
                axis == 1000,
        ;
    } else if axis == -UNIT {
        assert(c * axis == (-c) * 1000) by (nonlinear_arith)
            requires
                axis == -1000,
        ;
    } else {
        assert(c * axis == 0) by (nonlinear_arith)
            requires
                axis == 0,
        ;
    }
}

/// While the flattened axes of the camera are neither zero nor parallel,
/// the direction asked for is zero only while neither input axis is used.
/// The axes count as parallel where the inner product of their unit
/// vectors reaches the square of 0.996 either way.
pub proof fn lemma_direction_is_zero_only_at_rest(
    forward: Vector3,
    right: Vector3,
    up_pressed: bool,
    down_pressed: bool,
    left_pressed: bool,
    right_pressed: bool,
)
    requires
        forward.spec_flat() != Vector3::spec_zero(),
        right.spec_flat() != Vector3::spec_zero(),
        ({
            let f = forward.spec_flat().spec_unit_or_zero();
            let r = right.spec_flat().spec_unit_or_zero();
            -((UNIT - 4) * (UNIT - 4)) < r.x * f.x + r.z * f.z < (UNIT - 4) * (UNIT - 4)
        }),
    ensures
        spec_direction_in_camera_space(
            forward,
            right,
            up_pressed,
            down_pressed,
            left_pressed,
            right_pressed,
        ) == Vector3::spec_zero() <==> spec_axis(right_pressed, left_pressed) == 0 && spec_axis(
            up_pressed,
            down_pressed,
        ) == 0,
{
    let f = forward.spec_flat().spec_unit_or_zero();
    let r = right.spec_flat().spec_unit_or_zero();
    let x = spec_axis(right_pressed, left_pressed) as int;
    let z = spec_axis(up_pressed, down_pressed) as int;
    let sum = spec_combined_axes(f, r, up_pressed, down_pressed, left_pressed, right_pressed);
    lemma_direction_is_flat_unit(
        forward,
        right,
        up_pressed,
        down_pressed,
        left_pressed,
        right_pressed,
    );
    forward.spec_flat().lemma_unit_length();
    right.spec_flat().lemma_unit_length();
    assert(f.y == 0 && r.y == 0);
    assert(f.y * f.y == 0 && r.y * r.y == 0) by (nonlinear_arith)
        requires
            f.y == 0,
            r.y == 0,
    ;
    let ff = f.x * f.x + f.z * f.z;
    let rr = r.x * r.x + r.z * r.z;
    assert(ff >= (UNIT - 4) * (UNIT - 4) && rr >= (UNIT - 4) * (UNIT - 4));
    if !(x == 0 && z == 0) {
        lemma_scale_by_axis(r.x as int, x);
        lemma_scale_by_axis(r.z as int, x);
        lemma_scale_by_axis(f.x as int, z);
        lemma_scale_by_axis(f.z as int, z);
        if sum == Vector3::spec_zero() {
            if x != 0 && z != 0 {
                if (x == UNIT) == (z == UNIT) {
                    assert(r.x == -f.x && r.z == -f.z);
                    assert(r.x * f.x + r.z * f.z == -ff) by (nonlinear_arith)
                        requires
                            r.x == -f.x,
                            r.z == -f.z,
                            ff == f.x * f.x + f.z * f.z,
                    ;
                } else {
                    assert(r.x == f.x && r.z == f.z);
                    assert(r.x * f.x + r.z * f.z == ff) by (nonlinear_arith)
                        requires
                            r.x == f.x,
                            r.z == f.z,
                            ff == f.x * f.x + f.z * f.z,
                    ;
                }
            } else if x != 0 {
                assert(r.x == 0 && r.z == 0);
                assert(rr == 0) by (nonlinear_arith)
                    requires
                        r.x == 0,
                        r.z == 0,
                        rr == r.x * r.x + r.z * r.z,
                ;
            } else {
                assert(f.x == 0 && f.z == 0);
                assert(ff == 0) by (nonlinear_arith)
                    requires
                        f.x == 0,
                        f.z == 0,
                        ff == f.x * f.x + f.z * f.z,
                ;
            }
        }
        assert(sum != Vector3::spec_zero());
        sum.lemma_unit_length();
        let direction = sum.spec_unit_or_zero();
        if direction == Vector3::spec_zero() {
            assert(direction.spec_squared_length() == 0) by (nonlinear_arith)
                requires
                    direction.x == 0,
                    direction.y == 0,
                    direction.z == 0,
            ;
        }
    }
}

} // verus!
