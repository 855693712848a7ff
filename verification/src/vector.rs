//! Three-component vectors of fixed-point quantities.

use vstd::prelude::*;
use crate::units::{floor_div, is_isqrt, isqrt, lemma_isqrt_exists, narrow, spec_isqrt};
use crate::units::{lerp, minus, plus, saturate, scale, spec_lerp, spec_scale, UNIT};
use vstd::arithmetic::div_mod::{lemma_fundamental_div_mod, lemma_mod_bound};

verus! {

/// Vectors with a squared length below this are measured a thousand times
/// finer when they are brought to unit length: 2 to the power of 100.
pub const SHORT_SQUARED: u128 = 0x1_0000_0000_0000_0000_0000_0000_0;

/// A point, direction, velocity or force in world space. Each component is
/// in thousandths; `y` points up.
#[derive(Clone, Copy, Debug, PartialEq, Eq, Structural)]
pub struct Vector3 {
    pub x: i64,
    pub y: i64,
    pub z: i64,
}

impl Vector3 {
    /// The vector with all components zero.
    pub open spec fn spec_zero() -> Vector3 {
        Vector3 { x: 0, y: 0, z: 0 }
    }

    /// The unit vector that points up.
    pub open spec fn spec_up() -> Vector3 {
        Vector3 { x: 0, y: UNIT, z: 0 }
    }

    /// Component-wise saturating sum.
    pub open spec fn spec_plus(self, other: Vector3) -> Vector3 {
        Vector3 {
            x: saturate(self.x + other.x) as i64,
            y: saturate(self.y + other.y) as i64,
            z: saturate(self.z + other.z) as i64,
        }
    }

    /// Component-wise saturating difference.
    pub open spec fn spec_minus(self, other: Vector3) -> Vector3 {
        Vector3 {
            x: saturate(self.x - other.x) as i64,
            y: saturate(self.y - other.y) as i64,
            z: saturate(self.z - other.z) as i64,
        }
    }

    /// The opposite vector.
    pub open spec fn spec_negated(self) -> Vector3 {
        Vector3 {
            x: saturate(-self.x) as i64,
            y: saturate(-self.y) as i64,
            z: saturate(-self.z) as i64,
        }
    }

    /// Every component multiplied by the fixed-point factor `k`.
    pub open spec fn spec_scaled(self, k: int) -> Vector3 {
        Vector3 {
            x: spec_scale(self.x as int, k) as i64,
            y: spec_scale(self.y as int, k) as i64,
            z: spec_scale(self.z as int, k) as i64,
        }
    }

    /// Component-wise interpolation towards `to` by the fraction `t`.
    pub open spec fn spec_lerp(self, to: Vector3, t: int) -> Vector3 {
        Vector3 {
            x: spec_lerp(self.x as int, to.x as int, t) as i64,
            y: spec_lerp(self.y as int, to.y as int, t) as i64,
            z: spec_lerp(self.z as int, to.z as int, t) as i64,
        }
    }

    pub fn new(x: i64, y: i64, z: i64) -> (v: Vector3)
        ensures
            v == (Vector3 { x, y, z }),
    {
        Vector3 { x, y, z }
    }

    pub fn zero() -> (v: Vector3)
        ensures
            v == Vector3::spec_zero(),
    {
        Vector3 { x: 0, y: 0, z: 0 }
    }

    pub fn up() -> (v: Vector3)
        ensures
            v == Vector3::spec_up(),
    {
        Vector3 { x: 0, y: UNIT, z: 0 }
    }

    pub fn is_zero(&self) -> (r: bool)
        ensures
            r == (*self == Vector3::spec_zero()),
    {
        self.x == 0 && self.y == 0 && self.z == 0
    }

    pub fn plus(self, other: Vector3) -> (v: Vector3)
        ensures
            v == self.spec_plus(other),
    {
        Vector3 { x: plus(self.x, other.x), y: plus(self.y, other.y), z: plus(self.z, other.z) }
    }

    pub fn minus(self, other: Vector3) -> (v: Vector3)
        ensures
            v == self.spec_minus(other),
    {
        Vector3 {
            x: minus(self.x, other.x),
            y: minus(self.y, other.y),
            z: minus(self.z, other.z),
        }
    }

    pub fn negated(self) -> (v: Vector3)
        ensures
            v == self.spec_negated(),
    {
        Vector3 { x: minus(0, self.x), y: minus(0, self.y), z: minus(0, self.z) }
    }

    pub fn scaled(self, k: i64) -> (v: Vector3)
        ensures
            v == self.spec_scaled(k as int),
    {
        Vector3 { x: scale(self.x, k), y: scale(self.y, k), z: scale(self.z, k) }
    }

    pub fn lerp(self, to: Vector3, t: i64) -> (v: Vector3)
        ensures
            v == self.spec_lerp(to, t as int),
    {
        Vector3 { x: lerp(self.x, to.x, t), y: lerp(self.y, to.y, t), z: lerp(self.z, to.z, t) }
    }
}

impl Vector3 {
    /// The vector laid flat: its vertical component is zero.
    pub open spec fn spec_flat(self) -> Vector3 {
        Vector3 { y: 0, ..self }
    }

    /// The sum of the squares of the components.
    pub open spec fn spec_squared_length(self) -> int {
        self.x * self.x + self.y * self.y + self.z * self.z
    }

    /// How much finer than a thousandth the length of the vector is
    /// measured: a thousand times for a short vector, once for a long one.
    pub open spec fn spec_fineness(self) -> int {
        if self.spec_squared_length() < SHORT_SQUARED {
            1000
        } else {
            1
        }
    }

    /// The length of the vector in the measure of `spec_fineness`, rounded
    /// down.
    pub open spec fn spec_fine_length(self) -> int {
        spec_isqrt(self.spec_squared_length() * self.spec_fineness() * self.spec_fineness())
    }

    /// The vector of unit length that points the same way, each component
    /// rounded down; zero for the zero vector.
    pub open spec fn spec_unit_or_zero(self) -> Vector3 {
        if self == Vector3::spec_zero() {
            self
        } else {
            Vector3 {
                x: saturate(self.x * UNIT * self.spec_fineness() / self.spec_fine_length()) as i64,
                y: saturate(self.y * UNIT * self.spec_fineness() / self.spec_fine_length()) as i64,
                z: saturate(self.z * UNIT * self.spec_fineness() / self.spec_fine_length()) as i64,
            }
        }
    }

    pub fn flat(self) -> (v: Vector3)
        ensures
            v == self.spec_flat(),
    {
        Vector3 { x: self.x, y: 0, z: self.z }
    }

    pub fn squared_length(self) -> (n: u128)
        ensures
            n == self.spec_squared_length(),
            n == 0 <==> self == Vector3::spec_zero(),
    {
        let x = square(self.x);
        let y = square(self.y);
        let z = square(self.z);
        x + y + z
    }

    /// Brings the vector to unit length, or leaves it zero.
    pub fn unit_or_zero(self) -> (v: Vector3)
        ensures
            v == self.spec_unit_or_zero(),
    {
        let n = self.squared_length();
        if n == 0 {
            return self;
        }
        let short = n < SHORT_SQUARED;
        let measured: u128 = if short {
            n * 1_000_000
        } else {
            n
        };
        let length = isqrt(measured);
        proof {
            assert(measured == self.spec_squared_length() * self.spec_fineness()
                * self.spec_fineness());
            assert(length >= 1) by (nonlinear_arith)
                requires
                    measured >= 1,
                    length >= 0,
                    measured < (length + 1) * (length + 1),
            ;
            if short {
                lemma_short_components(self);
            }
        }
        let divisor = length as i128;
        let x: i128 = if short {
            (self.x as i128) * 1_000_000
        } else {
            (self.x as i128) * 1_000
        };
        let y: i128 = if short {
            (self.y as i128) * 1_000_000
        } else {
            (self.y as i128) * 1_000
        };
        let z: i128 = if short {
            (self.z as i128) * 1_000_000
        } else {
            (self.z as i128) * 1_000
        };
        Vector3 {
            x: narrow(floor_div(x, divisor)),
            y: narrow(floor_div(y, divisor)),
            z: narrow(floor_div(z, divisor)),
        }
    }
}

/// The square of a component.
pub fn square(a: i64) -> (s: u128)
    ensures
        s == a * a,
        s <= 0x4000_0000_0000_0000_0000_0000_0000_0000,
        s == 0 <==> a == 0,
{
    assert(0 <= a * a <= 0x4000_0000_0000_0000_0000_0000_0000_0000) by (nonlinear_arith)
        requires
            -0x8000_0000_0000_0000 <= a < 0x8000_0000_0000_0000,
    ;
    assert(a != 0 ==> a * a >= 1) by (nonlinear_arith);
    let wide = a as i128;
    (wide * wide) as u128
}

/// The components of a short vector are below 2 to the power of 50.
proof fn lemma_short_components(v: Vector3)
    requires
        v.spec_squared_length() < SHORT_SQUARED,
    ensures
        -0x4_0000_0000_0000 < v.x < 0x4_0000_0000_0000,
        -0x4_0000_0000_0000 < v.y < 0x4_0000_0000_0000,
        -0x4_0000_0000_0000 < v.z < 0x4_0000_0000_0000,
{
    lemma_small_square(v.x as int);
    lemma_small_square(v.y as int);
    lemma_small_square(v.z as int);
    assert(v.x * v.x >= 0 && v.y * v.y >= 0 && v.z * v.z >= 0) by (nonlinear_arith);
}

/// A number whose square is below 2 to the power of 100 is itself below 2
/// to the power of 50.
proof fn lemma_small_square(a: int)
    ensures
        a * a < SHORT_SQUARED ==> -0x4_0000_0000_0000 < a < 0x4_0000_0000_0000,
{
    assert(a >= 0x4_0000_0000_0000 ==> a * a >= 0x4_0000_0000_0000int * 0x4_0000_0000_0000int)
        by (nonlinear_arith);
    assert(a <= -0x4_0000_0000_0000 ==> a * a >= 0x4_0000_0000_0000int * 0x4_0000_0000_0000int)
        by (nonlinear_arith);
    assert(0x4_0000_0000_0000int * 0x4_0000_0000_0000int
        == 0x1_0000_0000_0000_0000_0000_0000_0int) by (nonlinear_arith);
}

/// What rounding down does to one component of a unit vector. With `p` the
/// component before the division and `len` the length divided by, the
/// quotient is within one unit of zero, and its square times the squared
/// length is close to the square of `p`.
proof fn lemma_component(p: int, len: int)
    requires
        len >= 1,
        -1000 * len <= p <= 1000 * len,
    ensures
        -1000 <= p / len <= 1000,
        p * p - 2001 * (len * len) <= (p / len) * (p / len) * (len * len),
        (p / len) * (p / len) * (len * len) <= p * p + 2000 * (len * len),
        p == 0 ==> p / len == 0,
{
    let q = p / len;
    let r = p % len;
    lemma_fundamental_div_mod(p, len);
    lemma_mod_bound(p, len);
    assert(p == q * len + r) by (nonlinear_arith)
        requires
            p == len * q + r,
    ;
    assert(q <= 1000) by (nonlinear_arith)
        requires
            p == q * len + r,
            0 <= r,
            p <= 1000 * len,
            len >= 1,
    ;
    assert(q >= -1000) by (nonlinear_arith)
        requires
            p == q * len + r,
            r < len,
            p >= -1000 * len,
            len >= 1,
    ;
    if p == 0 {
        assert(q == 0) by (nonlinear_arith)
            requires
                0 == q * len + r,
                0 <= r < len,
                len >= 1,
        ;
    }
    let qr = q * r;
    assert(-1000 * len <= qr <= 1000 * len) by (nonlinear_arith)
        requires
            qr == q * r,
            -1000 <= q <= 1000,
            0 <= r < len,
    ;
    let cross = qr * len;
    assert(-1000 * (len * len) <= cross <= 1000 * (len * len)) by (nonlinear_arith)
        requires
            cross == qr * len,
            -1000 * len <= qr <= 1000 * len,
            len >= 1,
    ;
    assert(0 <= r * r < len * len) by (nonlinear_arith)
        requires
            0 <= r < len,
    ;
    assert(p * p == q * q * (len * len) + 2 * cross + r * r) by (nonlinear_arith)
        requires
            p == q * len + r,
            cross == q * r * len,
    ;
}

/// A component is no longer than the vector: its size in the measure of
/// the fine length is at most that length.
proof fn lemma_component_within(a: int, rest: int, len: int)
    requires
        len >= 0,
        rest >= 0,
        a * a + rest < (len + 1) * (len + 1),
    ensures
        -len <= a <= len,
{
    assert(a >= len + 1 ==> a * a >= (len + 1) * (len + 1)) by (nonlinear_arith)
        requires
            len >= 0,
    ;
    assert(a <= -(len + 1) ==> a * a >= (len + 1) * (len + 1)) by (nonlinear_arith)
        requires
            len >= 0,
    ;
}

impl Vector3 {
    /// A vector brought to unit length has that length within four
    /// thousandths: each component lies between minus one and one unit, and
    /// the squared length lies between the squares of 0.996 and 1.004. A
    /// component that was zero stays zero.
    pub proof fn lemma_unit_length(self)
        requires
            self != Vector3::spec_zero(),
        ensures
            -UNIT <= self.spec_unit_or_zero().x <= UNIT,
            -UNIT <= self.spec_unit_or_zero().y <= UNIT,
            -UNIT <= self.spec_unit_or_zero().z <= UNIT,
            (UNIT - 4) * (UNIT - 4) <= self.spec_unit_or_zero().spec_squared_length() <= (UNIT
                + 4) * (UNIT + 4),
            self.x == 0 ==> self.spec_unit_or_zero().x == 0,
            self.y == 0 ==> self.spec_unit_or_zero().y == 0,
            self.z == 0 ==> self.spec_unit_or_zero().z == 0,
    {
        let fine = self.spec_fineness();
        let squared = self.spec_squared_length();
        let measured = squared * fine * fine;
        let len = self.spec_fine_length();
        let ax = self.x * fine;
        let ay = self.y * fine;
        let az = self.z * fine;
        assert(self.x * self.x >= 0 && self.y * self.y >= 0 && self.z * self.z >= 0)
            by (nonlinear_arith);
        assert(self.x != 0 ==> self.x * self.x >= 1) by (nonlinear_arith);
        assert(self.y != 0 ==> self.y * self.y >= 1) by (nonlinear_arith);
        assert(self.z != 0 ==> self.z * self.z >= 1) by (nonlinear_arith);
        assert(squared >= 1);
        assert(measured >= squared) by (nonlinear_arith)
            requires
                measured == squared * fine * fine,
                fine >= 1,
                squared >= 1,
        ;
        assert(measured == ax * ax + ay * ay + az * az) by (nonlinear_arith)
            requires
                measured == (self.x * self.x + self.y * self.y + self.z * self.z) * fine * fine,
                ax == self.x * fine,
                ay == self.y * fine,
                az == self.z * fine,
        ;
        lemma_isqrt_exists(measured);
        assert(is_isqrt(measured, len));
        assert(ax * ax >= 0 && ay * ay >= 0 && az * az >= 0) by (nonlinear_arith);
        lemma_component_within(ax, ay * ay + az * az, len);
        lemma_component_within(ay, ax * ax + az * az, len);
        lemma_component_within(az, ax * ax + ay * ay, len);
        // The fine length is at least a thousand.
        if fine == 1000 {
            assert(measured == squared * 1_000_000) by (nonlinear_arith)
                requires
                    measured == squared * fine * fine,
                    fine == 1000,
            ;
            assert(measured >= 1_000_000);
            assert(len >= 1000) by (nonlinear_arith)
                requires
                    len >= 0,
                    measured >= 1_000_000,
                    measured < (len + 1) * (len + 1),
            ;
        } else {
            assert(measured == squared) by (nonlinear_arith)
                requires
                    measured == squared * fine * fine,
                    fine == 1,
            ;
            assert(measured >= 0x1_0000_0000_0000_0000_0000_0000_0);
            assert(len >= 1000) by (nonlinear_arith)
                requires
                    len >= 0,
                    measured >= 1_000_000,
                    measured < (len + 1) * (len + 1),
            ;
        }
        let px = self.x * UNIT * fine;
        let py = self.y * UNIT * fine;
        let pz = self.z * UNIT * fine;
        assert(px == 1000 * ax && py == 1000 * ay && pz == 1000 * az) by (nonlinear_arith)
            requires
                px == self.x * 1000 * fine,
                py == self.y * 1000 * fine,
                pz == self.z * 1000 * fine,
                ax == self.x * fine,
                ay == self.y * fine,
                az == self.z * fine,
        ;
        assert(-len <= ax <= len && -len <= ay <= len && -len <= az <= len);
        assert(-1000 * len <= px <= 1000 * len);
        assert(-1000 * len <= py <= 1000 * len);
        assert(-1000 * len <= pz <= 1000 * len);
        lemma_component(px, len);
        lemma_component(py, len);
        lemma_component(pz, len);
        let qx = px / len;
        let qy = py / len;
        let qz = pz / len;
        let unit = self.spec_unit_or_zero();
        assert(unit.x == qx && unit.y == qy && unit.z == qz);
        if self.x == 0 {
            assert(px == 0) by (nonlinear_arith)
                requires
                    px == self.x * 1000 * fine,
                    self.x == 0,
            ;
        }
        if self.y == 0 {
            assert(py == 0) by (nonlinear_arith)
                requires
                    py == self.y * 1000 * fine,
                    self.y == 0,
            ;
        }
        if self.z == 0 {
            assert(pz == 0) by (nonlinear_arith)
                requires
                    pz == self.z * 1000 * fine,
                    self.z == 0,
            ;
        }
        let area = len * len;
        let total = qx * qx + qy * qy + qz * qz;
        assert(px * px + py * py + pz * pz == 1_000_000 * measured) by (nonlinear_arith)
            requires
                px == 1000 * ax,
                py == 1000 * ay,
                pz == 1000 * az,
                measured == ax * ax + ay * ay + az * az,
        ;
        assert(total * area == qx * qx * area + qy * qy * area + qz * qz * area)
            by (nonlinear_arith)
            requires
                total == qx * qx + qy * qy + qz * qz,
        ;
        assert(area >= 1_000_000 && area <= measured && measured < area + 2 * len + 1)
            by (nonlinear_arith)
            requires
                area == len * len,
                len >= 1000,
                len * len <= measured,
                measured < (len + 1) * (len + 1),
        ;
        assert(2000 * len <= 2 * area) by (nonlinear_arith)
            requires
                area == len * len,
                len >= 1000,
        ;
        // From below: the total times the area is at least 993 997 areas.
        assert(total * area >= 993_997 * area);
        assert(total >= 993_997) by (nonlinear_arith)
            requires
                total * area >= 993_997 * area,
                area >= 1,
        ;
        // From above: it is below 1 008 001 areas.
        assert(1_000_000 * measured < 1_000_000 * area + 1_000_000 * (2 * len + 1));
        assert(1_000_000 * (2 * len) <= 2000 * area) by (nonlinear_arith)
            requires
                2000 * len <= 2 * area,
        ;
        assert(total * area < 1_008_001 * area);
        assert(total < 1_008_001) by (nonlinear_arith)
            requires
                total * area < 1_008_001 * area,
                area >= 1,
        ;
    }
}

} // verus!
