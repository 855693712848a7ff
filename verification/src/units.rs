//! Fixed-point quantities.
//!
//! Every length, speed, force, angle and coefficient that the controller
//! handles is a signed count of thousandths: `10_000` is ten units, `-2_000`
//! is minus two. Durations are unsigned counts of nanoseconds, and a rate
//! is what it comes to in one second. Results that leave the range of `i64`
//! stick at the nearest end of it.

use vstd::prelude::*;

verus! {

/// One whole unit, in thousandths.
pub const UNIT: i64 = 1000;

/// Nanoseconds in one second.
pub const NANOS_PER_SECOND: u64 = 1_000_000_000;

/// The value of `i64` nearest to `v`.
pub open spec fn saturate(v: int) -> int {
    if v < i64::MIN {
        i64::MIN as int
    } else if v > i64::MAX {
        i64::MAX as int
    } else {
        v
    }
}

/// The product of two quantities, rounded down to a thousandth.
pub open spec fn spec_scale(a: int, b: int) -> int {
    saturate(a * b / (UNIT as int))
}

/// The point at fraction `t` of the way from `from` to `to`, rounded down.
/// `t` is in thousandths and is not limited to the range from 0 to `UNIT`.
pub open spec fn spec_lerp(from: int, to: int, t: int) -> int {
    saturate(from + (to - from) * t / (UNIT as int))
}

/// What a rate per second comes to in `nanos` nanoseconds, rounded down to
/// a thousandth. The product is formed from the nanoseconds and divided
/// once, so that a tick far shorter than a thousandth of a second still
/// counts.
pub open spec fn spec_accrued(rate: int, nanos: int) -> int {
    saturate(rate * nanos / (NANOS_PER_SECOND as int))
}

/// The product of two 64-bit quantities needs at most 127 bits.
pub proof fn lemma_product_fits(a: int, b: int)
    requires
        -0x1_0000_0000_0000_0000 < a < 0x1_0000_0000_0000_0000,
        -0x8000_0000_0000_0000 <= b < 0x8000_0000_0000_0000,
    ensures
        -0x7fff_ffff_ffff_ffff_8000_0000_0000_0000 <= a * b
            <= 0x7fff_ffff_ffff_ffff_8000_0000_0000_0000,
{
    assert(-0x7fff_ffff_ffff_ffff_8000_0000_0000_0000 <= a * b
        <= 0x7fff_ffff_ffff_ffff_8000_0000_0000_0000) by (nonlinear_arith)
        requires
            -0x1_0000_0000_0000_0000 < a < 0x1_0000_0000_0000_0000,
            -0x8000_0000_0000_0000 <= b < 0x8000_0000_0000_0000,
    ;
}

/// Brings a wide intermediate result back into `i64`.
pub fn narrow(v: i128) -> (r: i64)
    ensures
        r == saturate(v as int),
{
    if v < i64::MIN as i128 {
        i64::MIN
    } else if v > i64::MAX as i128 {
        i64::MAX
    } else {
        v as i64
    }
}

/// Division that rounds towards minus infinity.
pub fn floor_div(p: i128, d: i128) -> (q: i128)
    requires
        d > 0,
    ensures
        q == p / d,
{
    if p >= 0 {
        p / d
    } else {
        let m: i128 = -(p + 1);
        let q0: i128 = m / d;
        assert(p / d == -(m / d) - 1) by (nonlinear_arith)
            requires
                m == -(p + 1),
                d > 0,
                p < 0,
        ;
        -q0 - 1
    }
}

/// Saturating sum.
pub fn plus(a: i64, b: i64) -> (r: i64)
    ensures
        r == saturate(a + b),
{
    narrow(a as i128 + b as i128)
}

/// Saturating difference.
pub fn minus(a: i64, b: i64) -> (r: i64)
    ensures
        r == saturate(a - b),
{
    narrow(a as i128 - b as i128)
}

/// Fixed-point product: `a` times `b`, both in thousandths.
pub fn scale(a: i64, b: i64) -> (r: i64)
    ensures
        r == spec_scale(a as int, b as int),
{
    proof {
        lemma_product_fits(a as int, b as int);
    }
    let p: i128 = (a as i128) * (b as i128);
    narrow(floor_div(p, UNIT as i128))
}

/// Linear interpolation from `from` towards `to` by the fraction `t`.
pub fn lerp(from: i64, to: i64, t: i64) -> (r: i64)
    ensures
        r == spec_lerp(from as int, to as int, t as int),
{
    let gap: i128 = to as i128 - from as i128;
    proof {
        lemma_product_fits(gap as int, t as int);
    }
    let step: i128 = floor_div(gap * (t as i128), UNIT as i128);
    narrow(from as i128 + step)
}

/// What a rate per second comes to in `nanos` nanoseconds.
pub fn accrued(rate: i64, nanos: u64) -> (r: i64)
    ensures
        r == spec_accrued(rate as int, nanos as int),
{
    proof {
        lemma_product_fits(nanos as int, rate as int);
        assert(rate * nanos == nanos * rate) by (nonlinear_arith);
    }
    let p: i128 = (rate as i128) * (nanos as i128);
    narrow(floor_div(p, NANOS_PER_SECOND as i128))
}

/// Whether `root` is the whole part of the square root of `n`.
pub open spec fn is_isqrt(n: int, root: int) -> bool {
    0 <= root && root * root <= n < (root + 1) * (root + 1)
}

/// The whole part of the square root of `n`.
pub open spec fn spec_isqrt(n: int) -> int {
    choose|root: int| is_isqrt(n, root)
}

/// A number has at most one whole square root.
pub proof fn lemma_isqrt_unique(n: int, a: int, b: int)
    requires
        is_isqrt(n, a),
        is_isqrt(n, b),
    ensures
        a == b,
{
    if a > b {
        assert(a * a >= (b + 1) * (b + 1)) by (nonlinear_arith)
            requires
                a >= b + 1,
                b >= 0,
        ;
    }
    if b > a {
        assert(b * b >= (a + 1) * (a + 1)) by (nonlinear_arith)
            requires
                b >= a + 1,
                a >= 0,
        ;
    }
}

/// Every number from zero on has a whole square root.
pub proof fn lemma_isqrt_exists(n: int)
    requires
        n >= 0,
    ensures
        is_isqrt(n, spec_isqrt(n)),
    decreases n,
{
    if n == 0 {
        assert(is_isqrt(0, 0));
    } else {
        lemma_isqrt_exists(n - 1);
        let below = spec_isqrt(n - 1);
        if (below + 1) * (below + 1) <= n {
            assert((below + 2) * (below + 2) > (below + 1) * (below + 1)) by (nonlinear_arith)
                requires
                    below >= 0,
            ;
            assert(is_isqrt(n, below + 1));
        } else {
            assert(is_isqrt(n, below));
        }
    }
}

/// The whole part of the square root of `n`, found by halving the range it
/// lies in.
pub fn isqrt(n: u128) -> (root: u128)
    ensures
        is_isqrt(n as int, root as int),
        root == spec_isqrt(n as int),
        root < 0x1_0000_0000_0000_0000,
{
    let mut low: u128 = 0;
    let mut high: u128 = 0x1_0000_0000_0000_0000;
    assert(0x1_0000_0000_0000_0000int * 0x1_0000_0000_0000_0000int
        == 0x1_0000_0000_0000_0000_0000_0000_0000_0000int) by (nonlinear_arith);
    while high - low > 1
        invariant
            low < high <= 0x1_0000_0000_0000_0000,
            low * low <= n,
            n < high * high,
        decreases high - low,
    {
        let middle: u128 = low + (high - low) / 2;
        assert(middle * middle <= 0xffff_ffff_ffff_ffff * 0xffff_ffff_ffff_ffff)
            by (nonlinear_arith)
            requires
                0 <= middle <= 0xffff_ffff_ffff_ffff,
        ;
        if middle * middle <= n {
            low = middle;
        } else {
            high = middle;
        }
    }
    proof {
        assert(is_isqrt(n as int, low as int));
        lemma_isqrt_exists(n as int);
        lemma_isqrt_unique(n as int, low as int, spec_isqrt(n as int));
    }
    low
}

} // verus!
