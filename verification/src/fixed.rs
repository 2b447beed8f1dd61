//! Fixed-point scalars.
//!
//! Every length, speed, time span and ratio of the simulation is an `i64`
//! that counts millionths of its unit: `ONE` stands for 1, `ONE / 2` for one
//! half. Positions are in pixels, times in seconds, speeds in pixels per
//! second. Results that would leave the range of `i64` stop at its ends, and
//! quotients are rounded toward zero.

use vstd::prelude::*;

verus! {

/// The scalar 1.
pub const ONE: i64 = 1_000_000;

/// `v`, or the end of the `i64` range nearest to it.
pub open spec fn saturated(v: int) -> i64 {
    if v < i64::MIN {
        i64::MIN
    } else if v > i64::MAX {
        i64::MAX
    } else {
        v as i64
    }
}

/// `n / d` rounded toward zero, for a positive `d`.
pub open spec fn toward_zero(n: int, d: int) -> int {
    if n >= 0 {
        n / d
    } else {
        -((-n) / d)
    }
}

pub open spec fn sum_of(a: i64, b: i64) -> i64 {
    saturated(a + b)
}

pub open spec fn difference_of(a: i64, b: i64) -> i64 {
    saturated(a - b)
}

pub open spec fn negation_of(a: i64) -> i64 {
    saturated(-a)
}

pub open spec fn product_of(a: i64, b: i64) -> i64 {
    saturated(toward_zero(a * b, ONE as int))
}

/// The quotient of two scalars; 0 where the divisor is 0.
pub open spec fn quotient_of(a: i64, b: i64) -> i64 {
    if b == 0 {
        0
    } else if b > 0 {
        saturated(toward_zero(a * ONE, b as int))
    } else {
        saturated(toward_zero(-(a * ONE), -b))
    }
}

pub open spec fn magnitude_of(a: i64) -> i64 {
    if a < 0 {
        negation_of(a)
    } else {
        a
    }
}

/// `magnitude` with the sign of `of`, where 0 counts as positive.
pub open spec fn signed_like(magnitude: i64, of: i64) -> i64 {
    if of < 0 {
        negation_of(magnitude)
    } else {
        magnitude
    }
}

pub open spec fn clamped(v: i64, low: i64, high: i64) -> i64 {
    if v < low {
        low
    } else if v > high {
        high
    } else {
        v
    }
}

/// The point a share `t` of the way from `a` to `b`.
pub open spec fn blend_of(a: i64, b: i64, t: i64) -> i64 {
    sum_of(a, product_of(t, difference_of(b, a)))
}

/// The scalar that stands for a colour channel.
pub open spec fn channel_scalar(c: u8) -> i64 {
    (c * ONE) as i64
}

/// The colour channel nearest below a scalar: its whole part, kept within
/// 0 to 255.
pub open spec fn scalar_channel(v: i64) -> u8 {
    if v <= 0 {
        0
    } else if v >= 255 * ONE {
        255
    } else {
        (v / ONE) as u8
    }
}

/// Whether `r` is the whole part of the square root of `n`.
pub open spec fn is_floor_root(n: int, r: int) -> bool {
    0 <= r && r * r <= n < (r + 1) * (r + 1)
}

/// The whole part of the square root of `n`.
pub open spec fn floor_root(n: int) -> int {
    choose|r: int| is_floor_root(n, r)
}

/// The square root of a scalar; 0 for a negative one.
pub open spec fn root_of(a: i64) -> i64 {
    if a <= 0 {
        0
    } else {
        saturated(floor_root(a * ONE))
    }
}

/// The length of the vector with components `x` and `y`.
pub open spec fn length_of(x: i64, y: i64) -> i64 {
    saturated(floor_root(x * x + y * y))
}

/// `a` raised to the power 53/32, about 1.656, as the product of `a` with
/// its square root, its 8th root and its 32nd root.
pub open spec fn steepened(a: i64) -> i64 {
    let r2 = root_of(a);
    let r8 = root_of(root_of(r2));
    let r32 = root_of(root_of(r8));
    product_of(product_of(product_of(a, r2), r8), r32)
}

fn narrowed(v: i128) -> (r: i64)
    ensures
        r == saturated(v as int),
{
    if v < i64::MIN as i128 {
        i64::MIN
    } else if v > i64::MAX as i128 {
        i64::MAX
    } else {
        v as i64
    }
}

fn divided_toward_zero(n: i128, d: i128) -> (q: i128)
    requires
        d > 0,
        n > i128::MIN,
    ensures
        q == toward_zero(n as int, d as int),
{
    if n >= 0 {
        n / d
    } else {
        let m: i128 = -n;
        let p: i128 = m / d;
        assert(0 <= p <= m) by (nonlinear_arith)
            requires
                p == m / d,
                m >= 0,
                d > 0,
        ;
        -p
    }
}

#[verifier::when_used_as_spec(sum_of)]
pub fn fx_add(a: i64, b: i64) -> (r: i64)
    ensures
        r == sum_of(a, b),
{
    narrowed(a as i128 + b as i128)
}

#[verifier::when_used_as_spec(difference_of)]
pub fn fx_sub(a: i64, b: i64) -> (r: i64)
    ensures
        r == difference_of(a, b),
{
    narrowed(a as i128 - b as i128)
}

#[verifier::when_used_as_spec(negation_of)]
pub fn fx_neg(a: i64) -> (r: i64)
    ensures
        r == negation_of(a),
{
    narrowed(-(a as i128))
}

proof fn lemma_product_fits(a: int, b: int)
    by (nonlinear_arith)
    requires
        i64::MIN <= a <= i64::MAX,
        i64::MIN <= b <= i64::MAX,
    ensures
        -0x4000_0000_0000_0000_0000_0000_0000_0000 <= a * b
            <= 0x4000_0000_0000_0000_0000_0000_0000_0000,
{
}

#[verifier::when_used_as_spec(product_of)]
pub fn fx_mul(a: i64, b: i64) -> (r: i64)
    ensures
        r == product_of(a, b),
{
    proof {
        lemma_product_fits(a as int, b as int);
    }
    let p: i128 = (a as i128) * (b as i128);
    narrowed(divided_toward_zero(p, ONE as i128))
}

/// A product with 0 is 0.
pub proof fn lemma_product_with_zero(a: i64, b: i64)
    requires
        a == 0 || b == 0,
    ensures
        product_of(a, b) == 0,
{
    assert(a * b == 0) by (nonlinear_arith)
        requires
            a == 0 || b == 0,
    ;
}

/// A share of a scalar, for a share from 0 to 1, lies between 0 and the
/// scalar.
pub proof fn lemma_share_is_a_part(t: i64, d: i64)
    requires
        0 <= t <= ONE,
    ensures
        d >= 0 ==> 0 <= product_of(t, d) <= d,
        d <= 0 ==> d <= product_of(t, d) <= 0,
{
    if d >= 0 {
        assert(0 <= (t * d) / (ONE as int) <= d) by (nonlinear_arith)
            requires
                0 <= t <= ONE,
                d >= 0,
                ONE == 1_000_000,
        ;
    } else {
        assert(0 <= ((-(t * d)) / (ONE as int)) <= -d && t * d <= 0) by (nonlinear_arith)
            requires
                0 <= t <= ONE,
                d < 0,
                ONE == 1_000_000,
        ;
    }
}

/// A blend by a share from 0 to 1 lies between its two ends.
pub proof fn lemma_blend_is_between(a: i64, b: i64, t: i64)
    requires
        0 <= t <= ONE,
    ensures
        a <= b ==> a <= blend_of(a, b, t) <= b,
        b <= a ==> b <= blend_of(a, b, t) <= a,
{
    lemma_share_is_a_part(t, difference_of(b, a));
}

#[verifier::when_used_as_spec(quotient_of)]
pub fn fx_div(a: i64, b: i64) -> (r: i64)
    ensures
        r == quotient_of(a, b),
{
    if b == 0 {
        return 0;
    }
    proof {
        lemma_product_fits(a as int, ONE as int);
    }
    let n: i128 = (a as i128) * (ONE as i128);
    if b > 0 {
        narrowed(divided_toward_zero(n, b as i128))
    } else {
        narrowed(divided_toward_zero(-n, -(b as i128)))
    }
}

/// A number has one whole square root only.
pub proof fn lemma_floor_root_unique(n: int, r1: int, r2: int)
    by (nonlinear_arith)
    requires
        is_floor_root(n, r1),
        is_floor_root(n, r2),
    ensures
        r1 == r2,
{
    if r1 < r2 {
        assert((r1 + 1) * (r1 + 1) <= r2 * r2);
    } else if r2 < r1 {
        assert((r2 + 1) * (r2 + 1) <= r1 * r1);
    }
}

proof fn lemma_square_fits(m: int)
    by (nonlinear_arith)
    requires
        0 <= m < 0x1_0000_0000_0000_0000,
    ensures
        0 <= m * m <= 0xffff_ffff_ffff_fffe_0000_0000_0000_0001,
{
}

fn integer_root(n: u128) -> (r: u128)
    ensures
        r == floor_root(n as int),
        is_floor_root(n as int, r as int),
        r < 0x1_0000_0000_0000_0000,
{
    let mut low: u128 = 0;
    let mut high: u128 = 0x1_0000_0000_0000_0000;
    while high - low > 1
        invariant
            low < high <= 0x1_0000_0000_0000_0000,
            low * low <= n,
            n < high * high,
        decreases high - low,
    {
        let mid: u128 = low + (high - low) / 2;
        proof {
            lemma_square_fits(mid as int);
        }
        if mid * mid <= n {
            low = mid;
        } else {
            high = mid;
        }
    }
    proof {
        assert(high == low + 1);
        assert(is_floor_root(n as int, low as int));
        lemma_floor_root_unique(n as int, low as int, floor_root(n as int));
    }
    low
}

#[verifier::when_used_as_spec(root_of)]
pub fn fx_sqrt(a: i64) -> (r: i64)
    ensures
        r == root_of(a),
        r >= 0,
{
    if a <= 0 {
        return 0;
    }
    let root: u128 = integer_root((a as u128) * 1_000_000);
    if root > i64::MAX as u128 {
        i64::MAX
    } else {
        root as i64
    }
}

#[verifier::when_used_as_spec(length_of)]
pub fn fx_length(x: i64, y: i64) -> (r: i64)
    ensures
        r == length_of(x, y),
        r >= 0,
{
    proof {
        lemma_product_fits(x as int, x as int);
        lemma_product_fits(y as int, y as int);
        assert(x * x >= 0 && y * y >= 0) by (nonlinear_arith);
    }
    let xx: i128 = (x as i128) * (x as i128);
    let yy: i128 = (y as i128) * (y as i128);
    let root: u128 = integer_root((xx as u128) + (yy as u128));
    if root > i64::MAX as u128 {
        i64::MAX
    } else {
        root as i64
    }
}

#[verifier::when_used_as_spec(steepened)]
pub fn fx_steepen(a: i64) -> (r: i64)
    ensures
        r == steepened(a),
{
    let r2: i64 = fx_sqrt(a);
    let r8: i64 = fx_sqrt(fx_sqrt(r2));
    let r32: i64 = fx_sqrt(fx_sqrt(r8));
    fx_mul(fx_mul(fx_mul(a, r2), r8), r32)
}

#[verifier::when_used_as_spec(magnitude_of)]
pub fn fx_abs(a: i64) -> (r: i64)
    ensures
        r == magnitude_of(a),
        r >= 0,
{
    if a < 0 {
        fx_neg(a)
    } else {
        a
    }
}

#[verifier::when_used_as_spec(signed_like)]
pub fn fx_signed_like(magnitude: i64, of: i64) -> (r: i64)
    ensures
        r == signed_like(magnitude, of),
{
    if of < 0 {
        fx_neg(magnitude)
    } else {
        magnitude
    }
}

#[verifier::when_used_as_spec(clamped)]
pub fn fx_clamp(v: i64, low: i64, high: i64) -> (r: i64)
    requires
        low <= high,
    ensures
        r == clamped(v, low, high),
        low <= r <= high,
{
    if v < low {
        low
    } else if v > high {
        high
    } else {
        v
    }
}

#[verifier::when_used_as_spec(blend_of)]
pub fn fx_lerp(a: i64, b: i64, t: i64) -> (r: i64)
    ensures
        r == blend_of(a, b, t),
{
    fx_add(a, fx_mul(t, fx_sub(b, a)))
}

#[verifier::when_used_as_spec(channel_scalar)]
pub fn fx_from_channel(c: u8) -> (r: i64)
    ensures
        r == channel_scalar(c),
        0 <= r <= 255 * ONE,
{
    (c as i64) * ONE
}

#[verifier::when_used_as_spec(scalar_channel)]
pub fn fx_to_channel(v: i64) -> (r: u8)
    ensures
        r == scalar_channel(v),
{
    if v <= 0 {
        0
    } else if v >= 255 * ONE {
        255
    } else {
        (v / ONE) as u8
    }
}

} // verus!
