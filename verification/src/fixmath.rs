//! Fixed-point math shim for the control core.
//!
//! Every fractional quantity in the library is an integer number of
//! `UNIT`-ths: a value of `UNIT` stands for 1.0.  Angles are radians in the
//! same scale, so `PI_FIXED` stands for pi.  The trigonometric functions
//! are polynomial approximations that are exact at the anchor points the
//! core relies on (0, pi/2, pi) and always stay inside [-UNIT, UNIT].

use vstd::prelude::*;

verus! {

use vstd::arithmetic::div_mod::lemma_fundamental_div_mod;
use vstd::arithmetic::div_mod::lemma_mod_bound;
use vstd::arithmetic::div_mod::lemma_add_mod_noop;
use vstd::arithmetic::div_mod::lemma_mul_mod_noop_left;
use vstd::arithmetic::div_mod::lemma_div_is_ordered;
use vstd::arithmetic::div_mod::lemma_div_multiples_vanish;
use vstd::math::abs;

/// Fixed-point scale: this many ticks make one logical unit.
pub const UNIT: i64 = 10_000;

/// Pi in fixed-point radians (rounded to the nearest scale tick).
pub const PI_FIXED: i64 = 31_416;

/// Two pi in fixed-point radians; the trigonometric period.
pub const TWO_PI_FIXED: i64 = 62_832;

/// Pi over two in fixed-point radians.
pub const HALF_PI_FIXED: i64 = 15_708;

/// The value of `x` pulled into the closed interval `[lo, hi]`.
pub open spec fn clamp_spec(x: int, lo: int, hi: int) -> int {
    if x < lo {
        lo
    } else if x > hi {
        hi
    } else {
        x
    }
}

/// Clamp `x` into `[lo, hi]`.
pub fn clamp64(x: i64, lo: i64, hi: i64) -> (r: i64)
    requires
        lo <= hi,
    ensures
        r == clamp_spec(x as int, lo as int, hi as int),
{
    if x < lo {
        lo
    } else if x > hi {
        hi
    } else {
        x
    }
}

/// Signed 64-bit addition that sticks at the extreme representable values
/// instead of wrapping.
pub open spec fn sat_add_spec(a: int, b: int) -> int {
    if a + b > i64::MAX {
        i64::MAX as int
    } else if a + b < i64::MIN {
        i64::MIN as int
    } else {
        a + b
    }
}

/// Saturating signed addition.
pub fn sat_add64(a: i64, b: i64) -> (r: i64)
    ensures
        r == sat_add_spec(a as int, b as int),
{
    match a.checked_add(b) {
        Some(v) => v,
        None => {
            if b > 0 {
                i64::MAX
            } else {
                i64::MIN
            }
        },
    }
}

/// Where the quotient of euclidean division by a positive divisor lies.
pub proof fn lemma_div_in_range(a: int, d: int)
    requires
        d >= 1,
    ensures
        a >= 0 ==> 0 <= a / d <= a,
        a < 0 ==> a <= a / d <= 0,
{
    lemma_fundamental_div_mod(a, d);
    lemma_mod_bound(a, d);
    let q = a / d;
    let r = a % d;
    assert(a >= 0 ==> 0 <= q <= a) by (nonlinear_arith)
        requires
            a == d * q + r,
            0 <= r < d,
            d >= 1,
    ;
    assert(a < 0 ==> a <= q <= 0) by (nonlinear_arith)
        requires
            a == d * q + r,
            0 <= r < d,
            d >= 1,
    ;
}

/// Euclidean (floor) division by a positive divisor; matches the meaning
/// of `/` on `int` in contracts.
pub fn div_floor(a: i64, d: i64) -> (q: i64)
    requires
        d >= 1,
    ensures
        q == a as int / d as int,
{
    proof {
        lemma_div_in_range(a as int, d as int);
    }
    match a.checked_div_euclid(d) {
        Some(q) => q,
        None => {
            proof {
                assert(false);
            }
            0
        },
    }
}

/// Euclidean remainder by a positive modulus; matches the meaning of `%`
/// on `int` in contracts and always lands in `[0, n)`.
pub fn emod(a: i64, n: i64) -> (m: i64)
    requires
        n >= 1,
    ensures
        m == a as int % n as int,
        0 <= m < n,
{
    proof {
        lemma_mod_bound(a as int, n as int);
    }
    match a.checked_rem_euclid(n) {
        Some(m) => m,
        None => {
            proof {
                assert(false);
            }
            0
        },
    }
}

/// `r` is the integer square root of `n`.
pub open spec fn is_isqrt(r: int, n: int) -> bool {
    0 <= r && r * r <= n && n < (r + 1) * (r + 1)
}

/// The integer square root: the largest `r` with `r * r <= n`.
pub open spec fn isqrt_spec(n: int) -> int {
    choose|r: int| is_isqrt(r, n)
}

/// Any witness of `is_isqrt` is the one integer square root.
pub proof fn lemma_isqrt_unique(n: int, r: int)
    requires
        is_isqrt(r, n),
    ensures
        r == isqrt_spec(n),
{
    assert(exists|x: int| is_isqrt(x, n)) by {
        assert(is_isqrt(r, n));
    }
    let s = isqrt_spec(n);
    assert(is_isqrt(s, n));
    assert(r == s) by (nonlinear_arith)
        requires
            0 <= r,
            r * r <= n,
            n < (r + 1) * (r + 1),
            0 <= s,
            s * s <= n,
            n < (s + 1) * (s + 1),
    ;
}

/// Integer square root by bisection.
pub fn isqrt(n: i64) -> (r: i64)
    requires
        n >= 0,
    ensures
        r == isqrt_spec(n as int),
        is_isqrt(r as int, n as int),
{
    let mut lo: i64 = 0;
    let mut hi: i64 = 3_037_000_500;
    proof {
        assert((3_037_000_500int) * 3_037_000_500 > i64::MAX);
    }
    while lo + 1 < hi
        invariant
            0 <= lo < hi <= 3_037_000_500,
            lo * lo <= n,
            (n as int) < (hi as int) * (hi as int),
        decreases hi - lo,
    {
        let mid = lo + (hi - lo) / 2;
        proof {
            assert(lo < mid < hi);
            assert(mid * mid <= 3_037_000_499int * 3_037_000_499) by (nonlinear_arith)
                requires
                    0 <= mid <= 3_037_000_499int,
            ;
        }
        if mid * mid <= n {
            lo = mid;
        } else {
            hi = mid;
        }
    }
    proof {
        lemma_isqrt_unique(n as int, lo as int);
    }
    lo
}

/// One half-period of the sine approximation, for `x` in `[0, PI_FIXED]`:
/// the rational approximation `16 x (pi - x) / (5 pi^2 - 4 x (pi - x))`,
/// scaled to fixed point.  Exact at 0, pi/2 and pi.
pub open spec fn sin_half_spec(x: int) -> int {
    16 * x * (PI_FIXED - x) * UNIT / (5 * PI_FIXED * PI_FIXED - 4 * x * (PI_FIXED - x))
}

/// Fixed-point sine of any fixed-point angle: the argument is reduced into
/// one period, and the second half-period is the mirrored first one.
pub open spec fn sin_spec(x: int) -> int {
    let m = x % (TWO_PI_FIXED as int);
    if m <= PI_FIXED {
        sin_half_spec(m)
    } else {
        -sin_half_spec(m - PI_FIXED)
    }
}

/// Fixed-point cosine, as the sine shifted a quarter period.
pub open spec fn cos_spec(x: int) -> int {
    sin_spec(x + HALF_PI_FIXED)
}

fn sin_half(x: i64) -> (r: i64)
    requires
        0 <= x <= PI_FIXED,
    ensures
        r == sin_half_spec(x as int),
        0 <= r <= UNIT,
{
    proof {
        assert(0 <= x as int * (PI_FIXED - x) <= 246_741_264int && 4 * (x as int * (PI_FIXED - x))
            <= PI_FIXED * PI_FIXED) by (nonlinear_arith)
            requires
                0 <= x as int <= PI_FIXED,
        ;
    }
    let q = x * (PI_FIXED - x);
    let num = 16 * q * UNIT;
    let den = 5 * PI_FIXED * PI_FIXED - 4 * q;
    proof {
        assert(den >= 3_947_860_224int);
        assert(num <= UNIT * den) by (nonlinear_arith)
            requires
                num == 16 * (q as int) * UNIT,
                den == 5 * PI_FIXED * PI_FIXED - 4 * (q as int),
                0 <= q as int,
                4 * (q as int) <= PI_FIXED * PI_FIXED,
        ;
        lemma_div_is_ordered(num as int, UNIT * den, den as int);
        lemma_div_multiples_vanish(UNIT as int, den as int);
        lemma_div_in_range(num as int, den as int);
        assert(16 * (x as int) * (PI_FIXED - (x as int)) * UNIT == num as int && 5 * PI_FIXED
            * PI_FIXED - 4 * (x as int) * (PI_FIXED - (x as int)) == den as int)
            by (nonlinear_arith)
            requires
                num as int == 16 * (q as int) * UNIT,
                den as int == 5 * PI_FIXED * PI_FIXED - 4 * (q as int),
                q as int == (x as int) * (PI_FIXED - (x as int)),
        ;
    }
    div_floor(num, den)
}

/// Fixed-point sine; always within `[-UNIT, UNIT]`.
pub fn sin_fp(x: i64) -> (r: i64)
    ensures
        r == sin_spec(x as int),
        -UNIT <= r <= UNIT,
{
    let m = emod(x, TWO_PI_FIXED);
    if m <= PI_FIXED {
        sin_half(m)
    } else {
        let v = sin_half(m - PI_FIXED);
        -v
    }
}

/// Fixed-point cosine; always within `[-UNIT, UNIT]`.
pub fn cos_fp(x: i64) -> (r: i64)
    ensures
        r == cos_spec(x as int),
        -UNIT <= r <= UNIT,
{
    let m = emod(x, TWO_PI_FIXED);
    let r = sin_fp(m + HALF_PI_FIXED);
    proof {
        let t = TWO_PI_FIXED as int;
        lemma_add_mod_noop(x as int, HALF_PI_FIXED as int, t);
        assert(HALF_PI_FIXED as int % t == HALF_PI_FIXED as int);
        lemma_mod_bound(x as int + HALF_PI_FIXED, t);
        lemma_mod_bound((x as int % t) + HALF_PI_FIXED, t);
        assert((m + HALF_PI_FIXED) as int % t == (x as int + HALF_PI_FIXED) % t);
    }
    r
}

/// The angle `a` brought into `[-PI_FIXED, PI_FIXED]` by whole turns.
pub open spec fn normalize_spec(a: int) -> int
    decreases abs(a),
{
    if a > PI_FIXED {
        normalize_spec(a - TWO_PI_FIXED)
    } else if a < -PI_FIXED {
        normalize_spec(a + TWO_PI_FIXED)
    } else {
        a
    }
}

/// Normalization moves an angle by a whole number of turns: the distance
/// from the input to the normalized angle is a multiple of the period.
pub proof fn lemma_normalize_congruent(a: int)
    ensures
        (a - normalize_spec(a)) % (TWO_PI_FIXED as int) == 0,
        -PI_FIXED <= normalize_spec(a) <= PI_FIXED,
    decreases abs(a),
{
    let t = TWO_PI_FIXED as int;
    if a > PI_FIXED {
        lemma_normalize_congruent(a - t);
        let d = (a - t) - normalize_spec(a - t);
        assert((t + d) % t == d % t) by {
            vstd::arithmetic::div_mod::lemma_mod_add_multiples_vanish(d, t);
        }
    } else if a < -PI_FIXED {
        lemma_normalize_congruent(a + t);
        let d = (a + t) - normalize_spec(a + t);
        assert((d - t) % t == d % t) by {
            vstd::arithmetic::div_mod::lemma_mod_sub_multiples_vanish(d, t);
        }
    }
}

/// Normalize a fixed-point angle to `[-PI_FIXED, PI_FIXED]`.
///
/// The result differs from the input by a whole number of turns; angles
/// already in the band come back unchanged.
pub fn normalize_angle(angle: i64) -> (r: i64)
    ensures
        r == normalize_spec(angle as int),
        -PI_FIXED <= r <= PI_FIXED,
        (angle as int - r as int) % (TWO_PI_FIXED as int) == 0,
{
    let mut a = angle;
    while a > PI_FIXED
        invariant
            normalize_spec(a as int) == normalize_spec(angle as int),
            a >= i64::MIN,
        decreases abs(a as int),
    {
        a = a - TWO_PI_FIXED;
    }
    while a < -PI_FIXED
        invariant
            normalize_spec(a as int) == normalize_spec(angle as int),
            a <= PI_FIXED,
        decreases abs(a as int),
    {
        a = a + TWO_PI_FIXED;
    }
    proof {
        lemma_normalize_congruent(angle as int);
    }
    a
}

/// The trigonometric approximations are exact at the anchor angles the
/// core's contracts lean on: zero, a quarter turn and a half turn.
pub proof fn lemma_trig_anchors()
    ensures
        sin_spec(0) == 0,
        sin_spec(HALF_PI_FIXED as int) == UNIT,
        sin_spec(PI_FIXED as int) == 0,
        sin_spec(-(HALF_PI_FIXED as int)) == -UNIT,
        cos_spec(0) == UNIT,
        cos_spec(PI_FIXED as int) == -UNIT,
{
    assert(0int % (TWO_PI_FIXED as int) == 0);
    assert((HALF_PI_FIXED as int) % (TWO_PI_FIXED as int) == HALF_PI_FIXED);
    assert((PI_FIXED as int) % (TWO_PI_FIXED as int) == PI_FIXED);
    assert((-(HALF_PI_FIXED as int)) % (TWO_PI_FIXED as int) == PI_FIXED + HALF_PI_FIXED);
    assert(((PI_FIXED + HALF_PI_FIXED) as int) % (TWO_PI_FIXED as int) == PI_FIXED
        + HALF_PI_FIXED);
    assert(sin_half_spec(0) == 0) by {
        assert(16 * 0int * (PI_FIXED - 0) * UNIT == 0);
        assert(5 * PI_FIXED * PI_FIXED - 4 * 0int * (PI_FIXED - 0) == 4_934_825_280int);
        assert(0int / 4_934_825_280int == 0);
    }
    assert(sin_half_spec(HALF_PI_FIXED as int) == UNIT) by {
        assert(16 * 15_708int * (PI_FIXED - 15_708) * UNIT == 39_478_602_240_000int);
        assert(5 * PI_FIXED * PI_FIXED - 4 * 15_708int * (PI_FIXED - 15_708)
            == 3_947_860_224int);
        assert(39_478_602_240_000int / 3_947_860_224int == 10_000);
    }
    assert(sin_half_spec(PI_FIXED as int) == 0) by {
        assert(16 * 31_416int * (PI_FIXED - 31_416) * UNIT == 0);
        assert(5 * PI_FIXED * PI_FIXED - 4 * 31_416int * (PI_FIXED - 31_416)
            == 4_934_825_280int);
        assert(0int / 4_934_825_280int == 0);
    }
}

/// The oscillation phase after `t` ticks of `step` fixed-point radians
/// each, reduced into one period.
pub open spec fn phase_spec(t: int, step: int) -> int {
    (t * step) % (TWO_PI_FIXED as int)
}

/// Advance a phase by whole ticks without overflowing: reduce the tick
/// count into one period first.
pub fn phase_fp(t: u64, step: i64) -> (r: i64)
    requires
        0 <= step <= 100_000,
    ensures
        r == phase_spec(t as int, step as int),
        0 <= r < TWO_PI_FIXED,
{
    let tm = t % (TWO_PI_FIXED as u64);
    proof {
        lemma_mod_bound(t as int, TWO_PI_FIXED as int);
        assert(tm as int * step as int <= 62_832int * 100_000 && tm as int * step as int >= 0)
            by (nonlinear_arith)
            requires
                0 <= (tm as int) < 62_832,
                0 <= (step as int) <= 100_000,
        ;
    }
    let p = (tm as i64) * step;
    let r = emod(p, TWO_PI_FIXED);
    proof {
        lemma_mul_mod_noop_left(t as int, step as int, TWO_PI_FIXED as int);
    }
    r
}

} // verus!
