//! Pose consumers: the pure steering helper that drives toward a target
//! point, and the point generators for drawn shapes.
//!
//! Coordinates are fixed-point centimetres and angles fixed-point radians,
//! as everywhere in the library.

use vstd::prelude::*;

verus! {

use vstd::arithmetic::div_mod::lemma_div_is_ordered;
use vstd::arithmetic::div_mod::lemma_div_multiples_vanish;
use vstd::math::abs;

use crate::fixmath::UNIT;
use crate::fixmath::PI_FIXED;
use crate::fixmath::TWO_PI_FIXED;
use crate::fixmath::HALF_PI_FIXED;
use crate::fixmath::clamp_spec;
use crate::fixmath::clamp64;
use crate::fixmath::div_floor;
use crate::fixmath::isqrt;
use crate::fixmath::isqrt_spec;
use crate::fixmath::sin_spec;
use crate::fixmath::cos_spec;
use crate::fixmath::sin_fp;
use crate::fixmath::cos_fp;
use crate::fixmath::normalize_spec;
use crate::fixmath::normalize_angle;
use crate::brain::PARAM_LIMIT;
use crate::brain::to_power;

/// Pi over four in fixed-point radians.
pub const QUARTER_PI_FIXED: i64 = 7_854;

/// Largest coordinate magnitude the steering helper accepts (a machine
/// limit: squared distances must fit the word size).
pub const COORD_LIMIT: i64 = 1_000_000_000;

/// Largest heading magnitude the steering helper accepts (a machine
/// limit: angle differences must fit the word size).
pub const HEADING_LIMIT: i64 = 1_000_000_000_000_000_000;

/// Arc tangent of a ratio `z` in `[0, UNIT]` (so an angle in
/// `[0, pi/4]`-ish): the polynomial approximation
/// `z * pi/4 + 0.273 * z * (1 - z)`, exact at 0 and 1.
pub open spec fn atan_poly_spec(z: int) -> int {
    let w = z * (UNIT - z) / (UNIT as int);
    (z * QUARTER_PI_FIXED + w * 2_730) / (UNIT as int)
}

/// Four-quadrant arc tangent in fixed-point radians, in `[-pi, pi]`:
/// the first-quadrant angle comes from `atan_poly_spec` on the smaller
/// coordinate ratio, then the quadrant places and signs it.
pub open spec fn atan2_spec(y: int, x: int) -> int {
    let ax = abs(x) as int;
    let ay = abs(y) as int;
    let q = if ax == 0 && ay == 0 {
        0
    } else if ay <= ax {
        atan_poly_spec(ay * UNIT / ax)
    } else {
        HALF_PI_FIXED - atan_poly_spec(ax * UNIT / ay)
    };
    if x >= 0 && y >= 0 {
        q
    } else if x < 0 && y >= 0 {
        PI_FIXED - q
    } else if x < 0 && y < 0 {
        -(PI_FIXED - q)
    } else {
        -q
    }
}

/// The polynomial stays inside `[0, pi/2]` for ratios in `[0, UNIT]`.
proof fn lemma_atan_poly_bounds(z: int)
    requires
        0 <= z <= UNIT,
    ensures
        0 <= atan_poly_spec(z) <= HALF_PI_FIXED,
{
    let w = z * (UNIT - z) / (UNIT as int);
    assert(0 <= z * (UNIT - z) <= 2_500 * (UNIT as int)) by (nonlinear_arith)
        requires
            0 <= z <= UNIT,
    ;
    lemma_div_is_ordered(z * (UNIT - z), 2_500 * (UNIT as int), UNIT as int);
    crate::fixmath::lemma_div_in_range(z * (UNIT - z), UNIT as int);
    assert((2_500int * UNIT) / (UNIT as int) == 2_500) by {
        lemma_div_multiples_vanish(2_500int, UNIT as int);
        assert(2_500int * UNIT == (UNIT as int) * 2_500);
    }
    assert(0 <= w <= 2_500);
    assert(0 <= z * QUARTER_PI_FIXED + w * 2_730 <= 85_365_000) by (nonlinear_arith)
        requires
            0 <= z <= UNIT,
            0 <= w <= 2_500,
    ;
    lemma_div_is_ordered(z * QUARTER_PI_FIXED + w * 2_730, 85_365_000, UNIT as int);
    crate::fixmath::lemma_div_in_range(z * QUARTER_PI_FIXED + w * 2_730, UNIT as int);
}

fn atan_poly(z: i64) -> (r: i64)
    requires
        0 <= z <= UNIT,
    ensures
        r == atan_poly_spec(z as int),
        0 <= r <= HALF_PI_FIXED,
{
    proof {
        assert(0 <= z * (UNIT - z) <= 2_500 * (UNIT as int)) by (nonlinear_arith)
            requires
                0 <= (z as int) <= UNIT,
        ;
        lemma_atan_poly_bounds(z as int);
        crate::fixmath::lemma_div_in_range(z as int * (UNIT - z as int), UNIT as int);
        lemma_div_is_ordered(z as int * (UNIT - z as int), 2_500 * (UNIT as int), UNIT as int);
        assert((2_500int * UNIT) / (UNIT as int) == 2_500) by {
            lemma_div_multiples_vanish(2_500int, UNIT as int);
            assert(2_500int * UNIT == (UNIT as int) * 2_500);
        }
    }
    let w = div_floor(z * (UNIT - z), UNIT);
    div_floor(z * QUARTER_PI_FIXED + w * 2_730, UNIT)
}

/// Four-quadrant arc tangent of `y/x` in fixed-point radians.
///
/// Always lands in `[-PI_FIXED, PI_FIXED]`; on the positive x axis it is
/// exactly 0, straight up exactly pi/2, on the negative x axis exactly pi.
pub fn atan2_fp(y: i64, x: i64) -> (r: i64)
    requires
        -4_000_000_000 <= y <= 4_000_000_000,
        -4_000_000_000 <= x <= 4_000_000_000,
    ensures
        r == atan2_spec(y as int, x as int),
        -PI_FIXED <= r <= PI_FIXED,
{
    let ax = if x >= 0 {
        x
    } else {
        -x
    };
    let ay = if y >= 0 {
        y
    } else {
        -y
    };
    let q: i64 = if ax == 0 && ay == 0 {
        0
    } else if ay <= ax {
        proof {
            lemma_div_is_ordered(ay as int * UNIT, ax as int * UNIT, ax as int);
            assert((ax as int * UNIT) / (ax as int) == UNIT) by {
                lemma_div_multiples_vanish(UNIT as int, ax as int);
                assert(ax as int * UNIT == (ax as int) * (UNIT as int));
            }
            crate::fixmath::lemma_div_in_range(ay as int * UNIT, ax as int);
        }
        let z = div_floor(ay * UNIT, ax);
        atan_poly(z)
    } else {
        proof {
            lemma_div_is_ordered(ax as int * UNIT, ay as int * UNIT, ay as int);
            assert((ay as int * UNIT) / (ay as int) == UNIT) by {
                lemma_div_multiples_vanish(UNIT as int, ay as int);
                assert(ay as int * UNIT == (ay as int) * (UNIT as int));
            }
            crate::fixmath::lemma_div_in_range(ax as int * UNIT, ay as int);
        }
        let z = div_floor(ax * UNIT, ay);
        let a = atan_poly(z);
        HALF_PI_FIXED - a
    };
    if x >= 0 && y >= 0 {
        q
    } else if x < 0 && y >= 0 {
        PI_FIXED - q
    } else if x < 0 && y < 0 {
        -(PI_FIXED - q)
    } else {
        -q
    }
}

/// The motor power pair that steers from a pose toward a target point:
/// `(0, 0)` inside the stop radius of one centimetre; otherwise a turn
/// proportional to the normalized bearing error, clamped to the base
/// speed, and a forward speed scaled down linearly as the error
/// approaches pi.
pub open spec fn drive_to_point_spec(
    current: (i64, i64),
    heading: int,
    target: (i64, i64),
    base_speed: int,
) -> (int, int) {
    let dx = target.0 - current.0;
    let dy = target.1 - current.1;
    let dist = isqrt_spec(dx * dx + dy * dy);
    if dist < UNIT {
        (0, 0)
    } else {
        let diff = normalize_spec(atan2_spec(dy, dx) - heading);
        let turn = clamp_spec(diff * 50, -base_speed, base_speed);
        let speed = base_speed * (PI_FIXED - abs(diff)) / (PI_FIXED as int);
        (to_power(speed - turn), to_power(speed + turn))
    }
}

/// Compute the motor powers that steer from `current` with `heading`
/// toward `target`; zero inside the one-centimetre stop radius.
pub fn drive_to_point(current: (i64, i64), heading: i64, target: (i64, i64), base_speed: i64) -> (r:
    (i8, i8))
    requires
        -COORD_LIMIT <= current.0 <= COORD_LIMIT,
        -COORD_LIMIT <= current.1 <= COORD_LIMIT,
        -COORD_LIMIT <= target.0 <= COORD_LIMIT,
        -COORD_LIMIT <= target.1 <= COORD_LIMIT,
        -HEADING_LIMIT <= heading <= HEADING_LIMIT,
        0 <= base_speed <= PARAM_LIMIT,
    ensures
        (r.0 as int, r.1 as int) == drive_to_point_spec(
            current,
            heading as int,
            target,
            base_speed as int,
        ),
        -100 <= r.0 <= 100,
        -100 <= r.1 <= 100,
{
    let dx = target.0 - current.0;
    let dy = target.1 - current.1;
    proof {
        assert(0 <= dx * dx <= 4_000_000_000_000_000_000int && 0 <= dy * dy
            <= 4_000_000_000_000_000_000int) by (nonlinear_arith)
            requires
                -2_000_000_000 <= (dx as int) <= 2_000_000_000,
                -2_000_000_000 <= (dy as int) <= 2_000_000_000,
        ;
    }
    let dist = isqrt(dx * dx + dy * dy);
    if dist < UNIT {
        return (0, 0);
    }
    let target_angle = atan2_fp(dy, dx);
    let diff = normalize_angle(target_angle - heading);

    // Proportional steering, clamped to the base speed.
    let turn = clamp64(diff * 50, -base_speed, base_speed);

    // Slow down as the bearing error grows; stand still at pi.
    let adiff = if diff >= 0 {
        diff
    } else {
        -diff
    };
    proof {
        assert(0 <= base_speed * (PI_FIXED - adiff) <= 32_000_000_000_000int) by (nonlinear_arith)
            requires
                0 <= (base_speed as int) <= PARAM_LIMIT,
                0 <= (adiff as int) <= PI_FIXED,
        ;
        crate::fixmath::lemma_div_in_range(
            base_speed as int * (PI_FIXED - adiff as int),
            PI_FIXED as int,
        );
        lemma_div_is_ordered(
            base_speed as int * (PI_FIXED - adiff as int),
            32_000_000_000_000int,
            PI_FIXED as int,
        );
    }
    let speed = div_floor(base_speed * (PI_FIXED - adiff), PI_FIXED);
    let left = clamp64(div_floor(speed - turn, UNIT), -100, 100) as i8;
    let right = clamp64(div_floor(speed + turn, UNIT), -100, 100) as i8;
    (left, right)
}

/// The `i`-th of `segments + 1` evenly spaced points on a circle.
pub open spec fn circle_point_spec(center: (i64, i64), radius: int, segments: int, i: int) -> (
    int,
    int,
) {
    let ang = i * TWO_PI_FIXED / segments;
    (
        center.0 + radius * cos_spec(ang) / (UNIT as int),
        center.1 + radius * sin_spec(ang) / (UNIT as int),
    )
}

/// Generate `segments + 1` points around a circle, first point repeated
/// at the end so the path closes.
pub fn circle_points_vec(center: (i64, i64), radius: i64, segments: usize) -> (points: Vec<
    (i64, i64),
>)
    requires
        1 <= segments <= 1_000_000,
        -COORD_LIMIT <= center.0 <= COORD_LIMIT,
        -COORD_LIMIT <= center.1 <= COORD_LIMIT,
        0 <= radius <= COORD_LIMIT,
    ensures
        points@.len() == segments + 1,
        forall|i: int|
            0 <= i <= segments ==> {
                let p = circle_point_spec(center, radius as int, segments as int, i);
                #[trigger] points@[i] == (p.0 as i64, p.1 as i64)
            },
{
    let mut points: Vec<(i64, i64)> = Vec::new();
    let mut i: usize = 0;
    while i <= segments
        invariant
            1 <= segments <= 1_000_000,
            -COORD_LIMIT <= center.0 <= COORD_LIMIT,
            -COORD_LIMIT <= center.1 <= COORD_LIMIT,
            0 <= radius <= COORD_LIMIT,
            0 <= i <= segments + 1,
            points@.len() == i,
            forall|j: int|
                0 <= j < i ==> {
                    let p = circle_point_spec(center, radius as int, segments as int, j);
                    #[trigger] points@[j] == (p.0 as i64, p.1 as i64)
                },
        decreases segments + 1 - i,
    {
        let ang = div_floor((i as i64) * TWO_PI_FIXED, segments as i64);
        let c = cos_fp(ang);
        let s = sin_fp(ang);
        proof {
            assert(-(COORD_LIMIT as int) * UNIT <= radius * c <= (COORD_LIMIT as int) * UNIT
                && -(COORD_LIMIT as int) * UNIT <= radius * s <= (COORD_LIMIT as int) * UNIT)
                by (nonlinear_arith)
                requires
                    0 <= (radius as int) <= COORD_LIMIT,
                    -UNIT <= (c as int) <= UNIT,
                    -UNIT <= (s as int) <= UNIT,
            ;
            crate::fixmath::lemma_div_in_range(radius as int * c, UNIT as int);
            crate::fixmath::lemma_div_in_range(radius as int * s, UNIT as int);
            lemma_div_is_ordered(
                radius as int * c,
                (COORD_LIMIT as int) * UNIT,
                UNIT as int,
            );
            lemma_div_is_ordered(
                -(COORD_LIMIT as int) * UNIT,
                radius as int * c,
                UNIT as int,
            );
            lemma_div_is_ordered(
                radius as int * s,
                (COORD_LIMIT as int) * UNIT,
                UNIT as int,
            );
            lemma_div_is_ordered(
                -(COORD_LIMIT as int) * UNIT,
                radius as int * s,
                UNIT as int,
            );
            assert(((COORD_LIMIT as int) * UNIT) / (UNIT as int) == COORD_LIMIT) by {
                lemma_div_multiples_vanish(COORD_LIMIT as int, UNIT as int);
                assert((COORD_LIMIT as int) * UNIT == (UNIT as int) * COORD_LIMIT);
            }
            assert((-(COORD_LIMIT as int) * UNIT) / (UNIT as int) == -COORD_LIMIT) by {
                lemma_div_multiples_vanish(-(COORD_LIMIT as int), UNIT as int);
                assert(-(COORD_LIMIT as int) * UNIT == (UNIT as int) * (-(COORD_LIMIT as int)));
            }
        }
        let px = center.0 + div_floor(radius * c, UNIT);
        let py = center.1 + div_floor(radius * s, UNIT);
        points.push((px, py));
        i = i + 1;
    }
    points
}

/// The five pen waypoints of an X of side `size` centred on `center`:
/// one diagonal, the centre (a pen-up point), then the other diagonal.
pub fn x_points(center: (i64, i64), size: i64) -> (r: [(i64, i64); 5])
    requires
        -COORD_LIMIT <= center.0 <= COORD_LIMIT,
        -COORD_LIMIT <= center.1 <= COORD_LIMIT,
        0 <= size <= COORD_LIMIT,
    ensures
        r@.len() == 5,
        r@[0] == ((center.0 - size / 2) as i64, (center.1 - size / 2) as i64),
        r@[1] == ((center.0 + size / 2) as i64, (center.1 + size / 2) as i64),
        r@[2] == center,
        r@[3] == ((center.0 + size / 2) as i64, (center.1 - size / 2) as i64),
        r@[4] == ((center.0 - size / 2) as i64, (center.1 + size / 2) as i64),
{
    let half = div_floor(size, 2);
    proof {
        crate::fixmath::lemma_div_in_range(size as int, 2);
    }
    [
        (center.0 - half, center.1 - half),
        (center.0 + half, center.1 + half),
        (center.0, center.1),
        (center.0 + half, center.1 - half),
        (center.0 - half, center.1 + half),
    ]
}

} // verus!
