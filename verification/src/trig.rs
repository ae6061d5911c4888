//! Angles in fixed-point degrees, and sine, cosine and the two-argument
//! arctangent in integer arithmetic.
//!
//! Each function is its power series, summed in fifteen decimal places and
//! rounded to the nearest millionth. The angle is first brought to the first
//! octant, where the series can be cut early: the sine after the eleventh
//! power, the cosine after the tenth, the arctangent (of at most the tangent
//! of 22.5 degrees) after the nineteenth. By the usual bound on an
//! alternating series, what is cut is less than 1e-11 for the sine, 2e-10
//! for the cosine and 5e-10 radians, or 0.03 millionths of a degree, for the
//! arctangent; the rounding inside a sum adds a few units in the fifteenth
//! place. A value is therefore the millionth nearest to the real function,
//! except where the real value lies that close to the middle between two
//! millionths, where it is one of the two.
//!
//! No real-valued function can be named in a contract here, so that remark
//! is no part of one. The contracts state the sums themselves, and the laws
//! state what follows from them exactly: the range, the symmetries, and the
//! values on the axes and the diagonals. Being pure integer functions, they
//! give every machine the same headings.

use vstd::prelude::*;
use crate::fixed::{magnitude, UNIT};

verus! {

/// An eighth of a turn, 45 degrees.
pub const EIGHTH_TURN: i64 = 45 * UNIT;

/// A quarter turn, 90 degrees.
pub const QUARTER_TURN: i64 = 90 * UNIT;

/// A half turn, 180 degrees.
pub const HALF_TURN: i64 = 180 * UNIT;

/// A full turn, 360 degrees.
pub const FULL_TURN: i64 = 360 * UNIT;

/// The representation of 1 inside a series: fifteen decimal places.
pub const FINE: i128 = 1_000_000_000_000_000;

/// How many fine steps make one millionth.
pub const FINE_PER_MILLIONTH: i128 = 1_000_000_000;

/// Pi over 180 in eighteen decimal places.
pub const RADIANS_PER_DEGREE: i128 = 17_453_292_519_943_296;

/// What a product of millionths of a degree and `RADIANS_PER_DEGREE` is
/// divided by to give fine radians.
pub const RADIANS_SCALE: i128 = 1_000_000_000;

/// 180 over pi in twelve decimal places.
pub const DEGREES_PER_RADIAN: i128 = 57_295_779_513_082;

/// What a product of fine radians and `DEGREES_PER_RADIAN` is divided by to
/// give millionths of a degree.
pub const DEGREES_SCALE: i128 = 1_000_000_000_000_000_000_000;

/// The tangent of 22.5 degrees, in fine steps: above it the arctangent is
/// taken from the complement to 45 degrees.
pub const OCTANT_SPLIT: i128 = 414_213_562_373_095;

/// The angle in `(-180, 180]` degrees that differs from `a` by whole turns.
pub open spec fn wrapped(a: int) -> int {
    HALF_TURN - (HALF_TURN - a) % (FULL_TURN as int)
}

/// An angle of `x` millionths of a degree in fine radians.
pub open spec fn fine_radians(x: int) -> int {
    (x * RADIANS_PER_DEGREE) / (RADIANS_SCALE as int)
}

/// The square of a fine number, as a fine number.
pub open spec fn fine_square(u: int) -> int {
    (u * u) / (FINE as int)
}

/// One step of a sine or cosine series from the inside out: `1 - y t / d`,
/// where `den` is the divisor `d` in fine steps.
pub open spec fn series_step(y: int, t: int, den: int) -> int {
    FINE - (y * t) / den
}

/// The sine of `u` fine radians through the eleventh power, as a fine number:
/// `u (1 - u^2/6 (1 - u^2/20 (1 - u^2/42 (1 - u^2/72 (1 - u^2/110)))))`.
pub open spec fn sine_series(u: int) -> int {
    let y = fine_square(u);
    let t5 = series_step(y, FINE as int, 110 * FINE);
    let t4 = series_step(y, t5, 72 * FINE);
    let t3 = series_step(y, t4, 42 * FINE);
    let t2 = series_step(y, t3, 20 * FINE);
    let t1 = series_step(y, t2, 6 * FINE);
    (u * t1) / (FINE as int)
}

/// The cosine of `u` fine radians through the tenth power, as a fine number:
/// `1 - u^2/2 (1 - u^2/12 (1 - u^2/30 (1 - u^2/56 (1 - u^2/90))))`.
pub open spec fn cosine_series(u: int) -> int {
    let y = fine_square(u);
    let t5 = series_step(y, FINE as int, 90 * FINE);
    let t4 = series_step(y, t5, 56 * FINE);
    let t3 = series_step(y, t4, 30 * FINE);
    let t2 = series_step(y, t3, 12 * FINE);
    series_step(y, t2, 2 * FINE)
}

/// A fine number that is not negative, rounded to the nearest millionth.
pub open spec fn to_millionths(v: int) -> int {
    (v + FINE_PER_MILLIONTH / 2) / (FINE_PER_MILLIONTH as int)
}

/// The sine of `x` degrees for `0 <= x <= 180`: the angle is folded at the
/// quarter turn, and the sine series serves up to 45 degrees, the cosine
/// series of the complement beyond.
pub open spec fn arch(x: int) -> int {
    let f = if x <= QUARTER_TURN {
        x
    } else {
        HALF_TURN - x
    };
    if f <= EIGHTH_TURN {
        to_millionths(sine_series(fine_radians(f)))
    } else {
        to_millionths(cosine_series(fine_radians(QUARTER_TURN - f)))
    }
}

/// The sine of `a` degrees, scaled by `UNIT`: the sum of the series for the
/// wrapped angle, rounded to the nearest millionth. It can differ from the
/// real sine by the rounding, and by one millionth where the real value lies
/// within 2e-10 of the middle between two millionths.
pub open spec fn sine(a: int) -> int {
    let w = wrapped(a);
    if w >= 0 {
        arch(w)
    } else {
        -arch(-w)
    }
}

/// The cosine of `a` degrees, scaled by `UNIT`: the sine a quarter turn
/// ahead, with the same rounding.
pub open spec fn cosine(a: int) -> int {
    sine(a + QUARTER_TURN)
}

/// One step of the arctangent series from the inside out: `1/n - y p`, where
/// `lead` is `1/n` in fine steps.
pub open spec fn arc_step(y: int, p: int, lead: int) -> int {
    lead - (y * p) / (FINE as int)
}

/// The arctangent of `w` fine steps, for `w` up to one half, through the
/// nineteenth power, in fine radians:
/// `w (1 - w^2 (1/3 - w^2 (1/5 - ... - w^2 (1/17 - w^2/19))))`.
pub open spec fn arctangent_series(w: int) -> int {
    let y = fine_square(w);
    let p9 = FINE / 19;
    let p8 = arc_step(y, p9, FINE / 17);
    let p7 = arc_step(y, p8, FINE / 15);
    let p6 = arc_step(y, p7, FINE / 13);
    let p5 = arc_step(y, p6, FINE / 11);
    let p4 = arc_step(y, p5, FINE / 9);
    let p3 = arc_step(y, p4, FINE / 7);
    let p2 = arc_step(y, p3, FINE / 5);
    let p1 = arc_step(y, p2, FINE / 3);
    let p0 = arc_step(y, p1, FINE as int);
    (w * p0) / (FINE as int)
}

/// Fine radians that are not negative, as millionths of a degree, rounded to
/// the nearest.
pub open spec fn to_degrees(r: int) -> int {
    (r * DEGREES_PER_RADIAN + DEGREES_SCALE / 2) / (DEGREES_SCALE as int)
}

/// The tangent of 45 degrees less the angle whose tangent is `z` fine steps:
/// `(1 - z) / (1 + z)`.
pub open spec fn complement_tangent(z: int) -> int {
    ((FINE - z) * FINE) / (FINE + z)
}

/// The angle, in `[0, 45]` degrees, whose tangent is `z` fine steps, for `z`
/// up to one: the series itself up to the tangent of 22.5 degrees, and 45
/// degrees less the series of the complement's tangent beyond.
pub open spec fn arc(z: int) -> int {
    if z <= OCTANT_SPLIT {
        to_degrees(arctangent_series(z))
    } else {
        EIGHTH_TURN - to_degrees(arctangent_series(complement_tangent(z)))
    }
}

/// The angle, in `[0, 90]` degrees, between the ray to `(run, rise)` and the
/// run axis, for non-negative `rise` and `run`; zero when `rise` is zero.
pub open spec fn elevation(rise: int, run: int) -> int {
    if rise == 0 {
        0
    } else if rise <= run {
        arc((rise * FINE) / run)
    } else {
        QUARTER_TURN - arc((run * FINE) / rise)
    }
}

/// The two-argument arctangent of `(y, x)` in degrees, in `[-180, 180]`;
/// zero for the zero vector. It is the sum of the series for the ratio of
/// the legs, rounded to the nearest millionth of a degree, and can differ
/// from the real arctangent by the rounding, and by one millionth of a
/// degree where the real value lies within 0.03 millionths of the middle
/// between two. Straight behind, where `x` is negative and `y` is zero, the
/// bearing is plus 180 degrees; it is minus 180 only for a negative `y` so
/// small beside `x` that its angle rounds to nothing.
pub open spec fn bearing(y: int, x: int) -> int {
    let t = elevation(magnitude(y), magnitude(x));
    if x >= 0 {
        if y >= 0 {
            t
        } else {
            -t
        }
    } else {
        if y >= 0 {
            HALF_TURN - t
        } else {
            t - HALF_TURN
        }
    }
}

/// A wrapped angle lies in `(-180, 180]` and is left alone if it already does.
pub proof fn lemma_wrapped_range(a: int)
    ensures
        -HALF_TURN < wrapped(a) <= HALF_TURN,
        -HALF_TURN < a <= HALF_TURN ==> wrapped(a) == a,
{
}

/// An angle of the first octant is at most a little over 0.785 radians.
pub proof fn lemma_fine_radians_bounds(x: int)
    requires
        0 <= x <= EIGHTH_TURN,
    ensures
        0 <= fine_radians(x) <= 785_398_163_397_449,
        0 <= x * RADIANS_PER_DEGREE,
{
}

/// The square of a fine number up to one is a fine number up to one.
pub proof fn lemma_fine_square_bounds(u: int, limit: int)
    requires
        0 <= u <= limit <= FINE,
    ensures
        0 <= fine_square(u) <= limit,
        0 <= u * u <= FINE * FINE,
{
    assert(0 <= u * u <= limit * 1_000_000_000_000_000 && u * u <= 1_000_000_000_000_000
        * 1_000_000_000_000_000 && (u * u) / 1_000_000_000_000_000 <= limit) by (nonlinear_arith)
        requires
            0 <= u <= limit <= 1_000_000_000_000_000,
    ;
}

/// A step of a sine or cosine series stays between zero and one.
pub proof fn lemma_series_step_bounds(y: int, t: int, den: int)
    requires
        0 <= y <= FINE,
        0 <= t <= FINE,
        den >= FINE,
    ensures
        0 <= series_step(y, t, den) <= FINE,
        0 <= y * t <= FINE * FINE,
{
    assert(0 <= y * t <= 1_000_000_000_000_000 * 1_000_000_000_000_000 && 0 <= (y * t) / den
        <= 1_000_000_000_000_000) by (nonlinear_arith)
        requires
            0 <= y <= 1_000_000_000_000_000,
            0 <= t <= 1_000_000_000_000_000,
            den >= 1_000_000_000_000_000,
    ;
}

/// The sine series stays between zero and its argument on the first octant.
pub proof fn lemma_sine_series_bounds(u: int)
    requires
        0 <= u <= FINE,
    ensures
        0 <= sine_series(u) <= u,
{
    lemma_fine_square_bounds(u, FINE as int);
    let y = fine_square(u);
    let t5 = series_step(y, FINE as int, 110 * FINE);
    lemma_series_step_bounds(y, FINE as int, 110 * FINE);
    let t4 = series_step(y, t5, 72 * FINE);
    lemma_series_step_bounds(y, t5, 72 * FINE);
    let t3 = series_step(y, t4, 42 * FINE);
    lemma_series_step_bounds(y, t4, 42 * FINE);
    let t2 = series_step(y, t3, 20 * FINE);
    lemma_series_step_bounds(y, t3, 20 * FINE);
    let t1 = series_step(y, t2, 6 * FINE);
    lemma_series_step_bounds(y, t2, 6 * FINE);
    assert(0 <= (u * t1) / 1_000_000_000_000_000 <= u) by (nonlinear_arith)
        requires
            0 <= u,
            0 <= t1 <= 1_000_000_000_000_000,
    ;
}

/// The cosine series stays between zero and one on the first octant.
pub proof fn lemma_cosine_series_bounds(u: int)
    requires
        0 <= u <= FINE,
    ensures
        0 <= cosine_series(u) <= FINE,
{
    lemma_fine_square_bounds(u, FINE as int);
    let y = fine_square(u);
    let t5 = series_step(y, FINE as int, 90 * FINE);
    lemma_series_step_bounds(y, FINE as int, 90 * FINE);
    let t4 = series_step(y, t5, 56 * FINE);
    lemma_series_step_bounds(y, t5, 56 * FINE);
    let t3 = series_step(y, t4, 30 * FINE);
    lemma_series_step_bounds(y, t4, 30 * FINE);
    let t2 = series_step(y, t3, 12 * FINE);
    lemma_series_step_bounds(y, t3, 12 * FINE);
    lemma_series_step_bounds(y, t2, 2 * FINE);
}

/// The sine stays between zero and one on the half turn.
pub proof fn lemma_arch_bounds(x: int)
    requires
        0 <= x <= HALF_TURN,
    ensures
        0 <= arch(x) <= UNIT,
{
    let f = if x <= QUARTER_TURN {
        x
    } else {
        HALF_TURN - x
    };
    if f <= EIGHTH_TURN {
        lemma_fine_radians_bounds(f);
        lemma_sine_series_bounds(fine_radians(f));
    } else {
        lemma_fine_radians_bounds(QUARTER_TURN - f);
        lemma_cosine_series_bounds(fine_radians(QUARTER_TURN - f));
    }
}

/// The sine on the half turn is symmetric about the quarter turn.
pub proof fn lemma_arch_mirror(x: int)
    requires
        0 <= x <= HALF_TURN,
    ensures
        arch(HALF_TURN - x) == arch(x),
{
}

/// Sine and cosine stay between minus one and one.
pub proof fn lemma_sine_bounds(a: int)
    ensures
        -UNIT <= sine(a) <= UNIT,
        -UNIT <= cosine(a) <= UNIT,
{
    lemma_wrapped_range(a);
    lemma_wrapped_range(a + QUARTER_TURN);
    lemma_arch_bounds(magnitude(wrapped(a)));
    lemma_arch_bounds(magnitude(wrapped(a + QUARTER_TURN)));
}

/// The sine of no angle is nothing, and the sine of a quarter turn is one.
pub proof fn lemma_arch_ends()
    ensures
        arch(0) == 0,
        arch(QUARTER_TURN as int) == UNIT,
        arch(HALF_TURN as int) == 0,
{
    assert(fine_radians(0) == 0);
    assert(fine_square(0) == 0);
    assert(sine_series(0) == 0) by {
        let t1 = series_step(
            0,
            series_step(
                0,
                series_step(
                    0,
                    series_step(0, series_step(0, FINE as int, 110 * FINE), 72 * FINE),
                    42 * FINE,
                ),
                20 * FINE,
            ),
            6 * FINE,
        );
        assert(0 * t1 == 0);
    }
    assert(cosine_series(0) == FINE) by {
        assert(series_step(0, FINE as int, 90 * FINE) == FINE) by {
            assert((0 * FINE) / (90 * FINE) == 0);
        }
        assert(series_step(0, FINE as int, 56 * FINE) == FINE) by {
            assert((0 * FINE) / (56 * FINE) == 0);
        }
        assert(series_step(0, FINE as int, 30 * FINE) == FINE) by {
            assert((0 * FINE) / (30 * FINE) == 0);
        }
        assert(series_step(0, FINE as int, 12 * FINE) == FINE) by {
            assert((0 * FINE) / (12 * FINE) == 0);
        }
        assert(series_step(0, FINE as int, 2 * FINE) == FINE) by {
            assert((0 * FINE) / (2 * FINE) == 0);
        }
    }
    assert(to_millionths(0) == 0);
    assert(to_millionths(FINE as int) == UNIT);
}

/// Sine and cosine are exact at the four compass points.
pub proof fn law_compass_points()
    ensures
        sine(0) == 0,
        cosine(0) == UNIT,
        sine(QUARTER_TURN as int) == UNIT,
        cosine(QUARTER_TURN as int) == 0,
        sine(-QUARTER_TURN) == -UNIT,
        cosine(-QUARTER_TURN) == 0,
        sine(HALF_TURN as int) == 0,
        cosine(HALF_TURN as int) == -UNIT,
{
    lemma_arch_ends();
}

/// Sine is odd: turning the other way mirrors it.
pub proof fn law_sine_odd(a: int)
    requires
        -HALF_TURN < a < HALF_TURN,
    ensures
        sine(-a) == -sine(a),
{
    if a == 0 {
        lemma_arch_ends();
    }
}

/// Cosine is even: turning the other way leaves it unchanged.
pub proof fn law_cosine_even(a: int)
    requires
        -HALF_TURN < a < HALF_TURN,
    ensures
        cosine(-a) == cosine(a),
{
    // The two arguments, 90 + |a| and 90 - |a|, are mirror images about the
    // quarter turn.
    let m = magnitude(a);
    if m > QUARTER_TURN {
        assert(wrapped(QUARTER_TURN + m) == m - 3 * QUARTER_TURN);
        assert(wrapped(QUARTER_TURN - m) == QUARTER_TURN - m);
        lemma_arch_mirror(3 * QUARTER_TURN - m);
    } else {
        assert(wrapped(QUARTER_TURN + m) == QUARTER_TURN + m);
        assert(wrapped(QUARTER_TURN - m) == QUARTER_TURN - m);
        lemma_arch_mirror(QUARTER_TURN - m);
        if m == QUARTER_TURN {
            lemma_arch_ends();
        }
    }
}

/// A step of the arctangent series stays between zero and its leading term.
pub proof fn lemma_arc_step_bounds(y: int, p: int, lead: int)
    requires
        0 <= y <= FINE / 4,
        0 <= p <= 4 * lead,
    ensures
        0 <= arc_step(y, p, lead) <= lead,
        0 <= y * p,
        lead <= FINE ==> y * p <= FINE * FINE,
{
    assert(0 <= y * p && 0 <= (y * p) / 1_000_000_000_000_000 <= lead) by (nonlinear_arith)
        requires
            0 <= y <= 250_000_000_000_000,
            0 <= p <= 4 * lead,
    ;
    if lead <= FINE {
        assert(y * p <= 1_000_000_000_000_000 * 1_000_000_000_000_000) by (nonlinear_arith)
            requires
                0 <= y <= 250_000_000_000_000,
                0 <= p <= 4_000_000_000_000_000,
        ;
    }
}

/// The arctangent series stays between zero and its argument.
pub proof fn lemma_arctangent_series_bounds(w: int)
    requires
        0 <= w <= FINE / 2,
    ensures
        0 <= arctangent_series(w) <= w,
{
    assert(0 <= w * w && (w * w) / 1_000_000_000_000_000 <= 250_000_000_000_000 && 0 <= (w * w)
        / 1_000_000_000_000_000) by (nonlinear_arith)
        requires
            0 <= w <= 500_000_000_000_000,
    ;
    let y = fine_square(w);
    let p9 = FINE / 19;
    let p8 = arc_step(y, p9, FINE / 17);
    lemma_arc_step_bounds(y, p9, FINE / 17);
    let p7 = arc_step(y, p8, FINE / 15);
    lemma_arc_step_bounds(y, p8, FINE / 15);
    let p6 = arc_step(y, p7, FINE / 13);
    lemma_arc_step_bounds(y, p7, FINE / 13);
    let p5 = arc_step(y, p6, FINE / 11);
    lemma_arc_step_bounds(y, p6, FINE / 11);
    let p4 = arc_step(y, p5, FINE / 9);
    lemma_arc_step_bounds(y, p5, FINE / 9);
    let p3 = arc_step(y, p4, FINE / 7);
    lemma_arc_step_bounds(y, p4, FINE / 7);
    let p2 = arc_step(y, p3, FINE / 5);
    lemma_arc_step_bounds(y, p3, FINE / 5);
    let p1 = arc_step(y, p2, FINE / 3);
    lemma_arc_step_bounds(y, p2, FINE / 3);
    let p0 = arc_step(y, p1, FINE as int);
    lemma_arc_step_bounds(y, p1, FINE as int);
    assert(0 <= (w * p0) / 1_000_000_000_000_000 <= w) by (nonlinear_arith)
        requires
            0 <= w,
            0 <= p0 <= 1_000_000_000_000_000,
    ;
}

/// The tangent of the complement of an angle beyond 22.5 degrees is at most
/// one half.
pub proof fn lemma_complement_tangent_bounds(z: int)
    requires
        OCTANT_SPLIT < z <= FINE,
    ensures
        0 <= complement_tangent(z) <= FINE / 2,
        0 <= (FINE - z) * FINE,
{
    let a = (FINE - z) * FINE;
    let b = FINE + z;
    assert(0 <= a && 2 * a <= FINE * b);
    assert(0 <= a / b <= 500_000_000_000_000) by (nonlinear_arith)
        requires
            0 <= a,
            b > 0,
            2 * a <= 1_000_000_000_000_000 * b,
    ;
}

/// The angle whose tangent is at most one lies in the first octant.
pub proof fn lemma_arc_bounds(z: int)
    requires
        0 <= z <= FINE,
    ensures
        0 <= arc(z) <= EIGHTH_TURN,
{
    if z <= OCTANT_SPLIT {
        lemma_arctangent_series_bounds(z);
    } else {
        lemma_complement_tangent_bounds(z);
        lemma_arctangent_series_bounds(complement_tangent(z));
    }
}

/// The ratio of the smaller to the larger leg is at most one.
pub proof fn lemma_ratio_bounds(small: int, large: int)
    requires
        0 <= small <= large,
        0 < large,
    ensures
        0 <= (small * FINE) / large <= FINE,
        0 <= small * FINE,
{
    assert(0 <= small * 1_000_000_000_000_000 && (small * 1_000_000_000_000_000) / large
        <= 1_000_000_000_000_000 && 0 <= (small * 1_000_000_000_000_000) / large)
        by (nonlinear_arith)
        requires
            0 <= small <= large,
            0 < large,
    ;
}

/// An elevation lies in the first quadrant.
pub proof fn lemma_elevation_bounds(rise: int, run: int)
    requires
        0 <= rise,
        0 <= run,
    ensures
        0 <= elevation(rise, run) <= QUARTER_TURN,
{
    if rise == 0 {
    } else if rise <= run {
        lemma_ratio_bounds(rise, run);
        lemma_arc_bounds((rise * FINE) / run);
    } else {
        lemma_ratio_bounds(run, rise);
        lemma_arc_bounds((run * FINE) / rise);
    }
}

/// A bearing lies in `[-180, 180]` degrees.
pub proof fn law_bearing_range(y: int, x: int)
    ensures
        -HALF_TURN <= bearing(y, x) <= HALF_TURN,
{
    lemma_elevation_bounds(magnitude(y), magnitude(x));
}

/// The angle whose tangent is nothing is nothing, and the angle whose tangent
/// is one is 45 degrees.
pub proof fn lemma_arc_ends()
    ensures
        arc(0) == 0,
        arc(FINE as int) == EIGHTH_TURN,
{
    assert(fine_square(0) == 0);
    assert(arctangent_series(0) == 0) by {
        let y = 0int;
        let p0 = arc_step(
            y,
            arc_step(
                y,
                arc_step(
                    y,
                    arc_step(
                        y,
                        arc_step(
                            y,
                            arc_step(
                                y,
                                arc_step(
                                    y,
                                    arc_step(y, arc_step(y, FINE / 19, FINE / 17), FINE / 15),
                                    FINE / 13,
                                ),
                                FINE / 11,
                            ),
                            FINE / 9,
                        ),
                        FINE / 7,
                    ),
                    FINE / 5,
                ),
                FINE / 3,
            ),
            FINE as int,
        );
        assert(0 * p0 == 0);
    }
    assert(to_degrees(0) == 0);
    assert(complement_tangent(FINE as int) == 0) by {
        assert((FINE - FINE) * FINE == 0);
    }
}

/// Bearings along the axes and the diagonals are exact, and the zero vector
/// bears zero.
pub proof fn lemma_axis_bearings(d: int)
    requires
        d > 0,
    ensures
        bearing(0, 0) == 0,
        bearing(0, d) == 0,
        bearing(d, 0) == QUARTER_TURN,
        bearing(-d, 0) == -QUARTER_TURN,
        bearing(0, -d) == HALF_TURN,
        bearing(d, d) == EIGHTH_TURN,
        bearing(-d, d) == -EIGHTH_TURN,
        bearing(d, -d) == HALF_TURN - EIGHTH_TURN,
        bearing(-d, -d) == EIGHTH_TURN - HALF_TURN,
{
    assert((0 * FINE) / d == 0) by (nonlinear_arith)
        requires
            d > 0,
    ;
    assert((d * FINE) / d == FINE) by (nonlinear_arith)
        requires
            d > 0,
    ;
    lemma_arc_ends();
}

/// Brings the sum of two angles into `(-180, 180]` degrees.
pub fn wrap_sum(a: i64, b: i64) -> (r: i64)
    ensures
        r == wrapped(a + b),
        -HALF_TURN < r <= HALF_TURN,
{
    let s: i128 = HALF_TURN as i128 - (a as i128 + b as i128);
    let m: i128 = s % (FULL_TURN as i128);
    let e: i128 = if m < 0 {
        m + FULL_TURN as i128
    } else {
        m
    };
    assert(e == (s as int) % (FULL_TURN as int));
    (HALF_TURN as i128 - e) as i64
}

/// An angle of the first octant in fine radians.
fn radians_of(x: i64) -> (u: i128)
    requires
        0 <= x <= EIGHTH_TURN,
    ensures
        u == fine_radians(x as int),
        0 <= u <= 785_398_163_397_449,
{
    proof {
        lemma_fine_radians_bounds(x as int);
    }
    (x as i128 * RADIANS_PER_DEGREE) / RADIANS_SCALE
}

/// The square of a fine number up to one.
fn square_of(u: i128) -> (y: i128)
    requires
        0 <= u <= FINE,
    ensures
        y == fine_square(u as int),
        0 <= y <= u,
{
    proof {
        lemma_fine_square_bounds(u as int, u as int);
    }
    (u * u) / FINE
}

/// One step of a sine or cosine series.
fn step_down(y: i128, t: i128, den: i128) -> (r: i128)
    requires
        0 <= y <= FINE,
        0 <= t <= FINE,
        den >= FINE,
    ensures
        r == series_step(y as int, t as int, den as int),
        0 <= r <= FINE,
{
    proof {
        lemma_series_step_bounds(y as int, t as int, den as int);
    }
    FINE - (y * t) / den
}

/// The sine series on the first octant.
fn sine_of(u: i128) -> (r: i128)
    requires
        0 <= u <= FINE,
    ensures
        r == sine_series(u as int),
        0 <= r <= FINE,
{
    proof {
        lemma_sine_series_bounds(u as int);
    }
    let y: i128 = square_of(u);
    let t5: i128 = step_down(y, FINE, 110 * FINE);
    let t4: i128 = step_down(y, t5, 72 * FINE);
    let t3: i128 = step_down(y, t4, 42 * FINE);
    let t2: i128 = step_down(y, t3, 20 * FINE);
    let t1: i128 = step_down(y, t2, 6 * FINE);
    assert(0 <= u * t1 <= 1_000_000_000_000_000 * 1_000_000_000_000_000) by (nonlinear_arith)
        requires
            0 <= u <= 1_000_000_000_000_000,
            0 <= t1 <= 1_000_000_000_000_000,
    ;
    (u * t1) / FINE
}

/// The cosine series on the first octant.
fn cosine_of(u: i128) -> (r: i128)
    requires
        0 <= u <= FINE,
    ensures
        r == cosine_series(u as int),
        0 <= r <= FINE,
{
    let y: i128 = square_of(u);
    let t5: i128 = step_down(y, FINE, 90 * FINE);
    let t4: i128 = step_down(y, t5, 56 * FINE);
    let t3: i128 = step_down(y, t4, 30 * FINE);
    let t2: i128 = step_down(y, t3, 12 * FINE);
    step_down(y, t2, 2 * FINE)
}

/// A fine number between zero and one, rounded to the nearest millionth.
fn round_fine(v: i128) -> (r: i64)
    requires
        0 <= v <= FINE,
    ensures
        r == to_millionths(v as int),
        0 <= r <= UNIT,
{
    ((v + FINE_PER_MILLIONTH / 2) / FINE_PER_MILLIONTH) as i64
}

/// The sine on the half turn.
fn half_wave(x: i64) -> (r: i64)
    requires
        0 <= x <= HALF_TURN,
    ensures
        r == arch(x as int),
        0 <= r <= UNIT,
{
    let f: i64 = if x <= QUARTER_TURN {
        x
    } else {
        HALF_TURN - x
    };
    if f <= EIGHTH_TURN {
        round_fine(sine_of(radians_of(f)))
    } else {
        round_fine(cosine_of(radians_of(QUARTER_TURN - f)))
    }
}

/// The sine of `a` degrees, scaled by `UNIT`: the sum of the series rounded
/// to the nearest millionth, with the deviation from the real sine that
/// `sine` names.
pub fn sin_deg(a: i64) -> (r: i64)
    ensures
        r == sine(a as int),
        -UNIT <= r <= UNIT,
{
    let w: i64 = wrap_sum(a, 0);
    if w >= 0 {
        half_wave(w)
    } else {
        -half_wave(-w)
    }
}

/// The cosine of `a` degrees, scaled by `UNIT`: the sum of the series
/// rounded to the nearest millionth, with the deviation from the real cosine
/// that `cosine` names.
pub fn cos_deg(a: i64) -> (r: i64)
    ensures
        r == cosine(a as int),
        -UNIT <= r <= UNIT,
{
    let w: i64 = wrap_sum(a, QUARTER_TURN);
    if w >= 0 {
        half_wave(w)
    } else {
        -half_wave(-w)
    }
}

/// One step of the arctangent series.
fn arc_step_of(y: i128, p: i128, lead: i128) -> (r: i128)
    requires
        0 <= y <= FINE / 4,
        0 <= p <= 4 * lead,
        lead <= FINE,
    ensures
        r == arc_step(y as int, p as int, lead as int),
        0 <= r <= lead,
{
    proof {
        lemma_arc_step_bounds(y as int, p as int, lead as int);
    }
    lead - (y * p) / FINE
}

/// The arctangent series, as millionths of a degree.
fn series_angle(w: i128) -> (r: i64)
    requires
        0 <= w <= FINE / 2,
    ensures
        r == to_degrees(arctangent_series(w as int)),
        0 <= r <= EIGHTH_TURN,
{
    proof {
        lemma_arctangent_series_bounds(w as int);
    }
    assert(0 <= w * w <= 1_000_000_000_000_000 * 1_000_000_000_000_000 && (w * w)
        / 1_000_000_000_000_000 <= 250_000_000_000_000) by (nonlinear_arith)
        requires
            0 <= w <= 500_000_000_000_000,
    ;
    let y: i128 = (w * w) / FINE;
    let p9: i128 = FINE / 19;
    let p8: i128 = arc_step_of(y, p9, FINE / 17);
    let p7: i128 = arc_step_of(y, p8, FINE / 15);
    let p6: i128 = arc_step_of(y, p7, FINE / 13);
    let p5: i128 = arc_step_of(y, p6, FINE / 11);
    let p4: i128 = arc_step_of(y, p5, FINE / 9);
    let p3: i128 = arc_step_of(y, p4, FINE / 7);
    let p2: i128 = arc_step_of(y, p3, FINE / 5);
    let p1: i128 = arc_step_of(y, p2, FINE / 3);
    let p0: i128 = arc_step_of(y, p1, FINE);
    assert(0 <= w * p0 <= 1_000_000_000_000_000 * 1_000_000_000_000_000) by (nonlinear_arith)
        requires
            0 <= w <= 500_000_000_000_000,
            0 <= p0 <= 1_000_000_000_000_000,
    ;
    let radians: i128 = (w * p0) / FINE;
    ((radians * DEGREES_PER_RADIAN + DEGREES_SCALE / 2) / DEGREES_SCALE) as i64
}

/// The angle whose tangent is `z` fine steps.
fn octant_angle(z: i128) -> (r: i64)
    requires
        0 <= z <= FINE,
    ensures
        r == arc(z as int),
        0 <= r <= EIGHTH_TURN,
{
    if z <= OCTANT_SPLIT {
        series_angle(z)
    } else {
        proof {
            lemma_complement_tangent_bounds(z as int);
        }
        let w: i128 = ((FINE - z) * FINE) / (FINE + z);
        EIGHTH_TURN - series_angle(w)
    }
}

/// The angle between the ray to `(run, rise)` and the run axis.
fn elevation_deg(rise: i128, run: i128) -> (r: i64)
    requires
        0 <= rise <= 0x1_0000_0000_0000_0000,
        0 <= run <= 0x1_0000_0000_0000_0000,
    ensures
        r == elevation(rise as int, run as int),
        0 <= r <= QUARTER_TURN,
{
    if rise == 0 {
        0
    } else if rise <= run {
        proof {
            lemma_ratio_bounds(rise as int, run as int);
        }
        octant_angle((rise * FINE) / run)
    } else {
        proof {
            lemma_ratio_bounds(run as int, rise as int);
        }
        QUARTER_TURN - octant_angle((run * FINE) / rise)
    }
}

/// The two-argument arctangent of `(y, x)` in degrees, for legs that are
/// differences of two `i64` values: the sum of the series rounded to the
/// nearest millionth of a degree, with the deviation from the real
/// arctangent that `bearing` names.
pub fn bearing_deg(y: i128, x: i128) -> (r: i64)
    requires
        -0x1_0000_0000_0000_0000 <= y <= 0x1_0000_0000_0000_0000,
        -0x1_0000_0000_0000_0000 <= x <= 0x1_0000_0000_0000_0000,
    ensures
        r == bearing(y as int, x as int),
        -HALF_TURN <= r <= HALF_TURN,
{
    let rise: i128 = if y < 0 {
        -y
    } else {
        y
    };
    let run: i128 = if x < 0 {
        -x
    } else {
        x
    };
    let t: i64 = elevation_deg(rise, run);
    if x >= 0 {
        if y >= 0 {
            t
        } else {
            -t
        }
    } else {
        if y >= 0 {
            HALF_TURN - t
        } else {
            t - HALF_TURN
        }
    }
}

} // verus!
