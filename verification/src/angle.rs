use vstd::prelude::*;

use crate::fixed::SCALE;
use crate::fixed::abs_spec;
use crate::fixed::abs_i64;

verus! {

/// Half pi in fixed-point radians: the sentinel for a vertical marker axis,
/// and the open lower / closed upper end of the orientation range.
pub const HALF_PI: i64 = 1_570_796;

/// Quarter pi in fixed-point radians.
pub const QUARTER_PI: i64 = 785_398;

/// The largest value `atan_unit_spec` can take (just below an argument of
/// one half, where the correction term peaks).
pub const ATAN_UNIT_MAX: i64 = 853_648;

/// Fixed-point arctangent of `u` for `u` in `[0.0, 1.0]`, by the quadratic
/// approximation `atan(x) ~ (pi/4) x + 0.273 x (1 - x)`.
pub open spec fn atan_unit_spec(u: int) -> int {
    (QUARTER_PI * u) / (SCALE as int) + (273_000 * (u * ((SCALE as int) - u))) / (
    1_000_000_000_000int)
}

/// Fixed-point arctangent of the ratio `dx / dy`, for `dy != 0`: the
/// magnitude comes from `atan_unit_spec`, directly where `|dx| <= |dy|` and
/// through the reflection `atan(x) = pi/2 - atan(1/x)` where `|dx| > |dy|`,
/// and the sign follows the sign of the ratio.
pub open spec fn atan_ratio_spec(dx: int, dy: int) -> int {
    let ax = abs_spec(dx);
    let ay = abs_spec(dy);
    let m = if ax <= ay {
        atan_unit_spec((ax * (SCALE as int)) / ay)
    } else {
        HALF_PI - atan_unit_spec((ay * (SCALE as int)) / ax)
    };
    if (dx >= 0) == (dy >= 0) {
        m
    } else {
        -m
    }
}

/// The scaled ratio `a / b` of two magnitudes with `a <= b`, in fixed point.
fn ratio_scaled(a: i64, b: i64) -> (r: i64)
    requires
        0 <= a <= b,
        1 <= b <= 100_000,
    ensures
        r == (a * (SCALE as int)) / (b as int),
        0 <= r <= SCALE,
        a >= 1 ==> r >= 10,
{
    proof {
        assert(0 <= a * (SCALE as int) <= b * (SCALE as int) && (a >= 1 ==> a * (SCALE as int)
            >= 1_000_000)) by (nonlinear_arith)
            requires
                0 <= a <= b,
        ;
        vstd::arithmetic::div_mod::lemma_div_pos_is_pos(a * (SCALE as int), b as int);
        vstd::arithmetic::div_mod::lemma_div_is_ordered(
            a * (SCALE as int),
            b * (SCALE as int),
            b as int,
        );
        vstd::arithmetic::div_mod::lemma_div_multiples_vanish(SCALE as int, b as int);
        assert(b * (SCALE as int) == (b as int) * (SCALE as int));
        if a >= 1 {
            vstd::arithmetic::div_mod::lemma_div_is_ordered(
                1_000_000,
                a * (SCALE as int),
                b as int,
            );
            vstd::arithmetic::div_mod::lemma_div_is_ordered_by_denominator(
                1_000_000,
                b as int,
                100_000,
            );
        }
    }
    (a * SCALE) / b
}

/// Arctangent of `u` in `[0.0, 1.0]`, in fixed-point radians.
fn atan_unit(u: i64) -> (r: i64)
    requires
        0 <= u <= SCALE,
    ensures
        r == atan_unit_spec(u as int),
        0 <= r <= ATAN_UNIT_MAX,
        u >= 10 ==> r >= 7,
{
    proof {
        assert(0 <= (u as int) * ((SCALE as int) - u) <= 250_000_000_000int) by (nonlinear_arith)
            requires
                0 <= u <= 1_000_000,
        ;
        assert(QUARTER_PI * u <= QUARTER_PI * 1_000_000) by (nonlinear_arith)
            requires
                0 <= u <= 1_000_000,
        ;
        assert(273_000 * ((u as int) * ((SCALE as int) - u)) <= 273_000 * 250_000_000_000int)
            by (nonlinear_arith)
            requires
                0 <= (u as int) * ((SCALE as int) - u) <= 250_000_000_000int,
        ;
        assert(0 <= 273_000 * ((u as int) * ((SCALE as int) - u))) by (nonlinear_arith)
            requires
                0 <= (u as int) * ((SCALE as int) - u),
        ;
        vstd::arithmetic::div_mod::lemma_div_pos_is_pos(QUARTER_PI * (u as int), SCALE as int);
        vstd::arithmetic::div_mod::lemma_div_pos_is_pos(
            273_000 * ((u as int) * ((SCALE as int) - u)),
            1_000_000_000_000int,
        );
        vstd::arithmetic::div_mod::lemma_div_is_ordered(
            QUARTER_PI * (u as int),
            QUARTER_PI * 1_000_000,
            SCALE as int,
        );
        vstd::arithmetic::div_mod::lemma_div_is_ordered(
            273_000 * ((u as int) * ((SCALE as int) - u)),
            273_000 * 250_000_000_000int,
            1_000_000_000_000int,
        );
        if u >= 10 {
            assert(QUARTER_PI * u >= QUARTER_PI * 10) by (nonlinear_arith)
                requires
                    u >= 10,
            ;
            vstd::arithmetic::div_mod::lemma_div_is_ordered(
                QUARTER_PI * 10,
                QUARTER_PI * (u as int),
                SCALE as int,
            );
        }
        assert(273_000 * (u as i64) as int * ((SCALE as int) - u) == 273_000 * ((u as int) * (
        (SCALE as int) - u))) by (nonlinear_arith);
    }
    let linear: i64 = (QUARTER_PI * u) / SCALE;
    let bow: i64 = u * (SCALE - u);
    let correction: i64 = (273_000 * bow) / 1_000_000_000_000;
    linear + correction
}

/// Arctangent of the ratio `dx / dy` in fixed-point radians, for `dy != 0`.
/// The result always lies strictly between `-pi/2` and `pi/2`.
pub fn atan_ratio(dx: i64, dy: i64) -> (r: i64)
    requires
        dy != 0,
        -100_000 <= dx <= 100_000,
        -100_000 <= dy <= 100_000,
    ensures
        r == atan_ratio_spec(dx as int, dy as int),
        -HALF_PI < r < HALF_PI,
        dx == 0 ==> r == 0,
{
    let ax = abs_i64(dx);
    let ay = abs_i64(dy);
    let m: i64 = if ax <= ay {
        atan_unit(ratio_scaled(ax, ay))
    } else {
        // `1 <= ay < ax`, so the reduced ratio is at least `10` in fixed
        // point and its arctangent at least `7`, keeping the result
        // strictly below `HALF_PI`.
        HALF_PI - atan_unit(ratio_scaled(ay, ax))
    };
    if (dx >= 0) == (dy >= 0) {
        m
    } else {
        -m
    }
}

} // verus!
