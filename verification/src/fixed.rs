use vstd::prelude::*;

verus! {

/// All fractional quantities in this crate (certainties, normalized command
/// components, angles in radians, areas in square pixels, calibration
/// constants) are fixed-point numbers: an `i64` holding the quantity
/// multiplied by `SCALE`.  A value of `SCALE` stands for `1.0`.
pub const SCALE: i64 = 1_000_000;

/// Truncating division toward zero (the rounding Rust's `/` performs),
/// defined for a positive divisor.
pub open spec fn div_trunc_spec(a: int, b: int) -> int {
    if a >= 0 {
        a / b
    } else {
        -((-a) / b)
    }
}

/// Absolute value.
pub open spec fn abs_spec(a: int) -> int {
    if a >= 0 {
        a
    } else {
        -a
    }
}

/// Clamp into the normalized command range `[-1.0, 1.0]`.
pub open spec fn clamp_unit_spec(v: int) -> int {
    if v > SCALE {
        SCALE as int
    } else if v < -(SCALE as int) {
        -(SCALE as int)
    } else {
        v
    }
}

/// Fixed-point product `v * k`, truncated toward zero and clamped into
/// `[-1.0, 1.0]`.
pub open spec fn mul_scale_clamp_spec(v: int, k: int) -> int {
    clamp_unit_spec(div_trunc_spec(v * k, SCALE as int))
}

/// Quotient of `a` and `b`, truncated toward zero.
pub fn div_trunc(a: i64, b: i64) -> (r: i64)
    requires
        b > 0,
        a > i64::MIN,
    ensures
        r == div_trunc_spec(a as int, b as int),
        abs_spec(r as int) <= abs_spec(a as int),
{
    if a >= 0 {
        a / b
    } else {
        -((-a) / b)
    }
}

/// Absolute value of an `i64` that is not the smallest one.
pub fn abs_i64(a: i64) -> (r: i64)
    requires
        a > i64::MIN,
    ensures
        r == abs_spec(a as int),
{
    if a >= 0 {
        a
    } else {
        -a
    }
}

/// Multiplies two fixed-point values and clamps the product into the
/// normalized range: this is the only place a product of two unbounded
/// fixed-point values is formed, so it is carried out in 128 bits.
pub fn mul_scale_clamp(v: i64, k: i64) -> (r: i64)
    ensures
        r == mul_scale_clamp_spec(v as int, k as int),
        -SCALE <= r <= SCALE,
{
    let vi: i128 = v as i128;
    let ki: i128 = k as i128;
    proof {
        assert(vi * ki <= 85070591730234615865843651857942052864i128 && vi * ki
            >= -85070591730234615865843651857942052864i128) by (nonlinear_arith)
            requires
                -9223372036854775808i128 <= vi <= 9223372036854775807i128,
                -9223372036854775808i128 <= ki <= 9223372036854775807i128,
        ;
    }
    let p: i128 = vi * ki;
    let q: i128 = if p >= 0 {
        p / (SCALE as i128)
    } else {
        -((-p) / (SCALE as i128))
    };
    if q > SCALE as i128 {
        SCALE
    } else if q < -(SCALE as i128) {
        -SCALE
    } else {
        q as i64
    }
}

} // verus!
