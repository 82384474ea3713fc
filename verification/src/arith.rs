//! Saturating fixed-point arithmetic.
//!
//! Every control quantity (temperature, throttle, gain, accumulated error) is
//! an `i64` holding thousandths of a unit and is kept inside the working
//! range `[-FIXED_BOUND, FIXED_BOUND]`. The operations here saturate at the
//! edges of that range, so the control law is total: no input sequence can
//! make it overflow.

use vstd::prelude::*;

verus! {

/// Largest magnitude a fixed-point value may take. Products of two in-range
/// values fit comfortably in an `i64`, which keeps every intermediate step of
/// the control law free of overflow.
pub const FIXED_BOUND: i64 = 0x7fff_ffff;

/// Scale of the fixed-point representation: values count thousandths.
pub const MILLI: i64 = 1000;

pub open spec fn in_fixed_range(x: int) -> bool {
    -FIXED_BOUND <= x <= FIXED_BOUND
}

/// Bring a mathematical integer back into the working range.
pub open spec fn saturate(x: int) -> int {
    if x < -FIXED_BOUND {
        -FIXED_BOUND as int
    } else if x > FIXED_BOUND {
        FIXED_BOUND as int
    } else {
        x
    }
}

/// Division by the fixed-point scale, truncated toward zero, as the
/// hardware-facing integer code computes it.
pub open spec fn div_milli(x: int) -> int {
    if x >= 0 {
        x / (MILLI as int)
    } else {
        -((-x) / (MILLI as int))
    }
}

/// `x` forced into `[lo, hi]`, taking `lo` when the two bounds cross, exactly
/// as `max(lo, min(hi, x))` does.
pub open spec fn clamp_spec(x: int, lo: int, hi: int) -> int {
    if x > hi {
        if lo > hi {
            lo
        } else {
            hi
        }
    } else if x < lo {
        lo
    } else {
        x
    }
}

/// Saturate an `i64` into the working range.
pub fn saturate_i64(x: i64) -> (r: i64)
    ensures
        r == saturate(x as int),
{
    if x < -FIXED_BOUND {
        -FIXED_BOUND
    } else if x > FIXED_BOUND {
        FIXED_BOUND
    } else {
        x
    }
}

/// Saturating addition of two in-range values.
pub fn sat_add(a: i64, b: i64) -> (r: i64)
    requires
        in_fixed_range(a as int),
        in_fixed_range(b as int),
    ensures
        r == saturate(a + b),
        in_fixed_range(r as int),
{
    saturate_i64(a + b)
}

/// Saturating subtraction of two in-range values.
pub fn sat_sub(a: i64, b: i64) -> (r: i64)
    requires
        in_fixed_range(a as int),
        in_fixed_range(b as int),
    ensures
        r == saturate(a - b),
        in_fixed_range(r as int),
{
    saturate_i64(a - b)
}

/// Fixed-point product of two in-range values: multiply, scale back down by
/// the fixed-point scale (truncating toward zero), and saturate.
pub fn sat_mul_milli(a: i64, b: i64) -> (r: i64)
    requires
        in_fixed_range(a as int),
        in_fixed_range(b as int),
    ensures
        r == saturate(div_milli(a * b)),
        in_fixed_range(r as int),
{
    proof {
        assert(-(FIXED_BOUND * FIXED_BOUND) <= a * b <= FIXED_BOUND * FIXED_BOUND)
            by (nonlinear_arith)
            requires
                in_fixed_range(a as int),
                in_fixed_range(b as int),
        ;
    }
    let p: i64 = a * b;
    let q: i64 = if p >= 0 {
        ((p as u64) / (MILLI as u64)) as i64
    } else {
        -((((-p) as u64) / (MILLI as u64)) as i64)
    };
    saturate_i64(q)
}

/// Saturation keeps order.
pub proof fn lemma_saturate_monotone(x: int, y: int)
    requires
        x <= y,
    ensures
        saturate(x) <= saturate(y),
{
}

/// Scaling down by the fixed-point scale keeps order.
pub proof fn lemma_div_milli_monotone(x: int, y: int)
    requires
        x <= y,
    ensures
        div_milli(x) <= div_milli(y),
{
    if x >= 0 {
        vstd::arithmetic::div_mod::lemma_div_is_ordered(x, y, MILLI as int);
    } else if y < 0 {
        vstd::arithmetic::div_mod::lemma_div_is_ordered(-y, -x, MILLI as int);
    } else {
        vstd::arithmetic::div_mod::lemma_div_pos_is_pos(-x, MILLI as int);
        vstd::arithmetic::div_mod::lemma_div_pos_is_pos(y, MILLI as int);
    }
}

/// Clamping keeps order.
pub proof fn lemma_clamp_monotone(x: int, y: int, lo: int, hi: int)
    requires
        x <= y,
    ensures
        clamp_spec(x, lo, hi) <= clamp_spec(y, lo, hi),
{
}

/// `x` forced into `[lo, hi]`; mirrors `max(lo, min(hi, x))`.
pub fn clamp(x: i64, lo: i64, hi: i64) -> (r: i64)
    ensures
        r == clamp_spec(x as int, lo as int, hi as int),
{
    if x > hi {
        if lo > hi {
            lo
        } else {
            hi
        }
    } else if x < lo {
        lo
    } else {
        x
    }
}

} // verus!
