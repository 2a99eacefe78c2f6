//! Reference semantics of the nine allowed arithmetic functions, exactly as
//! the math module exports them: two's-complement 32-bit operations with the
//! wrapping behaviour of the module format, `sub` clamped to zero when the
//! minuend is smaller, and `div`/`rem` returning zero on a zero divisor.
//!
//! Inputs on which the module itself traps (`div`/`rem` of the smallest
//! value by minus one) are excluded by `requires`: these functions never
//! panic.

use vstd::prelude::*;

use vstd::math::abs as int_abs;
use vstd::wrapping::i32_specs;

verus! {

/// The sum, wrapping around on overflow.
pub open spec fn spec_add(x: i32, y: i32) -> i32 {
    i32_specs::wrapping_add(x, y)
}

/// Adds two integers.
pub fn add(x: i32, y: i32) -> (r: i32)
    ensures
        r == spec_add(x, y),
{
    x.wrapping_add(y)
}

/// The product, wrapping around on overflow.
pub open spec fn spec_mul(x: i32, y: i32) -> i32 {
    i32_specs::wrapping_mul(x, y)
}

/// Multiplies two integers.
pub fn mul(x: i32, y: i32) -> (r: i32)
    ensures
        r == spec_mul(x, y),
{
    x.wrapping_mul(y)
}

/// The difference `x - y`, or zero when `x < y`; the subtraction wraps
/// around on overflow.
pub open spec fn spec_sub(x: i32, y: i32) -> i32 {
    if x < y {
        0
    } else {
        i32_specs::wrapping_sub(x, y)
    }
}

/// Subtracts `y` from `x`, clamped to zero when `x < y`.
pub fn sub(x: i32, y: i32) -> (r: i32)
    ensures
        r == spec_sub(x, y),
{
    if x < y {
        0
    } else {
        x.wrapping_sub(y)
    }
}

/// Division truncated toward zero, on inputs whose quotient fits.
pub open spec fn trunc_div(x: int, y: int) -> int
    recommends
        y != 0,
{
    let q = int_abs(x) as int / int_abs(y) as int;
    if (x < 0) != (y < 0) {
        -q
    } else {
        q
    }
}

/// The quotient `x / y` truncated toward zero, or zero when `y == 0`.
pub open spec fn spec_div(x: i32, y: i32) -> i32 {
    if y == 0 {
        0
    } else {
        trunc_div(x as int, y as int) as i32
    }
}

/// The magnitude of `x`, exact also for the smallest value.
fn magnitude(x: i32) -> (m: u64)
    ensures
        m == int_abs(x as int),
{
    if x >= 0 {
        x as u64
    } else {
        let w: i64 = -(x as i64);
        w as u64
    }
}

/// Divides `x` by `y`, truncating toward zero; returns zero when `y == 0`.
pub fn div(x: i32, y: i32) -> (r: i32)
    requires
        !(x == i32::MIN && y == -1),
    ensures
        r == spec_div(x, y),
{
    if y == 0 {
        return 0;
    }
    let xm: u64 = magnitude(x);
    let ym: u64 = magnitude(y);
    let q: u64 = xm / ym;
    proof {
        assert(q <= xm) by (nonlinear_arith)
            requires
                ym >= 1,
                q == xm as int / ym as int,
                xm >= 0,
        ;
    }
    if (x < 0) != (y < 0) {
        let qi: i64 = -(q as i64);
        qi as i32
    } else {
        proof {
            if xm == 0x8000_0000 {
                // x is the smallest value; with equal signs y is negative,
                // and y == -1 is excluded, so the divisor magnitude is at
                // least two and the quotient at most a quarter of the range.
                assert(ym >= 2);
                assert(q <= 0x4000_0000) by (nonlinear_arith)
                    requires
                        ym >= 2,
                        q == xm as int / ym as int,
                        xm == 0x8000_0000,
                ;
            }
        }
        q as i32
    }
}

/// The remainder of truncating division: it carries the sign of `x`.
pub open spec fn trunc_rem(x: int, y: int) -> int
    recommends
        y != 0,
{
    let m = int_abs(x) as int % int_abs(y) as int;
    if x < 0 {
        -m
    } else {
        m
    }
}

/// The remainder of `x / y` truncated toward zero, or zero when `y == 0`.
pub open spec fn spec_rem(x: i32, y: i32) -> i32 {
    if y == 0 {
        0
    } else {
        trunc_rem(x as int, y as int) as i32
    }
}

/// The remainder of dividing `x` by `y`; returns zero when `y == 0`.
pub fn rem(x: i32, y: i32) -> (r: i32)
    requires
        !(x == i32::MIN && y == -1),
    ensures
        r == spec_rem(x, y),
{
    if y == 0 {
        return 0;
    }
    let xm: u64 = magnitude(x);
    let ym: u64 = magnitude(y);
    let m: u64 = xm % ym;
    proof {
        assert(m < ym) by (nonlinear_arith)
            requires
                ym >= 1,
                m == xm as int % ym as int,
                xm >= 0,
        ;
    }
    if x < 0 {
        let mi: i64 = -(m as i64);
        mi as i32
    } else {
        m as i32
    }
}

/// The absolute value, on inputs where it is representable.
pub open spec fn spec_abs(x: i32) -> i32 {
    if x < 0 {
        (-(x as int)) as i32
    } else {
        x
    }
}

/// Returns the absolute value of `x`.
pub fn abs(x: i32) -> (r: i32)
    requires
        x != i32::MIN,
    ensures
        r == spec_abs(x),
{
    if x < 0 {
        -x
    } else {
        x
    }
}

/// The larger of the two values.
pub open spec fn spec_max(x: i32, y: i32) -> i32 {
    if x > y {
        x
    } else {
        y
    }
}

/// Returns the maximum of two integers.
pub fn max(x: i32, y: i32) -> (r: i32)
    ensures
        r == spec_max(x, y),
{
    if x > y {
        x
    } else {
        y
    }
}

/// The smaller of the two values.
pub open spec fn spec_min(x: i32, y: i32) -> i32 {
    if x < y {
        x
    } else {
        y
    }
}

/// Returns the minimum of two integers.
pub fn min(x: i32, y: i32) -> (r: i32)
    ensures
        r == spec_min(x, y),
{
    if x < y {
        x
    } else {
        y
    }
}

/// `x` multiplied into one `n` times, each step wrapping around: the
/// left-to-right product the module's loop computes.
pub open spec fn pow_wrap(x: i32, n: nat) -> i32
    decreases n,
{
    if n == 0 {
        1
    } else {
        i32_specs::wrapping_mul(pow_wrap(x, (n - 1) as nat), x)
    }
}

/// `x` raised to `y` with wrapping multiplication, or zero for a negative
/// exponent.
pub open spec fn spec_pow(x: i32, y: i32) -> i32 {
    if y < 0 {
        0
    } else {
        pow_wrap(x, y as nat)
    }
}

/// Calculates `x` raised to the power of `y`; a negative exponent yields
/// zero.
pub fn pow(x: i32, y: i32) -> (r: i32)
    ensures
        r == spec_pow(x, y),
{
    if y < 0 {
        return 0;
    }
    let mut result: i32 = 1;
    let mut i: i32 = 0;
    while i < y
        invariant
            0 <= i <= y,
            result == pow_wrap(x, i as nat),
        decreases y - i,
    {
        result = result.wrapping_mul(x);
        i = i + 1;
    }
    result
}

} // verus!
