//! Unit tests of the nine arithmetic functions: exact values, the
//! documented edge policies, and the wrapping behaviour at the range ends.

use wasm_exec::math;

#[test]
fn test_add_values() {
    assert_eq!(math::add(10, 20), 30);
    assert_eq!(math::add(-5, 5), 0);
    assert_eq!(math::add(i32::MAX, 1), i32::MIN); // wraps like the module
}

#[test]
fn test_mul_values() {
    assert_eq!(math::mul(6, 7), 42);
    assert_eq!(math::mul(-4, 3), -12);
    assert_eq!(math::mul(1000000, 1000000), 1000000i32.wrapping_mul(1000000));
}

#[test]
fn test_sub_clamps_to_zero() {
    assert_eq!(math::sub(20, 8), 12);
    assert_eq!(math::sub(8, 20), 0);
    assert_eq!(math::sub(-1, 1), 0);
    assert_eq!(math::sub(1, -1), 2);
}

#[test]
fn test_div_truncates_toward_zero() {
    assert_eq!(math::div(100, 5), 20);
    assert_eq!(math::div(7, 2), 3);
    assert_eq!(math::div(-7, 2), -3);
    assert_eq!(math::div(7, -2), -3);
    assert_eq!(math::div(-7, -2), 3);
    assert_eq!(math::div(5, 0), 0);
    assert_eq!(math::div(i32::MIN, 1), i32::MIN);
    assert_eq!(math::div(i32::MIN, 2), i32::MIN / 2);
}

#[test]
fn test_rem_carries_sign_of_dividend() {
    assert_eq!(math::rem(7, 2), 1);
    assert_eq!(math::rem(-7, 2), -1);
    assert_eq!(math::rem(7, -2), 1);
    assert_eq!(math::rem(-7, -2), -1);
    assert_eq!(math::rem(5, 0), 0);
}

#[test]
fn test_abs_values() {
    assert_eq!(math::abs(-5), 5);
    assert_eq!(math::abs(5), 5);
    assert_eq!(math::abs(0), 0);
    assert_eq!(math::abs(i32::MIN + 1), i32::MAX);
}

#[test]
fn test_max_min_values() {
    assert_eq!(math::max(-3, 9), 9);
    assert_eq!(math::max(9, -3), 9);
    assert_eq!(math::max(4, 4), 4);
    assert_eq!(math::min(-3, 9), -3);
    assert_eq!(math::min(9, -3), -3);
    assert_eq!(math::min(4, 4), 4);
}

#[test]
fn test_pow_values() {
    assert_eq!(math::pow(2, 10), 1024);
    assert_eq!(math::pow(5, 0), 1);
    assert_eq!(math::pow(5, 1), 5);
    assert_eq!(math::pow(-2, 3), -8);
    assert_eq!(math::pow(3, -1), 0); // negative exponent yields zero
    assert_eq!(math::pow(10, 10), 10i32.wrapping_pow(10)); // wraps
}
