//! Unit tests of the allow-list and argument validator.

use wasm_exec::errors::ExecError;
use wasm_exec::validate::{parse_fn, validate_arguments, validate_request, MathFn};

#[test]
fn test_parse_fn_accepts_the_nine_names() {
    let cases = vec![
        ("add", MathFn::Add),
        ("mul", MathFn::Mul),
        ("sub", MathFn::Sub),
        ("div", MathFn::Div),
        ("rem", MathFn::Rem),
        ("abs", MathFn::Abs),
        ("max", MathFn::Max),
        ("min", MathFn::Min),
        ("pow", MathFn::Pow),
    ];
    for (name, expected) in cases {
        assert_eq!(parse_fn(&name.to_string()), Some(expected));
    }
    assert_eq!(parse_fn(&"sqrt".to_string()), None);
    assert_eq!(parse_fn(&"ADD".to_string()), None);
    assert_eq!(parse_fn(&"".to_string()), None);
}

#[test]
fn test_arity_table() {
    assert_eq!(MathFn::Abs.arity(), 1);
    assert_eq!(MathFn::Add.arity(), 2);
    assert_eq!(MathFn::Pow.arity(), 2);
}

#[test]
fn test_unknown_name_rejected_with_allowed_set_in_message() {
    let r = validate_request(&"frobnicate".to_string(), 1, 2);
    match r {
        Err(e @ ExecError::FunctionNotAllowed { .. }) => {
            let msg = e.message();
            assert!(msg.contains("frobnicate"));
            assert!(msg.contains("add, mul, sub, div, rem, abs, max, min, pow"));
            assert_eq!(e.status(), 400);
        },
        other => panic!("expected FunctionNotAllowed, got {:?}", other),
    }
}

#[test]
fn test_operand_range_is_enforced() {
    for name in ["add", "mul", "sub", "div", "rem", "abs", "max", "min", "pow"] {
        let r = validate_request(&name.to_string(), 1000001, 0);
        assert!(
            matches!(r, Err(ExecError::ArgumentOutOfRange { index: 0, value: 1000001 })),
            "first operand out of range must be rejected for {}",
            name
        );
        let r2 = validate_request(&name.to_string(), 0, -1000001);
        assert!(
            matches!(r2, Err(ExecError::ArgumentOutOfRange { index: 1, value: -1000001 })),
            "second operand out of range must be rejected for {}",
            name
        );
    }
    // the bounds themselves are accepted
    assert!(validate_arguments(MathFn::Add, 1000000, -1000000).is_ok());
}

#[test]
fn test_div_rem_by_zero_rejected() {
    assert!(matches!(
        validate_request(&"div".to_string(), 100, 0),
        Err(ExecError::DivisionByZero)
    ));
    assert!(matches!(
        validate_request(&"rem".to_string(), 100, 0),
        Err(ExecError::DivisionByZero)
    ));
    // zero second operand is fine elsewhere
    assert!(validate_arguments(MathFn::Add, 100, 0).is_ok());
    assert_eq!(ExecError::DivisionByZero.status(), 400);
}

#[test]
fn test_pow_exponent_bounds() {
    assert!(matches!(
        validate_request(&"pow".to_string(), 2, -1),
        Err(ExecError::ExponentOutOfRange)
    ));
    assert!(matches!(
        validate_request(&"pow".to_string(), 2, 11),
        Err(ExecError::ExponentOutOfRange)
    ));
    assert_eq!(validate_request(&"pow".to_string(), 2, 0), Ok(MathFn::Pow));
    assert_eq!(validate_request(&"pow".to_string(), 2, 10), Ok(MathFn::Pow));
}

#[test]
fn test_range_check_precedes_function_rules() {
    // an out-of-range operand wins over the division-by-zero rule
    let r = validate_request(&"div".to_string(), 1000001, 0);
    assert!(matches!(r, Err(ExecError::ArgumentOutOfRange { .. })));
}
