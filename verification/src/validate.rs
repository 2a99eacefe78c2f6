//! The allow-list and argument validator: a pure function from a requested
//! function name and two operands to accept-or-reject with a reason.  It runs
//! before any bytecode is touched, so pathological inputs never reach the
//! sandbox.

use vstd::prelude::*;

use crate::errors::{outcome_of, ErrorKind, ExecError};

verus! {

/// Operands below this value are rejected.
pub const MIN_ARGUMENT: i32 = -1000000;

/// Operands above this value are rejected.
pub const MAX_ARGUMENT: i32 = 1000000;

/// The largest exponent `pow` accepts.
pub const MAX_POW_EXPONENT: i32 = 10;

/// The nine functions of the fixed allowed set.
#[derive(Clone, Copy, Debug, PartialEq, Eq, Structural)]
pub enum MathFn {
    Add,
    Mul,
    Sub,
    Div,
    Rem,
    Abs,
    Max,
    Min,
    Pow,
}

impl MathFn {
    /// The export name of this function.
    pub open spec fn spec_name(self) -> Seq<char> {
        match self {
            MathFn::Add => "add"@,
            MathFn::Mul => "mul"@,
            MathFn::Sub => "sub"@,
            MathFn::Div => "div"@,
            MathFn::Rem => "rem"@,
            MathFn::Abs => "abs"@,
            MathFn::Max => "max"@,
            MathFn::Min => "min"@,
            MathFn::Pow => "pow"@,
        }
    }

    /// The export name of this function.
    pub fn name(self) -> (s: String)
        ensures
            s@ == self.spec_name(),
    {
        match self {
            MathFn::Add => String::from_str("add"),
            MathFn::Mul => String::from_str("mul"),
            MathFn::Sub => String::from_str("sub"),
            MathFn::Div => String::from_str("div"),
            MathFn::Rem => String::from_str("rem"),
            MathFn::Abs => String::from_str("abs"),
            MathFn::Max => String::from_str("max"),
            MathFn::Min => String::from_str("min"),
            MathFn::Pow => String::from_str("pow"),
        }
    }

    /// The number of operands this function takes: the dispatch table of the
    /// signature dispatcher.  `abs` is unary; the other eight are binary.
    pub open spec fn spec_arity(self) -> int {
        if self is Abs {
            1
        } else {
            2
        }
    }

    /// The number of operands this function takes.
    pub fn arity(self) -> (n: usize)
        ensures
            n == self.spec_arity(),
    {
        match self {
            MathFn::Abs => 1,
            _ => 2,
        }
    }

    /// The position of this function in the fixed allowed-function table,
    /// used as the index of its invocation counter.
    pub open spec fn spec_table_index(self) -> int {
        match self {
            MathFn::Add => 0,
            MathFn::Mul => 1,
            MathFn::Sub => 2,
            MathFn::Div => 3,
            MathFn::Rem => 4,
            MathFn::Abs => 5,
            MathFn::Max => 6,
            MathFn::Min => 7,
            MathFn::Pow => 8,
        }
    }

    /// The position of this function in the fixed allowed-function table.
    pub fn table_index(self) -> (i: usize)
        ensures
            i == self.spec_table_index(),
    {
        match self {
            MathFn::Add => 0,
            MathFn::Mul => 1,
            MathFn::Sub => 2,
            MathFn::Div => 3,
            MathFn::Rem => 4,
            MathFn::Abs => 5,
            MathFn::Max => 6,
            MathFn::Min => 7,
            MathFn::Pow => 8,
        }
    }
}

/// How many functions the allowed set holds.
pub const ALLOWED_FUNCTION_COUNT: usize = 9;

/// Which allowed function a requested name denotes, if any.
pub open spec fn spec_parse_fn(s: Seq<char>) -> Option<MathFn> {
    if s == "add"@ {
        Some(MathFn::Add)
    } else if s == "mul"@ {
        Some(MathFn::Mul)
    } else if s == "sub"@ {
        Some(MathFn::Sub)
    } else if s == "div"@ {
        Some(MathFn::Div)
    } else if s == "rem"@ {
        Some(MathFn::Rem)
    } else if s == "abs"@ {
        Some(MathFn::Abs)
    } else if s == "max"@ {
        Some(MathFn::Max)
    } else if s == "min"@ {
        Some(MathFn::Min)
    } else if s == "pow"@ {
        Some(MathFn::Pow)
    } else {
        None
    }
}

/// A parsed name is the name of what it parses to.
pub proof fn lemma_parse_fn_name(s: Seq<char>)
    ensures
        spec_parse_fn(s) matches Some(f) ==> s == f.spec_name(),
{
}

/// Which allowed function a requested name denotes, if any.
pub fn parse_fn(name: &String) -> (r: Option<MathFn>)
    ensures
        r == spec_parse_fn(name@),
{
    if *name == String::from_str("add") {
        Some(MathFn::Add)
    } else if *name == String::from_str("mul") {
        Some(MathFn::Mul)
    } else if *name == String::from_str("sub") {
        Some(MathFn::Sub)
    } else if *name == String::from_str("div") {
        Some(MathFn::Div)
    } else if *name == String::from_str("rem") {
        Some(MathFn::Rem)
    } else if *name == String::from_str("abs") {
        Some(MathFn::Abs)
    } else if *name == String::from_str("max") {
        Some(MathFn::Max)
    } else if *name == String::from_str("min") {
        Some(MathFn::Min)
    } else if *name == String::from_str("pow") {
        Some(MathFn::Pow)
    } else {
        None
    }
}

/// Whether an operand lies inside the accepted range.
pub open spec fn in_range(v: i32) -> bool {
    MIN_ARGUMENT <= v <= MAX_ARGUMENT
}

/// The verdict of argument validation for an allowed function: the generic
/// range check first, then the function-specific rule.
pub open spec fn spec_validate_args(f: MathFn, a: i32, b: i32) -> Result<(), ErrorKind> {
    if !in_range(a) || !in_range(b) {
        Err(ErrorKind::ArgumentOutOfRange)
    } else if (f is Div || f is Rem) && b == 0 {
        Err(ErrorKind::DivisionByZero)
    } else if f is Pow && (b < 0 || b > MAX_POW_EXPONENT) {
        Err(ErrorKind::ExponentOutOfRange)
    } else {
        Ok(())
    }
}

/// The verdict of the whole validator: allow-list first, then arguments.
pub open spec fn spec_validate(name: Seq<char>, a: i32, b: i32) -> Result<MathFn, ErrorKind> {
    match spec_parse_fn(name) {
        None => Err(ErrorKind::FunctionNotAllowed),
        Some(f) => match spec_validate_args(f, a, b) {
            Ok(()) => Ok(f),
            Err(k) => Err(k),
        },
    }
}

/// Checks the operands of an allowed function: both must lie in
/// `[MIN_ARGUMENT, MAX_ARGUMENT]`; `div` and `rem` reject a zero second
/// operand; `pow` rejects an exponent below zero or above
/// `MAX_POW_EXPONENT`.
pub fn validate_arguments(f: MathFn, a: i32, b: i32) -> (r: Result<(), ExecError>)
    ensures
        outcome_of(r) == spec_validate_args(f, a, b),
        r matches Err(ExecError::ArgumentOutOfRange { index, value }) ==> if !in_range(a) {
            index == 0 && value == a
        } else {
            index == 1 && value == b
        },
{
    if a < MIN_ARGUMENT || a > MAX_ARGUMENT {
        return Err(ExecError::ArgumentOutOfRange { index: 0, value: a });
    }
    if b < MIN_ARGUMENT || b > MAX_ARGUMENT {
        return Err(ExecError::ArgumentOutOfRange { index: 1, value: b });
    }
    match f {
        MathFn::Div | MathFn::Rem => {
            if b == 0 {
                return Err(ExecError::DivisionByZero);
            }
        },
        MathFn::Pow => {
            if b < 0 || b > MAX_POW_EXPONENT {
                return Err(ExecError::ExponentOutOfRange);
            }
        },
        _ => {},
    }
    Ok(())
}

/// The whole validator: rejects a name outside the allowed set, then checks
/// the operands by [`validate_arguments`].
pub fn validate_request(name: &String, a: i32, b: i32) -> (r: Result<MathFn, ExecError>)
    ensures
        outcome_of(r) == spec_validate(name@, a, b),
        r matches Err(ExecError::FunctionNotAllowed { requested }) ==> requested@ == name@,
        r matches Err(ExecError::ArgumentOutOfRange { index, value }) ==> if !in_range(a) {
            index == 0 && value == a
        } else {
            index == 1 && value == b
        },
{
    match parse_fn(name) {
        None => Err(ExecError::FunctionNotAllowed { requested: name.clone() }),
        Some(f) => match validate_arguments(f, a, b) {
            Ok(()) => Ok(f),
            Err(e) => Err(e),
        },
    }
}

} // verus!
