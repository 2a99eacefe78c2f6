//! The error taxonomy of the engine: one variant per failure domain, each
//! mapped to exactly one HTTP status code and one human-readable message.

use vstd::prelude::*;

verus! {

/// A failure of the execution pipeline.  Variants that report a runtime
/// detail carry the runtime's own message text.
#[derive(Clone, Debug, PartialEq, Eq)]
pub enum ExecError {
    /// The requested record id is not in the record store.
    NotFound,
    /// The caller is not the owner of the record.
    Forbidden,
    /// The requested function name is not in the fixed allowed set.
    FunctionNotAllowed { requested: String },
    /// An operand lies outside the accepted range; `index` is the position
    /// (0 or 1) and `value` the operand of the first offending argument.
    ArgumentOutOfRange { index: usize, value: i32 },
    /// `div` or `rem` was requested with a second operand of zero.
    DivisionByZero,
    /// `pow` was requested with an exponent below zero or above ten.
    ExponentOutOfRange,
    /// The record's bytecode is the empty byte sequence.
    EmptyModule,
    /// The bytecode does not parse or validate as a module.
    InvalidModule { detail: String },
    /// Instantiation of the parsed module failed.
    InstantiationError { detail: String },
    /// The module has no exported function of the requested name.
    ExportNotFound { requested: String },
    /// The export exists but its type does not match the expected shape.
    SignatureMismatch { detail: String },
    /// The invocation trapped inside the sandbox.
    ExecutionTrap { detail: String },
}

/// The failure domain of an [`ExecError`], with the detail text stripped:
/// what the contracts compare, since detail text originates in the runtime.
#[derive(Clone, Copy, Debug, PartialEq, Eq, Structural)]
pub enum ErrorKind {
    NotFound,
    Forbidden,
    FunctionNotAllowed,
    ArgumentOutOfRange,
    DivisionByZero,
    ExponentOutOfRange,
    EmptyModule,
    InvalidModule,
    InstantiationError,
    ExportNotFound,
    SignatureMismatch,
    ExecutionTrap,
}

/// The failure domain of an error value.
pub open spec fn kind_of(e: ExecError) -> ErrorKind {
    match e {
        ExecError::NotFound => ErrorKind::NotFound,
        ExecError::Forbidden => ErrorKind::Forbidden,
        ExecError::FunctionNotAllowed { .. } => ErrorKind::FunctionNotAllowed,
        ExecError::ArgumentOutOfRange { .. } => ErrorKind::ArgumentOutOfRange,
        ExecError::DivisionByZero => ErrorKind::DivisionByZero,
        ExecError::ExponentOutOfRange => ErrorKind::ExponentOutOfRange,
        ExecError::EmptyModule => ErrorKind::EmptyModule,
        ExecError::InvalidModule { .. } => ErrorKind::InvalidModule,
        ExecError::InstantiationError { .. } => ErrorKind::InstantiationError,
        ExecError::ExportNotFound { .. } => ErrorKind::ExportNotFound,
        ExecError::SignatureMismatch { .. } => ErrorKind::SignatureMismatch,
        ExecError::ExecutionTrap { .. } => ErrorKind::ExecutionTrap,
    }
}

/// An outcome with its detail text stripped to the failure domain.
pub open spec fn outcome_of<T>(r: Result<T, ExecError>) -> Result<T, ErrorKind> {
    match r {
        Result::Ok(v) => Result::Ok(v),
        Result::Err(e) => Result::Err(kind_of(e)),
    }
}

/// The HTTP status code of a failure domain.
pub open spec fn spec_status_of_kind(k: ErrorKind) -> u16 {
    match k {
        ErrorKind::NotFound => 404,
        ErrorKind::Forbidden => 403,
        ErrorKind::InstantiationError => 500,
        ErrorKind::ExecutionTrap => 500,
        _ => 400,
    }
}

/// The HTTP status code of an outcome: 200 on success, else the error's code.
pub open spec fn spec_status_of<T>(r: Result<T, ErrorKind>) -> u16 {
    match r {
        Result::Ok(_) => 200,
        Result::Err(k) => spec_status_of_kind(k),
    }
}

/// The message text of each error, over the views of its detail payloads.
pub open spec fn spec_message(e: ExecError) -> Seq<char> {
    match e {
        ExecError::NotFound => "Record not found"@,
        ExecError::Forbidden => "Access denied: you can only execute your own WASM modules"@,
        ExecError::FunctionNotAllowed { requested } => "Function '"@ + requested@
            + "' not allowed. Available functions: add, mul, sub, div, rem, abs, max, min, pow"@,
        ExecError::ArgumentOutOfRange { .. } => "Argument out of range [-1000000, 1000000]"@,
        ExecError::DivisionByZero => "Division by zero"@,
        ExecError::ExponentOutOfRange => "Power exponent must be 0-10"@,
        ExecError::EmptyModule => "WASM bytecode is empty"@,
        ExecError::InvalidModule { detail } => "Invalid WASM: "@ + detail@,
        ExecError::InstantiationError { detail } => "WASM instantiation error: "@ + detail@,
        ExecError::ExportNotFound { requested } => "Function '"@ + requested@
            + "' not found in WASM module"@,
        ExecError::SignatureMismatch { detail } => "Function signature error: "@ + detail@,
        ExecError::ExecutionTrap { detail } => "WASM execution error: "@ + detail@,
    }
}

impl ExecError {
    /// The HTTP status code this error maps to.
    pub fn status(&self) -> (s: u16)
        ensures
            s == spec_status_of_kind(kind_of(*self)),
    {
        match self {
            ExecError::NotFound => 404,
            ExecError::Forbidden => 403,
            ExecError::InstantiationError { .. } => 500,
            ExecError::ExecutionTrap { .. } => 500,
            _ => 400,
        }
    }

    /// The human-readable message of this error.
    pub fn message(&self) -> (m: String)
        ensures
            m@ == spec_message(*self),
    {
        match self {
            ExecError::NotFound => String::from_str("Record not found"),
            ExecError::Forbidden => String::from_str(
                "Access denied: you can only execute your own WASM modules",
            ),
            ExecError::FunctionNotAllowed { requested } => {
                let m = String::from_str("Function '");
                let m = m.concat(requested.as_str());
                m.concat(
                    "' not allowed. Available functions: add, mul, sub, div, rem, abs, max, min, pow",
                )
            },
            ExecError::ArgumentOutOfRange { .. } => String::from_str(
                "Argument out of range [-1000000, 1000000]",
            ),
            ExecError::DivisionByZero => String::from_str("Division by zero"),
            ExecError::ExponentOutOfRange => String::from_str("Power exponent must be 0-10"),
            ExecError::EmptyModule => String::from_str("WASM bytecode is empty"),
            ExecError::InvalidModule { detail } => {
                let m = String::from_str("Invalid WASM: ");
                m.concat(detail.as_str())
            },
            ExecError::InstantiationError { detail } => {
                let m = String::from_str("WASM instantiation error: ");
                m.concat(detail.as_str())
            },
            ExecError::ExportNotFound { requested } => {
                let m = String::from_str("Function '");
                let m = m.concat(requested.as_str());
                m.concat("' not found in WASM module")
            },
            ExecError::SignatureMismatch { detail } => {
                let m = String::from_str("Function signature error: ");
                m.concat(detail.as_str())
            },
            ExecError::ExecutionTrap { detail } => {
                let m = String::from_str("WASM execution error: ");
                m.concat(detail.as_str())
            },
        }
    }
}

} // verus!
