//! A verified execution engine for small WebAssembly arithmetic modules.
//!
//! Users store records holding raw module bytecode together with an owner
//! name; the engine turns a request `(record id, function name, two operands)`
//! into a validated, sandboxed invocation of that bytecode.  The pipeline
//! enforces an ownership gate, a closed allow-list of nine arithmetic
//! functions with per-function argument rules, a raw-byte cache keyed by
//! record id, and a fresh sandbox instance per call, and reports the outcome
//! as a structured response with an HTTP status code.
//!
//! The WebAssembly runtime itself (the `wasmi` crate) is reached only through
//! a small set of trusted wrappers in [`sandbox`]; everything around those
//! calls is verified.

pub mod auth;
pub mod crud;
pub mod errors;
pub mod execute;
pub mod laws;
pub mod math;
pub mod models;
pub mod sandbox;
pub mod state;
pub mod validate;
