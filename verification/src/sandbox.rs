//! The sandbox: compiling raw bytes to a module, creating one fresh,
//! isolated instance per call, resolving the requested export against the
//! arity table, and invoking it.
//!
//! Every call into the `wasmi` runtime goes through one trusted wrapper
//! here.  What a wrapper returns is named by an uninterpreted spec function
//! of the raw bytes (and export name and operands): the runtime is
//! deterministic for a fixed byte sequence, so each such result is a
//! function of those values alone.  The pipeline structs carry the byte
//! sequence along beside the runtime values, and each stage consumes its
//! predecessor, so an instance is created, used for at most one call, and
//! discarded — never shared or reused.

use vstd::prelude::*;

use crate::errors::{outcome_of, ErrorKind, ExecError};
use crate::validate::MathFn;

verus! {

#[verifier::external_type_specification]
#[verifier::external_body]
pub struct ExEngine(wasmi::Engine);

#[verifier::external_type_specification]
#[verifier::external_body]
pub struct ExModule(wasmi::Module);

#[verifier::external_type_specification]
#[verifier::external_body]
#[verifier::reject_recursive_types(T)]
pub struct ExStore<T>(wasmi::Store<T>);

#[verifier::external_type_specification]
#[verifier::external_body]
pub struct ExInstance(wasmi::Instance);

#[verifier::external_type_specification]
#[verifier::external_body]
pub struct ExFunc(wasmi::Func);

#[verifier::external_type_specification]
#[verifier::external_body]
#[verifier::reject_recursive_types(Params)]
#[verifier::reject_recursive_types(Results)]
pub struct ExTypedFunc<Params, Results>(wasmi::TypedFunc<Params, Results>);

/// Whether the runtime accepts the byte sequence as a module: it parses and
/// validates under the runtime's default configuration.
pub uninterp spec fn module_parses(bytes: Seq<u8>) -> bool;

/// Whether a fresh instantiation of the parsed module, with no imports
/// supplied, succeeds: the module imports nothing it cannot get, and its
/// start function, if any, does not trap.
pub uninterp spec fn module_instantiates(bytes: Seq<u8>) -> bool;

/// Whether the instantiated module exports a function of the given name.
pub uninterp spec fn module_has_export(bytes: Seq<u8>, name: Seq<char>) -> bool;

/// Whether the named export takes one 32-bit integer and returns one.
pub uninterp spec fn export_is_unary(bytes: Seq<u8>, name: Seq<char>) -> bool;

/// Whether the named export takes two 32-bit integers and returns one.
pub uninterp spec fn export_is_binary(bytes: Seq<u8>, name: Seq<char>) -> bool;

/// What one call of the named unary export on a fresh instance returns:
/// the result value, or `None` if the call traps.
pub uninterp spec fn unary_call_result(bytes: Seq<u8>, name: Seq<char>, a: i32) -> Option<i32>;

/// What one call of the named binary export on a fresh instance returns:
/// the result value, or `None` if the call traps.
pub uninterp spec fn binary_call_result(bytes: Seq<u8>, name: Seq<char>, a: i32, b: i32) -> Option<
    i32,
>;

/// A parsed, validated module, with the bytes it was compiled from.
struct CompiledModule {
    engine: wasmi::Engine,
    module: wasmi::Module,
    src: Vec<u8>,
}

/// One fresh instance, owned by the call that created it.
struct SandboxInstance {
    store: wasmi::Store<()>,
    instance: wasmi::Instance,
    src: Vec<u8>,
}

/// A resolved export of a fresh instance.
struct ResolvedExport {
    store: wasmi::Store<()>,
    func: wasmi::Func,
    src: Vec<u8>,
    fname: String,
}

/// A resolved export whose signature matched one 32-bit parameter.
struct UnaryExport {
    store: wasmi::Store<()>,
    tfunc: wasmi::TypedFunc<(i32,), i32>,
    src: Vec<u8>,
    fname: String,
}

/// A resolved export whose signature matched two 32-bit parameters.
struct BinaryExport {
    store: wasmi::Store<()>,
    tfunc: wasmi::TypedFunc<(i32, i32), i32>,
    src: Vec<u8>,
    fname: String,
}

/// Relies on `wasmi::Engine::default`: an engine with the default
/// configuration, under which every later claim about the runtime is made.
#[verifier::external_body]
fn new_engine() -> wasmi::Engine {
    wasmi::Engine::default()
}

/// Relies on `wasmi::Module::new`: parses and validates the byte buffer,
/// succeeding exactly on the byte sequences the runtime accepts; the
/// verdict is deterministic in the bytes for the default configuration.
#[verifier::external_body]
fn compile(engine: wasmi::Engine, bytes: &Vec<u8>) -> (r: Result<CompiledModule, String>)
    ensures
        r is Ok <==> module_parses(bytes@),
        r matches Ok(cm) ==> cm.src@ == bytes@,
{
    match wasmi::Module::new(&engine, bytes.as_slice()) {
        Ok(module) => Ok(CompiledModule { engine, module, src: bytes.clone() }),
        Err(e) => Err(e.to_string()),
    }
}

/// Relies on `wasmi::Store::new` and `wasmi::Instance::new`: a fresh store
/// and a fresh instance with no imports supplied.  The store is created
/// here from the module's own engine, because instantiating a module in a
/// store of a different engine is outside the runtime's contract.  Success
/// is deterministic in the bytes: it depends only on the module's imports
/// and its start function.
#[verifier::external_body]
fn instantiate(cm: CompiledModule) -> (r: Result<SandboxInstance, String>)
    ensures
        r is Ok <==> module_instantiates(cm.src@),
        r matches Ok(si) ==> si.src@ == cm.src@,
{
    let CompiledModule { engine, module, src } = cm;
    let mut store = wasmi::Store::new(&engine, ());
    match wasmi::Instance::new(&mut store, &module, &[]) {
        Ok(instance) => Ok(SandboxInstance { store, instance, src }),
        Err(e) => Err(e.to_string()),
    }
}

/// Relies on `wasmi::Instance::get_func`: returns the exported function of
/// the given name, or `None` if the module exports no function so named.
#[verifier::external_body]
fn find_export(si: SandboxInstance, name: &String) -> (r: Option<ResolvedExport>)
    ensures
        r is Some <==> module_has_export(si.src@, name@),
        r matches Some(re) ==> re.src@ == si.src@ && re.fname@ == name@,
{
    let SandboxInstance { store, instance, src } = si;
    match instance.get_func(&store, name.as_str()) {
        Some(func) => Some(ResolvedExport { store, func, src, fname: name.clone() }),
        None => None,
    }
}

/// Relies on `wasmi::Func::typed`: succeeds exactly when the export's
/// signature is one 32-bit integer parameter returning one 32-bit integer.
#[verifier::external_body]
fn typecheck_unary(re: ResolvedExport) -> (r: Result<UnaryExport, String>)
    ensures
        r is Ok <==> export_is_unary(re.src@, re.fname@),
        r matches Ok(ue) ==> ue.src@ == re.src@ && ue.fname@ == re.fname@,
{
    let ResolvedExport { store, func, src, fname } = re;
    match func.typed::<(i32,), i32>(&store) {
        Ok(tfunc) => Ok(UnaryExport { store, tfunc, src, fname }),
        Err(e) => Err(e.to_string()),
    }
}

/// Relies on `wasmi::Func::typed`: succeeds exactly when the export's
/// signature is two 32-bit integer parameters returning one 32-bit integer.
#[verifier::external_body]
fn typecheck_binary(re: ResolvedExport) -> (r: Result<BinaryExport, String>)
    ensures
        r is Ok <==> export_is_binary(re.src@, re.fname@),
        r matches Ok(be) ==> be.src@ == re.src@ && be.fname@ == re.fname@,
{
    let ResolvedExport { store, func, src, fname } = re;
    match func.typed::<(i32, i32), i32>(&store) {
        Ok(tfunc) => Ok(BinaryExport { store, tfunc, src, fname }),
        Err(e) => Err(e.to_string()),
    }
}

/// Relies on `wasmi::TypedFunc::call`: runs the export inside the sandbox.
/// The instance is consumed, so this is the single call ever made on it;
/// for a fixed byte sequence the result of that single call — a value, or a
/// trap — is deterministic in the operand.
#[verifier::external_body]
fn call_unary(ue: UnaryExport, a: i32) -> (r: Result<i32, String>)
    ensures
        r is Ok <==> unary_call_result(ue.src@, ue.fname@, a) is Some,
        r matches Ok(v) ==> unary_call_result(ue.src@, ue.fname@, a) == Some(v),
{
    let UnaryExport { mut store, tfunc, .. } = ue;
    match tfunc.call(&mut store, (a,)) {
        Ok(v) => Ok(v),
        Err(e) => Err(e.to_string()),
    }
}

/// Relies on `wasmi::TypedFunc::call`: runs the export inside the sandbox.
/// The instance is consumed, so this is the single call ever made on it;
/// for a fixed byte sequence the result of that single call — a value, or a
/// trap — is deterministic in the operands.
#[verifier::external_body]
fn call_binary(be: BinaryExport, a: i32, b: i32) -> (r: Result<i32, String>)
    ensures
        r is Ok <==> binary_call_result(be.src@, be.fname@, a, b) is Some,
        r matches Ok(v) ==> binary_call_result(be.src@, be.fname@, a, b) == Some(v),
{
    let BinaryExport { mut store, tfunc, .. } = be;
    match tfunc.call(&mut store, (a, b)) {
        Ok(v) => Ok(v),
        Err(e) => Err(e.to_string()),
    }
}

/// The outcome of running one allowed function against a byte sequence:
/// the staged pipeline empty-check, parse, instantiate, resolve, signature
/// match, invoke, each failure reported as its own domain.
pub open spec fn spec_run(bytes: Seq<u8>, f: MathFn, a: i32, b: i32) -> Result<i32, ErrorKind> {
    if bytes.len() == 0 {
        Err(ErrorKind::EmptyModule)
    } else if !module_parses(bytes) {
        Err(ErrorKind::InvalidModule)
    } else if !module_instantiates(bytes) {
        Err(ErrorKind::InstantiationError)
    } else if !module_has_export(bytes, f.spec_name()) {
        Err(ErrorKind::ExportNotFound)
    } else if f.spec_arity() == 1 {
        if !export_is_unary(bytes, f.spec_name()) {
            Err(ErrorKind::SignatureMismatch)
        } else {
            match unary_call_result(bytes, f.spec_name(), a) {
                Some(v) => Ok(v),
                None => Err(ErrorKind::ExecutionTrap),
            }
        }
    } else {
        if !export_is_binary(bytes, f.spec_name()) {
            Err(ErrorKind::SignatureMismatch)
        } else {
            match binary_call_result(bytes, f.spec_name(), a, b) {
                Some(v) => Ok(v),
                None => Err(ErrorKind::ExecutionTrap),
            }
        }
    }
}

/// Runs one allowed function of a module: rejects empty bytes, compiles,
/// creates one fresh instance, resolves the export named `name`, matches
/// its signature against the arity table, and invokes it with the
/// operand(s).  The second operand is ignored for a unary function.
pub fn run_module(bytes: &Vec<u8>, f: MathFn, name: &String, a: i32, b: i32) -> (r: Result<
    i32,
    ExecError,
>)
    requires
        name@ == f.spec_name(),
    ensures
        outcome_of(r) == spec_run(bytes@, f, a, b),
        r matches Err(ExecError::ExportNotFound { requested }) ==> requested@ == name@,
{
    if bytes.len() == 0 {
        return Err(ExecError::EmptyModule);
    }
    let engine = new_engine();
    let cm = match compile(engine, bytes) {
        Ok(cm) => cm,
        Err(detail) => {
            return Err(ExecError::InvalidModule { detail });
        },
    };
    let si = match instantiate(cm) {
        Ok(si) => si,
        Err(detail) => {
            return Err(ExecError::InstantiationError { detail });
        },
    };
    let re = match find_export(si, name) {
        Some(re) => re,
        None => {
            return Err(ExecError::ExportNotFound { requested: name.clone() });
        },
    };
    if f.arity() == 1 {
        let ue = match typecheck_unary(re) {
            Ok(ue) => ue,
            Err(detail) => {
                return Err(ExecError::SignatureMismatch { detail });
            },
        };
        match call_unary(ue, a) {
            Ok(v) => Ok(v),
            Err(detail) => Err(ExecError::ExecutionTrap { detail }),
        }
    } else {
        let be = match typecheck_binary(re) {
            Ok(be) => be,
            Err(detail) => {
                return Err(ExecError::SignatureMismatch { detail });
            },
        };
        match call_binary(be, a, b) {
            Ok(v) => Ok(v),
            Err(detail) => Err(ExecError::ExecutionTrap { detail }),
        }
    }
}

} // verus!
