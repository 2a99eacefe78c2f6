//! The execution orchestrator: sequences the ownership gate, the validator,
//! the cache, and the sandbox, shapes the response, and steps the counters.
//! Any failure goes straight to the response; exactly one response is
//! produced per request, and no partial result is ever returned.

use vstd::prelude::*;

use crate::errors::{outcome_of, spec_message, spec_status_of, ErrorKind, ExecError};
use crate::models::{clone_bytes, DataEntryView};
use crate::sandbox::{run_module, spec_run};
use crate::state::{inc64, AppStateInner};
use crate::validate::{
    lemma_parse_fn_name, parse_fn, spec_parse_fn, spec_validate, validate_arguments, MathFn,
};

verus! {

/// The response produced for every execution request, success or failure.
#[derive(Clone, Debug)]
pub struct ExecResponse {
    pub success: bool,
    pub result: Option<i32>,
    pub error: Option<String>,
    pub function: String,
    pub operand_a: i32,
    pub operand_b: i32,
    pub owner: String,
}

/// One terminal reply: the raw outcome, the HTTP status code it maps to,
/// and the response body.
#[derive(Debug)]
pub struct ExecReply {
    pub outcome: Result<i32, ExecError>,
    pub status: u16,
    pub response: ExecResponse,
}

/// The bytes an execution of `id` works on: the cached entry if present,
/// else the record's own bytecode.
pub open spec fn spec_effective_bytes(
    data: Map<u32, DataEntryView>,
    cache: Map<u32, Seq<u8>>,
    id: u32,
) -> Seq<u8> {
    if cache.contains_key(id) {
        cache[id]
    } else {
        data[id].bytecode
    }
}

/// Whether the request passes the ownership gate: the record exists and the
/// caller is its owner.
pub open spec fn spec_gate_passes(
    data: Map<u32, DataEntryView>,
    user: Seq<char>,
    id: u32,
) -> bool {
    data.contains_key(id) && data[id].owner == user
}

/// Whether the pipeline reaches the loading stage: the record exists, the
/// caller owns it, and the validator accepts the request.
pub open spec fn spec_reaches_load(
    data: Map<u32, DataEntryView>,
    user: Seq<char>,
    id: u32,
    name: Seq<char>,
    a: i32,
    b: i32,
) -> bool {
    spec_gate_passes(data, user, id) && spec_validate(name, a, b) is Ok
}

/// Which allowed function the request's counter is stepped for: the parsed
/// name, provided the caller owns the record — a rejected caller or an
/// unknown name steps no per-function counter.
pub open spec fn spec_counted(
    data: Map<u32, DataEntryView>,
    user: Seq<char>,
    id: u32,
    name: Seq<char>,
) -> Option<MathFn> {
    if spec_gate_passes(data, user, id) {
        spec_parse_fn(name)
    } else {
        None
    }
}

/// The outcome of one execution request against a record store and cache:
/// the ownership gate, then the validator, then the staged sandbox run on
/// the effective bytes.
pub open spec fn spec_execute(
    data: Map<u32, DataEntryView>,
    cache: Map<u32, Seq<u8>>,
    user: Seq<char>,
    id: u32,
    name: Seq<char>,
    a: i32,
    b: i32,
) -> Result<i32, ErrorKind> {
    if !data.contains_key(id) {
        Err(ErrorKind::NotFound)
    } else if data[id].owner != user {
        Err(ErrorKind::Forbidden)
    } else {
        match spec_validate(name, a, b) {
            Err(k) => Err(k),
            Ok(f) => spec_run(spec_effective_bytes(data, cache, id), f, a, b),
        }
    }
}

/// The outcome of an owner's request against given bytecode with no cache
/// entry in the way: the validator's verdict, then the sandbox run on
/// exactly those bytes.
pub open spec fn spec_run_after_update(
    bytes: Seq<u8>,
    name: Seq<char>,
    a: i32,
    b: i32,
) -> Result<i32, ErrorKind> {
    match spec_validate(name, a, b) {
        Err(k) => Err(k),
        Ok(f) => spec_run(bytes, f, a, b),
    }
}

/// The owner name echoed in the response: the record's owner when the
/// record exists, empty otherwise.
pub open spec fn spec_echoed_owner(data: Map<u32, DataEntryView>, id: u32) -> Seq<char> {
    if data.contains_key(id) {
        data[id].owner
    } else {
        Seq::<char>::empty()
    }
}

/// `x + 1`, saturating: the counters only ever grow.
fn inc_u64(x: u64) -> (y: u64)
    ensures
        y == inc64(x),
{
    if x < u64::MAX {
        x + 1
    } else {
        x
    }
}

/// Steps the counters and shapes the reply for a finished request.
fn finish(
    state: &mut AppStateInner,
    outcome: Result<i32, ExecError>,
    func: &String,
    a: i32,
    b: i32,
    owner: String,
    counted: Option<MathFn>,
) -> (reply: ExecReply)
    requires
        old(state).wf(),
    ensures
        final(state).wf(),
        old(state).metrics.stepped(final(state).metrics, outcome is Ok, counted),
        final(state).data == old(state).data,
        final(state).users == old(state).users,
        final(state).refresh_tokens == old(state).refresh_tokens,
        final(state).wasm_cache == old(state).wasm_cache,
        final(state).rate_limiter == old(state).rate_limiter,
        reply.outcome == outcome,
        reply.status == spec_status_of(outcome_of(outcome)),
        reply.response.success == (outcome is Ok),
        reply.response.result == (match outcome {
            Ok(v) => Some(v),
            Err(_) => None::<i32>,
        }),
        (match outcome {
            Ok(_) => reply.response.error is None,
            Err(e) => reply.response.error matches Some(m) && m@ == spec_message(e),
        }),
        reply.response.function@ == func@,
        reply.response.operand_a == a,
        reply.response.operand_b == b,
        reply.response.owner == owner,
{
    state.metrics.total_executions = inc_u64(state.metrics.total_executions);
    match outcome {
        Ok(_) => {
            state.metrics.successful_executions = inc_u64(state.metrics.successful_executions);
        },
        Err(_) => {
            state.metrics.failed_executions = inc_u64(state.metrics.failed_executions);
        },
    }
    match counted {
        Some(f) => {
            let i = f.table_index();
            let c = state.metrics.function_counts[i];
            state.metrics.function_counts[i] = inc_u64(c);
        },
        None => {},
    }
    match outcome {
        Ok(v) => ExecReply {
            outcome,
            status: 200,
            response: ExecResponse {
                success: true,
                result: Some(v),
                error: None,
                function: func.clone(),
                operand_a: a,
                operand_b: b,
                owner,
            },
        },
        Err(e) => {
            let status = e.status();
            let message = e.message();
            ExecReply {
                outcome: Err(e),
                status,
                response: ExecResponse {
                    success: false,
                    result: None,
                    error: Some(message),
                    function: func.clone(),
                    operand_a: a,
                    operand_b: b,
                    owner,
                },
            }
        },
    }
}

/// Executes one request: looks the record up and checks ownership, runs the
/// allow-list and argument validator, loads the bytes through the cache
/// (filling it on a miss), runs the sandbox pipeline on them, steps the
/// counters, and shapes exactly one response.
pub fn execute_fn(
    state: &mut AppStateInner,
    username: &String,
    id: u32,
    func: &String,
    a: i32,
    b: i32,
) -> (reply: ExecReply)
    requires
        old(state).wf(),
    ensures
        final(state).wf(),
        // the outcome is the specified pipeline verdict on the old state
        outcome_of(reply.outcome) == spec_execute(
            old(state).records(),
            old(state).cached(),
            username@,
            id,
            func@,
            a,
            b,
        ),
        // response shaping
        reply.status == spec_status_of(outcome_of(reply.outcome)),
        reply.response.success == (reply.outcome is Ok),
        reply.response.result == (match reply.outcome {
            Ok(v) => Some(v),
            Err(_) => None::<i32>,
        }),
        (match reply.outcome {
            Ok(_) => reply.response.error is None,
            Err(e) => reply.response.error matches Some(m) && m@ == spec_message(e),
        }),
        reply.response.function@ == func@,
        reply.response.operand_a == a,
        reply.response.operand_b == b,
        reply.response.owner@ == spec_echoed_owner(old(state).records(), id),
        // payload exactness of the validator errors
        reply.outcome matches Err(ExecError::FunctionNotAllowed { requested }) ==> requested@
            == func@,
        reply.outcome matches Err(ExecError::ExportNotFound { requested }) ==> requested@ == func@,
        // the record store, credentials, tokens and limiter are untouched
        final(state).data == old(state).data,
        final(state).users == old(state).users,
        final(state).refresh_tokens == old(state).refresh_tokens,
        final(state).rate_limiter == old(state).rate_limiter,
        // the cache is filled exactly on a miss that reached loading
        (spec_reaches_load(old(state).records(), username@, id, func@, a, b) && !old(
            state,
        ).wasm_cache@.contains_key(id)) ==> final(state).cached() =~= old(state).cached().insert(
            id,
            old(state).records()[id].bytecode,
        ),
        !(spec_reaches_load(old(state).records(), username@, id, func@, a, b) && !old(
            state,
        ).wasm_cache@.contains_key(id)) ==> final(state).wasm_cache == old(state).wasm_cache,
        // counters step as one execution
        old(state).metrics.stepped(
            final(state).metrics,
            reply.outcome is Ok,
            spec_counted(old(state).records(), username@, id, func@),
        ),
        // a consistent cache stays consistent
        old(state).cache_consistent() ==> final(state).cache_consistent(),
{
    // Ownership gate: the record must exist and belong to the caller.
    let looked: Option<(String, Vec<u8>)> = match state.lookup_record(id) {
        None => None,
        Some(e) => Some((e.owner.clone(), clone_bytes(&e.bytecode))),
    };
    let (owner, record_bytes) = match looked {
        None => {
            return finish(state, Err(ExecError::NotFound), func, a, b, String::new(), None);
        },
        Some(p) => p,
    };
    if *username != owner {
        return finish(state, Err(ExecError::Forbidden), func, a, b, owner, None);
    }
    // Allow-list, then argument validation.
    let f = match parse_fn(func) {
        None => {
            let e = ExecError::FunctionNotAllowed { requested: func.clone() };
            return finish(state, Err(e), func, a, b, owner, None);
        },
        Some(f) => f,
    };
    match validate_arguments(f, a, b) {
        Err(e) => {
            return finish(state, Err(e), func, a, b, owner, Some(f));
        },
        Ok(()) => {},
    }
    // Load through the cache, filling it on a miss.
    let cached: Option<Vec<u8>> = match state.cache_lookup(id) {
        Some(cb) => Some(clone_bytes(cb)),
        None => None,
    };
    let bytes: Vec<u8> = match cached {
        Some(cb) => cb,
        None => {
            state.cache_store(id, clone_bytes(&record_bytes));
            proof {
                assert(state.cached() =~= old(state).cached().insert(
                    id,
                    old(state).records()[id].bytecode,
                ));
            }
            record_bytes
        },
    };
    // Sandbox: compile, instantiate, resolve, dispatch, invoke.
    proof {
        lemma_parse_fn_name(func@);
    }
    let outcome = run_module(&bytes, f, func, a, b);
    finish(state, outcome, func, a, b, owner, Some(f))
}

} // verus!
