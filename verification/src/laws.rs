//! The laws of the engine, each proved from the contracts the modules
//! state: what the validator rejects, what ownership protects, and how the
//! outcome of an execution depends on the stored records and nothing else.

use vstd::prelude::*;

use crate::errors::ErrorKind;
use crate::execute::{spec_effective_bytes, spec_execute, spec_run_after_update};
use crate::models::DataEntryView;
use crate::state::{AppStateInner, Metrics};
use crate::validate::{in_range, spec_parse_fn, spec_validate, MathFn};

verus! {

/// A cache agrees with a record store when every cached entry belongs to an
/// existing record and holds exactly that record's bytecode: the spec-level
/// image of [`AppStateInner::cache_consistent`].
pub open spec fn cache_agrees(data: Map<u32, DataEntryView>, cache: Map<u32, Seq<u8>>) -> bool {
    forall|k: u32| #[trigger]
        cache.contains_key(k) ==> data.contains_key(k) && cache[k] == data[k].bytecode
}

/// A state whose cache is consistent has agreeing views.
pub proof fn lemma_state_cache_agrees(s: &AppStateInner)
    requires
        s.cache_consistent(),
    ensures
        cache_agrees(s.records(), s.cached()),
{
    assert forall|k: u32| #[trigger] s.cached().contains_key(k) implies s.records().contains_key(k)
        && s.cached()[k] == s.records()[k].bytecode by {
        assert(s.wasm_cache@.contains_key(k));
    }
}

/// A request whose function name is outside the allowed set is rejected as
/// `FunctionNotAllowed` with HTTP 400, whatever the operands, the cache and
/// the record's bytecode — provided the caller owns the record, since the
/// ownership gate runs first.
pub proof fn lemma_unknown_function_rejected(
    data: Map<u32, DataEntryView>,
    cache: Map<u32, Seq<u8>>,
    user: Seq<char>,
    id: u32,
    name: Seq<char>,
    a: i32,
    b: i32,
)
    requires
        data.contains_key(id),
        data[id].owner == user,
        spec_parse_fn(name) is None,
    ensures
        spec_execute(data, cache, user, id, name, a, b) == Err::<i32, ErrorKind>(
            ErrorKind::FunctionNotAllowed,
        ),
        crate::errors::spec_status_of_kind(ErrorKind::FunctionNotAllowed) == 400,
{
}

/// A request with an operand outside `[-1000000, 1000000]` is rejected as
/// `ArgumentOutOfRange` with HTTP 400, whatever allowed function is named:
/// the generic range check precedes every function-specific rule.  The
/// caller must own the record, and the name must be allowed — an unknown
/// name is rejected as `FunctionNotAllowed` instead.
pub proof fn lemma_out_of_range_rejected(
    data: Map<u32, DataEntryView>,
    cache: Map<u32, Seq<u8>>,
    user: Seq<char>,
    id: u32,
    name: Seq<char>,
    a: i32,
    b: i32,
)
    requires
        data.contains_key(id),
        data[id].owner == user,
        spec_parse_fn(name) is Some,
        !in_range(a) || !in_range(b),
    ensures
        spec_execute(data, cache, user, id, name, a, b) == Err::<i32, ErrorKind>(
            ErrorKind::ArgumentOutOfRange,
        ),
        crate::errors::spec_status_of_kind(ErrorKind::ArgumentOutOfRange) == 400,
{
}

/// `div` or `rem` with a zero second operand is rejected as
/// `DivisionByZero` with HTTP 400, for in-range operands; the verdict holds
/// for every cache and every bytecode, so the request never reaches the
/// sandbox.
pub proof fn lemma_division_by_zero_rejected(
    data: Map<u32, DataEntryView>,
    cache: Map<u32, Seq<u8>>,
    user: Seq<char>,
    id: u32,
    name: Seq<char>,
    a: i32,
)
    requires
        data.contains_key(id),
        data[id].owner == user,
        spec_parse_fn(name) == Some(MathFn::Div) || spec_parse_fn(name) == Some(MathFn::Rem),
        in_range(a),
    ensures
        spec_execute(data, cache, user, id, name, a, 0) == Err::<i32, ErrorKind>(
            ErrorKind::DivisionByZero,
        ),
        crate::errors::spec_status_of_kind(ErrorKind::DivisionByZero) == 400,
{
}

/// `pow` with an exponent below zero or above ten is rejected as
/// `ExponentOutOfRange` with HTTP 400, for in-range operands.
pub proof fn lemma_exponent_rejected(
    data: Map<u32, DataEntryView>,
    cache: Map<u32, Seq<u8>>,
    user: Seq<char>,
    id: u32,
    name: Seq<char>,
    a: i32,
    b: i32,
)
    requires
        data.contains_key(id),
        data[id].owner == user,
        spec_parse_fn(name) == Some(MathFn::Pow),
        in_range(a),
        in_range(b),
        b < 0 || b > 10,
    ensures
        spec_execute(data, cache, user, id, name, a, b) == Err::<i32, ErrorKind>(
            ErrorKind::ExponentOutOfRange,
        ),
        crate::errors::spec_status_of_kind(ErrorKind::ExponentOutOfRange) == 400,
{
}

/// A caller whose identity differs from the record's owner is rejected as
/// `Forbidden` with HTTP 403, whatever function and operands the request
/// names.
pub proof fn lemma_foreign_record_forbidden(
    data: Map<u32, DataEntryView>,
    cache: Map<u32, Seq<u8>>,
    user: Seq<char>,
    id: u32,
    name: Seq<char>,
    a: i32,
    b: i32,
)
    requires
        data.contains_key(id),
        data[id].owner != user,
    ensures
        spec_execute(data, cache, user, id, name, a, b) == Err::<i32, ErrorKind>(
            ErrorKind::Forbidden,
        ),
        crate::errors::spec_status_of_kind(ErrorKind::Forbidden) == 403,
{
}

/// A request against an id with no record is rejected as `NotFound` with
/// HTTP 404, whatever caller, function and operands.
pub proof fn lemma_unknown_record_not_found(
    data: Map<u32, DataEntryView>,
    cache: Map<u32, Seq<u8>>,
    user: Seq<char>,
    id: u32,
    name: Seq<char>,
    a: i32,
    b: i32,
)
    requires
        !data.contains_key(id),
    ensures
        spec_execute(data, cache, user, id, name, a, b) == Err::<i32, ErrorKind>(
            ErrorKind::NotFound,
        ),
        crate::errors::spec_status_of_kind(ErrorKind::NotFound) == 404,
{
}

/// Counters only grow: one execution step never decreases any counter and
/// never resets one.
pub proof fn lemma_counters_monotone(m1: Metrics, m2: Metrics, ok: bool, counted: Option<MathFn>)
    requires
        m1.wf(),
        m1.stepped(m2, ok, counted),
    ensures
        m2.total_executions >= m1.total_executions,
        m2.successful_executions >= m1.successful_executions,
        m2.failed_executions >= m1.failed_executions,
        m2.function_counts@.len() == m1.function_counts@.len(),
        forall|i: int|
            0 <= i < m1.function_counts@.len() ==> m2.function_counts@[i]
                >= m1.function_counts@[i],
{
}

/// Idempotence: the outcome of a request is a function of the record map
/// and the request alone, under any cache that agrees with the records.
/// An execution changes only the cache (keeping agreement) and the
/// counters, so an immediately repeated identical request yields the same
/// outcome, even as the counters move.
pub proof fn lemma_idempotent(
    data: Map<u32, DataEntryView>,
    cache1: Map<u32, Seq<u8>>,
    cache2: Map<u32, Seq<u8>>,
    user: Seq<char>,
    id: u32,
    name: Seq<char>,
    a: i32,
    b: i32,
)
    requires
        cache_agrees(data, cache1),
        cache_agrees(data, cache2),
    ensures
        spec_execute(data, cache1, user, id, name, a, b) == spec_execute(
            data,
            cache2,
            user,
            id,
            name,
            a,
            b,
        ),
{
    if data.contains_key(id) {
        assert(spec_effective_bytes(data, cache1, id) == data[id].bytecode);
        assert(spec_effective_bytes(data, cache2, id) == data[id].bytecode);
    }
}

/// Cache correctness: after a record's bytecode is replaced and its cache
/// entry invalidated — exactly what `update_data` does — the owner's next
/// execution runs the new bytecode, whatever was cached before.
pub proof fn lemma_update_reaches_new_bytecode(
    data: Map<u32, DataEntryView>,
    cache: Map<u32, Seq<u8>>,
    id: u32,
    entry: DataEntryView,
    user: Seq<char>,
    name: Seq<char>,
    a: i32,
    b: i32,
)
    requires
        entry.owner == user,
    ensures
        spec_execute(data.insert(id, entry), cache.remove(id), user, id, name, a, b)
            == spec_run_after_update(entry.bytecode, name, a, b),
{
}

/// Independence: the outcome of a request depends only on the record and
/// the cache entry of its own id.  Two stores that agree on one id give
/// every request against that id the same outcome, whatever other records
/// and cache entries they hold — so executions against distinct ids cannot
/// affect each other's results.
pub proof fn lemma_execution_local(
    data1: Map<u32, DataEntryView>,
    cache1: Map<u32, Seq<u8>>,
    data2: Map<u32, DataEntryView>,
    cache2: Map<u32, Seq<u8>>,
    user: Seq<char>,
    id: u32,
    name: Seq<char>,
    a: i32,
    b: i32,
)
    requires
        data1.contains_key(id) <==> data2.contains_key(id),
        data1.contains_key(id) ==> data1[id] == data2[id],
        cache1.contains_key(id) <==> cache2.contains_key(id),
        cache1.contains_key(id) ==> cache1[id] == cache2[id],
    ensures
        spec_execute(data1, cache1, user, id, name, a, b) == spec_execute(
            data2,
            cache2,
            user,
            id,
            name,
            a,
            b,
        ),
{
}

} // verus!
