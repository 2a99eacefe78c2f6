//! The record store operations: create, read, update, delete.  Updates and
//! deletions check ownership and invalidate the cached bytecode of the
//! touched id, which is the invalidation step the cache's contract demands:
//! a stale entry must never survive a record mutation.

use std::collections::HashMap;

use vstd::prelude::*;

use crate::auth::create_data_entry_from_request;
use crate::errors::ExecError;
use crate::models::{CreateDataRequest, DataEntry, DataEntryView};
use crate::state::AppStateInner;

verus! {

/// The record image a creation or update request describes, once owned.
pub open spec fn spec_entry_of(req: CreateDataRequest, owner: Seq<char>) -> DataEntryView {
    DataEntryView {
        func_names: req.func_names.deep_view(),
        bytecode: req.bytecode@,
        owner: owner,
    }
}

/// Creates a record owned by the caller under the next free id (one past
/// the current record count) and returns that id.  Any bytes cached under
/// the id are dropped, so the cache invariant survives even if the id was
/// in use.
pub fn create_data(state: &mut AppStateInner, req: CreateDataRequest, username: String) -> (id:
    u32)
    requires
        old(state).data@.len() < u32::MAX,
    ensures
        id == old(state).data@.len() + 1,
        final(state).records() =~= old(state).records().insert(id, spec_entry_of(req, username@)),
        final(state).wasm_cache@ == old(state).wasm_cache@.remove(id),
        final(state).users == old(state).users,
        final(state).refresh_tokens == old(state).refresh_tokens,
        final(state).metrics == old(state).metrics,
        final(state).rate_limiter == old(state).rate_limiter,
        old(state).cache_consistent() ==> final(state).cache_consistent(),
{
    let len: usize = state.data.len();
    let id: u32 = (len as u32) + 1;
    let entry = create_data_entry_from_request(req, username);
    state.cache_invalidate(id);
    state.data.insert(id, entry);
    proof {
        assert(state.records() =~= old(state).records().insert(id, spec_entry_of(req, username@)));
    }
    id
}

/// All records, as the engine holds them.
pub fn read_all_data(state: &AppStateInner) -> (r: &HashMap<u32, DataEntry>)
    ensures
        *r == state.data,
{
    &state.data
}

/// The record of an id, if any.
pub fn read_data(state: &AppStateInner, id: u32) -> (r: Option<&DataEntry>)
    ensures
        match r {
            Some(e) => state.data@.contains_key(id) && *e == state.data@[id],
            None => !state.data@.contains_key(id),
        },
{
    state.lookup_record(id)
}

/// Replaces the record of an id, provided it exists and the caller owns it,
/// and drops any cached bytes of that id.  Fails with `NotFound` for an
/// unknown id and with `Forbidden` for a caller other than the owner, and
/// then changes nothing.
pub fn update_data(
    state: &mut AppStateInner,
    id: u32,
    req: CreateDataRequest,
    username: &String,
) -> (r: Result<(), ExecError>)
    ensures
        r is Ok <==> old(state).data@.contains_key(id) && old(state).data@[id]@.owner
            == username@,
        r == Err::<(), ExecError>(ExecError::NotFound) <==> !old(state).data@.contains_key(id),
        r == Err::<(), ExecError>(ExecError::Forbidden) <==> old(state).data@.contains_key(id)
            && old(state).data@[id]@.owner != username@,
        r is Ok ==> final(state).records() =~= old(state).records().insert(
            id,
            spec_entry_of(req, username@),
        ) && final(state).wasm_cache@ == old(state).wasm_cache@.remove(id),
        r is Err ==> final(state).data == old(state).data && final(state).wasm_cache == old(
            state,
        ).wasm_cache,
        final(state).users == old(state).users,
        final(state).refresh_tokens == old(state).refresh_tokens,
        final(state).metrics == old(state).metrics,
        final(state).rate_limiter == old(state).rate_limiter,
        old(state).cache_consistent() ==> final(state).cache_consistent(),
{
    let check: Option<bool> = match state.lookup_record(id) {
        None => None,
        Some(e) => Some(e.owner == *username),
    };
    match check {
        None => Err(ExecError::NotFound),
        Some(false) => Err(ExecError::Forbidden),
        Some(true) => {
            let entry = create_data_entry_from_request(req, username.clone());
            state.cache_invalidate(id);
            state.data.insert(id, entry);
            proof {
                assert(state.records() =~= old(state).records().insert(
                    id,
                    spec_entry_of(req, username@),
                ));
            }
            Ok(())
        },
    }
}

/// Removes the record of an id, provided it exists and the caller owns it,
/// and drops any cached bytes of that id.  Fails with `NotFound` for an
/// unknown id and with `Forbidden` for a caller other than the owner, and
/// then changes nothing.
pub fn delete_data(state: &mut AppStateInner, id: u32, username: &String) -> (r: Result<
    (),
    ExecError,
>)
    ensures
        r is Ok <==> old(state).data@.contains_key(id) && old(state).data@[id]@.owner
            == username@,
        r == Err::<(), ExecError>(ExecError::NotFound) <==> !old(state).data@.contains_key(id),
        r == Err::<(), ExecError>(ExecError::Forbidden) <==> old(state).data@.contains_key(id)
            && old(state).data@[id]@.owner != username@,
        r is Ok ==> final(state).data@ == old(state).data@.remove(id) && final(state).wasm_cache@
            == old(state).wasm_cache@.remove(id),
        r is Err ==> final(state).data == old(state).data && final(state).wasm_cache == old(
            state,
        ).wasm_cache,
        final(state).users == old(state).users,
        final(state).refresh_tokens == old(state).refresh_tokens,
        final(state).metrics == old(state).metrics,
        final(state).rate_limiter == old(state).rate_limiter,
        old(state).cache_consistent() ==> final(state).cache_consistent(),
{
    let check: Option<bool> = match state.lookup_record(id) {
        None => None,
        Some(e) => Some(e.owner == *username),
    };
    match check {
        None => Err(ExecError::NotFound),
        Some(false) => Err(ExecError::Forbidden),
        Some(true) => {
            state.cache_invalidate(id);
            state.data.remove(&id);
            Ok(())
        },
    }
}

} // verus!
