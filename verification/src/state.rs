//! The engine's shared state: the record store, the raw-bytecode cache, the
//! execution counters, and the rate-limiter bookkeeping.
//!
//! The cache invariant is the heart of this module: an entry cached for a
//! record id must be byte-identical to that record's current bytecode, so a
//! stale entry is never served.  Every mutating operation states in its
//! contract that it preserves [`AppStateInner::cache_consistent`].

use std::collections::HashMap;

use vstd::prelude::*;

use crate::models::DataEntry;
use crate::models::RefreshTokenInfo;
use crate::validate::{MathFn, ALLOWED_FUNCTION_COUNT};

verus! {

/// `x + 1`, saturating at the top of the counter range: counters only ever
/// grow.
pub open spec fn inc64(x: u64) -> u64 {
    if x < u64::MAX {
        (x + 1) as u64
    } else {
        x
    }
}

/// Process-wide execution counters, monotonically incremented and never
/// reset within a process lifetime.
#[derive(Debug)]
pub struct Metrics {
    pub total_executions: u64,
    pub successful_executions: u64,
    pub failed_executions: u64,
    /// One invocation counter per allowed function, indexed by
    /// [`MathFn::table_index`].
    pub function_counts: Vec<u64>,
}

impl Metrics {
    /// Well-formed: one counter per allowed function.
    pub open spec fn wf(&self) -> bool {
        self.function_counts@.len() == ALLOWED_FUNCTION_COUNT
    }

    /// How the counters move over one execution: the total always steps,
    /// exactly one of success/failure steps, and the per-function counter
    /// steps exactly when the request passed allow-listing (`counted`).
    pub open spec fn stepped(self, new: Metrics, ok: bool, counted: Option<MathFn>) -> bool {
        &&& new.total_executions == inc64(self.total_executions)
        &&& new.successful_executions == if ok {
            inc64(self.successful_executions)
        } else {
            self.successful_executions
        }
        &&& new.failed_executions == if ok {
            self.failed_executions
        } else {
            inc64(self.failed_executions)
        }
        &&& new.function_counts@ == match counted {
            Some(f) => self.function_counts@.update(
                f.spec_table_index(),
                inc64(self.function_counts@[f.spec_table_index()]),
            ),
            None => self.function_counts@,
        }
    }

    /// The invocation counter of one allowed function.
    pub fn count_for(&self, f: MathFn) -> (c: u64)
        requires
            self.wf(),
        ensures
            c == self.function_counts@[f.spec_table_index()],
    {
        let i = f.table_index();
        self.function_counts[i]
    }
}

impl Default for Metrics {
    /// All counters at zero.
    fn default() -> (m: Metrics)
        ensures
            m.wf(),
            m.total_executions == 0,
            m.successful_executions == 0,
            m.failed_executions == 0,
            forall|i: int| 0 <= i < m.function_counts@.len() ==> m.function_counts@[i] == 0,
    {
        let function_counts: Vec<u64> = vec![0, 0, 0, 0, 0, 0, 0, 0, 0];
        Metrics {
            total_executions: 0,
            successful_executions: 0,
            failed_executions: 0,
            function_counts,
        }
    }
}

/// Bookkeeping for per-user rate limiting: for each username the instants
/// (Unix seconds) of its recent requests, a cap on requests per window, and
/// the window length in seconds.
#[derive(Clone, Debug)]
pub struct RateLimiter {
    pub user_requests: Vec<(String, Vec<u64>)>,
    pub max_requests: usize,
    pub window_secs: u64,
}

impl Default for RateLimiter {
    /// No requests recorded; 100 requests per one-minute window.
    fn default() -> (r: RateLimiter)
        ensures
            r.user_requests@.len() == 0,
            r.max_requests == 100,
            r.window_secs == 60,
    {
        RateLimiter { user_requests: Vec::new(), max_requests: 100, window_secs: 60 }
    }
}

/// The global state of the engine: records, credentials, refresh tokens,
/// the raw-bytecode cache, and the counters.  Callers that share it across
/// requests guard it by their own synchronization; every operation here is
/// a plain function of one state value.
pub struct AppStateInner {
    pub data: HashMap<u32, DataEntry>,
    pub users: Vec<(String, String)>,
    pub refresh_tokens: Vec<(String, RefreshTokenInfo)>,
    pub wasm_cache: HashMap<u32, Vec<u8>>,
    pub metrics: Metrics,
    pub rate_limiter: RateLimiter,
}

impl AppStateInner {
    /// Well-formed: the counters are.
    pub open spec fn wf(&self) -> bool {
        self.metrics.wf()
    }

    /// The record store as a map from id to record image.
    pub open spec fn records(&self) -> Map<u32, crate::models::DataEntryView> {
        Map::new(|k: u32| self.data@.contains_key(k), |k: u32| self.data@[k]@)
    }

    /// The cache as a map from id to cached byte sequence.
    pub open spec fn cached(&self) -> Map<u32, Seq<u8>> {
        Map::new(|k: u32| self.wasm_cache@.contains_key(k), |k: u32| self.wasm_cache@[k]@)
    }

    /// The cache invariant: whatever is cached for an id is byte-identical
    /// to the bytecode of the current record of that id.
    pub open spec fn cache_consistent(&self) -> bool {
        forall|k: u32| #[trigger]
            self.wasm_cache@.contains_key(k) ==> self.data@.contains_key(k)
                && self.wasm_cache@[k]@ == self.data@[k]@.bytecode
    }

    /// The record of an id, if any.
    pub fn lookup_record(&self, id: u32) -> (r: Option<&DataEntry>)
        ensures
            match r {
                Some(e) => self.data@.contains_key(id) && *e == self.data@[id],
                None => !self.data@.contains_key(id),
            },
    {
        self.data.get(&id)
    }

    /// The cached bytes of an id, if any.
    pub fn cache_lookup(&self, id: u32) -> (r: Option<&Vec<u8>>)
        ensures
            match r {
                Some(b) => self.wasm_cache@.contains_key(id) && *b == self.wasm_cache@[id],
                None => !self.wasm_cache@.contains_key(id),
            },
    {
        self.wasm_cache.get(&id)
    }

    /// Stores bytes for an id, replacing any previous entry.
    pub fn cache_store(&mut self, id: u32, bytes: Vec<u8>)
        ensures
            final(self).wasm_cache@ == old(self).wasm_cache@.insert(id, bytes),
            final(self).data == old(self).data,
            final(self).users == old(self).users,
            final(self).refresh_tokens == old(self).refresh_tokens,
            final(self).metrics == old(self).metrics,
            final(self).rate_limiter == old(self).rate_limiter,
    {
        self.wasm_cache.insert(id, bytes);
    }

    /// Drops any cached bytes of an id: the invalidation step that record
    /// updates and deletions owe the cache.
    pub fn cache_invalidate(&mut self, id: u32)
        ensures
            final(self).wasm_cache@ == old(self).wasm_cache@.remove(id),
            final(self).data == old(self).data,
            final(self).users == old(self).users,
            final(self).refresh_tokens == old(self).refresh_tokens,
            final(self).metrics == old(self).metrics,
            final(self).rate_limiter == old(self).rate_limiter,
    {
        self.wasm_cache.remove(&id);
    }
}

/// A fresh state: three example users, no records, no tokens, an empty
/// cache, and all counters at zero.
pub fn new_state() -> (s: AppStateInner)
    ensures
        s.wf(),
        s.cache_consistent(),
        s.data@ == Map::<u32, DataEntry>::empty(),
        s.wasm_cache@ == Map::<u32, Vec<u8>>::empty(),
        s.refresh_tokens@.len() == 0,
        s.users@.len() == 3,
        s.users@[0].0@ == "admin"@ && s.users@[0].1@ == "admin123"@,
        s.users@[1].0@ == "user1"@ && s.users@[1].1@ == "password123"@,
        s.users@[2].0@ == "user2"@ && s.users@[2].1@ == "password456"@,
        s.metrics.total_executions == 0,
        s.metrics.successful_executions == 0,
        s.metrics.failed_executions == 0,
        forall|i: int|
            0 <= i < s.metrics.function_counts@.len() ==> s.metrics.function_counts@[i] == 0,
        s.rate_limiter.user_requests@.len() == 0,
        s.rate_limiter.max_requests == 100,
        s.rate_limiter.window_secs == 60,
{
    let mut users: Vec<(String, String)> = Vec::new();
    users.push((String::from_str("admin"), String::from_str("admin123")));
    users.push((String::from_str("user1"), String::from_str("password123")));
    users.push((String::from_str("user2"), String::from_str("password456")));
    AppStateInner {
        data: HashMap::new(),
        users,
        refresh_tokens: Vec::new(),
        wasm_cache: HashMap::new(),
        metrics: Metrics::default(),
        rate_limiter: RateLimiter::default(),
    }
}

} // verus!
