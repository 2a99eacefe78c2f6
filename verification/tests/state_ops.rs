//! Tests of the shared state: the fresh state, the counters, the rate
//! limiter defaults, and the record and cache operations.

use wasm_exec::models::DataEntry;
use wasm_exec::state::{new_state, Metrics, RateLimiter};
use wasm_exec::validate::MathFn;

#[test]
fn test_new_state_creation() {
    let state = new_state();

    // Test default users
    let users: Vec<(String, String)> = state.users.clone();
    assert_eq!(users.len(), 3);
    assert_eq!(users[0], ("admin".to_string(), "admin123".to_string()));
    assert_eq!(users[1], ("user1".to_string(), "password123".to_string()));
    assert_eq!(users[2], ("user2".to_string(), "password456".to_string()));

    // Test empty collections
    assert!(state.data.is_empty());
    assert!(state.refresh_tokens.is_empty());
    assert!(state.wasm_cache.is_empty());

    // Test metrics initialization
    assert_eq!(state.metrics.total_executions, 0);
    assert_eq!(state.metrics.successful_executions, 0);
    assert_eq!(state.metrics.failed_executions, 0);
    assert!(state.metrics.function_counts.iter().all(|&c| c == 0));

    // Test rate limiter initialization
    assert_eq!(state.rate_limiter.max_requests, 100);
    assert_eq!(state.rate_limiter.window_secs, 60);
    assert!(state.rate_limiter.user_requests.is_empty());
}

#[test]
fn test_metrics_default() {
    let metrics = Metrics::default();

    assert_eq!(metrics.total_executions, 0);
    assert_eq!(metrics.successful_executions, 0);
    assert_eq!(metrics.failed_executions, 0);
    assert!(metrics.function_counts.iter().all(|&c| c == 0));
}

#[test]
fn test_rate_limiter_default() {
    let rate_limiter = RateLimiter::default();

    assert_eq!(rate_limiter.max_requests, 100);
    assert_eq!(rate_limiter.window_secs, 60);
    assert!(rate_limiter.user_requests.is_empty());
}

#[test]
fn test_data_operations() {
    let mut state = new_state();

    // Test adding data
    {
        let entry = DataEntry {
            func_names: vec!["add".to_string(), "mul".to_string()],
            bytecode: vec![1, 2, 3, 4, 5],
            owner: "test_user".to_string(),
        };
        state.data.insert(1, entry);
        assert_eq!(state.data.len(), 1);
    }

    // Test reading data
    {
        assert!(state.data.contains_key(&1));
        let entry = state.data.get(&1).unwrap();
        assert_eq!(entry.owner, "test_user");
        assert_eq!(entry.func_names, vec!["add", "mul"]);
        assert_eq!(entry.bytecode, vec![1, 2, 3, 4, 5]);
    }

    // Test updating data
    {
        let updated_entry = DataEntry {
            func_names: vec!["add".to_string(), "sub".to_string()],
            bytecode: vec![10, 20, 30],
            owner: "test_user".to_string(),
        };
        state.data.insert(1, updated_entry);
        assert_eq!(state.data.len(), 1);

        let entry = state.data.get(&1).unwrap();
        assert_eq!(entry.func_names, vec!["add", "sub"]);
        assert_eq!(entry.bytecode, vec![10, 20, 30]);
    }

    // Test deleting data
    {
        state.data.remove(&1);
        assert!(state.data.is_empty());
    }
}

#[test]
fn test_wasm_cache_operations() {
    let mut state = new_state();

    // Test cache insertion
    {
        state.wasm_cache.insert(1, vec![1, 2, 3, 4, 5]);
        assert!(state.wasm_cache.contains_key(&1));
        assert_eq!(state.wasm_cache.get(&1).unwrap().len(), 5);
    }

    // Test cache retrieval
    {
        let cached = state.wasm_cache.get(&1).unwrap();
        assert_eq!(cached, &vec![1, 2, 3, 4, 5]);
    }

    // Test cache update
    {
        state.wasm_cache.insert(1, vec![10, 20, 30]);
        let cached = state.wasm_cache.get(&1).unwrap();
        assert_eq!(cached, &vec![10, 20, 30]);
    }

    // Test cache removal
    {
        state.wasm_cache.remove(&1);
        assert!(!state.wasm_cache.contains_key(&1));
    }
}

#[test]
fn test_metrics_operations() {
    let mut state = new_state();

    // Test incrementing metrics
    {
        state.metrics.total_executions += 1;
        state.metrics.successful_executions += 1;
        let i = MathFn::Add.table_index();
        state.metrics.function_counts[i] += 1;
    }

    // Test reading metrics
    {
        assert_eq!(state.metrics.total_executions, 1);
        assert_eq!(state.metrics.successful_executions, 1);
        assert_eq!(state.metrics.failed_executions, 0);
        assert_eq!(state.metrics.count_for(MathFn::Add), 1);
    }
}

#[test]
fn test_concurrent_access() {
    // Interleaved mutations of independent records, as concurrent request
    // handlers would make them on the shared state, all land intact.
    let mut state = new_state();

    for i in 0..10u32 {
        let entry = DataEntry {
            func_names: vec![format!("func_{}", i)],
            bytecode: vec![i as u8],
            owner: format!("user_{}", i),
        };
        state.data.insert(i, entry);
    }

    assert_eq!(state.data.len(), 10);

    for i in 0..10u32 {
        assert!(state.data.contains_key(&i));
        let entry = state.data.get(&i).unwrap();
        assert_eq!(entry.func_names, vec![format!("func_{}", i)]);
        assert_eq!(entry.bytecode, vec![i as u8]);
        assert_eq!(entry.owner, format!("user_{}", i));
    }
}
