//! Tests of the authentication decisions: login, refresh, logout, claims.

use wasm_exec::auth::{
    accept_claims, create_data_entry_from_request, login, logout, make_claims, refresh,
    strip_bearer_token, AuthError,
};
use wasm_exec::models::{Claims, CreateDataRequest, RefreshTokenInfo};
use wasm_exec::state::new_state;

#[test]
fn test_create_data_entry_from_request() {
    let request = CreateDataRequest {
        func_names: vec!["add".to_string(), "mul".to_string()],
        bytecode: vec![1, 2, 3, 4, 5],
    };

    let entry = create_data_entry_from_request(request, "test_user".to_string());

    assert_eq!(entry.owner, "test_user");
    assert_eq!(entry.func_names, vec!["add", "mul"]);
    assert_eq!(entry.bytecode, vec![1, 2, 3, 4, 5]);
}

#[test]
fn test_login_success() {
    let mut state = new_state();
    let r = login(
        &mut state,
        &"admin".to_string(),
        &"admin123".to_string(),
        "acc-token".to_string(),
        "ref-token".to_string(),
        1_000_000,
        3600,
        30 * 24 * 3600,
    );
    let resp = r.unwrap();
    assert_eq!(resp.username, "admin");
    assert_eq!(resp.access_token, "acc-token");
    assert_eq!(resp.refresh_token, "ref-token");
    assert_eq!(resp.token_type, "Bearer");
    assert_eq!(resp.expires_in, 3600);
    // the refresh token is now on record, with its expiry
    assert_eq!(state.refresh_tokens.len(), 1);
    assert_eq!(state.refresh_tokens[0].0, "ref-token");
    assert_eq!(state.refresh_tokens[0].1.username, "admin");
    assert_eq!(state.refresh_tokens[0].1.expires_at, 1_000_000 + 30 * 24 * 3600);
}

#[test]
fn test_login_invalid_credentials() {
    let mut state = new_state();
    let r = login(
        &mut state,
        &"admin".to_string(),
        &"wrong".to_string(),
        "a".to_string(),
        "r".to_string(),
        0,
        3600,
        1000,
    );
    let e = r.unwrap_err();
    assert_eq!(e, AuthError::InvalidCredentials);
    assert_eq!(e.status(), 401);
    assert!(state.refresh_tokens.is_empty());

    let r2 = login(
        &mut state,
        &"nobody".to_string(),
        &"pw".to_string(),
        "a".to_string(),
        "r".to_string(),
        0,
        3600,
        1000,
    );
    assert_eq!(r2.unwrap_err(), AuthError::UserNotFound);
}

#[test]
fn test_refresh_valid_token() {
    let mut state = new_state();
    state.refresh_tokens.push((
        "tok".to_string(),
        RefreshTokenInfo { username: "user1".to_string(), expires_at: 2_000 },
    ));
    let r = refresh(&mut state, &"tok".to_string(), "new-acc".to_string(), 1_000, 3600);
    let resp = r.unwrap();
    assert_eq!(resp.access_token, "new-acc");
    assert_eq!(resp.refresh_token, "tok");
    assert_eq!(resp.username, "user1");
    assert_eq!(resp.token_type, "Bearer");
    // the refresh token stays on record
    assert_eq!(state.refresh_tokens.len(), 1);
}

#[test]
fn test_refresh_expired_token_is_removed() {
    let mut state = new_state();
    state.refresh_tokens.push((
        "tok".to_string(),
        RefreshTokenInfo { username: "user1".to_string(), expires_at: 500 },
    ));
    let r = refresh(&mut state, &"tok".to_string(), "new-acc".to_string(), 1_000, 3600);
    assert_eq!(r.unwrap_err(), AuthError::RefreshTokenExpired);
    assert!(state.refresh_tokens.is_empty());
}

#[test]
fn test_refresh_unknown_token() {
    let mut state = new_state();
    let r = refresh(&mut state, &"ghost".to_string(), "new-acc".to_string(), 0, 3600);
    let e = r.unwrap_err();
    assert_eq!(e, AuthError::InvalidRefreshToken);
    assert_eq!(e.message(), "Invalid refresh token");
}

#[test]
fn test_refresh_tokens_operations() {
    let mut state = new_state();

    // Test adding refresh token
    let now = chrono::Utc::now().timestamp();
    let token_info = RefreshTokenInfo {
        username: "test_user".to_string(),
        expires_at: now + 30 * 24 * 60 * 60,
    };
    state.refresh_tokens.push(("test_token".to_string(), token_info));
    assert!(state.refresh_tokens.iter().any(|p| p.0 == "test_token"));

    // Test retrieving refresh token
    {
        let info = &state.refresh_tokens.iter().find(|p| p.0 == "test_token").unwrap().1;
        assert_eq!(info.username, "test_user");
        assert!(info.expires_at > now);
    }

    // Test removing refresh token
    logout(&mut state, &"test_token".to_string());
    assert!(!state.refresh_tokens.iter().any(|p| p.0 == "test_token"));
}

#[test]
fn test_logout_removes_token() {
    let mut state = new_state();
    state.refresh_tokens.push((
        "keep".to_string(),
        RefreshTokenInfo { username: "a".to_string(), expires_at: 10 },
    ));
    state.refresh_tokens.push((
        "drop".to_string(),
        RefreshTokenInfo { username: "b".to_string(), expires_at: 10 },
    ));
    logout(&mut state, &"drop".to_string());
    assert_eq!(state.refresh_tokens.len(), 1);
    assert_eq!(state.refresh_tokens[0].0, "keep");
    // revoking an unknown token is not an error and changes nothing
    logout(&mut state, &"ghost".to_string());
    assert_eq!(state.refresh_tokens.len(), 1);
}

#[test]
fn test_login_replaces_same_refresh_token() {
    let mut state = new_state();
    for _ in 0..2 {
        login(
            &mut state,
            &"user1".to_string(),
            &"password123".to_string(),
            "acc".to_string(),
            "same-token".to_string(),
            5,
            3600,
            100,
        )
        .unwrap();
    }
    // the second login replaced, not duplicated, the stored token
    assert_eq!(state.refresh_tokens.len(), 1);
}

#[test]
fn test_claims_creation() {
    let username = "test_user".to_string();
    let now = chrono::Utc::now().timestamp();

    let claims = make_claims(
        &username,
        "learn-rust-crud".to_string(),
        now,
        3600,
        "access".to_string(),
    );

    assert_eq!(claims.sub, username);
    assert_eq!(claims.iss, "learn-rust-crud");
    assert_eq!(claims.token_type, "access");
    assert!(claims.exp > claims.iat);
}

#[test]
fn test_accept_claims_access_only() {
    let access = Claims {
        sub: "admin".to_string(),
        exp: 100,
        iat: 0,
        iss: "i".to_string(),
        token_type: "access".to_string(),
    };
    assert_eq!(accept_claims(&access).unwrap(), "admin");

    let refresh_claims = Claims { token_type: "refresh".to_string(), ..access };
    let e = accept_claims(&refresh_claims).unwrap_err();
    assert_eq!(e, AuthError::InvalidTokenType);
    assert_eq!(e.message(), "Invalid token type");
    assert_eq!(e.status(), 401);
}

#[test]
fn test_strip_bearer_token() {
    let strip = |s: &str| strip_bearer_token(&s.to_string());
    assert_eq!(strip("Bearer abc.def.ghi"), "abc.def.ghi");
    assert_eq!(strip("abc.def.ghi"), "abc.def.ghi");
    assert_eq!(strip("[\"Bearer abc.def.ghi\"]"), "abc.def.ghi");
    assert_eq!(strip("[Bearer tok]"), "tok");
    assert_eq!(strip(""), "");
    assert_eq!(strip("Bearer "), "");
    // every occurrence goes, exactly as `str::replace` removes them
    assert_eq!(
        strip("Bearer Bearer tok"),
        "Bearer Bearer tok".replace("Bearer ", "")
    );
    // a bracketed value is unwrapped and unquoted first
    let bracketed = "[\"Bearer a\", \"Bearer b\"]";
    assert_eq!(
        strip(bracketed),
        bracketed[1..bracketed.len() - 1].replace('"', "").replace("Bearer ", "")
    );
}
