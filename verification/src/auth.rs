//! Authentication decisions: checking credentials against the user table,
//! issuing and revoking refresh-token entries, accepting decoded token
//! claims, and assembling the claims of new tokens.  Token signing and
//! verification themselves are the identity collaborator's work; these
//! functions decide, over plain values, what the engine does with its
//! results.

use vstd::prelude::*;

use crate::models::{AuthResponse, Claims, CreateDataRequest, DataEntry, RefreshTokenInfo};
use crate::state::AppStateInner;

verus! {

/// A failure of an authentication decision; every variant maps to HTTP 401.
#[derive(Clone, Debug, PartialEq, Eq)]
pub enum AuthError {
    /// The username is not in the user table.
    UserNotFound,
    /// The username exists but the password does not match.
    InvalidCredentials,
    /// The refresh token is not on record.
    InvalidRefreshToken,
    /// The refresh token was on record but has expired.
    RefreshTokenExpired,
    /// The presented token is not an access token.
    InvalidTokenType,
    /// The presented token could not be decoded.
    InvalidToken,
    /// No authorization header was presented.
    MissingHeader,
}

/// The message text of each authentication failure.
pub open spec fn spec_auth_message(e: AuthError) -> Seq<char> {
    match e {
        AuthError::UserNotFound => "User not found"@,
        AuthError::InvalidCredentials => "Invalid credentials"@,
        AuthError::InvalidRefreshToken => "Invalid refresh token"@,
        AuthError::RefreshTokenExpired => "Refresh token expired"@,
        AuthError::InvalidTokenType => "Invalid token type"@,
        AuthError::InvalidToken => "Invalid token"@,
        AuthError::MissingHeader => "Missing authorization header"@,
    }
}

impl AuthError {
    /// The HTTP status code of an authentication failure.
    pub fn status(&self) -> (s: u16)
        ensures
            s == 401,
    {
        401
    }

    /// The human-readable message of this failure.
    pub fn message(&self) -> (m: String)
        ensures
            m@ == spec_auth_message(*self),
    {
        match self {
            AuthError::UserNotFound => String::from_str("User not found"),
            AuthError::InvalidCredentials => String::from_str("Invalid credentials"),
            AuthError::InvalidRefreshToken => String::from_str("Invalid refresh token"),
            AuthError::RefreshTokenExpired => String::from_str("Refresh token expired"),
            AuthError::InvalidTokenType => String::from_str("Invalid token type"),
            AuthError::InvalidToken => String::from_str("Invalid token"),
            AuthError::MissingHeader => String::from_str("Missing authorization header"),
        }
    }
}

/// Turns a creation request into a record owned by `owner`.
pub fn create_data_entry_from_request(req_data: CreateDataRequest, owner: String) -> (e: DataEntry)
    ensures
        e.func_names == req_data.func_names,
        e.bytecode == req_data.bytecode,
        e.owner == owner,
{
    DataEntry { func_names: req_data.func_names, bytecode: req_data.bytecode, owner }
}

/// The stored password of the first user table entry with this name.
pub open spec fn spec_user_password(users: Seq<(String, String)>, name: Seq<char>) -> Option<
    Seq<char>,
>
    decreases users.len(),
{
    if users.len() == 0 {
        None
    } else if users[0].0@ == name {
        Some(users[0].1@)
    } else {
        spec_user_password(users.drop_first(), name)
    }
}

/// Looks the stored password of a username up in the user table.
fn user_password(users: &Vec<(String, String)>, name: &String) -> (r: Option<String>)
    ensures
        match r {
            Some(pw) => spec_user_password(users@, name@) == Some(pw@),
            None => spec_user_password(users@, name@) is None,
        },
{
    proof {
        assert(users@.skip(0) =~= users@);
    }
    let mut i: usize = 0;
    while i < users.len()
        invariant
            i <= users@.len(),
            spec_user_password(users@.skip(i as int), name@) == spec_user_password(users@, name@),
        decreases users@.len() - i,
    {
        proof {
            assert(users@.skip(i as int).drop_first() =~= users@.skip(i as int + 1));
        }
        let p = &users[i];
        if p.0 == *name {
            return Some(p.1.clone());
        }
        i = i + 1;
    }
    proof {
        assert(users@.skip(users@.len() as int) =~= Seq::<(String, String)>::empty());
    }
    None
}

/// The entry of the first refresh-token record with this token.
pub open spec fn spec_lookup_token(
    tokens: Seq<(String, RefreshTokenInfo)>,
    t: Seq<char>,
) -> Option<RefreshTokenInfo>
    decreases tokens.len(),
{
    if tokens.len() == 0 {
        None
    } else if tokens[0].0@ == t {
        Some(tokens[0].1)
    } else {
        spec_lookup_token(tokens.drop_first(), t)
    }
}

/// Looks a refresh token up in the token table.
fn lookup_token(tokens: &Vec<(String, RefreshTokenInfo)>, t: &String) -> (r: Option<
    RefreshTokenInfo,
>)
    ensures
        r == spec_lookup_token(tokens@, t@),
{
    proof {
        assert(tokens@.skip(0) =~= tokens@);
    }
    let mut i: usize = 0;
    while i < tokens.len()
        invariant
            i <= tokens@.len(),
            spec_lookup_token(tokens@.skip(i as int), t@) == spec_lookup_token(tokens@, t@),
        decreases tokens@.len() - i,
    {
        proof {
            assert(tokens@.skip(i as int).drop_first() =~= tokens@.skip(i as int + 1));
        }
        let p = &tokens[i];
        if p.0 == *t {
            let info = RefreshTokenInfo { username: p.1.username.clone(), expires_at: p.1.expires_at };
            return Some(info);
        }
        i = i + 1;
    }
    proof {
        assert(tokens@.skip(tokens@.len() as int) =~= Seq::<(String, RefreshTokenInfo)>::empty());
    }
    None
}

/// The token table without any entry of the given token.
pub open spec fn spec_without_token(
    tokens: Seq<(String, RefreshTokenInfo)>,
    t: Seq<char>,
) -> Seq<(String, RefreshTokenInfo)> {
    tokens.filter(|p: (String, RefreshTokenInfo)| p.0@ != t)
}

proof fn lemma_filter_step(
    s: Seq<(String, RefreshTokenInfo)>,
    pred: spec_fn((String, RefreshTokenInfo)) -> bool,
    i: int,
)
    requires
        0 <= i < s.len(),
    ensures
        s.take(i + 1).filter(pred) == if pred(s[i]) {
            s.take(i).filter(pred).push(s[i])
        } else {
            s.take(i).filter(pred)
        },
{
    reveal(Seq::filter);
    assert(s.take(i + 1).drop_last() =~= s.take(i));
    assert(s.take(i + 1).last() == s[i]);
}

/// Removes every entry of the given token from the token table.
fn remove_token(tokens: &mut Vec<(String, RefreshTokenInfo)>, t: &String)
    ensures
        final(tokens)@ == spec_without_token(old(tokens)@, t@),
{
    let ghost pred = |p: (String, RefreshTokenInfo)| p.0@ != t@;
    let mut out: Vec<(String, RefreshTokenInfo)> = Vec::new();
    let mut i: usize = 0;
    while i < tokens.len()
        invariant
            i <= tokens@.len(),
            tokens@ == old(tokens)@,
            out@ == tokens@.take(i as int).filter(pred),
            pred == (|p: (String, RefreshTokenInfo)| p.0@ != t@),
        decreases tokens@.len() - i,
    {
        proof {
            lemma_filter_step(tokens@, pred, i as int);
        }
        let p = &tokens[i];
        if !(p.0 == *t) {
            let info = RefreshTokenInfo { username: p.1.username.clone(), expires_at: p.1.expires_at };
            out.push((p.0.clone(), info));
        }
        i = i + 1;
    }
    proof {
        assert(tokens@.take(tokens@.len() as int) =~= tokens@);
    }
    *tokens = out;
}

/// Stores a refresh-token entry, replacing any previous entry of the same
/// token.
fn token_insert(tokens: &mut Vec<(String, RefreshTokenInfo)>, t: String, info: RefreshTokenInfo)
    ensures
        final(tokens)@ == spec_without_token(old(tokens)@, t@).push((t, info)),
{
    remove_token(tokens, &t);
    tokens.push((t, info));
}

/// Decides a login request: the username must be in the user table with a
/// matching password.  On success, the caller-minted tokens are returned as
/// a bearer response and the refresh token is stored with its expiry of
/// `now + refresh_valid_secs`; on failure nothing changes.
pub fn login(
    state: &mut AppStateInner,
    username: &String,
    password: &String,
    access_token: String,
    refresh_token: String,
    now: i64,
    expires_in: i64,
    refresh_valid_secs: i64,
) -> (r: Result<AuthResponse, AuthError>)
    requires
        now + refresh_valid_secs <= i64::MAX,
        now + refresh_valid_secs >= i64::MIN,
    ensures
        match spec_user_password(old(state).users@, username@) {
            None => r == Err::<AuthResponse, AuthError>(AuthError::UserNotFound),
            Some(pw) => if pw == password@ {
                r matches Ok(resp) && resp.access_token == access_token && resp.refresh_token
                    == refresh_token && resp.username@ == username@ && resp.token_type@ == "Bearer"@
                    && resp.expires_in == expires_in
            } else {
                r == Err::<AuthResponse, AuthError>(AuthError::InvalidCredentials)
            },
        },
        r is Ok ==> final(state).refresh_tokens@ == spec_without_token(
            old(state).refresh_tokens@,
            refresh_token@,
        ).push(
            (
                refresh_token,
                (RefreshTokenInfo {
                    username: *username,
                    expires_at: (now + refresh_valid_secs) as i64,
                }),
            ),
        ),
        r is Err ==> final(state).refresh_tokens == old(state).refresh_tokens,
        final(state).data == old(state).data,
        final(state).users == old(state).users,
        final(state).wasm_cache == old(state).wasm_cache,
        final(state).metrics == old(state).metrics,
        final(state).rate_limiter == old(state).rate_limiter,
{
    let stored: Option<String> = user_password(&state.users, username);
    match stored {
        None => Err(AuthError::UserNotFound),
        Some(pw) => {
            if pw == *password {
                let info = RefreshTokenInfo {
                    username: username.clone(),
                    expires_at: now + refresh_valid_secs,
                };
                let response = AuthResponse {
                    access_token,
                    refresh_token: refresh_token.clone(),
                    username: username.clone(),
                    token_type: String::from_str("Bearer"),
                    expires_in,
                };
                token_insert(&mut state.refresh_tokens, refresh_token, info);
                Ok(response)
            } else {
                Err(AuthError::InvalidCredentials)
            }
        },
    }
}

/// Decides a refresh request: a token on record and not yet expired at
/// `now` yields a bearer response carrying the caller-minted access token
/// and the same refresh token; an expired token is removed from the record
/// and rejected; an unknown token is rejected.
pub fn refresh(
    state: &mut AppStateInner,
    refresh_token: &String,
    new_access_token: String,
    now: i64,
    expires_in: i64,
) -> (r: Result<AuthResponse, AuthError>)
    ensures
        match spec_lookup_token(old(state).refresh_tokens@, refresh_token@) {
            None => r == Err::<AuthResponse, AuthError>(AuthError::InvalidRefreshToken) && final(state).refresh_tokens == old(state).refresh_tokens,
            Some(info) => if info.expires_at > now {
                (r matches Ok(resp) && resp.access_token == new_access_token
                    && resp.refresh_token@ == refresh_token@ && resp.username@ == info.username@
                    && resp.token_type@ == "Bearer"@ && resp.expires_in == expires_in) && final(state).refresh_tokens == old(state).refresh_tokens
            } else {
                r == Err::<AuthResponse, AuthError>(AuthError::RefreshTokenExpired) && final(state).refresh_tokens@ == spec_without_token(
                    old(state).refresh_tokens@,
                    refresh_token@,
                )
            },
        },
        final(state).data == old(state).data,
        final(state).users == old(state).users,
        final(state).wasm_cache == old(state).wasm_cache,
        final(state).metrics == old(state).metrics,
        final(state).rate_limiter == old(state).rate_limiter,
{
    let found = lookup_token(&state.refresh_tokens, refresh_token);
    match found {
        None => Err(AuthError::InvalidRefreshToken),
        Some(info) => {
            if info.expires_at > now {
                Ok(
                    AuthResponse {
                        access_token: new_access_token,
                        refresh_token: refresh_token.clone(),
                        username: info.username,
                        token_type: String::from_str("Bearer"),
                        expires_in,
                    },
                )
            } else {
                remove_token(&mut state.refresh_tokens, refresh_token);
                Err(AuthError::RefreshTokenExpired)
            }
        },
    }
}

/// Revokes a refresh token: removes it from the record; revoking an
/// unknown token is not an error.
pub fn logout(state: &mut AppStateInner, refresh_token: &String)
    ensures
        final(state).refresh_tokens@ == spec_without_token(
            old(state).refresh_tokens@,
            refresh_token@,
        ),
        final(state).data == old(state).data,
        final(state).users == old(state).users,
        final(state).wasm_cache == old(state).wasm_cache,
        final(state).metrics == old(state).metrics,
        final(state).rate_limiter == old(state).rate_limiter,
{
    remove_token(&mut state.refresh_tokens, refresh_token);
}

/// `s` with every non-overlapping occurrence of the pattern `p` removed,
/// scanning left to right; meant for non-empty patterns, and the identity
/// for an empty one.
pub open spec fn spec_remove_all(s: Seq<char>, p: Seq<char>) -> Seq<char>
    decreases s.len(),
{
    if p.len() == 0 {
        s
    } else if s.len() < p.len() {
        s
    } else if s.take(p.len() as int) == p {
        spec_remove_all(s.skip(p.len() as int), p)
    } else {
        s.take(1) + spec_remove_all(s.skip(1), p)
    }
}

/// Whether the characters of `s` starting at `i` spell out `p`.
fn matches_at(s: &str, i: usize, p: &str) -> (b: bool)
    requires
        i + p@.len() <= s@.len(),
    ensures
        b == (s@.subrange(i as int, i as int + p@.len() as int) == p@),
{
    let slen = s.unicode_len();
    let plen = p.unicode_len();
    let mut j: usize = 0;
    while j < plen
        invariant
            j <= plen,
            slen == s@.len(),
            plen == p@.len(),
            i + p@.len() <= s@.len(),
            forall|k: int| 0 <= k < j ==> s@[i + k] == p@[k],
        decreases plen - j,
    {
        if s.get_char(i + j) != p.get_char(j) {
            proof {
                assert(s@.subrange(i as int, i as int + p@.len() as int)[j as int] == s@[i + j]);
            }
            return false;
        }
        j = j + 1;
    }
    proof {
        assert(s@.subrange(i as int, i as int + p@.len() as int) =~= p@);
    }
    true
}

/// Removes every non-overlapping occurrence of `p` from `s`, left to right.
fn remove_all(s: &str, p: &str) -> (r: String)
    requires
        p@.len() > 0,
    ensures
        r@ == spec_remove_all(s@, p@),
{
    let slen = s.unicode_len();
    let plen = p.unicode_len();
    let mut r = String::new();
    proof {
        assert(s@.skip(0) =~= s@);
    }
    let mut i: usize = 0;
    while i < slen
        invariant
            i <= slen,
            slen == s@.len(),
            plen == p@.len(),
            p@.len() > 0,
            r@ + spec_remove_all(s@.skip(i as int), p@) == spec_remove_all(s@, p@),
        decreases slen - i,
    {
        if plen <= slen - i && matches_at(s, i, p) {
            proof {
                assert(s@.skip(i as int).take(plen as int) =~= s@.subrange(
                    i as int,
                    i as int + plen as int,
                ));
                assert(s@.skip(i as int).skip(plen as int) =~= s@.skip(i as int + plen as int));
            }
            i = i + plen;
        } else {
            let piece = s.substring_char(i, i + 1);
            r = r.concat(piece);
            proof {
                let tail = s@.skip(i as int);
                if tail.len() >= p@.len() {
                    assert(tail.take(p@.len() as int) =~= s@.subrange(
                        i as int,
                        i as int + plen as int,
                    ));
                }
                assert(tail.take(1) =~= s@.subrange(i as int, i as int + 1));
                assert(tail.skip(1) =~= s@.skip(i as int + 1));
            }
            i = i + 1;
        }
    }
    proof {
        assert(s@.skip(slen as int) =~= Seq::<char>::empty());
    }
    r
}

/// What an authorization header yields as the raw token: a bracketed header
/// value is unwrapped and stripped of quotes, and every `"Bearer "` prefix
/// marker is removed.
pub open spec fn spec_strip_token(h: Seq<char>) -> Seq<char> {
    if h.len() >= 2 && h[0] == '[' && h[h.len() - 1] == ']' {
        spec_remove_all(spec_remove_all(h.subrange(1, h.len() - 1), "\""@), "Bearer "@)
    } else {
        spec_remove_all(h, "Bearer "@)
    }
}

/// Extracts the raw token from an authorization header value.
pub fn strip_bearer_token(header: &String) -> (t: String)
    ensures
        t@ == spec_strip_token(header@),
{
    proof {
        reveal_strlit("\"");
        reveal_strlit("Bearer ");
    }
    let h = header.as_str();
    let len = h.unicode_len();
    let bracketed = if len >= 2 {
        h.get_char(0) == '[' && h.get_char(len - 1) == ']'
    } else {
        false
    };
    if bracketed {
        let inner = h.substring_char(1, len - 1);
        let no_quotes = remove_all(inner, "\"");
        remove_all(no_quotes.as_str(), "Bearer ")
    } else {
        remove_all(h, "Bearer ")
    }
}

/// Assembles the claims of a token minted at `now` and valid for
/// `valid_secs` seconds.
pub fn make_claims(
    username: &String,
    issuer: String,
    now: i64,
    valid_secs: i64,
    token_type: String,
) -> (c: Claims)
    requires
        now + valid_secs <= i64::MAX,
        now + valid_secs >= i64::MIN,
    ensures
        c.sub@ == username@,
        c.exp == now + valid_secs,
        c.iat == now,
        c.iss == issuer,
        c.token_type == token_type,
{
    Claims {
        sub: username.clone(),
        exp: now + valid_secs,
        iat: now,
        iss: issuer,
        token_type,
    }
}

/// Accepts decoded claims as a request identity: only an access token
/// names the caller; any other token type is rejected.
pub fn accept_claims(claims: &Claims) -> (r: Result<String, AuthError>)
    ensures
        claims.token_type@ == "access"@ ==> (r matches Ok(u) && u@ == claims.sub@),
        claims.token_type@ != "access"@ ==> r == Err::<String, AuthError>(
            AuthError::InvalidTokenType,
        ),
{
    if claims.token_type == String::from_str("access") {
        Ok(claims.sub.clone())
    } else {
        Err(AuthError::InvalidTokenType)
    }
}

} // verus!
