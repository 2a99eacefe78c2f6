//! The data shapes exchanged with the engine: stored records, request and
//! response bodies, and token claims.

use vstd::prelude::*;

verus! {

/// A stored record: a list of function names the owner declared, the raw
/// module bytecode, and the owner's username.
#[derive(Clone, Debug)]
pub struct DataEntry {
    pub func_names: Vec<String>,
    pub bytecode: Vec<u8>,
    pub owner: String,
}

/// The mathematical image of a [`DataEntry`].
pub struct DataEntryView {
    pub func_names: Seq<Seq<char>>,
    pub bytecode: Seq<u8>,
    pub owner: Seq<char>,
}

impl View for DataEntry {
    type V = DataEntryView;

    open spec fn view(&self) -> DataEntryView {
        DataEntryView {
            func_names: self.func_names.deep_view(),
            bytecode: self.bytecode@,
            owner: self.owner@,
        }
    }
}

/// A copy of a byte vector, equal to the original as a sequence.
pub fn clone_bytes(v: &Vec<u8>) -> (r: Vec<u8>)
    ensures
        r@ == v@,
{
    let mut r: Vec<u8> = Vec::new();
    let mut i: usize = 0;
    while i < v.len()
        invariant
            i <= v@.len(),
            r@ == v@.take(i as int),
        decreases v@.len() - i,
    {
        r.push(v[i]);
        i = i + 1;
    }
    proof {
        assert(r@ =~= v@);
    }
    r
}

/// A login request: username and password.
#[derive(Clone, Debug)]
pub struct AuthRequest {
    pub username: String,
    pub password: String,
}

/// A successful login or refresh answer.
#[derive(Clone, Debug)]
pub struct AuthResponse {
    pub access_token: String,
    pub refresh_token: String,
    pub username: String,
    pub token_type: String,
    pub expires_in: i64,
}

/// A request to exchange a refresh token for a new access token.
#[derive(Clone, Debug)]
pub struct RefreshRequest {
    pub refresh_token: String,
}

/// The body of a record creation or update request.
#[derive(Clone, Debug)]
pub struct CreateDataRequest {
    pub func_names: Vec<String>,
    pub bytecode: Vec<u8>,
}

/// Claims carried by an access or refresh token.  `exp` and `iat` are Unix
/// timestamps in seconds; `token_type` is `"access"` or `"refresh"`.
#[derive(Clone, Debug)]
pub struct Claims {
    pub sub: String,
    pub exp: i64,
    pub iat: i64,
    pub iss: String,
    pub token_type: String,
}

/// What the engine remembers about an issued refresh token.  `expires_at` is
/// a Unix timestamp in seconds.
#[derive(Clone, Debug)]
pub struct RefreshTokenInfo {
    pub username: String,
    pub expires_at: i64,
}

/// A request to run one operation, as carried by the batch interface.
#[derive(Clone, Debug)]
pub struct WasmExecuteRequest {
    pub operation: String,
    pub operands: Vec<i32>,
    pub module_name: Option<String>,
}

/// The answer to one [`WasmExecuteRequest`].
#[derive(Clone, Debug)]
pub struct WasmExecuteResponse {
    pub success: bool,
    pub result: Option<i32>,
    pub error: Option<String>,
    pub operation: String,
    pub operands: Vec<i32>,
}

/// A batch of operations to run in order.
#[derive(Clone, Debug)]
pub struct WasmBatchRequest {
    pub operations: Vec<WasmExecuteRequest>,
}

/// The answers to a batch, with summary counts.
#[derive(Clone, Debug)]
pub struct WasmBatchResponse {
    pub results: Vec<WasmExecuteResponse>,
    pub total_operations: usize,
    pub successful_operations: usize,
}

/// A request to map a list of operations over a data vector.
#[derive(Clone, Debug)]
pub struct WasmDataProcessRequest {
    pub data: Vec<i32>,
    pub operations: Vec<String>,
    pub owner: String,
}

/// The answer to a [`WasmDataProcessRequest`].
#[derive(Clone, Debug)]
pub struct WasmDataProcessResponse {
    pub original_data: Vec<i32>,
    pub processed_data: Vec<i32>,
    pub operations_applied: Vec<String>,
    pub processing_id: String,
    pub owner: String,
}

/// Summary information about a loadable module.
#[derive(Clone, Debug)]
pub struct WasmModuleInfo {
    pub name: String,
    pub available_functions: Vec<String>,
    pub loaded: bool,
}

/// A request to register a named module.
#[derive(Clone, Debug)]
pub struct WasmLoadModuleRequest {
    pub module_name: String,
    pub module_data: String,
}

/// The answer to a [`WasmLoadModuleRequest`].
#[derive(Clone, Debug)]
pub struct WasmLoadModuleResponse {
    pub success: bool,
    pub module_name: String,
    pub error: Option<String>,
    pub available_functions: Option<Vec<String>>,
}

} // verus!
