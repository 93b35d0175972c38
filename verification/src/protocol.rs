use vstd::prelude::*;

use crate::codec::str_eq;
use crate::model::{GameState, Move};
use crate::player::Player;

verus! {

/// A parsed JSON value of the transport layer. The library only carries
/// request ids of this type through, verbatim, and never looks inside.
#[verifier::external_type_specification]
#[verifier::external_body]
pub struct ExValue(serde_json::Value);

// JSON-RPC 2.0 error codes.
pub const PARSE_ERROR: i32 = -32700;

pub const INVALID_REQUEST: i32 = -32600;

pub const METHOD_NOT_FOUND: i32 = -32601;

pub const INVALID_PARAMS: i32 = -32602;

pub const INTERNAL_ERROR: i32 = -32603;

/// The loosely-typed parameter bag of a request, reduced to the fields
/// the operations read; a field that is absent or not of the expected
/// type reads as nothing.
#[derive(Debug, Clone)]
pub struct RpcParams {
    pub row: Option<u64>,
    pub col: Option<u64>,
    pub message: Option<String>,
}

impl RpcParams {
    /// A bag with no recognised field.
    pub fn empty() -> (r: RpcParams)
        ensures
            r.row is None,
            r.col is None,
            r.message is None,
    {
        RpcParams { row: None, col: None, message: None }
    }
}

/// JSON-RPC 2.0 request, its envelope already parsed: the version tag,
/// the caller's id carried verbatim, the method name, and the parameter
/// bag.
#[derive(Debug)]
pub struct JsonRpcRequest {
    pub jsonrpc: String,
    pub id: serde_json::Value,
    pub method: String,
    pub params: RpcParams,
}

impl JsonRpcRequest {
    /// Create a new JSON-RPC request with the fixed protocol version.
    pub fn new(id: serde_json::Value, method: String, params: RpcParams) -> (r: JsonRpcRequest)
        ensures
            r.jsonrpc@ == "2.0"@,
            r.id == id,
            r.method@ == method@,
            r.params == params,
    {
        JsonRpcRequest { jsonrpc: "2.0".to_owned(), id, method, params }
    }

    /// Validate the envelope: the version tag must be exactly "2.0" and
    /// the method name non-empty.
    pub fn validate(&self) -> (r: Result<(), JsonRpcError>)
        ensures
            self.jsonrpc@ != "2.0"@ ==> (r matches Err(e) && e.code == INVALID_REQUEST
                && e.message@ == "Invalid jsonrpc version"@),
            self.jsonrpc@ == "2.0"@ && self.method@.len() == 0 ==> (r matches Err(e) && e.code
                == INVALID_REQUEST && e.message@ == "Method cannot be empty"@),
            self.jsonrpc@ == "2.0"@ && self.method@.len() > 0 ==> r is Ok,
    {
        if !str_eq(self.jsonrpc.as_str(), "2.0") {
            return Err(
                JsonRpcError {
                    code: INVALID_REQUEST,
                    message: "Invalid jsonrpc version".to_owned(),
                    data: None,
                },
            );
        }
        if self.method.as_str().is_empty() {
            return Err(
                JsonRpcError {
                    code: INVALID_REQUEST,
                    message: "Method cannot be empty".to_owned(),
                    data: None,
                },
            );
        }
        Ok(())
    }
}

/// The result payload of a successful operation, before the transport
/// renders it into JSON.
#[derive(Debug, Clone, PartialEq)]
pub enum RpcOutcome {
    Initialize,
    ToolsList,
    State(GameState),
    Turn { current_turn: Player, is_human_turn: bool, is_ai_turn: bool },
    MoveMade(GameState),
    TauntSent,
    Restarted(GameState),
    History(Vec<Move>),
}

/// JSON-RPC 2.0 response: either a result or an error, never both, under
/// the caller's echoed id.
#[derive(Debug)]
pub struct JsonRpcResponse {
    pub jsonrpc: String,
    pub id: serde_json::Value,
    pub result: Option<RpcOutcome>,
    pub error: Option<JsonRpcError>,
}

impl JsonRpcResponse {
    /// Create a success response.
    pub fn success(id: serde_json::Value, result: RpcOutcome) -> (r: JsonRpcResponse)
        ensures
            r.jsonrpc@ == "2.0"@,
            r.id == id,
            r.result == Some(result),
            r.error is None,
    {
        JsonRpcResponse { jsonrpc: "2.0".to_owned(), id, result: Some(result), error: None }
    }

    /// Create an error response.
    pub fn error(id: serde_json::Value, error: JsonRpcError) -> (r: JsonRpcResponse)
        ensures
            r.jsonrpc@ == "2.0"@,
            r.id == id,
            r.result is None,
            r.error == Some(error),
    {
        JsonRpcResponse { jsonrpc: "2.0".to_owned(), id, result: None, error: Some(error) }
    }
}

/// JSON-RPC 2.0 error: a numeric code from the fixed family and a
/// human-readable message.
#[derive(Debug, Clone)]
pub struct JsonRpcError {
    pub code: i32,
    pub message: String,
    pub data: Option<serde_json::Value>,
}

impl JsonRpcError {
    /// Create a parse error.
    pub fn parse_error(message: String) -> (r: JsonRpcError)
        ensures
            r.code == PARSE_ERROR,
            r.message@ == message@,
            r.data is None,
    {
        JsonRpcError { code: PARSE_ERROR, message, data: None }
    }

    /// Create an invalid request error.
    pub fn invalid_request(message: String) -> (r: JsonRpcError)
        ensures
            r.code == INVALID_REQUEST,
            r.message@ == message@,
            r.data is None,
    {
        JsonRpcError { code: INVALID_REQUEST, message, data: None }
    }

    /// Create a method not found error naming the method.
    pub fn method_not_found(method: String) -> (r: JsonRpcError)
        ensures
            r.code == METHOD_NOT_FOUND,
            r.message@ == "Method '"@ + method@ + "' not found"@,
            r.data is None,
    {
        let mut message: String = "Method '".to_owned();
        message.append(method.as_str());
        message.append("' not found");
        JsonRpcError { code: METHOD_NOT_FOUND, message, data: None }
    }

    /// Create an invalid params error.
    pub fn invalid_params(message: String) -> (r: JsonRpcError)
        ensures
            r.code == INVALID_PARAMS,
            r.message@ == message@,
            r.data is None,
    {
        JsonRpcError { code: INVALID_PARAMS, message, data: None }
    }

    /// Create an internal error.
    pub fn internal_error(message: String) -> (r: JsonRpcError)
        ensures
            r.code == INTERNAL_ERROR,
            r.message@ == message@,
            r.data is None,
    {
        JsonRpcError { code: INTERNAL_ERROR, message, data: None }
    }
}

} // verus!
