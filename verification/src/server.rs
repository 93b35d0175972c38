use vstd::prelude::*;

use crate::codec::str_eq;
use crate::manager::GameManager;
use crate::model::GameError;
use crate::protocol::{
    JsonRpcError, JsonRpcRequest, JsonRpcResponse, RpcOutcome, RpcParams, INVALID_REQUEST,
    METHOD_NOT_FOUND,
};
use crate::sql::{db_same, fresh_db, schema_ready};
use crate::tools;
use crate::tools::{
    get_turn_post, history_post, make_move_post, restart_post, taunt_post, view_state_post,
};

verus! {

/// The method names the dispatcher resolves.
pub open spec fn known_method(m: Seq<char>) -> bool {
    ||| m == "initialize"@
    ||| m == "tools/list"@
    ||| m == "view_game_state"@
    ||| m == "get_turn"@
    ||| m == "make_move"@
    ||| m == "taunt_player"@
    ||| m == "restart_game"@
    ||| m == "get_game_history"@
}

/// What dispatching one request did, by method name: each known method
/// resolves to exactly one operation and reports that operation's
/// outcome; an unknown one is refused without touching the store.
pub open spec fn dispatch_post(
    c0: rusqlite::Connection,
    c1: rusqlite::Connection,
    method: Seq<char>,
    params: RpcParams,
    now: i64,
    r: Result<RpcOutcome, JsonRpcError>,
) -> bool {
    &&& method == "initialize"@ ==> r == Ok::<RpcOutcome, JsonRpcError>(RpcOutcome::Initialize)
        && db_same(c0, c1)
    &&& method == "tools/list"@ ==> r == Ok::<RpcOutcome, JsonRpcError>(RpcOutcome::ToolsList)
        && db_same(c0, c1)
    &&& method == "view_game_state"@ ==> view_state_post(c0, c1, r)
    &&& method == "get_turn"@ ==> get_turn_post(c0, c1, r)
    &&& method == "make_move"@ ==> make_move_post(c0, c1, params, now, r)
    &&& method == "taunt_player"@ ==> taunt_post(c0, c1, params, now, r)
    &&& method == "restart_game"@ ==> restart_post(c0, c1, r)
    &&& method == "get_game_history"@ ==> history_post(c0, c1, r)
    &&& !known_method(method) ==> (r matches Err(e) && e.code == METHOD_NOT_FOUND && e.message@
        == "Method '"@ + method + "' not found"@ && db_same(c0, c1))
}

/// The eight method names are pairwise distinct.
proof fn lemma_method_names_distinct()
    ensures
        "initialize"@ != "tools/list"@,
        "taunt_player"@ != "restart_game"@,
        "initialize"@.len() == 10,
        "tools/list"@.len() == 10,
        "view_game_state"@.len() == 15,
        "get_turn"@.len() == 8,
        "make_move"@.len() == 9,
        "taunt_player"@.len() == 12,
        "restart_game"@.len() == 12,
        "get_game_history"@.len() == 16,
{
    reveal_strlit("initialize");
    reveal_strlit("tools/list");
    reveal_strlit("view_game_state");
    reveal_strlit("get_turn");
    reveal_strlit("make_move");
    reveal_strlit("taunt_player");
    reveal_strlit("restart_game");
    reveal_strlit("get_game_history");
    assert("initialize"@[0] == 'i' && "tools/list"@[0] == 't');
    assert("taunt_player"@[0] == 't' && "restart_game"@[0] == 'r');
}

/// Dispatch a method call to the appropriate operation.
pub fn dispatch(manager: &mut GameManager, method: &str, params: &RpcParams, now: i64) -> (r:
    Result<RpcOutcome, JsonRpcError>)
    ensures
        dispatch_post(old(manager).db(), final(manager).db(), method@, *params, now, r),
{
    proof {
        lemma_method_names_distinct();
    }
    if str_eq(method, "initialize") {
        Ok(RpcOutcome::Initialize)
    } else if str_eq(method, "tools/list") {
        Ok(RpcOutcome::ToolsList)
    } else if str_eq(method, "view_game_state") {
        tools::view_game_state(manager, params, now)
    } else if str_eq(method, "get_turn") {
        tools::get_turn(manager, params, now)
    } else if str_eq(method, "make_move") {
        tools::make_move(manager, params, now)
    } else if str_eq(method, "taunt_player") {
        tools::taunt_player(manager, params, now)
    } else if str_eq(method, "restart_game") {
        tools::restart_game(manager, params, now)
    } else if str_eq(method, "get_game_history") {
        tools::get_game_history(manager, params, now)
    } else {
        let mut name: String = String::new();
        name.append(method);
        proof {
            assert(name@ =~= method@);
        }
        Err(JsonRpcError::method_not_found(name))
    }
}

/// What answering one parsed request did: the envelope is well-formed
/// under the caller's echoed id, an invalid envelope was refused with the
/// store untouched, and a valid one carries its dispatch outcome.
pub open spec fn answered(
    c0: rusqlite::Connection,
    c1: rusqlite::Connection,
    request: JsonRpcRequest,
    now: i64,
    resp: JsonRpcResponse,
) -> bool {
    &&& resp.jsonrpc@ == "2.0"@
    &&& resp.id == request.id
    &&& ((resp.result is Some) <==> (resp.error is None))
    &&& (request.jsonrpc@ != "2.0"@ ==> (resp.error matches Some(e) && e.code == INVALID_REQUEST
        && db_same(c0, c1)))
    &&& (request.jsonrpc@ == "2.0"@ && request.method@.len() == 0 ==> (resp.error matches Some(e)
        && e.code == INVALID_REQUEST && db_same(c0, c1)))
    &&& (request.jsonrpc@ == "2.0"@ && request.method@.len() > 0 ==> (exists|
        r: Result<RpcOutcome, JsonRpcError>,
    | dispatch_post(c0, c1, request.method@, request.params, now, r) && wraps(resp, r)))
}

/// Answer one parsed request against the given coordinator: an invalid
/// envelope is refused with an invalid-request error and the store
/// untouched; a valid one is dispatched and its outcome wrapped — a
/// result or an error, never both, always under the caller's echoed id.
pub fn handle_parsed_request(manager: &mut GameManager, request: JsonRpcRequest, now: i64) -> (resp:
    JsonRpcResponse)
    ensures
        answered(old(manager).db(), final(manager).db(), request, now, resp),
{
    match request.validate() {
        Ok(()) => {},
        Err(e) => {
            return JsonRpcResponse::error(request.id, e);
        },
    }
    let ghost c0 = manager.db();
    let result = dispatch(manager, request.method.as_str(), &request.params, now);
    let ghost rr = result;
    match result {
        Ok(value) => {
            let resp = JsonRpcResponse::success(request.id, value);
            proof {
                assert(dispatch_post(c0, manager.db(), request.method@, request.params, now, rr)
                    && wraps(resp, rr));
            }
            resp
        },
        Err(error) => {
            let resp = JsonRpcResponse::error(request.id, error);
            proof {
                assert(dispatch_post(c0, manager.db(), request.method@, request.params, now, rr)
                    && wraps(resp, rr));
            }
            resp
        },
    }
}

/// True when the response wraps the given operation result: a result
/// payload on success, an error on failure, never both.
pub open spec fn wraps(resp: JsonRpcResponse, r: Result<RpcOutcome, JsonRpcError>) -> bool {
    match r {
        Ok(o) => resp.result == Some(o) && resp.error is None,
        Err(e) => resp.result is None && resp.error == Some(e),
    }
}

/// The server side of the line-oriented protocol: owns the coordinator
/// and answers one parsed request at a time.
pub struct McpServer {
    manager: GameManager,
}

impl McpServer {
    /// The connected database the server's coordinator uses.
    pub closed spec fn db(self) -> rusqlite::Connection {
        self.manager.db()
    }

    /// Create a new server on the given database path, with the store's
    /// four tables in place.
    pub fn new(db_path: &str) -> (r: Result<McpServer, GameError>)
        ensures
            r matches Ok(s) ==> schema_ready(s.db()),
            r matches Err(e) ==> e is DatabaseError,
    {
        let manager = match GameManager::new(db_path) {
            Ok(m) => m,
            Err(e) => return Err(e),
        };
        Ok(McpServer { manager })
    }

    /// Create a new server on a private in-memory database.
    pub fn new_in_memory() -> (r: Result<McpServer, GameError>)
        ensures
            r matches Ok(s) ==> fresh_db(s.db()) && schema_ready(s.db()),
            r matches Err(e) ==> e is DatabaseError,
    {
        let manager = match GameManager::new_in_memory() {
            Ok(m) => m,
            Err(e) => return Err(e),
        };
        Ok(McpServer { manager })
    }

    /// Create a new server around an existing coordinator.
    pub fn new_with_manager(manager: GameManager) -> (s: McpServer)
        ensures
            s.db() == manager.db(),
    {
        McpServer { manager }
    }

    /// Answer one parsed request, as `handle_parsed_request` does, on the
    /// server's own coordinator.
    pub fn handle_parsed(&mut self, request: JsonRpcRequest, now: i64) -> (resp: JsonRpcResponse)
        ensures
            answered(old(self).db(), final(self).db(), request, now, resp),
    {
        handle_parsed_request(&mut self.manager, request, now)
    }
}

} // verus!
