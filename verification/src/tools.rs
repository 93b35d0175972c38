use vstd::prelude::*;

use crate::manager::{
    created_fresh, make_move_ok, resolved_active_game, taunt_ok, validation_failed, GameManager,
};
use crate::model::{GameError, GameState, MoveSource};
use crate::player::Player;
use crate::protocol::{
    JsonRpcError, RpcOutcome, RpcParams, INTERNAL_ERROR, INVALID_PARAMS,
};
use crate::sql::{db_same, same_moves, same_taunts};

verus! {

/// How a turn report reads off a game: the mark to move, and whether
/// that mark is the human's or the agent's — derived, not stored.
pub open spec fn turn_report(g: GameState, current: Player, human: bool, agent: bool) -> bool {
    &&& current == g.current_turn
    &&& human == (g.current_turn == g.human_player)
    &&& agent == (g.current_turn == g.ai_player)
}

/// A requested coordinate clamped into the byte range; anything above
/// the grid stays above the grid.
pub open spec fn to_coord(v: u64) -> u8 {
    if v > 255 {
        255u8
    } else {
        v as u8
    }
}

/// The message a refused move reports, by the kind of refusal.
pub open spec fn invalid_move_message(e: GameError) -> Seq<char> {
    match e {
        GameError::OutOfBounds { .. } => "Move out of bounds"@,
        GameError::CellOccupied { .. } => "Cell already occupied"@,
        GameError::GameOver { .. } => "Game is already over"@,
        _ => Seq::<char>::empty(),
    }
}

/// What the view-state operation did; a store fault reads as an opaque
/// internal error.
pub open spec fn view_state_post(
    c0: rusqlite::Connection,
    c1: rusqlite::Connection,
    r: Result<RpcOutcome, JsonRpcError>,
) -> bool {
    &&& same_moves(c0, c1)
    &&& same_taunts(c0, c1)
    &&& (r matches Ok(o) ==> (o matches RpcOutcome::State(g) && resolved_active_game(c0, c1, g)))
    &&& (r matches Err(e) ==> e.code == INTERNAL_ERROR && e.message@ == "Failed to get game state"@)
}

/// What the turn-query operation did.
pub open spec fn get_turn_post(
    c0: rusqlite::Connection,
    c1: rusqlite::Connection,
    r: Result<RpcOutcome, JsonRpcError>,
) -> bool {
    &&& same_moves(c0, c1)
    &&& same_taunts(c0, c1)
    &&& (r matches Ok(o) ==> (o matches RpcOutcome::Turn { current_turn, is_human_turn, is_ai_turn }
        && (exists|g: GameState|
            resolved_active_game(c0, c1, g) && turn_report(
                g,
                current_turn,
                is_human_turn,
                is_ai_turn,
            ))))
    &&& (r matches Err(e) ==> e.code == INTERNAL_ERROR && e.message@ == "Failed to get game state"@)
}

/// What the move operation did: missing parameters are refused before
/// the coordinator is touched; otherwise the coordinator's verdict is
/// reported, a refusal as an invalid-params error with the message for
/// its kind.
pub open spec fn make_move_post(
    c0: rusqlite::Connection,
    c1: rusqlite::Connection,
    params: RpcParams,
    now: i64,
    r: Result<RpcOutcome, JsonRpcError>,
) -> bool {
    &&& same_taunts(c0, c1)
    &&& (params.row is None ==> (r matches Err(e) && e.code == INVALID_PARAMS && e.message@
        == "Missing or invalid 'row' parameter"@ && db_same(c0, c1)))
    &&& (params.row is Some && params.col is None ==> (r matches Err(e) && e.code == INVALID_PARAMS
        && e.message@ == "Missing or invalid 'col' parameter"@ && db_same(c0, c1)))
    &&& (params.row matches Some(rv) ==> (params.col matches Some(cv) ==> {
        &&& (r matches Ok(o) ==> (o matches RpcOutcome::MoveMade(g1) && make_move_ok(
            c0,
            c1,
            g1,
            to_coord(rv),
            to_coord(cv),
            MoveSource::MCP,
            now,
        )))
        &&& (r matches Err(e) ==> ((e.code == INTERNAL_ERROR && e.message@
            == "Failed to make move"@) || (e.code == INVALID_PARAMS && (exists|ge: GameError|
            validation_failed(c0, c1, ge, to_coord(rv), to_coord(cv)) && e.message@
                == invalid_move_message(ge)))))
    }))
}

/// What the taunt operation did: a missing or empty message is refused
/// before the coordinator is touched; otherwise the message is appended
/// to the active game's taunt log.
pub open spec fn taunt_post(
    c0: rusqlite::Connection,
    c1: rusqlite::Connection,
    params: RpcParams,
    now: i64,
    r: Result<RpcOutcome, JsonRpcError>,
) -> bool {
    &&& same_moves(c0, c1)
    &&& (params.message is None ==> (r matches Err(e) && e.code == INVALID_PARAMS && e.message@
        == "Missing or invalid 'message' parameter"@ && db_same(c0, c1)))
    &&& (params.message matches Some(msg) ==> {
        &&& (msg@.len() == 0 ==> (r matches Err(e) && e.code == INVALID_PARAMS && e.message@
            == "Message cannot be empty"@ && db_same(c0, c1)))
        &&& (msg@.len() > 0 ==> {
            &&& (r matches Ok(o) ==> o == RpcOutcome::TauntSent && taunt_ok(
                c0,
                c1,
                msg@,
                MoveSource::MCP,
                now,
            ))
            &&& (r matches Err(e) ==> e.code == INTERNAL_ERROR && e.message@
                == "Failed to add taunt"@)
        })
    })
}

/// What the restart operation did.
pub open spec fn restart_post(
    c0: rusqlite::Connection,
    c1: rusqlite::Connection,
    r: Result<RpcOutcome, JsonRpcError>,
) -> bool {
    &&& same_moves(c0, c1)
    &&& same_taunts(c0, c1)
    &&& (r matches Ok(o) ==> (o matches RpcOutcome::Restarted(g) && created_fresh(c0, c1, g)))
    &&& (r matches Err(e) ==> e.code == INTERNAL_ERROR && e.message@ == "Failed to restart game"@)
}

/// What the history operation did: the moves of the active game, in
/// order.
pub open spec fn history_post(
    c0: rusqlite::Connection,
    c1: rusqlite::Connection,
    r: Result<RpcOutcome, JsonRpcError>,
) -> bool {
    &&& same_moves(c0, c1)
    &&& same_taunts(c0, c1)
    &&& (r matches Ok(o) ==> (o matches RpcOutcome::History(v) && (exists|g: GameState|
        resolved_active_game(c0, c1, g) && v@ == g.move_history@)))
    &&& (r matches Err(e) ==> e.code == INTERNAL_ERROR && e.message@ == "Failed to get game state"@)
}

/// Handle the view_game_state tool call.
pub fn view_game_state(manager: &mut GameManager, _params: &RpcParams, now: i64) -> (r: Result<
    RpcOutcome,
    JsonRpcError,
>)
    ensures
        view_state_post(old(manager).db(), final(manager).db(), r),
{
    match manager.get_game_state(now) {
        Ok(game) => Ok(RpcOutcome::State(game)),
        Err(_) => Err(JsonRpcError::internal_error("Failed to get game state".to_owned())),
    }
}

/// Handle the get_turn tool call.
pub fn get_turn(manager: &mut GameManager, _params: &RpcParams, now: i64) -> (r: Result<
    RpcOutcome,
    JsonRpcError,
>)
    ensures
        get_turn_post(old(manager).db(), final(manager).db(), r),
{
    let game = match manager.get_game_state(now) {
        Ok(g) => g,
        Err(_) => {
            return Err(JsonRpcError::internal_error("Failed to get game state".to_owned()));
        },
    };
    let is_human_turn = game.current_turn == game.human_player;
    let is_ai_turn = game.current_turn == game.ai_player;
    Ok(RpcOutcome::Turn { current_turn: game.current_turn, is_human_turn, is_ai_turn })
}

/// Handle the make_move tool call.
pub fn make_move(manager: &mut GameManager, params: &RpcParams, now: i64) -> (r: Result<
    RpcOutcome,
    JsonRpcError,
>)
    ensures
        make_move_post(old(manager).db(), final(manager).db(), *params, now, r),
{
    let rv: u64 = match params.row {
        Some(v) => v,
        None => {
            return Err(
                JsonRpcError::invalid_params("Missing or invalid 'row' parameter".to_owned()),
            );
        },
    };
    let cv: u64 = match params.col {
        Some(v) => v,
        None => {
            return Err(
                JsonRpcError::invalid_params("Missing or invalid 'col' parameter".to_owned()),
            );
        },
    };
    let row: u8 = if rv > 255 {
        255u8
    } else {
        rv as u8
    };
    let col: u8 = if cv > 255 {
        255u8
    } else {
        cv as u8
    };
    let ghost c0 = old(manager).db();
    match manager.make_move(row, col, MoveSource::MCP, now) {
        Ok(game) => Ok(RpcOutcome::MoveMade(game)),
        Err(e) => {
            let ghost ge = e;
            match e {
                GameError::OutOfBounds { .. } => {
                    let err = JsonRpcError::invalid_params("Move out of bounds".to_owned());
                    proof {
                        assert(validation_failed(c0, manager.db(), ge, to_coord(rv), to_coord(cv))
                            && err.message@ == invalid_move_message(ge));
                    }
                    Err(err)
                },
                GameError::CellOccupied { .. } => {
                    let err = JsonRpcError::invalid_params("Cell already occupied".to_owned());
                    proof {
                        assert(validation_failed(c0, manager.db(), ge, to_coord(rv), to_coord(cv))
                            && err.message@ == invalid_move_message(ge));
                    }
                    Err(err)
                },
                GameError::GameOver { .. } => {
                    let err = JsonRpcError::invalid_params("Game is already over".to_owned());
                    proof {
                        assert(validation_failed(c0, manager.db(), ge, to_coord(rv), to_coord(cv))
                            && err.message@ == invalid_move_message(ge));
                    }
                    Err(err)
                },
                _ => Err(JsonRpcError::internal_error("Failed to make move".to_owned())),
            }
        },
    }
}

/// Handle the taunt_player tool call.
pub fn taunt_player(manager: &mut GameManager, params: &RpcParams, now: i64) -> (r: Result<
    RpcOutcome,
    JsonRpcError,
>)
    ensures
        taunt_post(old(manager).db(), final(manager).db(), *params, now, r),
{
    let message: String = match &params.message {
        Some(m) => m.clone(),
        None => {
            return Err(
                JsonRpcError::invalid_params("Missing or invalid 'message' parameter".to_owned()),
            );
        },
    };
    if message.as_str().is_empty() {
        return Err(JsonRpcError::invalid_params("Message cannot be empty".to_owned()));
    }
    match manager.add_taunt(message, MoveSource::MCP, now) {
        Ok(()) => Ok(RpcOutcome::TauntSent),
        Err(_) => Err(JsonRpcError::internal_error("Failed to add taunt".to_owned())),
    }
}

/// Handle the restart_game tool call.
pub fn restart_game(manager: &mut GameManager, _params: &RpcParams, now: i64) -> (r: Result<
    RpcOutcome,
    JsonRpcError,
>)
    ensures
        restart_post(old(manager).db(), final(manager).db(), r),
{
    match manager.restart_game(now) {
        Ok(game) => Ok(RpcOutcome::Restarted(game)),
        Err(_) => Err(JsonRpcError::internal_error("Failed to restart game".to_owned())),
    }
}

/// Handle the get_game_history tool call.
pub fn get_game_history(manager: &mut GameManager, _params: &RpcParams, now: i64) -> (r: Result<
    RpcOutcome,
    JsonRpcError,
>)
    ensures
        history_post(old(manager).db(), final(manager).db(), r),
{
    match manager.get_game_state(now) {
        Ok(game) => Ok(RpcOutcome::History(game.move_history)),
        Err(_) => Err(JsonRpcError::internal_error("Failed to get game state".to_owned())),
    }
}

} // verus!
