//! The decisions of the HTTP adapter: which status code each error
//! earns, and which completed operations are pushed to subscribers.

use vstd::prelude::*;

use crate::codec::str_eq;
use crate::model::GameError;

verus! {

/// The HTTP status an error translates to: a client fault for refused
/// requests, not-found for a missing game, a server fault for store and
/// internal failures.
pub open spec fn spec_http_status(e: GameError) -> u16 {
    match e {
        GameError::CellOccupied { .. } => 400,
        GameError::OutOfBounds { .. } => 400,
        GameError::WrongTurn { .. } => 400,
        GameError::GameOver { .. } => 400,
        GameError::GameNotFound => 404,
        GameError::DatabaseError { .. } => 500,
        GameError::InternalError { .. } => 500,
    }
}

/// Translate an error into its HTTP status code.
pub fn http_status_for(e: &GameError) -> (r: u16)
    ensures
        r == spec_http_status(*e),
{
    match e {
        GameError::CellOccupied { .. } => 400,
        GameError::OutOfBounds { .. } => 400,
        GameError::WrongTurn { .. } => 400,
        GameError::GameOver { .. } => 400,
        GameError::GameNotFound => 404,
        GameError::DatabaseError { .. } => 500,
        GameError::InternalError { .. } => 500,
    }
}

/// The methods whose success mutates the game and so must be fanned out
/// to subscribers.
pub open spec fn mutating_method(m: Seq<char>) -> bool {
    m == "make_move"@ || m == "restart_game"@
}

/// Whether a completed call must be pushed to the notification channel:
/// exactly the successful calls of a mutating method.
pub fn should_broadcast(method: &str, success: bool) -> (r: bool)
    ensures
        r == (success && mutating_method(method@)),
{
    success && (str_eq(method, "make_move") || str_eq(method, "restart_game"))
}

} // verus!
