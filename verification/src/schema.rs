use vstd::prelude::*;

use crate::model::GameError;
use crate::sql::{
    create_current_table, create_games_table, create_moves_table, create_taunts_table, db_same,
    schema_ready, sql_error_text,
};

verus! {

/// Initialize the database schema: the four tables the store works on
/// exist afterwards, created when absent, and rows already stored are
/// left exactly as they were.
pub fn init_schema(c: &mut rusqlite::Connection) -> (r: Result<(), GameError>)
    ensures
        db_same(*old(c), *final(c)),
        r is Ok ==> schema_ready(*final(c)),
        r matches Err(e) ==> e is DatabaseError,
{
    if let Err(e) = create_games_table(c) {
        return Err(GameError::DatabaseError { message: sql_error_text(&e) });
    }
    if let Err(e) = create_moves_table(c) {
        return Err(GameError::DatabaseError { message: sql_error_text(&e) });
    }
    if let Err(e) = create_taunts_table(c) {
        return Err(GameError::DatabaseError { message: sql_error_text(&e) });
    }
    if let Err(e) = create_current_table(c) {
        return Err(GameError::DatabaseError { message: sql_error_text(&e) });
    }
    Ok(())
}

} // verus!
