use vstd::prelude::*;

use crate::board::Board;
use crate::codec::{
    decode_player, decode_status, decode_source, encode_player, encode_status, move_of_record,
    moves_of_records, player_code, status_code, taunts_of_records, taunts_view,
};
use crate::logic::{check_winner, line_seq, winner_scan};
use crate::model::{
    cell_of, grid_matches_log, in_bounds, moves_in_bounds, Cell, GameError, GameState, Move, Taunt,
};
use crate::schema::init_schema;
use crate::sql::{
    db_current, db_header, db_moves, db_same, db_taunts, fresh_db, insert_move_row,
    insert_taunt_row, move_rows_view, open_file, open_memory, opt_str_view, opt_string_view,
    query_current_row, query_game_row, query_move_rows, query_taunt_rows, same_current, schema_ready,
    same_headers, same_headers_except, same_moves, same_moves_except, same_taunts,
    same_taunts_except, set_current_row, sql_error_text, upsert_game_row,
};

verus! {

/// Every stored move row names a cell on the grid.
pub open spec fn records_in_bounds(s: Seq<(Seq<char>, u8, u8, i64, Option<Seq<char>>)>) -> bool {
    forall|i: int| 0 <= i < s.len() ==> in_bounds(#[trigger] s[i].1 as int, s[i].2 as int)
}

/// The error that replaying an off-grid move log reports: the bounds
/// error naming the first move that leaves the grid.
pub open spec fn first_oob_error(ms: Seq<Move>, e: GameError) -> bool {
    exists|i: int|
        #![auto]
        0 <= i < ms.len() && !in_bounds(ms[i].row as int, ms[i].col as int) && e
            == (GameError::OutOfBounds { row: ms[i].row, col: ms[i].col }) && (forall|j: int|
            0 <= j < i ==> in_bounds(#[trigger] ms[j].row as int, ms[j].col as int))
}

/// What loading a game with the given id from the store yields: each
/// header field decoded from its stored code, the move history decoded
/// from the move rows in stored order, the grid rebuilt by replaying that
/// history from empty, the taunt log decoded from the taunt rows, and the
/// winning line recomputed from the rebuilt grid, so a won game carries
/// its three winning cells.
pub open spec fn is_stored_game(g: GameState, c: rusqlite::Connection, id: Seq<char>) -> bool {
    &&& db_header(c, id) matches Some(h) && {
        &&& g.human_player == crate::codec::player_of_code(h.0)
        &&& g.ai_player == crate::codec::player_of_code(h.1)
        &&& g.current_turn == crate::codec::player_of_code(h.2)
        &&& g.status == crate::codec::status_of_code(h.3)
    }
    &&& g.id@ == id
    &&& g.move_history@ == moves_of_records(db_moves(c, id))
    &&& moves_in_bounds(g.move_history@)
    &&& grid_matches_log(g.board, g.move_history@)
    &&& taunts_view(g.taunts@) == taunts_of_records(db_taunts(c, id))
    &&& (match winner_scan(g.board, 0) {
        Some(pk) => g.winning_line matches Some(wl) && wl.positions@ == line_seq(pk.1),
        None => g.winning_line is None,
    })
}

/// Game repository for database operations.
pub struct GameRepository {
    conn: rusqlite::Connection,
}

impl GameRepository {
    /// The connected database this repository reads and writes.
    pub closed spec fn db(self) -> rusqlite::Connection {
        self.conn
    }

    /// Create a new repository on the given database file, with the four
    /// tables in place.
    pub fn new(db_path: &str) -> (r: Result<GameRepository, GameError>)
        ensures
            r matches Ok(repo) ==> schema_ready(repo.db()),
            r matches Err(e) ==> e is DatabaseError,
    {
        let mut conn = match open_file(db_path) {
            Ok(c) => c,
            Err(e) => return Err(GameError::DatabaseError { message: sql_error_text(&e) }),
        };
        match init_schema(&mut conn) {
            Ok(()) => Ok(GameRepository { conn }),
            Err(e) => Err(e),
        }
    }

    /// Create a new repository with a private in-memory database that
    /// starts out holding no game data.
    pub fn new_in_memory() -> (r: Result<GameRepository, GameError>)
        ensures
            r matches Ok(repo) ==> fresh_db(repo.db()) && schema_ready(repo.db()),
            r matches Err(e) ==> e is DatabaseError,
    {
        let mut conn = match open_memory() {
            Ok(c) => c,
            Err(e) => return Err(GameError::DatabaseError { message: sql_error_text(&e) }),
        };
        match init_schema(&mut conn) {
            Ok(()) => Ok(GameRepository { conn }),
            Err(e) => Err(e),
        }
    }

    /// Upsert a game header: its id, role assignments, current turn and
    /// status, each under its stored code.
    pub fn save_game(&mut self, game: &GameState, now: i64) -> (r: Result<(), GameError>)
        ensures
            r is Ok ==> db_header(final(self).db(), game.id@) == Some(
                (
                    player_code(game.human_player),
                    player_code(game.ai_player),
                    player_code(game.current_turn),
                    status_code(game.status),
                ),
            ),
            r matches Err(e) ==> e is DatabaseError && db_header(final(self).db(), game.id@)
                == db_header(old(self).db(), game.id@),
            same_headers_except(old(self).db(), final(self).db(), game.id@),
            same_moves(old(self).db(), final(self).db()),
            same_taunts(old(self).db(), final(self).db()),
            same_current(old(self).db(), final(self).db()),
    {
        let human = encode_player(game.human_player);
        let ai = encode_player(game.ai_player);
        let turn = encode_player(game.current_turn);
        let status = encode_status(&game.status);
        match upsert_game_row(&mut self.conn, game.id.as_str(), human, ai, turn, status, now, now) {
            Ok(()) => Ok(()),
            Err(e) => Err(GameError::DatabaseError { message: sql_error_text(&e) }),
        }
    }

    /// Append one move row for the given game.
    pub fn save_move(&mut self, game_id: &str, mov: &Move) -> (r: Result<(), GameError>)
        ensures
            r is Ok ==> db_moves(final(self).db(), game_id@) == db_moves(
                old(self).db(),
                game_id@,
            ).push(crate::codec::move_record(*mov)),
            r matches Err(e) ==> e is DatabaseError && db_moves(final(self).db(), game_id@)
                == db_moves(old(self).db(), game_id@),
            same_moves_except(old(self).db(), final(self).db(), game_id@),
            same_headers(old(self).db(), final(self).db()),
            same_taunts(old(self).db(), final(self).db()),
            same_current(old(self).db(), final(self).db()),
    {
        let player = encode_player(mov.player);
        let source: Option<&str> = match mov.source {
            Some(s) => Some(crate::codec::encode_source(s)),
            None => None,
        };
        match insert_move_row(
            &mut self.conn,
            game_id,
            player,
            mov.row,
            mov.col,
            mov.timestamp,
            source,
        ) {
            Ok(()) => Ok(()),
            Err(e) => Err(GameError::DatabaseError { message: sql_error_text(&e) }),
        }
    }

    /// Load all moves for a game, in stored order.
    pub fn load_moves(&self, game_id: &str) -> (r: Result<Vec<Move>, GameError>)
        ensures
            r matches Ok(v) ==> v@ == moves_of_records(db_moves(self.db(), game_id@)),
            r matches Err(e) ==> e is DatabaseError,
    {
        let rows = match query_move_rows(&self.conn, game_id) {
            Ok(v) => v,
            Err(e) => return Err(GameError::DatabaseError { message: sql_error_text(&e) }),
        };
        let mut out: Vec<Move> = Vec::new();
        let mut i: usize = 0;
        while i < rows.len()
            invariant
                i <= rows.len(),
                move_rows_view(rows@) == db_moves(self.db(), game_id@),
                out@.len() == i,
                forall|j: int|
                    0 <= j < i ==> out@[j] == move_of_record(#[trigger] rows@[j].view_tuple()),
            decreases rows.len() - i,
        {
            let row = &rows[i];
            let m = Move {
                player: decode_player(row.player.as_str()),
                row: row.row,
                col: row.col,
                timestamp: row.timestamp,
                source: decode_opt_source(&row.source),
            };
            out.push(m);
            i += 1;
        }
        proof {
            assert(out@ =~= moves_of_records(db_moves(self.db(), game_id@)));
        }
        Ok(out)
    }

    /// Append one taunt row for the given game.
    pub fn save_taunt(
        &mut self,
        game_id: &str,
        message: &str,
        source: Option<&str>,
        now: i64,
    ) -> (r: Result<(), GameError>)
        ensures
            r is Ok ==> db_taunts(final(self).db(), game_id@) == db_taunts(
                old(self).db(),
                game_id@,
            ).push((message@, now, opt_str_view(source))),
            r matches Err(e) ==> e is DatabaseError && db_taunts(final(self).db(), game_id@)
                == db_taunts(old(self).db(), game_id@),
            same_taunts_except(old(self).db(), final(self).db(), game_id@),
            same_headers(old(self).db(), final(self).db()),
            same_moves(old(self).db(), final(self).db()),
            same_current(old(self).db(), final(self).db()),
    {
        match insert_taunt_row(&mut self.conn, game_id, message, now, source) {
            Ok(()) => Ok(()),
            Err(e) => Err(GameError::DatabaseError { message: sql_error_text(&e) }),
        }
    }

    /// Load all taunts for a game, in stored order.
    pub fn load_taunts(&self, game_id: &str) -> (r: Result<Vec<Taunt>, GameError>)
        ensures
            r matches Ok(v) ==> taunts_view(v@) == taunts_of_records(db_taunts(self.db(), game_id@)),
            r matches Err(e) ==> e is DatabaseError,
    {
        let rows = match query_taunt_rows(&self.conn, game_id) {
            Ok(v) => v,
            Err(e) => return Err(GameError::DatabaseError { message: sql_error_text(&e) }),
        };
        let mut out: Vec<Taunt> = Vec::new();
        let mut i: usize = 0;
        while i < rows.len()
            invariant
                i <= rows.len(),
                crate::sql::taunt_rows_view(rows@) == db_taunts(self.db(), game_id@),
                out@.len() == i,
                forall|j: int|
                    0 <= j < i ==> crate::codec::taunt_view(out@[j]) == crate::codec::taunt_of_record(
                        #[trigger] rows@[j].view_tuple(),
                    ),
            decreases rows.len() - i,
        {
            let row = &rows[i];
            let t = Taunt {
                message: row.message.clone(),
                timestamp: row.timestamp,
                source: decode_opt_source(&row.source),
            };
            out.push(t);
            i += 1;
        }
        proof {
            assert(taunts_view(out@) =~= taunts_of_records(db_taunts(self.db(), game_id@)));
        }
        Ok(out)
    }

    /// Reconstruct the grid by replaying moves in order onto an empty
    /// grid; the first off-grid move is refused.
    pub fn reconstruct_board(moves: &[Move]) -> (r: Result<[[Cell; 3]; 3], GameError>)
        ensures
            r is Ok <==> moves_in_bounds(moves@),
            r matches Ok(g) ==> grid_matches_log(g, moves@),
            r matches Err(e) ==> first_oob_error(moves@, e),
    {
        let line = [Cell::Empty, Cell::Empty, Cell::Empty];
        let mut g: [[Cell; 3]; 3] = [line, line, line];
        proof {
            assert forall|r: int, c: int| in_bounds(r, c) implies #[trigger] cell_of(g, r, c)
                == crate::model::replayed_cell(moves@.take(0), r, c) by {
                assert(g@[r] == line);
                assert(line@[c] == Cell::Empty);
            }
        }
        let mut i: usize = 0;
        while i < moves.len()
            invariant
                i <= moves@.len(),
                forall|j: int|
                    0 <= j < i ==> in_bounds(#[trigger] moves@[j].row as int, moves@[j].col as int),
                forall|r: int, c: int|
                    in_bounds(r, c) ==> #[trigger] cell_of(g, r, c) == crate::model::replayed_cell(
                        moves@.take(i as int),
                        r,
                        c,
                    ),
            decreases moves@.len() - i,
        {
            let m = &moves[i];
            if m.row >= 3 || m.col >= 3 {
                return Err(GameError::OutOfBounds { row: m.row, col: m.col });
            }
            let ghost g_before = g;
            let mut row_line: [Cell; 3] = g[m.row as usize];
            row_line[m.col as usize] = Cell::Occupied(m.player);
            g[m.row as usize] = row_line;
            proof {
                assert(moves@.take(i + 1).drop_last() =~= moves@.take(i as int));
                assert(moves@.take(i + 1).last() == moves@[i as int]);
                assert forall|r: int, c: int| in_bounds(r, c) implies #[trigger] cell_of(g, r, c)
                    == crate::model::replayed_cell(moves@.take(i + 1), r, c) by {
                    if r == moves@[i as int].row as int && c == moves@[i as int].col as int {
                        assert(cell_of(g, r, c) == Cell::Occupied(moves@[i as int].player));
                    } else {
                        assert(cell_of(g, r, c) == cell_of(g_before, r, c));
                    }
                }
            }
            i += 1;
        }
        proof {
            assert(moves@.take(moves@.len() as int) =~= moves@);
        }
        Ok(g)
    }

    /// Load a game: its stored header fields decoded, the grid rebuilt
    /// from the move log, and the taunt log attached.
    pub fn load_game(&self, game_id: &str) -> (r: Result<GameState, GameError>)
        ensures
            r matches Ok(g) ==> is_stored_game(g, self.db(), game_id@),
            r matches Err(e) ==> {
                ||| e is GameNotFound && db_header(self.db(), game_id@) is None
                ||| e is OutOfBounds && !records_in_bounds(db_moves(self.db(), game_id@))
                ||| e is DatabaseError
            },
    {
        let header = match query_game_row(&self.conn, game_id) {
            Ok(Some(h)) => h,
            Ok(None) => return Err(GameError::GameNotFound),
            Err(e) => return Err(GameError::DatabaseError { message: sql_error_text(&e) }),
        };
        let moves = match self.load_moves(game_id) {
            Ok(v) => v,
            Err(e) => return Err(e),
        };
        let board = match Self::reconstruct_board(moves.as_slice()) {
            Ok(b) => b,
            Err(e) => {
                proof {
                    let recs = db_moves(self.db(), game_id@);
                    let ms = moves_of_records(recs);
                    if records_in_bounds(recs) {
                        assert forall|i: int| 0 <= i < ms.len() implies in_bounds(
                            #[trigger] ms[i].row as int,
                            ms[i].col as int,
                        ) by {
                            assert(ms[i] == move_of_record(recs[i]));
                            assert(in_bounds(recs[i].1 as int, recs[i].2 as int));
                        }
                        assert(moves_in_bounds(ms));
                    }
                }
                return Err(e);
            },
        };
        let taunts = match self.load_taunts(game_id) {
            Ok(v) => v,
            Err(e) => return Err(e),
        };
        // Recompute the winning line over the rebuilt grid, so a won game
        // carries its three winning cells.
        let winning_line = match check_winner(&Board::from_cells(board)) {
            Some((_, line)) => Some(line),
            None => None,
        };
        Ok(
            GameState {
                id: game_id.to_owned(),
                board,
                current_turn: decode_player(header.turn.as_str()),
                human_player: decode_player(header.human.as_str()),
                ai_player: decode_player(header.ai.as_str()),
                status: decode_status(header.status.as_str()),
                move_history: moves,
                taunts,
                winning_line,
            },
        )
    }

    /// Get the current active game id shared across all processes.
    pub fn get_current_game_id(&self) -> (r: Result<Option<String>, GameError>)
        ensures
            r matches Ok(o) ==> opt_string_view(o) == db_current(self.db()),
            r matches Err(e) ==> e is DatabaseError,
    {
        match query_current_row(&self.conn) {
            Ok(o) => Ok(o),
            Err(e) => Err(GameError::DatabaseError { message: sql_error_text(&e) }),
        }
    }

    /// Overwrite the current active game id shared across all processes.
    pub fn set_current_game_id(&mut self, game_id: &str) -> (r: Result<(), GameError>)
        ensures
            r is Ok ==> db_current(final(self).db()) == Some(game_id@),
            r matches Err(e) ==> e is DatabaseError && db_current(final(self).db()) == db_current(
                old(self).db(),
            ),
            same_headers(old(self).db(), final(self).db()),
            same_moves(old(self).db(), final(self).db()),
            same_taunts(old(self).db(), final(self).db()),
    {
        match set_current_row(&mut self.conn, game_id) {
            Ok(()) => Ok(()),
            Err(e) => Err(GameError::DatabaseError { message: sql_error_text(&e) }),
        }
    }
}

/// Decode an optional stored origin code.
fn decode_opt_source(o: &Option<String>) -> (r: Option<crate::model::MoveSource>)
    ensures
        r == crate::codec::opt_source_of(opt_string_view(*o)),
{
    match o {
        None => None,
        Some(s) => decode_source(s.as_str()),
    }
}

} // verus!
