use vstd::prelude::*;

use crate::board::Board;
use crate::codec::{
    move_record, player_code, source_code, status_code,
};
use crate::logic::{get_game_status, line_seq, status_of, winner_scan};
use crate::model::{
    cell_of, grid_matches_log, in_bounds, replayed_cell, Cell, GameError, GameState, GameStatus,
    Move, MoveSource, Taunt,
};
use crate::player::assign_players;
use crate::repository::{is_stored_game, records_in_bounds, GameRepository};
use crate::sql::{
    db_current, db_header, db_moves, db_same, db_taunts, fresh_db, opt_string_view, same_current,
    same_headers, same_headers_except, same_moves, same_moves_except, same_taunts,
    same_taunts_except, schema_ready,
};

verus! {

/// The stored header codes of a game: human's mark, agent's mark, mark to
/// move, status.
pub open spec fn game_header(g: GameState) -> (Seq<char>, Seq<char>, Seq<char>, Seq<char>) {
    (
        player_code(g.human_player),
        player_code(g.ai_player),
        player_code(g.current_turn),
        status_code(g.status),
    )
}

/// A just-created game: in progress, nothing played or said yet, the two
/// roles holding opposite marks, one of them to move, the grid empty.
pub open spec fn fresh_game_state(g: GameState) -> bool {
    &&& g.status == GameStatus::InProgress
    &&& g.move_history@ == Seq::<Move>::empty()
    &&& g.taunts@ == Seq::<Taunt>::empty()
    &&& g.winning_line is None
    &&& g.ai_player == g.human_player.spec_opponent()
    &&& (g.current_turn == g.human_player || g.current_turn == g.ai_player)
    &&& grid_matches_log(g.board, g.move_history@)
}

/// The game was read back from the store, which was left unchanged.
pub open spec fn loaded_existing(c0: rusqlite::Connection, c1: rusqlite::Connection, g: GameState) -> bool {
    &&& db_same(c0, c1)
    &&& is_stored_game(g, c0, g.id@)
}

/// A fresh game was created: its header written, the shared pointer
/// reassigned to it, and nothing else touched — in particular no move or
/// taunt row anywhere, and no other game's header.
pub open spec fn created_fresh(c0: rusqlite::Connection, c1: rusqlite::Connection, g: GameState) -> bool {
    &&& fresh_game_state(g)
    &&& db_header(c1, g.id@) == Some(game_header(g))
    &&& db_current(c1) == Some(g.id@)
    &&& same_headers_except(c0, c1, g.id@)
    &&& same_moves(c0, c1)
    &&& same_taunts(c0, c1)
}

/// How the coordinator obtains its active game: reading back the stored
/// one, or creating a fresh one.
pub open spec fn resolved_game(c0: rusqlite::Connection, c1: rusqlite::Connection, g: GameState) -> bool {
    loaded_existing(c0, c1, g) || created_fresh(c0, c1, g)
}

/// The resolved game, tied to the shared pointer: whenever the pointer
/// names a loadable game, resolution read back exactly that game and left
/// the store unchanged; only an unset or unloadable pointer can lead
/// anywhere else.
pub open spec fn resolved_active_game(
    c0: rusqlite::Connection,
    c1: rusqlite::Connection,
    g: GameState,
) -> bool {
    &&& resolved_game(c0, c1, g)
    &&& (pointer_loadable(c0) ==> (db_current(c0) == Some(g.id@) && loaded_existing(c0, c1, g)))
}

/// The shared pointer names a game whose stored record can be read back:
/// its header exists and its move log stays on the grid.
pub open spec fn pointer_loadable(c: rusqlite::Connection) -> bool {
    db_current(c) matches Some(id) && db_header(c, id) is Some && records_in_bounds(
        db_moves(c, id),
    )
}

/// The error a requested move earns, checked in order: a finished game,
/// then off-grid coordinates, then an occupied cell; a legal move earns
/// none.
pub open spec fn move_validation_error(g: GameState, row: u8, col: u8) -> Option<GameError> {
    if g.status != GameStatus::InProgress {
        Some(GameError::GameOver { status: g.status })
    } else if !in_bounds(row as int, col as int) {
        Some(GameError::OutOfBounds { row, col })
    } else if cell_of(g.board, row as int, col as int) != Cell::Empty {
        Some(GameError::CellOccupied { row, col })
    } else {
        None
    }
}

/// The move record an accepted request appends: played by the mark whose
/// turn it was, stamped with the caller's clock and origin.
pub open spec fn spec_move(g0: GameState, row: u8, col: u8, source: MoveSource, now: i64) -> Move {
    Move { player: g0.current_turn, row, col, timestamp: now, source: Some(source) }
}

/// How one accepted move takes a game from `g0` to `g1`: the move is
/// legal on `g0`; it is appended to the history; the grid still equals
/// the replayed history; status and winning line are recomputed from the
/// full grid; and the turn passes to the opponent exactly when the game
/// stays in progress.
pub open spec fn move_applied(
    g0: GameState,
    g1: GameState,
    row: u8,
    col: u8,
    source: MoveSource,
    now: i64,
) -> bool {
    let m = spec_move(g0, row, col, source, now);
    &&& move_validation_error(g0, row, col) is None
    &&& g1.id@ == g0.id@
    &&& g1.human_player == g0.human_player
    &&& g1.ai_player == g0.ai_player
    &&& g1.move_history@ == g0.move_history@.push(m)
    &&& g1.taunts@ == g0.taunts@
    &&& grid_matches_log(g1.board, g1.move_history@)
    &&& g1.status == status_of(g1.board)
    &&& (match winner_scan(g1.board, 0) {
        Some(pk) => g1.winning_line matches Some(wl) && wl.positions@ == line_seq(pk.1),
        None => g1.winning_line is None,
    })
    &&& g1.current_turn == if g1.status == GameStatus::InProgress {
        g0.current_turn.spec_opponent()
    } else {
        g0.current_turn
    }
}

/// Everything a successful move call did, with the resolved game `g0` and
/// the store state `cmid` right after resolution: the game step itself,
/// the appended move row, the rewritten header, and nothing else.
pub open spec fn move_outcome(
    c0: rusqlite::Connection,
    cmid: rusqlite::Connection,
    c1: rusqlite::Connection,
    g0: GameState,
    g1: GameState,
    row: u8,
    col: u8,
    source: MoveSource,
    now: i64,
) -> bool {
    &&& resolved_active_game(c0, cmid, g0)
    &&& move_applied(g0, g1, row, col, source, now)
    &&& db_moves(c1, g1.id@) == db_moves(cmid, g1.id@).push(
        move_record(spec_move(g0, row, col, source, now)),
    )
    &&& same_moves_except(cmid, c1, g1.id@)
    &&& db_header(c1, g1.id@) == Some(game_header(g1))
    &&& same_headers_except(cmid, c1, g1.id@)
    &&& same_taunts(cmid, c1)
    &&& same_current(cmid, c1)
}

/// A successful move call, with the resolved game and the mid-call store
/// state abstracted away.
pub open spec fn make_move_ok(
    c0: rusqlite::Connection,
    c1: rusqlite::Connection,
    g1: GameState,
    row: u8,
    col: u8,
    source: MoveSource,
    now: i64,
) -> bool {
    exists|g0: GameState, cmid: rusqlite::Connection|
        move_outcome(c0, cmid, c1, g0, g1, row, col, source, now)
}

/// Everything a rejected move call did: it resolved a game, found the
/// request illegal on it, reported exactly that error, and from then on
/// changed nothing.
pub open spec fn validation_outcome(
    c0: rusqlite::Connection,
    cmid: rusqlite::Connection,
    c1: rusqlite::Connection,
    g0: GameState,
    e: GameError,
    row: u8,
    col: u8,
) -> bool {
    &&& resolved_active_game(c0, cmid, g0)
    &&& Some(e) == move_validation_error(g0, row, col)
    &&& db_same(cmid, c1)
}

/// A rejected move call, with the resolved game and the mid-call store
/// state abstracted away.
pub open spec fn validation_failed(
    c0: rusqlite::Connection,
    c1: rusqlite::Connection,
    e: GameError,
    row: u8,
    col: u8,
) -> bool {
    exists|g0: GameState, cmid: rusqlite::Connection| validation_outcome(c0, cmid, c1, g0, e, row, col)
}

/// Everything a successful taunt call did: it resolved a game, appended
/// one taunt row to that game's log, and changed nothing else.
pub open spec fn taunt_outcome(
    c0: rusqlite::Connection,
    cmid: rusqlite::Connection,
    c1: rusqlite::Connection,
    g0: GameState,
    message: Seq<char>,
    source: MoveSource,
    now: i64,
) -> bool {
    &&& resolved_active_game(c0, cmid, g0)
    &&& db_taunts(c1, g0.id@) == db_taunts(cmid, g0.id@).push(
        (message, now, Some(source_code(source))),
    )
    &&& same_taunts_except(cmid, c1, g0.id@)
    &&& same_moves(cmid, c1)
    &&& same_headers(cmid, c1)
    &&& same_current(cmid, c1)
}

/// A successful taunt call, with the resolved game and the mid-call store
/// state abstracted away.
pub open spec fn taunt_ok(
    c0: rusqlite::Connection,
    c1: rusqlite::Connection,
    message: Seq<char>,
    source: MoveSource,
    now: i64,
) -> bool {
    exists|g0: GameState, cmid: rusqlite::Connection|
        taunt_outcome(c0, cmid, c1, g0, message, source, now)
}

/// Game state manager: the coordinator that owns the active game,
/// validates and applies mutations, and persists every one of them.
///
/// Every mutating operation takes the wall clock as a plain `now`
/// argument and stores it as given; a caller reading a real clock hands
/// in non-decreasing stamps, and the log's own insertion order, not the
/// stamp, is what orders the history.
pub struct GameManager {
    current_game_id: Option<String>,
    repository: GameRepository,
}

impl GameManager {
    /// The connected database this manager reads and writes.
    pub closed spec fn db(self) -> rusqlite::Connection {
        self.repository.db()
    }

    /// The game id this manager has cached in memory, if any.
    pub closed spec fn cached_id(self) -> Option<Seq<char>> {
        opt_string_view(self.current_game_id)
    }

    /// Create a new game manager on the given database file, with the
    /// store's four tables in place.
    pub fn new(db_path: &str) -> (r: Result<GameManager, GameError>)
        ensures
            r matches Ok(m) ==> schema_ready(m.db()) && m.cached_id() is None,
            r matches Err(e) ==> e is DatabaseError,
    {
        let repository = match GameRepository::new(db_path) {
            Ok(repo) => repo,
            Err(e) => return Err(e),
        };
        Ok(GameManager { current_game_id: None, repository })
    }

    /// Create a new game manager on a private in-memory database that
    /// starts out holding no game data.
    pub fn new_in_memory() -> (r: Result<GameManager, GameError>)
        ensures
            r matches Ok(m) ==> fresh_db(m.db()) && schema_ready(m.db()) && m.cached_id() is None,
            r matches Err(e) ==> e is DatabaseError,
    {
        let repository = match GameRepository::new_in_memory() {
            Ok(repo) => repo,
            Err(e) => return Err(e),
        };
        Ok(GameManager { current_game_id: None, repository })
    }

    /// Get the current game, or create a new one if none can be read
    /// back: the shared pointer is consulted first, then the locally
    /// cached id; a store fault surfaces rather than silently starting a
    /// new game.
    pub fn get_or_create_game(&mut self, now: i64) -> (r: Result<GameState, GameError>)
        ensures
            r matches Ok(g) ==> resolved_active_game(old(self).db(), final(self).db(), g),
            r matches Ok(g) ==> final(self).cached_id() == Some(g.id@),
            (db_current(old(self).db()) is None && old(self).cached_id() is None && r is Ok) ==> (
            r matches Ok(g) && created_fresh(old(self).db(), final(self).db(), g)),
            r matches Err(e) ==> e is DatabaseError,
            r is Err ==> (exists|id: Seq<char>|
                same_headers_except(old(self).db(), final(self).db(), id)) && same_current(
                old(self).db(),
                final(self).db(),
            ),
            same_moves(old(self).db(), final(self).db()),
            same_taunts(old(self).db(), final(self).db()),
    {
        let ghost c0 = self.db();
        // The shared pointer first: it is what lets a second process see
        // moves made by the first.
        match self.repository.get_current_game_id() {
            Err(e) => {
                proof {
                    assert(same_headers_except(c0, self.db(), Seq::<char>::empty()));
                }
                return Err(e);
            },
            Ok(Some(game_id)) => {
                match self.repository.load_game(game_id.as_str()) {
                    Ok(game) => {
                        self.current_game_id = Some(game_id);
                        return Ok(game);
                    },
                    Err(GameError::DatabaseError { message }) => {
                        proof {
                            assert(same_headers_except(c0, self.db(), Seq::<char>::empty()));
                        }
                        return Err(GameError::DatabaseError { message });
                    },
                    Err(_) => {},
                }
            },
            Ok(None) => {},
        }
        // Then the locally cached id.
        let mut cached_load: Option<GameState> = None;
        if let Some(game_id) = &self.current_game_id {
            match self.repository.load_game(game_id.as_str()) {
                Ok(game) => {
                    cached_load = Some(game);
                },
                Err(GameError::DatabaseError { message }) => {
                    proof {
                        assert(same_headers_except(c0, self.db(), Seq::<char>::empty()));
                    }
                    return Err(GameError::DatabaseError { message });
                },
                Err(_) => {},
            }
        }
        if let Some(game) = cached_load {
            return Ok(game);
        }
        // Otherwise, create a new game.
        self.create_new_game(now)
    }

    /// Create a new game: a freshly drawn id, randomly assigned roles and
    /// first turn, persisted header, and the shared pointer reassigned.
    fn create_new_game(&mut self, now: i64) -> (r: Result<GameState, GameError>)
        ensures
            r matches Ok(g) ==> created_fresh(old(self).db(), final(self).db(), g),
            r matches Ok(g) ==> final(self).cached_id() == Some(g.id@),
            r matches Err(e) ==> e is DatabaseError,
            r is Err ==> (exists|id: Seq<char>|
                same_headers_except(old(self).db(), final(self).db(), id)) && same_current(
                old(self).db(),
                final(self).db(),
            ),
            same_moves(old(self).db(), final(self).db()),
            same_taunts(old(self).db(), final(self).db()),
    {
        let ghost c0 = self.db();
        let game_id = fresh_game_id();
        let (human_player, ai_player, first_player) = assign_players();

        let line = [Cell::Empty, Cell::Empty, Cell::Empty];
        let board = [line, line, line];
        proof {
            assert forall|r2: int, c2: int| in_bounds(r2, c2) implies #[trigger] cell_of(
                board,
                r2,
                c2,
            ) == replayed_cell(Seq::<Move>::empty(), r2, c2) by {
                assert(board@[r2] == line);
                assert(line@[c2] == Cell::Empty);
            }
        }
        let game = GameState {
            id: game_id.clone(),
            board,
            current_turn: first_player,
            human_player,
            ai_player,
            status: GameStatus::InProgress,
            move_history: Vec::new(),
            taunts: Vec::new(),
            winning_line: None,
        };

        match self.repository.save_game(&game, now) {
            Ok(()) => {},
            Err(e) => {
                proof {
                    assert(same_headers_except(c0, self.db(), game.id@));
                }
                return Err(e);
            },
        }
        let ghost c_saved = self.db();
        match self.repository.set_current_game_id(game.id.as_str()) {
            Ok(()) => {},
            Err(e) => {
                proof {
                    assert forall|id2: Seq<char>| id2 != game.id@ implies #[trigger] db_header(
                        self.db(),
                        id2,
                    ) == db_header(c0, id2) by {
                        assert(db_header(self.db(), id2) == db_header(c_saved, id2));
                        assert(db_header(c_saved, id2) == db_header(c0, id2));
                    }
                    assert(same_headers_except(c0, self.db(), game.id@));
                }
                return Err(e);
            },
        }
        self.current_game_id = Some(game_id);
        Ok(game)
    }

    /// Make a move on the board: resolve the active game, validate the
    /// request against it, append the accepted move to the persisted log,
    /// recompute status and winning line over the full replayed grid,
    /// advance the turn while the game stays in progress, and persist the
    /// updated header.
    pub fn make_move(&mut self, row: u8, col: u8, source: MoveSource, now: i64) -> (r: Result<
        GameState,
        GameError,
    >)
        ensures
            same_taunts(old(self).db(), final(self).db()),
            r matches Ok(g1) ==> make_move_ok(
                old(self).db(),
                final(self).db(),
                g1,
                row,
                col,
                source,
                now,
            ),
            r matches Err(e) ==> (e is DatabaseError || validation_failed(
                old(self).db(),
                final(self).db(),
                e,
                row,
                col,
            )),
            r is Err ==> (exists|id: Seq<char>|
                same_headers_except(old(self).db(), final(self).db(), id) && same_moves_except(
                    old(self).db(),
                    final(self).db(),
                    id,
                )),
    {
        let ghost c0 = self.db();
        let mut game = match self.get_or_create_game(now) {
            Ok(g) => g,
            Err(e) => {
                proof {
                    let wid = choose|id: Seq<char>| same_headers_except(c0, self.db(), id);
                    assert(same_headers_except(c0, self.db(), wid) && same_moves_except(
                        c0,
                        self.db(),
                        wid,
                    ));
                }
                return Err(e);
            },
        };
        let ghost cmid = self.db();
        let ghost g0 = game;

        // Check if game is already over.
        if game.status != GameStatus::InProgress {
            let e = GameError::GameOver { status: game.status };
            proof {
                assert(validation_outcome(c0, cmid, self.db(), g0, e, row, col));
                assert(same_headers_except(c0, self.db(), g0.id@) && same_moves_except(
                    c0,
                    self.db(),
                    g0.id@,
                ));
            }
            return Err(e);
        }

        // Validate bounds.
        if row >= 3 || col >= 3 {
            let e = GameError::OutOfBounds { row, col };
            proof {
                assert(validation_outcome(c0, cmid, self.db(), g0, e, row, col));
                assert(same_headers_except(c0, self.db(), g0.id@) && same_moves_except(
                    c0,
                    self.db(),
                    g0.id@,
                ));
            }
            return Err(e);
        }

        // Check if the cell is empty.
        let grid_line: [Cell; 3] = game.board[row as usize];
        if grid_line[col as usize] != Cell::Empty {
            let e = GameError::CellOccupied { row, col };
            proof {
                assert(validation_outcome(c0, cmid, self.db(), g0, e, row, col));
                assert(same_headers_except(c0, self.db(), g0.id@) && same_moves_except(
                    c0,
                    self.db(),
                    g0.id@,
                ));
            }
            return Err(e);
        }

        // Mark the cell for the current-turn player.
        let current_player = game.current_turn;
        let mut new_line: [Cell; 3] = game.board[row as usize];
        new_line[col as usize] = Cell::Occupied(current_player);
        game.board[row as usize] = new_line;

        // Record the move.
        let mov = Move { player: current_player, row, col, timestamp: now, source: Some(source) };
        match self.repository.save_move(game.id.as_str(), &mov) {
            Ok(()) => {},
            Err(e) => {
                proof {
                    assert forall|id2: Seq<char>| id2 != g0.id@ implies #[trigger] db_header(
                        self.db(),
                        id2,
                    ) == db_header(c0, id2) by {
                        assert(db_header(self.db(), id2) == db_header(cmid, id2));
                        assert(db_header(cmid, id2) == db_header(c0, id2));
                    }
                    assert forall|id2: Seq<char>| id2 != g0.id@ implies #[trigger] db_moves(
                        self.db(),
                        id2,
                    ) == db_moves(c0, id2) by {
                        assert(db_moves(self.db(), id2) == db_moves(cmid, id2));
                        assert(db_moves(cmid, id2) == db_moves(c0, id2));
                    }
                    assert(same_headers_except(c0, self.db(), g0.id@) && same_moves_except(
                        c0,
                        self.db(),
                        g0.id@,
                    ));
                }
                return Err(e);
            },
        }
        let ghost c_moved = self.db();
        game.move_history.push(mov);

        proof {
            assert(game.move_history@.drop_last() =~= g0.move_history@);
            assert forall|r2: int, c2: int| in_bounds(r2, c2) implies #[trigger] cell_of(
                game.board,
                r2,
                c2,
            ) == replayed_cell(game.move_history@, r2, c2) by {
                if r2 == row as int && c2 == col as int {
                    assert(cell_of(game.board, r2, c2) == Cell::Occupied(current_player));
                } else {
                    assert(cell_of(game.board, r2, c2) == cell_of(g0.board, r2, c2));
                    assert(replayed_cell(game.move_history@, r2, c2) == replayed_cell(
                        g0.move_history@,
                        r2,
                        c2,
                    ));
                }
            }
        }

        // Recompute status and winning line over the full replayed grid.
        let board = Board::from_cells(game.board);
        let (status, winning_line) = get_game_status(&board);
        game.status = status;
        game.winning_line = winning_line;

        // Switch turns if the game is still in progress.
        if game.status == GameStatus::InProgress {
            game.current_turn = current_player.opponent();
        }

        // Persist the updated header.
        match self.repository.save_game(&game, now) {
            Ok(()) => {},
            Err(e) => {
                proof {
                    assert forall|id2: Seq<char>| id2 != g0.id@ implies #[trigger] db_header(
                        self.db(),
                        id2,
                    ) == db_header(c0, id2) by {
                        assert(db_header(self.db(), id2) == db_header(c_moved, id2));
                        assert(db_header(c_moved, id2) == db_header(cmid, id2));
                        assert(db_header(cmid, id2) == db_header(c0, id2));
                    }
                    assert forall|id2: Seq<char>| id2 != g0.id@ implies #[trigger] db_moves(
                        self.db(),
                        id2,
                    ) == db_moves(c0, id2) by {
                        assert(db_moves(self.db(), id2) == db_moves(c_moved, id2));
                        assert(db_moves(c_moved, id2) == db_moves(cmid, id2));
                        assert(db_moves(cmid, id2) == db_moves(c0, id2));
                    }
                    assert(same_headers_except(c0, self.db(), g0.id@) && same_moves_except(
                        c0,
                        self.db(),
                        g0.id@,
                    ));
                }
                return Err(e);
            },
        }

        proof {
            assert(move_outcome(c0, cmid, self.db(), g0, game, row, col, source, now));
        }
        Ok(game)
    }

    /// Restart the game: abandon the pointer and create a fresh game; the
    /// prior game's data stays in the store.
    pub fn restart_game(&mut self, now: i64) -> (r: Result<GameState, GameError>)
        ensures
            r matches Ok(g) ==> created_fresh(old(self).db(), final(self).db(), g),
            r matches Ok(g) ==> final(self).cached_id() == Some(g.id@),
            r matches Err(e) ==> e is DatabaseError,
            r is Err ==> (exists|id: Seq<char>|
                same_headers_except(old(self).db(), final(self).db(), id)) && same_current(
                old(self).db(),
                final(self).db(),
            ),
            same_moves(old(self).db(), final(self).db()),
            same_taunts(old(self).db(), final(self).db()),
    {
        self.current_game_id = None;
        self.create_new_game(now)
    }

    /// Add a taunt message to the active game's log; turn and status are
    /// untouched.
    pub fn add_taunt(&mut self, message: String, source: MoveSource, now: i64) -> (r: Result<
        (),
        GameError,
    >)
        ensures
            same_moves(old(self).db(), final(self).db()),
            r is Ok ==> taunt_ok(old(self).db(), final(self).db(), message@, source, now),
            r matches Err(e) ==> e is DatabaseError,
            r is Err ==> (exists|id: Seq<char>|
                same_headers_except(old(self).db(), final(self).db(), id) && same_taunts_except(
                    old(self).db(),
                    final(self).db(),
                    id,
                )),
    {
        let ghost c0 = self.db();
        let game = match self.get_or_create_game(now) {
            Ok(g) => g,
            Err(e) => {
                proof {
                    let wid = choose|id: Seq<char>| same_headers_except(c0, self.db(), id);
                    assert(same_headers_except(c0, self.db(), wid) && same_taunts_except(
                        c0,
                        self.db(),
                        wid,
                    ));
                }
                return Err(e);
            },
        };
        let ghost cmid = self.db();
        let ghost g0 = game;
        let source_str = crate::codec::encode_source(source);
        match self.repository.save_taunt(game.id.as_str(), message.as_str(), Some(source_str), now) {
            Ok(()) => {
                proof {
                    assert(taunt_outcome(c0, cmid, self.db(), g0, message@, source, now));
                }
                Ok(())
            },
            Err(e) => {
                proof {
                    assert forall|id2: Seq<char>| id2 != g0.id@ implies #[trigger] db_header(
                        self.db(),
                        id2,
                    ) == db_header(c0, id2) by {
                        assert(db_header(self.db(), id2) == db_header(cmid, id2));
                        assert(db_header(cmid, id2) == db_header(c0, id2));
                    }
                    assert forall|id2: Seq<char>| id2 != g0.id@ implies #[trigger] db_taunts(
                        self.db(),
                        id2,
                    ) == db_taunts(c0, id2) by {
                        assert(db_taunts(self.db(), id2) == db_taunts(cmid, id2));
                        assert(db_taunts(cmid, id2) == db_taunts(c0, id2));
                    }
                    assert(same_headers_except(c0, self.db(), g0.id@) && same_taunts_except(
                        c0,
                        self.db(),
                        g0.id@,
                    ));
                }
                Err(e)
            },
        }
    }

    /// Get the current game state: a read-only snapshot for observers.
    pub fn get_game_state(&mut self, now: i64) -> (r: Result<GameState, GameError>)
        ensures
            r matches Ok(g) ==> resolved_active_game(old(self).db(), final(self).db(), g),
            r matches Ok(g) ==> final(self).cached_id() == Some(g.id@),
            (db_current(old(self).db()) is None && old(self).cached_id() is None && r is Ok) ==> (
            r matches Ok(g) && created_fresh(old(self).db(), final(self).db(), g)),
            r matches Err(e) ==> e is DatabaseError,
            r is Err ==> (exists|id: Seq<char>|
                same_headers_except(old(self).db(), final(self).db(), id)) && same_current(
                old(self).db(),
                final(self).db(),
            ),
            same_moves(old(self).db(), final(self).db()),
            same_taunts(old(self).db(), final(self).db()),
    {
        self.get_or_create_game(now)
    }
}

/// Relies on uuid::Uuid::new_v4 and its Display impl: a freshly drawn
/// random identifier in the 36-character hyphenated form. Nothing can be
/// promised of which id comes back.
#[verifier::external_body]
fn fresh_game_id() -> (r: String)
    ensures
        r@.len() == 36,
{
    uuid::Uuid::new_v4().to_string()
}

} // verus!
