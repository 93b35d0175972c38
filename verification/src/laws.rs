//! The properties the coordination layer stands for, each proved from
//! the contracts the library states.

use vstd::prelude::*;

use crate::codec::{
    lemma_move_record_roundtrip, lemma_player_code_roundtrip, lemma_status_code_roundtrip,
    move_record, moves_of_records, status_of_code,
};
use crate::manager::{
    created_fresh, game_header, loaded_existing, make_move_ok, move_applied, move_outcome,
    move_validation_error, pointer_loadable, resolved_active_game, spec_move, validation_failed,
    validation_outcome,
};
use crate::model::{
    cell_of, grid_matches_log, in_bounds, replayed_cell, Cell, GameError, GameState, GameStatus,
    Move, MoveSource,
};
use crate::player::Player;
use crate::protocol::{JsonRpcError, RpcOutcome};
use crate::repository::is_stored_game;
use crate::sql::{db_current, db_header, db_moves, db_same, db_taunts};
use crate::tools::{history_post, turn_report};

verus! {

/// Replaying a log extended by one move changes exactly the cell that
/// move names, and no other.
pub proof fn lemma_replay_snoc(ms: Seq<Move>, m: Move, r: int, c: int)
    ensures
        replayed_cell(ms.push(m), r, c) == (if m.row == r && m.col == c {
            Cell::Occupied(m.player)
        } else {
            replayed_cell(ms, r, c)
        }),
{
    assert(ms.push(m).drop_last() =~= ms);
    assert(ms.push(m).last() == m);
}

/// A cell stays empty exactly while no move of the log names it.
proof fn lemma_empty_cell_never_named(ms: Seq<Move>, r: int, c: int)
    requires
        replayed_cell(ms, r, c) == Cell::Empty,
    ensures
        forall|i: int|
            0 <= i < ms.len() ==> !((#[trigger] ms[i]).row as int == r && ms[i].col as int == c),
    decreases ms.len(),
{
    if ms.len() > 0 {
        let prev = ms.drop_last();
        assert(!(ms.last().row as int == r && ms.last().col as int == c));
        assert(replayed_cell(prev, r, c) == Cell::Empty);
        lemma_empty_cell_never_named(prev, r, c);
        assert forall|i: int|
            0 <= i < ms.len() implies !((#[trigger] ms[i]).row as int == r && ms[i].col as int
            == c) by {
            if i < ms.len() - 1 {
                assert(ms[i] == prev[i]);
            } else {
                assert(ms[i] == ms.last());
            }
        }
    }
}

/// A cell is set at most once: a move accepted on a game whose grid is
/// the replay of its history names a cell no earlier move of that
/// history names.
pub proof fn lemma_cell_set_at_most_once(
    g0: GameState,
    g1: GameState,
    row: u8,
    col: u8,
    source: MoveSource,
    now: i64,
)
    requires
        move_applied(g0, g1, row, col, source, now),
        grid_matches_log(g0.board, g0.move_history@),
    ensures
        forall|i: int|
            0 <= i < g0.move_history@.len() ==> !((#[trigger] g0.move_history@[i]).row == row
                && g0.move_history@[i].col == col),
{
    assert(cell_of(g0.board, row as int, col as int) == Cell::Empty);
    assert(replayed_cell(g0.move_history@, row as int, col as int) == Cell::Empty);
    lemma_empty_cell_never_named(g0.move_history@, row as int, col as int);
}

/// Round-trip persistence is lossless: when the store's move log for the
/// active game reads back as exactly the game's history, a successful
/// move leaves it so, and the grid any process reconstructs from the
/// persisted log equals the coordinator's own grid, cell for cell.
pub proof fn lemma_move_round_trip(
    c0: rusqlite::Connection,
    cmid: rusqlite::Connection,
    c1: rusqlite::Connection,
    g0: GameState,
    g1: GameState,
    row: u8,
    col: u8,
    source: MoveSource,
    now: i64,
)
    requires
        move_outcome(c0, cmid, c1, g0, g1, row, col, source, now),
        g0.move_history@ == moves_of_records(db_moves(cmid, g1.id@)),
    ensures
        g1.move_history@ == moves_of_records(db_moves(c1, g1.id@)),
        grid_matches_log(g1.board, moves_of_records(db_moves(c1, g1.id@))),
{
    let m = spec_move(g0, row, col, source, now);
    let recs0 = db_moves(cmid, g1.id@);
    let recs1 = db_moves(c1, g1.id@);
    lemma_move_record_roundtrip(m);
    assert(recs1 == recs0.push(move_record(m)));
    assert(moves_of_records(recs1) =~= moves_of_records(recs0).push(m)) by {
        assert forall|i: int| 0 <= i < recs1.len() implies moves_of_records(recs1)[i]
            == moves_of_records(recs0).push(m)[i] by {
            if i < recs0.len() {
                assert(recs1[i] == recs0[i]);
            } else {
                assert(recs1[i] == move_record(m));
            }
        }
    }
}

/// The round trip for a game that was read back from the store: its
/// history is the stored log, so after a successful move the new log
/// still replays to exactly the grid the coordinator returned.
pub proof fn lemma_loaded_move_round_trip(
    c0: rusqlite::Connection,
    cmid: rusqlite::Connection,
    c1: rusqlite::Connection,
    g0: GameState,
    g1: GameState,
    row: u8,
    col: u8,
    source: MoveSource,
    now: i64,
)
    requires
        move_outcome(c0, cmid, c1, g0, g1, row, col, source, now),
        loaded_existing(c0, cmid, g0),
    ensures
        g1.move_history@ == moves_of_records(db_moves(c1, g1.id@)),
        grid_matches_log(g1.board, moves_of_records(db_moves(c1, g1.id@))),
{
    assert(g0.move_history@ == moves_of_records(db_moves(cmid, g1.id@)));
    lemma_move_round_trip(c0, cmid, c1, g0, g1, row, col, source, now);
}

/// An accepted move was legal: the game it was played on was still in
/// progress, and the cell it names lies on the grid and was empty.
pub proof fn lemma_accepted_move_was_legal(
    g0: GameState,
    g1: GameState,
    row: u8,
    col: u8,
    source: MoveSource,
    now: i64,
)
    requires
        move_applied(g0, g1, row, col, source, now),
    ensures
        g0.status == GameStatus::InProgress,
        in_bounds(row as int, col as int),
        cell_of(g0.board, row as int, col as int) == Cell::Empty,
{
}

/// A move call that reported success never names coordinates off the
/// grid.
pub proof fn lemma_oob_move_never_accepted(
    c0: rusqlite::Connection,
    c1: rusqlite::Connection,
    g1: GameState,
    row: u8,
    col: u8,
    source: MoveSource,
    now: i64,
)
    requires
        make_move_ok(c0, c1, g1, row, col, source, now),
    ensures
        in_bounds(row as int, col as int),
{
    let (g0, cmid) = choose|g0: GameState, cmid: rusqlite::Connection|
        move_outcome(c0, cmid, c1, g0, g1, row, col, source, now);
    lemma_accepted_move_was_legal(g0, g1, row, col, source, now);
}

/// A rejected move mutates nothing: when the shared pointer names a
/// loadable game, a refused move call leaves every table of the store
/// exactly as it was, and the error it reports is the one the stored
/// game earns.
pub proof fn lemma_rejected_move_leaves_store(
    c0: rusqlite::Connection,
    c1: rusqlite::Connection,
    id: Seq<char>,
    e: GameError,
    row: u8,
    col: u8,
)
    requires
        pointer_loadable(c0),
        db_current(c0) == Some(id),
        validation_failed(c0, c1, e, row, col),
    ensures
        db_same(c0, c1),
        exists|g0: GameState| #[trigger] is_stored_game(g0, c0, id) && Some(e)
            == move_validation_error(g0, row, col),
{
    let (g0, cmid) = choose|g0: GameState, cmid: rusqlite::Connection|
        validation_outcome(c0, cmid, c1, g0, e, row, col);
    assert(loaded_existing(c0, cmid, g0));
    assert(g0.id@ == id);
    assert(is_stored_game(g0, c0, id) && Some(e) == move_validation_error(g0, row, col));
    assert forall|id2: Seq<char>| #[trigger] db_header(c1, id2) == db_header(c0, id2) by {
        assert(db_header(cmid, id2) == db_header(c0, id2));
    }
    assert forall|id2: Seq<char>| #[trigger] db_moves(c1, id2) == db_moves(c0, id2) by {
        assert(db_moves(cmid, id2) == db_moves(c0, id2));
    }
    assert forall|id2: Seq<char>| #[trigger] db_taunts(c1, id2) == db_taunts(c0, id2) by {
        assert(db_taunts(cmid, id2) == db_taunts(c0, id2));
    }
}

/// A move to coordinates off the grid is refused: while the stored
/// active game is in progress, a move call naming an off-grid cell can
/// only fail, and unless the store itself faulted it reports exactly the
/// bounds error and leaves the store unchanged.
pub proof fn lemma_oob_move_rejected(
    c0: rusqlite::Connection,
    c1: rusqlite::Connection,
    id: Seq<char>,
    h: (Seq<char>, Seq<char>, Seq<char>, Seq<char>),
    row: u8,
    col: u8,
    source: MoveSource,
    now: i64,
    r: Result<GameState, GameError>,
)
    requires
        pointer_loadable(c0),
        db_current(c0) == Some(id),
        db_header(c0, id) == Some(h),
        status_of_code(h.3) == GameStatus::InProgress,
        !in_bounds(row as int, col as int),
        r matches Ok(g1) ==> make_move_ok(c0, c1, g1, row, col, source, now),
        r matches Err(e) ==> (e is DatabaseError || validation_failed(c0, c1, e, row, col)),
    ensures
        r is Err,
        r matches Err(e) ==> (e is DatabaseError || (e == (GameError::OutOfBounds { row, col })
            && db_same(c0, c1))),
{
    match r {
        Ok(g1) => {
            lemma_oob_move_never_accepted(c0, c1, g1, row, col, source, now);
        },
        Err(e) => {
            if !(e is DatabaseError) {
                lemma_rejected_move_leaves_store(c0, c1, id, e, row, col);
                let g0 = choose|g0: GameState| #[trigger] is_stored_game(g0, c0, id) && Some(e)
                    == move_validation_error(g0, row, col);
                assert(g0.status == status_of_code(h.3));
            }
        },
    }
}

/// A move to an occupied cell is refused: while the stored active game
/// is in progress and the cell its replayed log leaves at the named
/// coordinates is taken, a move call there can only fail, and unless the
/// store itself faulted it reports exactly the occupancy error and
/// leaves the store unchanged.
pub proof fn lemma_occupied_move_rejected(
    c0: rusqlite::Connection,
    c1: rusqlite::Connection,
    id: Seq<char>,
    h: (Seq<char>, Seq<char>, Seq<char>, Seq<char>),
    row: u8,
    col: u8,
    source: MoveSource,
    now: i64,
    r: Result<GameState, GameError>,
)
    requires
        pointer_loadable(c0),
        db_current(c0) == Some(id),
        db_header(c0, id) == Some(h),
        status_of_code(h.3) == GameStatus::InProgress,
        in_bounds(row as int, col as int),
        replayed_cell(moves_of_records(db_moves(c0, id)), row as int, col as int) != Cell::Empty,
        r matches Ok(g1) ==> make_move_ok(c0, c1, g1, row, col, source, now),
        r matches Err(e) ==> (e is DatabaseError || validation_failed(c0, c1, e, row, col)),
    ensures
        r is Err,
        r matches Err(e) ==> (e is DatabaseError || (e == (GameError::CellOccupied { row, col })
            && db_same(c0, c1))),
{
    match r {
        Ok(g1) => {
            let (g0, cmid) = choose|g0: GameState, cmid: rusqlite::Connection|
                move_outcome(c0, cmid, c1, g0, g1, row, col, source, now);
            assert(loaded_existing(c0, cmid, g0));
            assert(is_stored_game(g0, c0, g0.id@));
            assert(cell_of(g0.board, row as int, col as int) == replayed_cell(
                g0.move_history@,
                row as int,
                col as int,
            ));
            lemma_accepted_move_was_legal(g0, g1, row, col, source, now);
        },
        Err(e) => {
            if !(e is DatabaseError) {
                lemma_rejected_move_leaves_store(c0, c1, id, e, row, col);
                let g0 = choose|g0: GameState| #[trigger] is_stored_game(g0, c0, id) && Some(e)
                    == move_validation_error(g0, row, col);
                assert(g0.status == status_of_code(h.3));
                assert(cell_of(g0.board, row as int, col as int) == replayed_cell(
                    g0.move_history@,
                    row as int,
                    col as int,
                ));
            }
        },
    }
}

/// Once a game is won or drawn it stays that way: while the stored
/// active game is finished, a move call can only fail, and unless the
/// store itself faulted it reports exactly the game-over error carrying
/// that terminal status and leaves the store unchanged.
pub proof fn lemma_finished_game_rejects_moves(
    c0: rusqlite::Connection,
    c1: rusqlite::Connection,
    id: Seq<char>,
    h: (Seq<char>, Seq<char>, Seq<char>, Seq<char>),
    row: u8,
    col: u8,
    source: MoveSource,
    now: i64,
    r: Result<GameState, GameError>,
)
    requires
        pointer_loadable(c0),
        db_current(c0) == Some(id),
        db_header(c0, id) == Some(h),
        status_of_code(h.3) != GameStatus::InProgress,
        r matches Ok(g1) ==> make_move_ok(c0, c1, g1, row, col, source, now),
        r matches Err(e) ==> (e is DatabaseError || validation_failed(c0, c1, e, row, col)),
    ensures
        r is Err,
        r matches Err(e) ==> (e is DatabaseError || (e == (GameError::GameOver {
            status: status_of_code(h.3),
        }) && db_same(c0, c1))),
{
    match r {
        Ok(g1) => {
            let (g0, cmid) = choose|g0: GameState, cmid: rusqlite::Connection|
                move_outcome(c0, cmid, c1, g0, g1, row, col, source, now);
            assert(loaded_existing(c0, cmid, g0));
            assert(is_stored_game(g0, c0, g0.id@));
            assert(g0.status == status_of_code(h.3));
            lemma_accepted_move_was_legal(g0, g1, row, col, source, now);
        },
        Err(e) => {
            if !(e is DatabaseError) {
                lemma_rejected_move_leaves_store(c0, c1, id, e, row, col);
                let g0 = choose|g0: GameState| #[trigger] is_stored_game(g0, c0, id) && Some(e)
                    == move_validation_error(g0, row, col);
                assert(g0.status == status_of_code(h.3));
            }
        },
    }
}

/// Turn order alternates strictly: over two consecutively applied moves,
/// the second mover is the opponent of the first.
pub proof fn lemma_turns_alternate(
    g0: GameState,
    g1: GameState,
    g2: GameState,
    r1: u8,
    c1: u8,
    s1: MoveSource,
    t1: i64,
    r2: u8,
    c2: u8,
    s2: MoveSource,
    t2: i64,
)
    requires
        move_applied(g0, g1, r1, c1, s1, t1),
        move_applied(g1, g2, r2, c2, s2, t2),
    ensures
        g2.move_history@.last().player == g1.move_history@.last().player.spec_opponent(),
{
    lemma_accepted_move_was_legal(g1, g2, r2, c2, s2, t2);
    assert(g1.move_history@.last() == spec_move(g0, r1, c1, s1, t1));
    assert(g2.move_history@.last() == spec_move(g1, r2, c2, s2, t2));
}

/// Turn order alternates across two whole move calls: when the second
/// call finds the shared pointer on the game the first call returned,
/// its mover is the opponent of the first call's mover.
pub proof fn lemma_consecutive_moves_alternate(
    c0: rusqlite::Connection,
    c1: rusqlite::Connection,
    c2: rusqlite::Connection,
    g1: GameState,
    g2: GameState,
    r1: u8,
    col1: u8,
    s1: MoveSource,
    t1: i64,
    r2: u8,
    col2: u8,
    s2: MoveSource,
    t2: i64,
)
    requires
        make_move_ok(c0, c1, g1, r1, col1, s1, t1),
        pointer_loadable(c1),
        db_current(c1) == Some(g1.id@),
        make_move_ok(c1, c2, g2, r2, col2, s2, t2),
    ensures
        g1.move_history@.len() > 0,
        g2.move_history@.len() > 0,
        g2.move_history@.last().player == g1.move_history@.last().player.spec_opponent(),
{
    let (g0a, cma) = choose|g0a: GameState, cma: rusqlite::Connection|
        move_outcome(c0, cma, c1, g0a, g1, r1, col1, s1, t1);
    let (g0b, cmb) = choose|g0b: GameState, cmb: rusqlite::Connection|
        move_outcome(c1, cmb, c2, g0b, g2, r2, col2, s2, t2);
    assert(loaded_existing(c1, cmb, g0b));
    assert(g0b.id@ == g1.id@);
    assert(db_header(c1, g1.id@) == Some(game_header(g1)));
    assert(is_stored_game(g0b, c1, g0b.id@));
    lemma_player_code_roundtrip(g1.current_turn);
    lemma_status_code_roundtrip(g1.status);
    assert(g0b.current_turn == g1.current_turn);
    assert(g0b.status == g1.status);
    lemma_accepted_move_was_legal(g0b, g2, r2, col2, s2, t2);
    assert(g1.current_turn == g0a.current_turn.spec_opponent());
    assert(g1.move_history@.last() == spec_move(g0a, r1, col1, s1, t1));
    assert(g2.move_history@.last() == spec_move(g0b, r2, col2, s2, t2));
}

/// Reading the state twice in a row yields the same snapshot: with the
/// shared pointer on a loadable game, two consecutive reads return games
/// that agree on every observable field.
pub proof fn lemma_repeated_reads_agree(
    c0: rusqlite::Connection,
    c1: rusqlite::Connection,
    c2: rusqlite::Connection,
    id: Seq<char>,
    g_a: GameState,
    g_b: GameState,
)
    requires
        pointer_loadable(c0),
        db_current(c0) == Some(id),
        resolved_active_game(c0, c1, g_a),
        resolved_active_game(c1, c2, g_b),
    ensures
        g_b.id@ == g_a.id@,
        g_b.current_turn == g_a.current_turn,
        g_b.human_player == g_a.human_player,
        g_b.ai_player == g_a.ai_player,
        g_b.status == g_a.status,
        g_b.move_history@ == g_a.move_history@,
        forall|r: int, c: int|
            in_bounds(r, c) ==> #[trigger] cell_of(g_b.board, r, c) == cell_of(g_a.board, r, c),
{
    assert(loaded_existing(c0, c1, g_a));
    assert(g_a.id@ == id);
    assert(db_current(c1) == db_current(c0));
    assert(db_header(c1, id) == db_header(c0, id));
    assert(db_moves(c1, id) == db_moves(c0, id));
    assert(db_taunts(c1, id) == db_taunts(c0, id));
    assert(pointer_loadable(c1));
    assert(loaded_existing(c1, c2, g_b));
    assert(g_b.id@ == id);
    assert(is_stored_game(g_a, c0, id));
    assert(is_stored_game(g_b, c1, id));
    assert forall|r: int, c: int| in_bounds(r, c) implies #[trigger] cell_of(g_b.board, r, c)
        == cell_of(g_a.board, r, c) by {
        assert(cell_of(g_a.board, r, c) == replayed_cell(g_a.move_history@, r, c));
        assert(cell_of(g_b.board, r, c) == replayed_cell(g_b.move_history@, r, c));
    }
}

/// Exactly one of the two turn booleans is true of any game whose two
/// roles hold opposite marks, as every game this library creates does.
pub proof fn lemma_turn_booleans_exclusive(
    g: GameState,
    current: Player,
    human: bool,
    agent: bool,
)
    requires
        turn_report(g, current, human, agent),
        g.ai_player == g.human_player.spec_opponent(),
    ensures
        human != agent,
{
}

/// A restart retires the old game without deleting anything: the shared
/// pointer moves to the new game, whose stored log holds whatever stood
/// under the freshly drawn id — nothing, unless that id collides with an
/// earlier game's — while the old game's header, moves and taunts stay
/// exactly as they were, still retrievable by its own id.
pub proof fn lemma_restart_keeps_old_game(
    c0: rusqlite::Connection,
    c1: rusqlite::Connection,
    g: GameState,
    old_id: Seq<char>,
)
    requires
        created_fresh(c0, c1, g),
        old_id != g.id@,
        db_moves(c0, g.id@) == Seq::<(Seq<char>, u8, u8, i64, Option<Seq<char>>)>::empty(),
    ensures
        db_current(c1) == Some(g.id@),
        pointer_loadable(c1),
        moves_of_records(db_moves(c1, g.id@)) == Seq::<Move>::empty(),
        db_header(c1, old_id) == db_header(c0, old_id),
        db_moves(c1, old_id) == db_moves(c0, old_id),
        db_taunts(c1, old_id) == db_taunts(c0, old_id),
        (db_header(c1, g.id@) matches Some(h) && status_of_code(h.3) == GameStatus::InProgress),
{
    assert(db_moves(c1, g.id@) == db_moves(c0, g.id@));
    assert(moves_of_records(db_moves(c1, g.id@)) =~= Seq::<Move>::empty());
    lemma_status_code_roundtrip(g.status);
}

/// After a restart whose drawn id collides with no earlier game, the
/// snapshot any process reads back of the now-current game has an empty
/// move history, even though the prior game's data is still stored.
pub proof fn lemma_fetch_after_restart_is_empty(
    c0: rusqlite::Connection,
    c1: rusqlite::Connection,
    c2: rusqlite::Connection,
    g: GameState,
    g2: GameState,
)
    requires
        created_fresh(c0, c1, g),
        db_moves(c0, g.id@) == Seq::<(Seq<char>, u8, u8, i64, Option<Seq<char>>)>::empty(),
        loaded_existing(c1, c2, g2),
        db_current(c1) == Some(g2.id@),
    ensures
        g2.id@ == g.id@,
        g2.move_history@ == Seq::<Move>::empty(),
{
    assert(g2.id@ == g.id@);
    assert(is_stored_game(g2, c1, g2.id@));
    assert(db_moves(c1, g2.id@) == db_moves(c0, g.id@));
    assert(moves_of_records(db_moves(c1, g2.id@)) =~= Seq::<Move>::empty());
}

/// The history operation after a collision-free restart reports zero
/// moves: the answer it carries is the new active game's history, which
/// is empty.
pub proof fn lemma_history_after_restart_is_empty(
    c0: rusqlite::Connection,
    c1: rusqlite::Connection,
    c2: rusqlite::Connection,
    g: GameState,
    r: Result<RpcOutcome, JsonRpcError>,
)
    requires
        created_fresh(c0, c1, g),
        db_moves(c0, g.id@) == Seq::<(Seq<char>, u8, u8, i64, Option<Seq<char>>)>::empty(),
        history_post(c1, c2, r),
    ensures
        r matches Ok(o) ==> (o matches RpcOutcome::History(v) && v@ == Seq::<Move>::empty()),
{
    assert(db_moves(c1, g.id@) == db_moves(c0, g.id@));
    assert(crate::repository::records_in_bounds(db_moves(c1, g.id@)));
    assert(pointer_loadable(c1));
    match r {
        Ok(o) => {
            match o {
                RpcOutcome::History(v) => {
                    let g2 = choose|g2: GameState|
                        resolved_active_game(c1, c2, g2) && v@ == g2.move_history@;
                    assert(loaded_existing(c1, c2, g2));
                    assert(db_current(c1) == Some(g2.id@));
                    lemma_fetch_after_restart_is_empty(c0, c1, c2, g, g2);
                },
                _ => {},
            }
        },
        _ => {},
    }
}

} // verus!
