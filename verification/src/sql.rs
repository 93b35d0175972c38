//! The trusted boundary to the SQLite store. Everything below either
//! declares a rusqlite item or wraps exactly one SQL statement; the four
//! `db_*` names stand for what the connected database holds, table by
//! table, and every wrapper's contract says how its statement reads or
//! rewrites that content.

use vstd::prelude::*;

verus! {

/// rusqlite's connection to one SQLite database, declared so that the
/// store can hold and pass it; its contents are reached only through the
/// named tables below.
#[verifier::external_type_specification]
#[verifier::external_body]
pub struct ExConnection(rusqlite::Connection);

/// rusqlite's error type, declared so that the wrappers can return it;
/// it is only ever rendered into a diagnostic message.
#[verifier::external_type_specification]
#[verifier::external_body]
pub struct ExSqlError(rusqlite::Error);

/// The header row the games table holds for a game id: the stored codes
/// for the human's mark, the agent's mark, the mark whose turn it is, and
/// the status.
pub uninterp spec fn db_header(c: rusqlite::Connection, id: Seq<char>) -> Option<
    (Seq<char>, Seq<char>, Seq<char>, Seq<char>),
>;

/// The move rows the moves table holds for a game id, in insertion order:
/// player code, row, column, timestamp, origin code.
pub uninterp spec fn db_moves(c: rusqlite::Connection, id: Seq<char>) -> Seq<
    (Seq<char>, u8, u8, i64, Option<Seq<char>>),
>;

/// The taunt rows the taunts table holds for a game id, in insertion
/// order: message, timestamp, origin code.
pub uninterp spec fn db_taunts(c: rusqlite::Connection, id: Seq<char>) -> Seq<
    (Seq<char>, i64, Option<Seq<char>>),
>;

/// The game id the single-row pointer table names as current, if any.
pub uninterp spec fn db_current(c: rusqlite::Connection) -> Option<Seq<char>>;

/// The names of the tables the connected database defines.
pub uninterp spec fn db_tables(c: rusqlite::Connection) -> Set<Seq<char>>;

/// The four tables the store works on all exist.
pub open spec fn schema_ready(c: rusqlite::Connection) -> bool {
    &&& db_tables(c).contains("games"@)
    &&& db_tables(c).contains("moves"@)
    &&& db_tables(c).contains("taunts"@)
    &&& db_tables(c).contains("current_game"@)
}

/// No table was defined or dropped.
pub open spec fn same_tables(a: rusqlite::Connection, b: rusqlite::Connection) -> bool {
    db_tables(b) == db_tables(a)
}

pub open spec fn same_headers_except(a: rusqlite::Connection, b: rusqlite::Connection, keep: Seq<char>) -> bool {
    forall|id: Seq<char>| id != keep ==> #[trigger] db_header(b, id) == db_header(a, id)
}

pub open spec fn same_headers(a: rusqlite::Connection, b: rusqlite::Connection) -> bool {
    forall|id: Seq<char>| #[trigger] db_header(b, id) == db_header(a, id)
}

pub open spec fn same_moves_except(a: rusqlite::Connection, b: rusqlite::Connection, keep: Seq<char>) -> bool {
    forall|id: Seq<char>| id != keep ==> #[trigger] db_moves(b, id) == db_moves(a, id)
}

pub open spec fn same_moves(a: rusqlite::Connection, b: rusqlite::Connection) -> bool {
    forall|id: Seq<char>| #[trigger] db_moves(b, id) == db_moves(a, id)
}

pub open spec fn same_taunts_except(a: rusqlite::Connection, b: rusqlite::Connection, keep: Seq<char>) -> bool {
    forall|id: Seq<char>| id != keep ==> #[trigger] db_taunts(b, id) == db_taunts(a, id)
}

pub open spec fn same_taunts(a: rusqlite::Connection, b: rusqlite::Connection) -> bool {
    forall|id: Seq<char>| #[trigger] db_taunts(b, id) == db_taunts(a, id)
}

pub open spec fn same_current(a: rusqlite::Connection, b: rusqlite::Connection) -> bool {
    db_current(b) == db_current(a)
}

/// No table changed at all.
pub open spec fn db_same(a: rusqlite::Connection, b: rusqlite::Connection) -> bool {
    &&& same_headers(a, b)
    &&& same_moves(a, b)
    &&& same_taunts(a, b)
    &&& same_current(a, b)
}

/// A database holding no game data at all.
pub open spec fn fresh_db(c: rusqlite::Connection) -> bool {
    &&& forall|id: Seq<char>| #[trigger] db_header(c, id) is None
    &&& forall|id: Seq<char>| #[trigger] db_moves(c, id) == Seq::<(Seq<char>, u8, u8, i64, Option<Seq<char>>)>::empty()
    &&& forall|id: Seq<char>| #[trigger] db_taunts(c, id) == Seq::<(Seq<char>, i64, Option<Seq<char>>)>::empty()
    &&& db_current(c) is None
}

pub open spec fn opt_str_view(o: Option<&str>) -> Option<Seq<char>> {
    match o {
        Some(s) => Some(s@),
        None => None,
    }
}

pub open spec fn opt_string_view(o: Option<String>) -> Option<Seq<char>> {
    match o {
        Some(s) => Some(s@),
        None => None,
    }
}

/// A game header as the games table stores it.
pub(crate) struct GameRow {
    pub human: String,
    pub ai: String,
    pub turn: String,
    pub status: String,
}

impl GameRow {
    pub(crate) open spec fn view_tuple(self) -> (Seq<char>, Seq<char>, Seq<char>, Seq<char>) {
        (self.human@, self.ai@, self.turn@, self.status@)
    }

    pub(crate) fn new(human: String, ai: String, turn: String, status: String) -> (r: GameRow)
        ensures
            r.view_tuple() == (human@, ai@, turn@, status@),
    {
        GameRow { human, ai, turn, status }
    }
}

pub(crate) open spec fn opt_game_row_view(o: Option<GameRow>) -> Option<
    (Seq<char>, Seq<char>, Seq<char>, Seq<char>),
> {
    match o {
        Some(g) => Some(g.view_tuple()),
        None => None,
    }
}

/// A move as the moves table stores it.
pub(crate) struct MoveRow {
    pub player: String,
    pub row: u8,
    pub col: u8,
    pub timestamp: i64,
    pub source: Option<String>,
}

impl MoveRow {
    pub(crate) open spec fn view_tuple(self) -> (Seq<char>, u8, u8, i64, Option<Seq<char>>) {
        (self.player@, self.row, self.col, self.timestamp, opt_string_view(self.source))
    }

    pub(crate) fn new(player: String, row: u8, col: u8, timestamp: i64, source: Option<String>) -> (r:
        MoveRow)
        ensures
            r.view_tuple() == (player@, row, col, timestamp, opt_string_view(source)),
    {
        MoveRow { player, row, col, timestamp, source }
    }
}

pub(crate) open spec fn move_rows_view(s: Seq<MoveRow>) -> Seq<
    (Seq<char>, u8, u8, i64, Option<Seq<char>>),
> {
    s.map_values(|m: MoveRow| m.view_tuple())
}

/// A taunt as the taunts table stores it.
pub(crate) struct TauntRow {
    pub message: String,
    pub timestamp: i64,
    pub source: Option<String>,
}

impl TauntRow {
    pub(crate) open spec fn view_tuple(self) -> (Seq<char>, i64, Option<Seq<char>>) {
        (self.message@, self.timestamp, opt_string_view(self.source))
    }

    pub(crate) fn new(message: String, timestamp: i64, source: Option<String>) -> (r: TauntRow)
        ensures
            r.view_tuple() == (message@, timestamp, opt_string_view(source)),
    {
        TauntRow { message, timestamp, source }
    }
}

pub(crate) open spec fn taunt_rows_view(s: Seq<TauntRow>) -> Seq<(Seq<char>, i64, Option<Seq<char>>)> {
    s.map_values(|t: TauntRow| t.view_tuple())
}

/// Relies on rusqlite::Connection::open: opens the database file, creating
/// it when absent. Nothing is assumed about what the file already holds.
#[verifier::external_body]
pub(crate) fn open_file(path: &str) -> Result<rusqlite::Connection, rusqlite::Error> {
    rusqlite::Connection::open(path)
}

/// Relies on rusqlite::Connection::open_in_memory: a brand-new private
/// database that holds no rows at all.
#[verifier::external_body]
pub(crate) fn open_memory() -> (r: Result<rusqlite::Connection, rusqlite::Error>)
    ensures
        r matches Ok(c) ==> fresh_db(c),
{
    rusqlite::Connection::open_in_memory()
}

/// Relies on rusqlite::Error's Display impl for a diagnostic message.
#[verifier::external_body]
pub(crate) fn sql_error_text(e: &rusqlite::Error) -> String {
    e.to_string()
}

/// Relies on rusqlite::Connection::execute running one INSERT ... ON
/// CONFLICT DO UPDATE: the games table afterwards holds exactly the given
/// header under the given id, and a single failed statement changes
/// nothing.
#[verifier::external_body]
pub(crate) fn upsert_game_row(
    c: &mut rusqlite::Connection,
    id: &str,
    human: &str,
    ai: &str,
    turn: &str,
    status: &str,
    created: i64,
    updated: i64,
) -> (r: Result<(), rusqlite::Error>)
    ensures
        r is Ok ==> db_header(*final(c), id@) == Some((human@, ai@, turn@, status@)),
        r is Err ==> db_header(*final(c), id@) == db_header(*old(c), id@),
        same_headers_except(*old(c), *final(c), id@),
        same_moves(*old(c), *final(c)),
        same_taunts(*old(c), *final(c)),
        same_current(*old(c), *final(c)),
        same_tables(*old(c), *final(c)),
{
    let r = c.execute(
        "INSERT INTO games (id, human_player, ai_player, current_turn, status, created_at, updated_at) VALUES (?1, ?2, ?3, ?4, ?5, ?6, ?7) ON CONFLICT(id) DO UPDATE SET human_player = ?2, ai_player = ?3, current_turn = ?4, status = ?5, updated_at = ?7",
        (id, human, ai, turn, status, created, updated),
    );
    match r {
        Ok(_) => Ok(()),
        Err(e) => Err(e),
    }
}

/// Relies on rusqlite::Connection::query_row running one SELECT on the
/// games table; a missing row is told apart by the QueryReturnedNoRows
/// variant.
#[verifier::external_body]
pub(crate) fn query_game_row(c: &rusqlite::Connection, id: &str) -> (r: Result<
    Option<GameRow>,
    rusqlite::Error,
>)
    ensures
        r matches Ok(o) ==> opt_game_row_view(o) == db_header(*c, id@),
{
    let r = c.query_row(
        "SELECT human_player, ai_player, current_turn, status FROM games WHERE id = ?1",
        (id,),
        |row| Ok(GameRow::new(row.get(0)?, row.get(1)?, row.get(2)?, row.get(3)?)),
    );
    match r {
        Ok(g) => Ok(Some(g)),
        Err(rusqlite::Error::QueryReturnedNoRows) => Ok(None),
        Err(e) => Err(e),
    }
}

/// Relies on rusqlite::Connection::execute running one INSERT on the
/// moves table: appends one row for the given game and changes nothing
/// else; a failed statement changes nothing.
#[verifier::external_body]
pub(crate) fn insert_move_row(
    c: &mut rusqlite::Connection,
    game_id: &str,
    player: &str,
    row: u8,
    col: u8,
    timestamp: i64,
    source: Option<&str>,
) -> (r: Result<(), rusqlite::Error>)
    ensures
        r is Ok ==> db_moves(*final(c), game_id@) == db_moves(*old(c), game_id@).push(
            (player@, row, col, timestamp, opt_str_view(source)),
        ),
        r is Err ==> db_moves(*final(c), game_id@) == db_moves(*old(c), game_id@),
        same_moves_except(*old(c), *final(c), game_id@),
        same_headers(*old(c), *final(c)),
        same_taunts(*old(c), *final(c)),
        same_current(*old(c), *final(c)),
        same_tables(*old(c), *final(c)),
{
    let r = c.execute(
        "INSERT INTO moves (game_id, player, row, col, timestamp, source) VALUES (?1, ?2, ?3, ?4, ?5, ?6)",
        (game_id, player, row, col, timestamp, source),
    );
    match r {
        Ok(_) => Ok(()),
        Err(e) => Err(e),
    }
}

/// Relies on rusqlite prepare/query_map running one SELECT on the moves
/// table ordered by the autoincrement key, so the rows come back in
/// insertion order.
#[verifier::external_body]
pub(crate) fn query_move_rows(c: &rusqlite::Connection, game_id: &str) -> (r: Result<
    Vec<MoveRow>,
    rusqlite::Error,
>)
    ensures
        r matches Ok(v) ==> move_rows_view(v@) == db_moves(*c, game_id@),
{
    let mut stmt = c.prepare(
        "SELECT player, row, col, timestamp, source FROM moves WHERE game_id = ?1 ORDER BY id ASC",
    )?;
    let rows = stmt.query_map(
        (game_id,),
        |row| Ok(MoveRow::new(row.get(0)?, row.get(1)?, row.get(2)?, row.get(3)?, row.get(4)?)),
    )?;
    rows.collect()
}

/// Relies on rusqlite::Connection::execute running one INSERT on the
/// taunts table: appends one row for the given game and changes nothing
/// else; a failed statement changes nothing.
#[verifier::external_body]
pub(crate) fn insert_taunt_row(
    c: &mut rusqlite::Connection,
    game_id: &str,
    message: &str,
    timestamp: i64,
    source: Option<&str>,
) -> (r: Result<(), rusqlite::Error>)
    ensures
        r is Ok ==> db_taunts(*final(c), game_id@) == db_taunts(*old(c), game_id@).push(
            (message@, timestamp, opt_str_view(source)),
        ),
        r is Err ==> db_taunts(*final(c), game_id@) == db_taunts(*old(c), game_id@),
        same_taunts_except(*old(c), *final(c), game_id@),
        same_headers(*old(c), *final(c)),
        same_moves(*old(c), *final(c)),
        same_current(*old(c), *final(c)),
        same_tables(*old(c), *final(c)),
{
    let r = c.execute(
        "INSERT INTO taunts (game_id, message, timestamp, source) VALUES (?1, ?2, ?3, ?4)",
        (game_id, message, timestamp, source),
    );
    match r {
        Ok(_) => Ok(()),
        Err(e) => Err(e),
    }
}

/// Relies on rusqlite prepare/query_map running one SELECT on the taunts
/// table ordered by the autoincrement key, so the rows come back in
/// insertion order.
#[verifier::external_body]
pub(crate) fn query_taunt_rows(c: &rusqlite::Connection, game_id: &str) -> (r: Result<
    Vec<TauntRow>,
    rusqlite::Error,
>)
    ensures
        r matches Ok(v) ==> taunt_rows_view(v@) == db_taunts(*c, game_id@),
{
    let mut stmt = c.prepare(
        "SELECT message, timestamp, source FROM taunts WHERE game_id = ?1 ORDER BY id ASC",
    )?;
    let rows = stmt.query_map(
        (game_id,),
        |row| Ok(TauntRow::new(row.get(0)?, row.get(1)?, row.get(2)?)),
    )?;
    rows.collect()
}

/// Relies on rusqlite::Connection::query_row running one SELECT on the
/// single-row pointer table; a missing row is told apart by the
/// QueryReturnedNoRows variant.
#[verifier::external_body]
pub(crate) fn query_current_row(c: &rusqlite::Connection) -> (r: Result<
    Option<String>,
    rusqlite::Error,
>)
    ensures
        r matches Ok(o) ==> opt_string_view(o) == db_current(*c),
{
    let r = c.query_row("SELECT game_id FROM current_game WHERE id = 1", [], |row| row.get(0));
    match r {
        Ok(s) => Ok(Some(s)),
        Err(rusqlite::Error::QueryReturnedNoRows) => Ok(None),
        Err(e) => Err(e),
    }
}

/// Relies on rusqlite::Connection::execute running one INSERT OR REPLACE
/// on the single-row pointer table: afterwards the pointer names the
/// given game; a failed statement changes nothing.
#[verifier::external_body]
pub(crate) fn set_current_row(c: &mut rusqlite::Connection, game_id: &str) -> (r: Result<
    (),
    rusqlite::Error,
>)
    ensures
        r is Ok ==> db_current(*final(c)) == Some(game_id@),
        r is Err ==> db_current(*final(c)) == db_current(*old(c)),
        same_headers(*old(c), *final(c)),
        same_moves(*old(c), *final(c)),
        same_taunts(*old(c), *final(c)),
        same_tables(*old(c), *final(c)),
{
    let r = c.execute("INSERT OR REPLACE INTO current_game (id, game_id) VALUES (1, ?1)", (game_id,));
    match r {
        Ok(_) => Ok(()),
        Err(e) => Err(e),
    }
}

/// Relies on rusqlite::Connection::execute running one CREATE TABLE IF
/// NOT EXISTS for the games table: schema only, stored rows untouched.
#[verifier::external_body]
pub(crate) fn create_games_table(c: &mut rusqlite::Connection) -> (r: Result<(), rusqlite::Error>)
    ensures
        db_same(*old(c), *final(c)),
        r is Ok ==> db_tables(*final(c)) == db_tables(*old(c)).insert("games"@),
        r is Err ==> same_tables(*old(c), *final(c)),
{
    let r = c.execute(
        "CREATE TABLE IF NOT EXISTS games (id TEXT PRIMARY KEY, human_player TEXT NOT NULL, ai_player TEXT NOT NULL, current_turn TEXT NOT NULL, status TEXT NOT NULL, created_at INTEGER NOT NULL, updated_at INTEGER NOT NULL)",
        [],
    );
    match r {
        Ok(_) => Ok(()),
        Err(e) => Err(e),
    }
}

/// Relies on rusqlite::Connection::execute running one CREATE TABLE IF
/// NOT EXISTS for the moves table: schema only, stored rows untouched.
#[verifier::external_body]
pub(crate) fn create_moves_table(c: &mut rusqlite::Connection) -> (r: Result<(), rusqlite::Error>)
    ensures
        db_same(*old(c), *final(c)),
        r is Ok ==> db_tables(*final(c)) == db_tables(*old(c)).insert("moves"@),
        r is Err ==> same_tables(*old(c), *final(c)),
{
    let r = c.execute(
        "CREATE TABLE IF NOT EXISTS moves (id INTEGER PRIMARY KEY AUTOINCREMENT, game_id TEXT NOT NULL, player TEXT NOT NULL, row INTEGER NOT NULL, col INTEGER NOT NULL, timestamp INTEGER NOT NULL, source TEXT, FOREIGN KEY (game_id) REFERENCES games(id))",
        [],
    );
    match r {
        Ok(_) => Ok(()),
        Err(e) => Err(e),
    }
}

/// Relies on rusqlite::Connection::execute running one CREATE TABLE IF
/// NOT EXISTS for the taunts table: schema only, stored rows untouched.
#[verifier::external_body]
pub(crate) fn create_taunts_table(c: &mut rusqlite::Connection) -> (r: Result<(), rusqlite::Error>)
    ensures
        db_same(*old(c), *final(c)),
        r is Ok ==> db_tables(*final(c)) == db_tables(*old(c)).insert("taunts"@),
        r is Err ==> same_tables(*old(c), *final(c)),
{
    let r = c.execute(
        "CREATE TABLE IF NOT EXISTS taunts (id INTEGER PRIMARY KEY AUTOINCREMENT, game_id TEXT NOT NULL, message TEXT NOT NULL, timestamp INTEGER NOT NULL, source TEXT, FOREIGN KEY (game_id) REFERENCES games(id))",
        [],
    );
    match r {
        Ok(_) => Ok(()),
        Err(e) => Err(e),
    }
}

/// Relies on rusqlite::Connection::execute running one CREATE TABLE IF
/// NOT EXISTS for the pointer table: schema only, stored rows untouched.
#[verifier::external_body]
pub(crate) fn create_current_table(c: &mut rusqlite::Connection) -> (r: Result<(), rusqlite::Error>)
    ensures
        db_same(*old(c), *final(c)),
        r is Ok ==> db_tables(*final(c)) == db_tables(*old(c)).insert("current_game"@),
        r is Err ==> same_tables(*old(c), *final(c)),
{
    let r = c.execute(
        "CREATE TABLE IF NOT EXISTS current_game (id INTEGER PRIMARY KEY CHECK (id = 1), game_id TEXT NOT NULL, FOREIGN KEY (game_id) REFERENCES games(id))",
        [],
    );
    match r {
        Ok(_) => Ok(()),
        Err(e) => Err(e),
    }
}

} // verus!
