//! The verified mapping between model values and the string codes the
//! store keeps for them.

use vstd::prelude::*;

use crate::model::{GameStatus, Move, MoveSource, Taunt};
use crate::player::Player;

verus! {

/// The stored code of a mark.
pub open spec fn player_code(p: Player) -> Seq<char> {
    match p {
        Player::X => "X"@,
        Player::O => "O"@,
    }
}

/// The mark a stored code denotes; anything but the code of X reads as O.
pub open spec fn player_of_code(s: Seq<char>) -> Player {
    if s == "X"@ {
        Player::X
    } else {
        Player::O
    }
}

/// The stored code of a status.
pub open spec fn status_code(s: GameStatus) -> Seq<char> {
    match s {
        GameStatus::InProgress => "InProgress"@,
        GameStatus::Won(Player::X) => "Won_X"@,
        GameStatus::Won(Player::O) => "Won_O"@,
        GameStatus::Draw => "Draw"@,
    }
}

/// The status a stored code denotes; an unknown code reads as in
/// progress.
pub open spec fn status_of_code(s: Seq<char>) -> GameStatus {
    if s == "InProgress"@ {
        GameStatus::InProgress
    } else if s == "Won_X"@ {
        GameStatus::Won(Player::X)
    } else if s == "Won_O"@ {
        GameStatus::Won(Player::O)
    } else if s == "Draw"@ {
        GameStatus::Draw
    } else {
        GameStatus::InProgress
    }
}

/// The stored code of an origin tag.
pub open spec fn source_code(s: MoveSource) -> Seq<char> {
    match s {
        MoveSource::UI => "UI"@,
        MoveSource::MCP => "MCP"@,
    }
}

pub open spec fn opt_source_code(o: Option<MoveSource>) -> Option<Seq<char>> {
    match o {
        Some(s) => Some(source_code(s)),
        None => None,
    }
}

/// The origin tag a stored code denotes; an unknown code denotes none.
pub open spec fn source_of_code(s: Seq<char>) -> Option<MoveSource> {
    if s == "UI"@ {
        Some(MoveSource::UI)
    } else if s == "MCP"@ {
        Some(MoveSource::MCP)
    } else {
        None
    }
}

pub open spec fn opt_source_of(o: Option<Seq<char>>) -> Option<MoveSource> {
    match o {
        Some(s) => source_of_code(s),
        None => None,
    }
}

/// How a move is laid out as a stored row.
pub open spec fn move_record(m: Move) -> (Seq<char>, u8, u8, i64, Option<Seq<char>>) {
    (player_code(m.player), m.row, m.col, m.timestamp, opt_source_code(m.source))
}

/// The move a stored row denotes.
pub open spec fn move_of_record(t: (Seq<char>, u8, u8, i64, Option<Seq<char>>)) -> Move {
    Move { player: player_of_code(t.0), row: t.1, col: t.2, timestamp: t.3, source: opt_source_of(t.4) }
}

pub open spec fn moves_of_records(s: Seq<(Seq<char>, u8, u8, i64, Option<Seq<char>>)>) -> Seq<Move> {
    s.map_values(|t: (Seq<char>, u8, u8, i64, Option<Seq<char>>)| move_of_record(t))
}

/// The view of a taunt: its message, timestamp and origin.
pub open spec fn taunt_view(t: Taunt) -> (Seq<char>, i64, Option<MoveSource>) {
    (t.message@, t.timestamp, t.source)
}

pub open spec fn taunts_view(s: Seq<Taunt>) -> Seq<(Seq<char>, i64, Option<MoveSource>)> {
    s.map_values(|t: Taunt| taunt_view(t))
}

/// The taunt a stored row denotes.
pub open spec fn taunt_of_record(t: (Seq<char>, i64, Option<Seq<char>>)) -> (
    Seq<char>,
    i64,
    Option<MoveSource>,
) {
    (t.0, t.1, opt_source_of(t.2))
}

pub open spec fn taunts_of_records(s: Seq<(Seq<char>, i64, Option<Seq<char>>)>) -> Seq<
    (Seq<char>, i64, Option<MoveSource>),
> {
    s.map_values(|t: (Seq<char>, i64, Option<Seq<char>>)| taunt_of_record(t))
}

/// Two strings are equal exactly when their character views are.
pub(crate) fn str_eq(a: &str, b: &str) -> (r: bool)
    ensures
        r == (a@ == b@),
{
    let x: String = a.to_owned();
    let y: String = b.to_owned();
    x == y
}

pub fn encode_player(p: Player) -> (r: &'static str)
    ensures
        r@ == player_code(p),
{
    match p {
        Player::X => "X",
        Player::O => "O",
    }
}

pub fn decode_player(s: &str) -> (p: Player)
    ensures
        p == player_of_code(s@),
{
    if str_eq(s, "X") {
        Player::X
    } else {
        Player::O
    }
}

pub fn encode_status(s: &GameStatus) -> (r: &'static str)
    ensures
        r@ == status_code(*s),
{
    match s {
        GameStatus::InProgress => "InProgress",
        GameStatus::Won(Player::X) => "Won_X",
        GameStatus::Won(Player::O) => "Won_O",
        GameStatus::Draw => "Draw",
    }
}

pub fn decode_status(s: &str) -> (r: GameStatus)
    ensures
        r == status_of_code(s@),
{
    if str_eq(s, "InProgress") {
        GameStatus::InProgress
    } else if str_eq(s, "Won_X") {
        GameStatus::Won(Player::X)
    } else if str_eq(s, "Won_O") {
        GameStatus::Won(Player::O)
    } else if str_eq(s, "Draw") {
        GameStatus::Draw
    } else {
        GameStatus::InProgress
    }
}

pub fn encode_source(s: MoveSource) -> (r: &'static str)
    ensures
        r@ == source_code(s),
{
    match s {
        MoveSource::UI => "UI",
        MoveSource::MCP => "MCP",
    }
}

pub fn decode_source(s: &str) -> (r: Option<MoveSource>)
    ensures
        r == source_of_code(s@),
{
    if str_eq(s, "UI") {
        Some(MoveSource::UI)
    } else if str_eq(s, "MCP") {
        Some(MoveSource::MCP)
    } else {
        None
    }
}

/// Reading back the code written for a mark gives the same mark.
pub proof fn lemma_player_code_roundtrip(p: Player)
    ensures
        player_of_code(player_code(p)) == p,
{
    reveal_strlit("X");
    reveal_strlit("O");
    assert("X"@.len() == 1 && "O"@.len() == 1);
    assert("X"@[0] == 'X' && "O"@[0] == 'O');
}

/// Reading back the code written for a status gives the same status.
pub proof fn lemma_status_code_roundtrip(s: GameStatus)
    ensures
        status_of_code(status_code(s)) == s,
{
    reveal_strlit("InProgress");
    reveal_strlit("Won_X");
    reveal_strlit("Won_O");
    reveal_strlit("Draw");
    assert("InProgress"@.len() == 10 && "Won_X"@.len() == 5 && "Won_O"@.len() == 5 && "Draw"@.len()
        == 4);
    assert("Won_X"@[4] == 'X' && "Won_O"@[4] == 'O');
}

/// Reading back the code written for an origin tag gives the same tag.
pub proof fn lemma_source_code_roundtrip(o: Option<MoveSource>)
    ensures
        opt_source_of(opt_source_code(o)) == o,
{
    reveal_strlit("UI");
    reveal_strlit("MCP");
    assert("UI"@.len() == 2 && "MCP"@.len() == 3);
}

/// Reading back the row written for a move gives the same move.
pub proof fn lemma_move_record_roundtrip(m: Move)
    ensures
        move_of_record(move_record(m)) == m,
{
    lemma_player_code_roundtrip(m.player);
    lemma_source_code_roundtrip(m.source);
}

} // verus!
