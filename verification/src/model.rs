use vstd::prelude::*;

use crate::player::Player;

verus! {

/// Cell state on the board.
#[derive(Debug, Clone, Copy, PartialEq, Eq, Structural)]
pub enum Cell {
    Empty,
    Occupied(Player),
}

impl Default for Cell {
    fn default() -> (r: Self)
        ensures
            r == Cell::Empty,
    {
        Cell::Empty
    }
}

/// Game status.
#[derive(Debug, Clone, PartialEq, Eq, Structural)]
pub enum GameStatus {
    InProgress,
    Won(Player),
    Draw,
}

/// Which front end a move or taunt came from.
#[derive(Debug, Clone, Copy, PartialEq, Eq, Structural)]
pub enum MoveSource {
    UI,
    MCP,
}

/// A single move in the game.
#[derive(Debug, Clone, PartialEq)]
pub struct Move {
    pub player: Player,
    pub row: u8,
    pub col: u8,
    pub timestamp: i64,
    pub source: Option<MoveSource>,
}

/// A free-text message event attached to a game.
#[derive(Debug, Clone, PartialEq)]
pub struct Taunt {
    pub message: String,
    pub timestamp: i64,
    pub source: Option<MoveSource>,
}

/// Winning line positions.
#[derive(Debug, Clone, PartialEq, Eq)]
pub struct WinningLine {
    pub positions: Vec<(u8, u8)>,
}

/// Complete game state: a snapshot of one game's header, grid and history.
#[derive(Debug, Clone, PartialEq)]
pub struct GameState {
    pub id: String,
    pub board: [[Cell; 3]; 3],
    pub current_turn: Player,
    pub human_player: Player,
    pub ai_player: Player,
    pub status: GameStatus,
    pub move_history: Vec<Move>,
    pub taunts: Vec<Taunt>,
    pub winning_line: Option<WinningLine>,
}

/// API request to make a move.
#[derive(Debug, Clone)]
pub struct MakeMoveRequest {
    pub row: u8,
    pub col: u8,
}

/// API request to add a taunt.
#[derive(Debug, Clone)]
pub struct TauntRequest {
    pub message: String,
}

/// Error types for the game.
#[derive(Debug, Clone, PartialEq, Eq)]
pub enum GameError {
    CellOccupied { row: u8, col: u8 },
    OutOfBounds { row: u8, col: u8 },
    WrongTurn { player: Player },
    GameOver { status: GameStatus },
    GameNotFound,
    DatabaseError { message: String },
    InternalError { message: String },
}

/// True of coordinates that lie on the 3-by-3 grid.
pub open spec fn in_bounds(r: int, c: int) -> bool {
    0 <= r < 3 && 0 <= c < 3
}

/// The cell of a grid at the given coordinates.
pub open spec fn cell_of(g: [[Cell; 3]; 3], r: int, c: int) -> Cell {
    g@[r]@[c]
}

/// True of a grid whose nine cells are all occupied.
pub open spec fn grid_full(g: [[Cell; 3]; 3]) -> bool {
    forall|r: int, c: int| in_bounds(r, c) ==> #[trigger] cell_of(g, r, c) != Cell::Empty
}

/// True of a grid whose nine cells are all empty.
pub open spec fn grid_empty(g: [[Cell; 3]; 3]) -> bool {
    forall|r: int, c: int| in_bounds(r, c) ==> #[trigger] cell_of(g, r, c) == Cell::Empty
}

/// The cell that replaying a move log in order onto an empty grid leaves
/// at the given coordinates: the last move that names the cell wins, and
/// a cell no move names stays empty.
pub open spec fn replayed_cell(ms: Seq<Move>, r: int, c: int) -> Cell
    decreases ms.len(),
{
    if ms.len() == 0 {
        Cell::Empty
    } else {
        let m = ms.last();
        if m.row == r && m.col == c {
            Cell::Occupied(m.player)
        } else {
            replayed_cell(ms.drop_last(), r, c)
        }
    }
}

/// The grid is exactly what replaying the move log from empty produces.
pub open spec fn grid_matches_log(g: [[Cell; 3]; 3], ms: Seq<Move>) -> bool {
    forall|r: int, c: int| in_bounds(r, c) ==> #[trigger] cell_of(g, r, c) == replayed_cell(ms, r, c)
}

/// Every move of the log names a cell on the grid.
pub open spec fn moves_in_bounds(ms: Seq<Move>) -> bool {
    forall|i: int| 0 <= i < ms.len() ==> in_bounds(#[trigger] ms[i].row as int, ms[i].col as int)
}

} // verus!
