use vstd::prelude::*;

use crate::board::Board;
use crate::model::{cell_of, grid_full, in_bounds, Cell, GameStatus, WinningLine};
use crate::player::Player;

verus! {

/// The three positions of line `k`, in scan order: lines 0 to 2 are the
/// rows, 3 to 5 the columns, 6 the main diagonal, 7 the anti-diagonal.
pub open spec fn line_seq(k: int) -> Seq<(u8, u8)> {
    if 0 <= k < 3 {
        seq![(k as u8, 0u8), (k as u8, 1u8), (k as u8, 2u8)]
    } else if 3 <= k < 6 {
        seq![(0u8, (k - 3) as u8), (1u8, (k - 3) as u8), (2u8, (k - 3) as u8)]
    } else if k == 6 {
        seq![(0u8, 0u8), (1u8, 1u8), (2u8, 2u8)]
    } else {
        seq![(0u8, 2u8), (1u8, 1u8), (2u8, 0u8)]
    }
}

/// All three of the given cells are occupied by `p`.
pub open spec fn cells_won(g: [[Cell; 3]; 3], s: Seq<(u8, u8)>, p: Player) -> bool {
    &&& cell_of(g, s[0].0 as int, s[0].1 as int) == Cell::Occupied(p)
    &&& cell_of(g, s[1].0 as int, s[1].1 as int) == Cell::Occupied(p)
    &&& cell_of(g, s[2].0 as int, s[2].1 as int) == Cell::Occupied(p)
}

/// Player `p` holds all three cells of line `k`.
pub open spec fn line_won(g: [[Cell; 3]; 3], k: int, p: Player) -> bool {
    cells_won(g, line_seq(k), p)
}

/// The first winning line at or after line `k`, with its winner.
pub open spec fn winner_scan(g: [[Cell; 3]; 3], k: int) -> Option<(Player, int)>
    decreases 8 - k when 0 <= k <= 8
{
    if k >= 8 {
        None
    } else if line_won(g, k, Player::X) {
        Some((Player::X, k))
    } else if line_won(g, k, Player::O) {
        Some((Player::O, k))
    } else {
        winner_scan(g, k + 1)
    }
}

/// The status the rules assign to a grid: won by whoever holds the first
/// complete line, a draw on a full grid without one, in progress otherwise.
pub open spec fn status_of(g: [[Cell; 3]; 3]) -> GameStatus {
    match winner_scan(g, 0) {
        Some(pk) => GameStatus::Won(pk.0),
        None => if grid_full(g) {
            GameStatus::Draw
        } else {
            GameStatus::InProgress
        },
    }
}

/// The winning line of a grid, if any: the first complete line in scan
/// order.
pub open spec fn winning_line_of(g: [[Cell; 3]; 3]) -> Option<Seq<(u8, u8)>> {
    match winner_scan(g, 0) {
        Some(pk) => Some(line_seq(pk.1)),
        None => None,
    }
}

proof fn lemma_scan_skip(g: [[Cell; 3]; 3], k: int)
    requires
        0 <= k < 8,
        !line_won(g, k, Player::X),
        !line_won(g, k, Player::O),
    ensures
        winner_scan(g, k) == winner_scan(g, k + 1),
{
}

/// Check if three cells contain the same player.
fn check_line(board: &Board, positions: [(u8, u8); 3]) -> (r: Option<Player>)
    requires
        forall|i: int|
            0 <= i < 3 ==> in_bounds(
                #[trigger] positions@[i].0 as int,
                positions@[i].1 as int,
            ),
    ensures
        match r {
            Some(p) => cells_won(board.grid(), positions@, p),
            None => forall|p: Player| !cells_won(board.grid(), positions@, p),
        },
{
    let c0 = board.get(positions[0].0, positions[0].1);
    let c1 = board.get(positions[1].0, positions[1].1);
    let c2 = board.get(positions[2].0, positions[2].1);
    match (c0, c1, c2) {
        (Some(Cell::Occupied(p1)), Some(Cell::Occupied(p2)), Some(Cell::Occupied(p3))) => {
            if p1 == p2 && p2 == p3 {
                Some(p1)
            } else {
                None
            }
        },
        _ => None,
    }
}

fn trio_vec(a: (u8, u8), b: (u8, u8), c: (u8, u8)) -> (v: Vec<(u8, u8)>)
    ensures
        v@ =~= seq![a, b, c],
{
    let mut v: Vec<(u8, u8)> = Vec::new();
    v.push(a);
    v.push(b);
    v.push(c);
    v
}

/// Check if there's a winner on the board and return the winner together
/// with the first winning line in scan order.
pub fn check_winner(board: &Board) -> (r: Option<(Player, WinningLine)>)
    ensures
        match winner_scan(board.grid(), 0) {
            Some(pk) => r matches Some(q) && q.0 == pk.0 && q.1.positions@ == line_seq(pk.1),
            None => r is None,
        },
{
    // Rows.
    let mut row: u8 = 0;
    while row < 3
        invariant
            row <= 3,
            winner_scan(board.grid(), 0) == winner_scan(board.grid(), row as int),
        decreases 3 - row,
    {
        let positions = [(row, 0u8), (row, 1u8), (row, 2u8)];
        proof {
            assert(positions@ =~= line_seq(row as int));
        }
        if let Some(winner) = check_line(board, positions) {
            return Some((winner, WinningLine { positions: trio_vec((row, 0), (row, 1), (row, 2)) }));
        }
        proof {
            lemma_scan_skip(board.grid(), row as int);
        }
        row += 1;
    }

    // Columns.
    let mut col: u8 = 0;
    while col < 3
        invariant
            col <= 3,
            winner_scan(board.grid(), 0) == winner_scan(board.grid(), 3 + col as int),
        decreases 3 - col,
    {
        let positions = [(0u8, col), (1u8, col), (2u8, col)];
        proof {
            assert(positions@ =~= line_seq(3 + col as int));
        }
        if let Some(winner) = check_line(board, positions) {
            return Some((winner, WinningLine { positions: trio_vec((0, col), (1, col), (2, col)) }));
        }
        proof {
            lemma_scan_skip(board.grid(), 3 + col as int);
        }
        col += 1;
    }

    // Main diagonal.
    let positions = [(0u8, 0u8), (1u8, 1u8), (2u8, 2u8)];
    proof {
        assert(positions@ =~= line_seq(6));
    }
    if let Some(winner) = check_line(board, positions) {
        return Some((winner, WinningLine { positions: trio_vec((0, 0), (1, 1), (2, 2)) }));
    }
    proof {
        lemma_scan_skip(board.grid(), 6);
    }

    // Anti-diagonal.
    let positions = [(0u8, 2u8), (1u8, 1u8), (2u8, 0u8)];
    proof {
        assert(positions@ =~= line_seq(7));
    }
    if let Some(winner) = check_line(board, positions) {
        return Some((winner, WinningLine { positions: trio_vec((0, 2), (1, 1), (2, 0)) }));
    }
    proof {
        lemma_scan_skip(board.grid(), 7);
    }

    None
}

/// Determine the current game status and return the winning line, if any.
pub fn get_game_status(board: &Board) -> (r: (GameStatus, Option<WinningLine>))
    ensures
        r.0 == status_of(board.grid()),
        match winner_scan(board.grid(), 0) {
            Some(pk) => r.1 matches Some(wl) && wl.positions@ == line_seq(pk.1),
            None => r.1 is None,
        },
{
    if let Some((winner, line)) = check_winner(board) {
        (GameStatus::Won(winner), Some(line))
    } else if board.is_full() {
        (GameStatus::Draw, None)
    } else {
        (GameStatus::InProgress, None)
    }
}

} // verus!
