use vstd::prelude::*;

use crate::model::{cell_of, grid_empty, grid_full, in_bounds, Cell, GameError};
use crate::player::Player;

verus! {

broadcast use vstd::array::group_array_axioms;

/// Represents a 3x3 tic-tac-toe board.
#[derive(Debug, Clone)]
pub struct Board {
    cells: [[Cell; 3]; 3],
}

impl Board {
    /// The grid this board holds.
    pub closed spec fn grid(self) -> [[Cell; 3]; 3] {
        self.cells
    }

    /// The cell at the given coordinates.
    pub open spec fn at(self, r: int, c: int) -> Cell {
        cell_of(self.grid(), r, c)
    }

    /// True of a board whose nine cells are all empty.
    pub open spec fn is_empty_board(self) -> bool {
        grid_empty(self.grid())
    }

    /// True of a board whose nine cells are all occupied.
    pub open spec fn spec_full(self) -> bool {
        grid_full(self.grid())
    }

    /// Wrap a grid as a board.
    pub fn from_cells(cells: [[Cell; 3]; 3]) -> (b: Board)
        ensures
            b.grid() == cells,
    {
        Board { cells }
    }

    /// Create a new empty board.
    pub fn new() -> (b: Self)
        ensures
            b.is_empty_board(),
    {
        let line = [Cell::Empty, Cell::Empty, Cell::Empty];
        let b = Board { cells: [line, line, line] };
        proof {
            assert forall|r: int, c: int| in_bounds(r, c) implies #[trigger] b.at(r, c)
                == Cell::Empty by {
                assert(b.cells@[r] == line);
                assert(line@[c] == Cell::Empty);
            }
        }
        b
    }

    /// Get the cell at the given position, or nothing when the position
    /// lies off the grid.
    pub fn get(&self, row: u8, col: u8) -> (r: Option<Cell>)
        ensures
            r == if in_bounds(row as int, col as int) {
                Some(self.at(row as int, col as int))
            } else {
                None::<Cell>
            },
    {
        if row < 3 && col < 3 {
            Some(self.cells[row as usize][col as usize])
        } else {
            None
        }
    }

    /// Mark an empty on-grid cell for the given player; off-grid or
    /// occupied cells are refused and the board is left as it was.
    pub fn set(&mut self, row: u8, col: u8, player: Player) -> (r: Result<(), GameError>)
        ensures
            !in_bounds(row as int, col as int) ==> r == Err::<(), GameError>(
                GameError::OutOfBounds { row, col },
            ) && *final(self) == *old(self),
            in_bounds(row as int, col as int) && old(self).at(row as int, col as int)
                != Cell::Empty ==> r == Err::<(), GameError>(GameError::CellOccupied { row, col })
                && *final(self) == *old(self),
            in_bounds(row as int, col as int) && old(self).at(row as int, col as int)
                == Cell::Empty ==> r is Ok && final(self).at(row as int, col as int)
                == Cell::Occupied(player) && forall|i: int, j: int|
                in_bounds(i, j) && !(i == row as int && j == col as int)
                    ==> #[trigger] final(self).at(i, j) == old(self).at(i, j),
    {
        if row >= 3 || col >= 3 {
            return Err(GameError::OutOfBounds { row, col });
        }
        if self.cells[row as usize][col as usize] != Cell::Empty {
            return Err(GameError::CellOccupied { row, col });
        }
        let mut line: [Cell; 3] = self.cells[row as usize];
        line[col as usize] = Cell::Occupied(player);
        self.cells[row as usize] = line;
        Ok(())
    }

    /// Check if the board is full.
    pub fn is_full(&self) -> (r: bool)
        ensures
            r == self.spec_full(),
    {
        let mut row: usize = 0;
        while row < 3
            invariant
                row <= 3,
                forall|i: int, j: int|
                    0 <= i < row && 0 <= j < 3 ==> #[trigger] self.at(i, j) != Cell::Empty,
            decreases 3 - row,
        {
            let mut col: usize = 0;
            while col < 3
                invariant
                    row < 3,
                    col <= 3,
                    forall|i: int, j: int|
                        0 <= i < row && 0 <= j < 3 ==> #[trigger] self.at(i, j) != Cell::Empty,
                    forall|j: int| 0 <= j < col ==> #[trigger] self.at(row as int, j) != Cell::Empty,
                decreases 3 - col,
            {
                if self.cells[row][col] == Cell::Empty {
                    proof {
                        assert(self.at(row as int, col as int) == Cell::Empty);
                    }
                    return false;
                }
                col += 1;
            }
            row += 1;
        }
        proof {
            assert forall|r: int, c: int| in_bounds(r, c) implies #[trigger] cell_of(
                self.grid(),
                r,
                c,
            ) != Cell::Empty by {
                assert(self.at(r, c) != Cell::Empty);
            }
        }
        true
    }

    /// Convert board to 2D array for serialization.
    pub fn to_array(&self) -> (r: [[Cell; 3]; 3])
        ensures
            r == self.grid(),
    {
        self.cells
    }
}

impl Default for Board {
    fn default() -> (b: Self)
        ensures
            b.is_empty_board(),
    {
        Board::new()
    }
}

} // verus!
