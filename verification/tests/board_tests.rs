use tictactoe::{Board, Cell, Player};

#[test]
fn test_new_board_is_empty() {
    let board = Board::new();
    for row in 0..3 {
        for col in 0..3 {
            assert_eq!(board.get(row, col), Some(Cell::Empty));
        }
    }
}

#[test]
fn test_set_cell_valid() {
    let mut board = Board::new();
    assert!(board.set(0, 0, Player::X).is_ok());
    assert_eq!(board.get(0, 0), Some(Cell::Occupied(Player::X)));
}

#[test]
fn test_set_cell_out_of_bounds() {
    let mut board = Board::new();
    assert!(board.set(3, 0, Player::X).is_err());
    assert!(board.set(0, 3, Player::O).is_err());
    assert!(board.set(5, 5, Player::X).is_err());
}

#[test]
fn test_set_cell_already_occupied() {
    let mut board = Board::new();
    board.set(1, 1, Player::X).unwrap();
    let result = board.set(1, 1, Player::O);
    assert!(result.is_err());
    assert_eq!(board.get(1, 1), Some(Cell::Occupied(Player::X)));
}

#[test]
fn test_is_full_empty_board() {
    let board = Board::new();
    assert!(!board.is_full());
}

#[test]
fn test_is_full_partial_board() {
    let mut board = Board::new();
    board.set(0, 0, Player::X).unwrap();
    board.set(1, 1, Player::O).unwrap();
    assert!(!board.is_full());
}

#[test]
fn test_is_full_complete_board() {
    let mut board = Board::new();
    // Fill the board alternating X and O
    for row in 0..3 {
        for col in 0..3 {
            let player = if (row + col) % 2 == 0 {
                Player::X
            } else {
                Player::O
            };
            board.set(row, col, player).unwrap();
        }
    }
    assert!(board.is_full());
}

#[test]
fn test_get_out_of_bounds() {
    let board = Board::new();
    assert_eq!(board.get(3, 0), None);
    assert_eq!(board.get(0, 3), None);
    assert_eq!(board.get(5, 5), None);
}

#[test]
fn test_to_array_mirrors_cells() {
    let mut board = Board::new();
    board.set(2, 1, Player::O).unwrap();
    let cells = board.to_array();
    assert_eq!(cells[2][1], Cell::Occupied(Player::O));
    assert_eq!(cells[0][0], Cell::Empty);
}

#[test]
fn test_set_errors_name_the_cell() {
    let mut board = Board::new();
    assert_eq!(
        board.set(4, 1, Player::X),
        Err(tictactoe::GameError::OutOfBounds { row: 4, col: 1 })
    );
    board.set(2, 2, Player::X).unwrap();
    assert_eq!(
        board.set(2, 2, Player::O),
        Err(tictactoe::GameError::CellOccupied { row: 2, col: 2 })
    );
}
