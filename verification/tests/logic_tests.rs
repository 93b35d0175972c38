use tictactoe::{check_winner, get_game_status, Board, GameStatus, Player};

#[test]
fn test_no_winner_empty_board() {
    let board = Board::new();
    assert_eq!(check_winner(&board), None);
}

#[test]
fn test_winner_top_row() {
    let mut board = Board::new();
    board.set(0, 0, Player::X).unwrap();
    board.set(0, 1, Player::X).unwrap();
    board.set(0, 2, Player::X).unwrap();
    let (winner, line) = check_winner(&board).unwrap();
    assert_eq!(winner, Player::X);
    assert_eq!(line.positions, vec![(0, 0), (0, 1), (0, 2)]);
}

#[test]
fn test_winner_middle_row() {
    let mut board = Board::new();
    board.set(1, 0, Player::O).unwrap();
    board.set(1, 1, Player::O).unwrap();
    board.set(1, 2, Player::O).unwrap();
    let (winner, _) = check_winner(&board).unwrap();
    assert_eq!(winner, Player::O);
}

#[test]
fn test_winner_bottom_row() {
    let mut board = Board::new();
    board.set(2, 0, Player::X).unwrap();
    board.set(2, 1, Player::X).unwrap();
    board.set(2, 2, Player::X).unwrap();
    let (winner, _) = check_winner(&board).unwrap();
    assert_eq!(winner, Player::X);
}

#[test]
fn test_winner_left_column() {
    let mut board = Board::new();
    board.set(0, 0, Player::O).unwrap();
    board.set(1, 0, Player::O).unwrap();
    board.set(2, 0, Player::O).unwrap();
    let (winner, _) = check_winner(&board).unwrap();
    assert_eq!(winner, Player::O);
}

#[test]
fn test_winner_middle_column() {
    let mut board = Board::new();
    board.set(0, 1, Player::X).unwrap();
    board.set(1, 1, Player::X).unwrap();
    board.set(2, 1, Player::X).unwrap();
    let (winner, _) = check_winner(&board).unwrap();
    assert_eq!(winner, Player::X);
}

#[test]
fn test_winner_right_column() {
    let mut board = Board::new();
    board.set(0, 2, Player::O).unwrap();
    board.set(1, 2, Player::O).unwrap();
    board.set(2, 2, Player::O).unwrap();
    let (winner, _) = check_winner(&board).unwrap();
    assert_eq!(winner, Player::O);
}

#[test]
fn test_winner_diagonal_top_left_to_bottom_right() {
    let mut board = Board::new();
    board.set(0, 0, Player::X).unwrap();
    board.set(1, 1, Player::X).unwrap();
    board.set(2, 2, Player::X).unwrap();
    let (winner, _) = check_winner(&board).unwrap();
    assert_eq!(winner, Player::X);
}

#[test]
fn test_winner_diagonal_top_right_to_bottom_left() {
    let mut board = Board::new();
    board.set(0, 2, Player::O).unwrap();
    board.set(1, 1, Player::O).unwrap();
    board.set(2, 0, Player::O).unwrap();
    let (winner, _) = check_winner(&board).unwrap();
    assert_eq!(winner, Player::O);
}

#[test]
fn test_no_winner_mixed_row() {
    let mut board = Board::new();
    board.set(0, 0, Player::X).unwrap();
    board.set(0, 1, Player::O).unwrap();
    board.set(0, 2, Player::X).unwrap();
    assert_eq!(check_winner(&board), None);
}

#[test]
fn test_game_status_in_progress() {
    let mut board = Board::new();
    board.set(0, 0, Player::X).unwrap();
    let (status, line) = get_game_status(&board);
    assert_eq!(status, GameStatus::InProgress);
    assert_eq!(line, None);
}

#[test]
fn test_game_status_won() {
    let mut board = Board::new();
    board.set(0, 0, Player::X).unwrap();
    board.set(0, 1, Player::X).unwrap();
    board.set(0, 2, Player::X).unwrap();
    let (status, line) = get_game_status(&board);
    assert_eq!(status, GameStatus::Won(Player::X));
    assert!(line.is_some());
}

#[test]
fn test_game_status_draw() {
    let mut board = Board::new();
    // Create a draw scenario
    // X O X
    // X O O
    // O X X
    board.set(0, 0, Player::X).unwrap();
    board.set(0, 1, Player::O).unwrap();
    board.set(0, 2, Player::X).unwrap();
    board.set(1, 0, Player::X).unwrap();
    board.set(1, 1, Player::O).unwrap();
    board.set(1, 2, Player::O).unwrap();
    board.set(2, 0, Player::O).unwrap();
    board.set(2, 1, Player::X).unwrap();
    board.set(2, 2, Player::X).unwrap();

    let (status, line) = get_game_status(&board);
    assert_eq!(status, GameStatus::Draw);
    assert_eq!(line, None);
}
