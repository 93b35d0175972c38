use tictactoe::api::{http_status_for, should_broadcast};
use tictactoe::{assign_players, Cell, GameError, GameStatus, Player};

#[test]
fn test_player_opponent() {
    assert_eq!(Player::X.opponent(), Player::O);
    assert_eq!(Player::O.opponent(), Player::X);
}

#[test]
fn test_cell_default() {
    assert_eq!(Cell::default(), Cell::Empty);
}

#[test]
fn test_assign_players_returns_valid_players() {
    let (human, ai, first) = assign_players();

    // Players must be opposite
    assert_ne!(human, ai);
    assert_eq!(human.opponent(), ai);

    // First player must be one of the two players
    assert!(first == human || first == ai);
}

#[test]
fn test_assign_players_randomness() {
    // Run multiple times to check randomness (statistical test)
    let mut human_x_count = 0;
    let mut ai_x_count = 0;
    let iterations = 100;

    for _ in 0..iterations {
        let (human, _ai, _) = assign_players();
        if human == Player::X {
            human_x_count += 1;
        } else {
            ai_x_count += 1;
        }
    }

    // Both should have been assigned X at least once in 100 iterations
    // (This test has a very small chance of failing due to randomness)
    assert!(human_x_count > 0);
    assert!(ai_x_count > 0);
}

#[test]
fn test_assign_players_first_turn_randomness() {
    // Run multiple times to check first turn randomness
    let mut human_first_count = 0;
    let mut ai_first_count = 0;
    let iterations = 100;

    for _ in 0..iterations {
        let (human, ai, first) = assign_players();
        if first == human {
            human_first_count += 1;
        } else if first == ai {
            ai_first_count += 1;
        }
    }

    // Both should have gone first at least once in 100 iterations
    assert!(human_first_count > 0);
    assert!(ai_first_count > 0);
}

#[test]
fn test_http_status_for_each_error() {
    assert_eq!(http_status_for(&GameError::CellOccupied { row: 1, col: 1 }), 400);
    assert_eq!(http_status_for(&GameError::OutOfBounds { row: 4, col: 0 }), 400);
    assert_eq!(http_status_for(&GameError::WrongTurn { player: Player::X }), 400);
    assert_eq!(http_status_for(&GameError::GameOver { status: GameStatus::Draw }), 400);
    assert_eq!(http_status_for(&GameError::GameNotFound), 404);
    assert_eq!(
        http_status_for(&GameError::DatabaseError { message: "disk".to_string() }),
        500
    );
    assert_eq!(
        http_status_for(&GameError::InternalError { message: "bug".to_string() }),
        500
    );
}

#[test]
fn test_should_broadcast_only_mutating_successes() {
    assert!(should_broadcast("make_move", true));
    assert!(should_broadcast("restart_game", true));
    assert!(!should_broadcast("make_move", false));
    assert!(!should_broadcast("view_game_state", true));
    assert!(!should_broadcast("taunt_player", true));
}
