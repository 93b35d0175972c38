use tictactoe::{Cell, GameError, GameManager, GameRepository, GameStatus, MoveSource};

fn create_test_manager() -> GameManager {
    GameManager::new_in_memory().unwrap()
}

#[test]
fn test_create_new_game() {
    let mut manager = create_test_manager();
    let game = manager.get_or_create_game(10).unwrap();

    assert!(!game.id.is_empty());
    assert_eq!(game.status, GameStatus::InProgress);
    assert_eq!(game.move_history.len(), 0);
    assert_ne!(game.human_player, game.ai_player);
}

#[test]
fn test_get_existing_game() {
    let mut manager = create_test_manager();
    let game1 = manager.get_or_create_game(10).unwrap();
    let game1_id = game1.id.clone();

    let game2 = manager.get_or_create_game(11).unwrap();

    assert_eq!(game1_id, game2.id);
}

#[test]
fn test_make_valid_move() {
    let mut manager = create_test_manager();
    let game = manager.make_move(0, 0, MoveSource::UI, 10).unwrap();

    assert_eq!(game.move_history.len(), 1);
    assert_eq!(game.move_history[0].row, 0);
    assert_eq!(game.move_history[0].col, 0);
    assert_eq!(game.board[0][0], Cell::Occupied(game.move_history[0].player));
}

#[test]
fn manager_test_make_move_out_of_bounds() {
    let mut manager = create_test_manager();
    let result = manager.make_move(3, 0, MoveSource::UI, 10);

    assert!(matches!(result, Err(GameError::OutOfBounds { .. })));
}

#[test]
fn manager_test_make_move_cell_occupied() {
    let mut manager = create_test_manager();
    manager.make_move(1, 1, MoveSource::UI, 10).unwrap();
    let result = manager.make_move(1, 1, MoveSource::UI, 11);

    assert!(matches!(result, Err(GameError::CellOccupied { .. })));
}

#[test]
fn test_turn_switching() {
    let mut manager = create_test_manager();
    let game1 = manager.make_move(0, 0, MoveSource::UI, 10).unwrap();
    let first_player = game1.move_history[0].player;

    let game2 = manager.make_move(0, 1, MoveSource::UI, 11).unwrap();
    assert_eq!(game2.current_turn, first_player);
    assert_eq!(game2.move_history[1].player, first_player.opponent());
}

#[test]
fn test_restart_game() {
    let mut manager = create_test_manager();
    let game1 = manager.make_move(0, 0, MoveSource::UI, 10).unwrap();
    let game1_id = game1.id.clone();

    let new_game = manager.restart_game(20).unwrap();

    assert_ne!(new_game.id, game1_id);
    assert_eq!(new_game.move_history.len(), 0);
    assert_eq!(new_game.status, GameStatus::InProgress);
}

#[test]
fn test_add_taunt() {
    let mut manager = create_test_manager();
    manager.get_or_create_game(10).unwrap();

    let result = manager.add_taunt("You call that a move?".to_string(), MoveSource::MCP, 11);
    assert!(result.is_ok());

    // Verify taunt is persisted
    let game = manager.get_game_state(12).unwrap();
    assert_eq!(game.taunts.len(), 1);
    assert_eq!(game.taunts[0].message, "You call that a move?");
    assert_eq!(game.taunts[0].source, Some(MoveSource::MCP));
}

#[test]
fn test_game_state_persistence() {
    let db_path = format!("/tmp/test-game-{}.db", uuid::Uuid::new_v4());
    let mut manager = GameManager::new(&db_path).unwrap();

    // Make moves and get game state
    manager.make_move(0, 0, MoveSource::UI, 10).unwrap();
    let game_after = manager.make_move(1, 1, MoveSource::UI, 11).unwrap();
    let game_id = game_after.id.clone();

    // Get game state again - should have persistent moves
    let game = manager.get_game_state(12).unwrap();
    assert_eq!(game.id, game_id);
    assert_eq!(game.move_history.len(), 2);

    // Verify data is in the store by loading through a second connection
    let repository = GameRepository::new(&db_path).unwrap();
    let loaded_game = repository.load_game(&game_id).unwrap();
    assert_eq!(loaded_game.move_history.len(), 2);
}

#[test]
fn test_game_over_prevents_moves() {
    let mut manager = create_test_manager();

    // Create a winning condition for the first mover
    // X X X
    // O O .
    // . . .

    // Simulate the moves directly to create a win
    manager.make_move(0, 0, MoveSource::UI, 10).unwrap(); // X
    manager.make_move(1, 0, MoveSource::UI, 11).unwrap(); // O
    manager.make_move(0, 1, MoveSource::UI, 12).unwrap(); // X
    manager.make_move(1, 1, MoveSource::UI, 13).unwrap(); // O
    manager.make_move(0, 2, MoveSource::UI, 14).unwrap(); // X wins

    // Try to make another move
    let result = manager.make_move(2, 0, MoveSource::UI, 15);
    assert!(matches!(result, Err(GameError::GameOver { .. })));
}
