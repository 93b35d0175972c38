//! Scenario tests for the coordination layer: persistence round trips,
//! rejected moves leaving state alone, terminal games, turn alternation,
//! restarts, and taunt ordering.

use tictactoe::{GameError, GameManager, GameRepository, GameStatus, MoveSource};

#[test]
fn test_replayed_log_matches_live_grid() {
    let db_path = format!("/tmp/test-replay-{}.db", uuid::Uuid::new_v4());
    let mut manager = GameManager::new(&db_path).unwrap();

    manager.make_move(0, 0, MoveSource::UI, 10).unwrap();
    manager.make_move(1, 1, MoveSource::MCP, 11).unwrap();
    let live = manager.make_move(2, 0, MoveSource::UI, 12).unwrap();

    // A second connection reconstructs the grid from the persisted log.
    let repository = GameRepository::new(&db_path).unwrap();
    let reloaded = repository.load_game(&live.id).unwrap();
    assert_eq!(reloaded.board, live.board);
    assert_eq!(reloaded.move_history, live.move_history);
}

#[test]
fn test_out_of_bounds_move_mutates_nothing() {
    let mut manager = GameManager::new_in_memory().unwrap();
    let before = manager.make_move(0, 0, MoveSource::UI, 10).unwrap();

    let result = manager.make_move(3, 0, MoveSource::UI, 11);
    assert!(matches!(result, Err(GameError::OutOfBounds { row: 3, col: 0 })));

    let after = manager.get_game_state(12).unwrap();
    assert_eq!(after.board, before.board);
    assert_eq!(after.move_history, before.move_history);
    assert_eq!(after.current_turn, before.current_turn);
}

#[test]
fn test_occupied_move_mutates_nothing() {
    let mut manager = GameManager::new_in_memory().unwrap();
    let before = manager.make_move(1, 1, MoveSource::UI, 10).unwrap();

    let result = manager.make_move(1, 1, MoveSource::UI, 11);
    assert!(matches!(result, Err(GameError::CellOccupied { row: 1, col: 1 })));

    let after = manager.get_game_state(12).unwrap();
    assert_eq!(after.board, before.board);
    assert_eq!(after.move_history, before.move_history);
    assert_eq!(after.current_turn, before.current_turn);
}

#[test]
fn test_finished_game_rejects_every_move() {
    let mut manager = GameManager::new_in_memory().unwrap();
    manager.make_move(0, 0, MoveSource::UI, 10).unwrap();
    manager.make_move(1, 0, MoveSource::UI, 11).unwrap();
    manager.make_move(0, 1, MoveSource::UI, 12).unwrap();
    manager.make_move(1, 1, MoveSource::UI, 13).unwrap();
    let won = manager.make_move(0, 2, MoveSource::UI, 14).unwrap();
    assert!(matches!(won.status, GameStatus::Won(_)));

    for row in 0..3u8 {
        for col in 0..3u8 {
            let result = manager.make_move(row, col, MoveSource::UI, 15);
            assert!(matches!(result, Err(GameError::GameOver { .. })));
        }
    }
    let after = manager.get_game_state(16).unwrap();
    assert_eq!(after.board, won.board);
    assert_eq!(after.move_history.len(), 5);
}

#[test]
fn test_turns_alternate_strictly() {
    let mut manager = GameManager::new_in_memory().unwrap();
    manager.make_move(0, 0, MoveSource::UI, 10).unwrap();
    manager.make_move(1, 0, MoveSource::UI, 11).unwrap();
    manager.make_move(2, 0, MoveSource::UI, 12).unwrap();
    let game = manager.make_move(0, 1, MoveSource::UI, 13).unwrap();

    for i in 0..game.move_history.len() - 1 {
        assert_eq!(
            game.move_history[i + 1].player,
            game.move_history[i].player.opponent()
        );
    }
}

#[test]
fn test_restart_yields_fresh_game() {
    let mut manager = GameManager::new_in_memory().unwrap();
    let old = manager.make_move(0, 0, MoveSource::UI, 10).unwrap();
    manager.add_taunt("old talk".to_string(), MoveSource::UI, 11).unwrap();

    let fresh = manager.restart_game(12).unwrap();

    assert_ne!(fresh.id, old.id);
    assert_eq!(fresh.move_history.len(), 0);
    assert_eq!(fresh.taunts.len(), 0);
    assert_eq!(fresh.status, GameStatus::InProgress);
    assert_eq!(fresh.human_player.opponent(), fresh.ai_player);
    assert!(fresh.current_turn == fresh.human_player || fresh.current_turn == fresh.ai_player);
    assert_eq!(fresh.id.len(), 36);
}

#[test]
fn test_row_win_scenario() {
    let mut manager = GameManager::new_in_memory().unwrap();
    manager.make_move(0, 0, MoveSource::UI, 10).unwrap();
    manager.make_move(1, 0, MoveSource::UI, 11).unwrap();
    manager.make_move(0, 1, MoveSource::UI, 12).unwrap();
    manager.make_move(1, 1, MoveSource::UI, 13).unwrap();
    let won = manager.make_move(0, 2, MoveSource::UI, 14).unwrap();

    let winner = won.move_history[0].player;
    assert_eq!(won.status, GameStatus::Won(winner));
    let line = won.winning_line.as_ref().unwrap();
    assert_eq!(line.positions, vec![(0, 0), (0, 1), (0, 2)]);

    let result = manager.make_move(2, 0, MoveSource::UI, 15);
    assert!(matches!(result, Err(GameError::GameOver { .. })));
}

#[test]
fn test_full_board_without_line_is_draw() {
    let mut manager = GameManager::new_in_memory().unwrap();
    // First mover takes (0,0),(0,2),(1,0),(2,1),(2,2); the other
    // (0,1),(1,1),(1,2),(2,0): no three in a row for either side.
    let cells: [(u8, u8); 9] = [
        (0, 0),
        (0, 1),
        (0, 2),
        (1, 1),
        (1, 0),
        (1, 2),
        (2, 1),
        (2, 0),
        (2, 2),
    ];
    let mut last = None;
    for (i, (row, col)) in cells.iter().enumerate() {
        last = Some(manager.make_move(*row, *col, MoveSource::UI, 10 + i as i64).unwrap());
    }
    let game = last.unwrap();
    assert_eq!(game.status, GameStatus::Draw);
    assert!(game.winning_line.is_none());
}

#[test]
fn test_taunts_keep_order_and_timestamps() {
    let mut manager = GameManager::new_in_memory().unwrap();
    manager.add_taunt("First".to_string(), MoveSource::UI, 100).unwrap();
    manager.add_taunt("Second".to_string(), MoveSource::MCP, 100).unwrap();

    let game = manager.get_game_state(101).unwrap();
    assert_eq!(game.taunts.len(), 2);
    assert_eq!(game.taunts[0].message, "First");
    assert_eq!(game.taunts[1].message, "Second");
    assert!(game.taunts[0].timestamp <= game.taunts[1].timestamp);
}

#[test]
fn test_restart_keeps_old_history_retrievable() {
    let db_path = format!("/tmp/test-retire-{}.db", uuid::Uuid::new_v4());
    let mut manager = GameManager::new(&db_path).unwrap();
    let old = manager.make_move(0, 0, MoveSource::UI, 10).unwrap();
    let old_id = old.id.clone();

    let fresh = manager.restart_game(11).unwrap();
    let current = manager.get_game_state(12).unwrap();
    assert_eq!(current.id, fresh.id);
    assert_eq!(current.move_history.len(), 0);

    // The prior game's history is still there under its own id.
    let repository = GameRepository::new(&db_path).unwrap();
    let retired = repository.load_game(&old_id).unwrap();
    assert_eq!(retired.move_history.len(), 1);
}

#[test]
fn test_loaded_won_game_carries_winning_line() {
    let db_path = format!("/tmp/test-line-{}.db", uuid::Uuid::new_v4());
    let mut manager = GameManager::new(&db_path).unwrap();
    manager.make_move(0, 0, MoveSource::UI, 10).unwrap();
    manager.make_move(1, 0, MoveSource::UI, 11).unwrap();
    manager.make_move(0, 1, MoveSource::UI, 12).unwrap();
    manager.make_move(1, 1, MoveSource::UI, 13).unwrap();
    let won = manager.make_move(0, 2, MoveSource::UI, 14).unwrap();
    assert!(matches!(won.status, GameStatus::Won(_)));

    // A second connection reads the finished game back with its line.
    let repository = GameRepository::new(&db_path).unwrap();
    let reloaded = repository.load_game(&won.id).unwrap();
    assert_eq!(reloaded.status, won.status);
    let line = reloaded.winning_line.expect("a won game carries its winning line");
    assert_eq!(line.positions, vec![(0, 0), (0, 1), (0, 2)]);

    // A fresh snapshot through the coordinator carries it too.
    let snapshot = manager.get_game_state(15).unwrap();
    assert_eq!(
        snapshot.winning_line.expect("the snapshot carries the line").positions,
        vec![(0, 0), (0, 1), (0, 2)]
    );
}
