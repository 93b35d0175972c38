use tictactoe::server::dispatch;
use tictactoe::{
    GameManager, GameStatus, JsonRpcRequest, McpServer, RpcOutcome, RpcParams, METHOD_NOT_FOUND,
};

fn create_test_server() -> McpServer {
    McpServer::new_in_memory().unwrap()
}

fn create_test_manager() -> GameManager {
    GameManager::new_in_memory().unwrap()
}

fn move_params(row: u64, col: u64) -> RpcParams {
    RpcParams { row: Some(row), col: Some(col), message: None }
}

#[test]
fn test_server_initialization() {
    let db_path = format!("/tmp/test-init-{}.db", uuid::Uuid::new_v4());
    let result = McpServer::new(&db_path);
    assert!(result.is_ok());
}

#[test]
fn test_handle_valid_request() {
    let mut server = create_test_server();
    let request = JsonRpcRequest::new(
        serde_json::Value::from(1),
        "view_game_state".to_string(),
        RpcParams::empty(),
    );

    let response = server.handle_parsed(request, 10);

    assert_eq!(response.jsonrpc, "2.0");
    assert_eq!(response.id, serde_json::Value::from(1));
    assert!(response.result.is_some());
}

#[test]
fn test_handle_unknown_method() {
    let mut server = create_test_server();
    let request = JsonRpcRequest::new(
        serde_json::Value::from(1),
        "unknown_method".to_string(),
        RpcParams::empty(),
    );

    let response = server.handle_parsed(request, 10);

    assert!(response.result.is_none());
    assert_eq!(response.error.unwrap().code, METHOD_NOT_FOUND);
}

#[test]
fn test_handle_invalid_version_echoes_id() {
    let mut server = create_test_server();
    let mut request = JsonRpcRequest::new(
        serde_json::Value::from(9),
        "view_game_state".to_string(),
        RpcParams::empty(),
    );
    request.jsonrpc = "1.0".to_string();

    let response = server.handle_parsed(request, 10);

    assert_eq!(response.id, serde_json::Value::from(9));
    assert_eq!(response.error.unwrap().code, tictactoe::INVALID_REQUEST);
}

#[test]
fn test_dispatch_view_game_state() {
    let mut manager = create_test_manager();
    let result = dispatch(&mut manager, "view_game_state", &RpcParams::empty(), 10);

    assert!(result.is_ok());
    match result.unwrap() {
        RpcOutcome::State(game) => {
            assert!(!game.id.is_empty());
            assert_eq!(game.board.len(), 3);
        },
        other => panic!("expected a state outcome, got {:?}", other),
    }
}

#[test]
fn test_dispatch_make_move() {
    let mut manager = create_test_manager();
    let result = dispatch(&mut manager, "make_move", &move_params(0, 0), 10);

    assert!(result.is_ok());
    assert!(matches!(result.unwrap(), RpcOutcome::MoveMade(_)));
}

#[test]
fn test_dispatch_get_turn() {
    let mut manager = create_test_manager();
    let result = dispatch(&mut manager, "get_turn", &RpcParams::empty(), 10);

    assert!(result.is_ok());
    assert!(matches!(result.unwrap(), RpcOutcome::Turn { .. }));
}

#[test]
fn test_dispatch_taunt_player() {
    let mut manager = create_test_manager();
    let params = RpcParams { row: None, col: None, message: Some("Good luck!".to_string()) };
    let result = dispatch(&mut manager, "taunt_player", &params, 10);

    assert!(result.is_ok());
}

#[test]
fn test_dispatch_restart_game() {
    let mut manager = create_test_manager();
    // Make a move first
    dispatch(&mut manager, "make_move", &move_params(0, 0), 10).unwrap();

    let result = dispatch(&mut manager, "restart_game", &RpcParams::empty(), 11);

    assert!(result.is_ok());
    match result.unwrap() {
        RpcOutcome::Restarted(game) => assert_eq!(game.status, GameStatus::InProgress),
        other => panic!("expected a restart outcome, got {:?}", other),
    }
}

#[test]
fn test_dispatch_get_game_history() {
    let mut manager = create_test_manager();
    dispatch(&mut manager, "make_move", &move_params(0, 0), 10).unwrap();

    let result = dispatch(&mut manager, "get_game_history", &RpcParams::empty(), 11);

    assert!(result.is_ok());
    match result.unwrap() {
        RpcOutcome::History(moves) => assert_eq!(moves.len(), 1),
        other => panic!("expected a history outcome, got {:?}", other),
    }
}

#[test]
fn test_multiple_requests() {
    let mut server = create_test_server();

    // First request
    let req1 = JsonRpcRequest::new(
        serde_json::Value::from(1),
        "view_game_state".to_string(),
        RpcParams::empty(),
    );
    let resp1 = server.handle_parsed(req1, 10);
    assert_eq!(resp1.id, serde_json::Value::from(1));

    // Second request
    let req2 = JsonRpcRequest::new(
        serde_json::Value::from(2),
        "make_move".to_string(),
        move_params(0, 0),
    );
    let resp2 = server.handle_parsed(req2, 11);
    assert_eq!(resp2.id, serde_json::Value::from(2));

    // Third request
    let req3 = JsonRpcRequest::new(
        serde_json::Value::from(3),
        "get_turn".to_string(),
        RpcParams::empty(),
    );
    let resp3 = server.handle_parsed(req3, 12);
    assert_eq!(resp3.id, serde_json::Value::from(3));
}

#[test]
fn test_dispatch_initialize_and_tools_list() {
    let mut manager = create_test_manager();
    assert_eq!(
        dispatch(&mut manager, "initialize", &RpcParams::empty(), 10).unwrap(),
        RpcOutcome::Initialize
    );
    assert_eq!(
        dispatch(&mut manager, "tools/list", &RpcParams::empty(), 11).unwrap(),
        RpcOutcome::ToolsList
    );
}

#[test]
fn test_mcp_complete_game_playthrough() {
    let mut server = create_test_server();

    let view = server.handle_parsed(
        JsonRpcRequest::new(
            serde_json::Value::from(1),
            "view_game_state".to_string(),
            RpcParams::empty(),
        ),
        10,
    );
    match view.result.unwrap() {
        RpcOutcome::State(game) => assert_eq!(game.status, GameStatus::InProgress),
        other => panic!("expected a state outcome, got {:?}", other),
    }

    // First mover takes the top row; the opponent answers in the middle row.
    let winning_moves: [(u64, u64); 5] = [(0, 0), (1, 0), (0, 1), (1, 1), (0, 2)];
    let mut last = None;
    for (i, (row, col)) in winning_moves.iter().enumerate() {
        let resp = server.handle_parsed(
            JsonRpcRequest::new(
                serde_json::Value::from(2 + i as u64),
                "make_move".to_string(),
                RpcParams { row: Some(*row), col: Some(*col), message: None },
            ),
            11 + i as i64,
        );
        last = resp.result;
        assert!(last.is_some());
    }
    match last.unwrap() {
        RpcOutcome::MoveMade(game) => {
            assert!(matches!(game.status, GameStatus::Won(_)));
        },
        other => panic!("expected a move outcome, got {:?}", other),
    }

    // The finished game refuses the next move.
    let resp = server.handle_parsed(
        JsonRpcRequest::new(
            serde_json::Value::from(7),
            "make_move".to_string(),
            RpcParams { row: Some(2), col: Some(0), message: None },
        ),
        20,
    );
    let err = resp.error.unwrap();
    assert!(err.message.contains("already over"));

    let history = server.handle_parsed(
        JsonRpcRequest::new(
            serde_json::Value::from(8),
            "get_game_history".to_string(),
            RpcParams::empty(),
        ),
        21,
    );
    match history.result.unwrap() {
        RpcOutcome::History(moves) => assert_eq!(moves.len(), 5),
        other => panic!("expected a history outcome, got {:?}", other),
    }
}

#[test]
fn test_mcp_taunt_persistence() {
    let mut server = create_test_server();
    for (i, text) in ["First taunt", "Second taunt"].iter().enumerate() {
        let resp = server.handle_parsed(
            JsonRpcRequest::new(
                serde_json::Value::from(1 + i as u64),
                "taunt_player".to_string(),
                RpcParams { row: None, col: None, message: Some(text.to_string()) },
            ),
            10 + i as i64,
        );
        assert!(resp.result.is_some());
    }

    let view = server.handle_parsed(
        JsonRpcRequest::new(
            serde_json::Value::from(3),
            "view_game_state".to_string(),
            RpcParams::empty(),
        ),
        12,
    );
    match view.result.unwrap() {
        RpcOutcome::State(game) => {
            assert_eq!(game.taunts.len(), 2);
            assert_eq!(game.taunts[0].message, "First taunt");
            assert_eq!(game.taunts[1].message, "Second taunt");
        },
        other => panic!("expected a state outcome, got {:?}", other),
    }
}
