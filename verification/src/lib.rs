pub mod api;
pub mod board;
pub mod codec;
pub mod laws;
pub mod logic;
pub mod manager;
pub mod model;
pub mod player;
pub mod protocol;
pub mod repository;
pub mod schema;
pub mod server;
pub mod sql;
pub mod tools;

pub use board::Board;
pub use logic::{check_winner, get_game_status};
pub use manager::GameManager;
pub use model::{
    Cell, GameError, GameState, GameStatus, MakeMoveRequest, Move, MoveSource, Taunt, TauntRequest,
    WinningLine,
};
pub use player::{assign_players, Player};
pub use protocol::{
    JsonRpcError, JsonRpcRequest, JsonRpcResponse, RpcOutcome, RpcParams, INTERNAL_ERROR,
    INVALID_PARAMS, INVALID_REQUEST, METHOD_NOT_FOUND, PARSE_ERROR,
};
pub use repository::GameRepository;
pub use schema::init_schema;
pub use server::McpServer;
