//! A verified tic-tac-toe engine: a bit-packed board, a state classifier
//! over the eight winning lines, an exhaustive minimax search with
//! alpha-beta pruning, and a turn controller that can let the search
//! answer each move automatically.

pub mod board;
pub mod classify;
pub mod game;
pub mod search;

pub use board::{BoardValues, PlayerType, TicTacToe};
pub use classify::{GameState, WinningPattern};
pub use game::{GameError, TicTacToeGame};
pub use search::TicTacToeAI;
