//! Rules engine for two-player tic-tac-toe: the board, the turn and the
//! outcome of a game, the moves that the rules allow, and the text that a
//! console or a page shows of it.

pub mod board;
mod chance;
pub mod game;
pub mod input;
pub mod player;
pub mod render;
pub mod state;
