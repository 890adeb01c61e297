//! A trivia-game archive reader: page lookup, board extraction and the
//! interactive session controller, with machine-checked contracts.

pub mod board;
pub mod cursor;
pub mod decimal;
pub mod game;
pub mod lookup;
pub mod markup;
pub mod parser;
pub mod pattern;
pub mod session;
pub mod text;

pub use crate::board::{Board, JeopardyQuestion};
pub use crate::game::Game;
pub use crate::lookup::get_game_data;
