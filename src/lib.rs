//! A terminal number-guessing game: the rules of play, verified.
//!
//! `utils` reads player input, `game` holds the difficulty, the secret
//! number and the turn-by-turn rules, and `instance` the decisions of the
//! session around one game.

pub mod game;
pub mod instance;
pub mod utils;
