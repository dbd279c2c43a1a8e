//! Rules engine of a falling-block puzzle game.
//!
//! The library owns the playfield, the active piece, scoring, leveling and
//! every turn-by-turn transition: movement, rotation, gravity, line clearing
//! and loss detection. Rendering, keyboard decoding and process lifecycle
//! are outside collaborators that consume the engine through the query and
//! command surface of [`board::GameState`].

pub mod board;
pub mod laws;
pub mod piece;
pub mod shapes;
