//! Core engine of a falling-block puzzle game: a bounded play field, seven
//! piece shapes that spawn, move, rotate and lock, detection and compaction
//! of completed rows, and a running score.
//!
//! The engine is synchronous and single-threaded: a host calls the legality
//! queries and mutators on [`game::Game`] and advances the game one
//! [`game::Game::tick`] at a time. Rendering loops, input handling and
//! timing live outside this crate.

pub mod field;
pub mod game;
pub mod rng;
pub mod shape;
pub mod tetromino;
