//! Discrete-time kinematics of fighters in a bounded 2D arena.
//!
//! A [`Fighter`] holds a heading, a desired heading, a speed and a position.
//! Each tick it turns toward its desired heading at a bounded rate, speeds up
//! when flying straight or slows down while turning, and moves by a
//! displacement that is clamped to the arena. A [`GameEngine`] keeps the
//! fighters under unique identifiers and advances all of them once per tick.

pub mod fighter;
pub mod game_engine;

pub use fighter::Fighter;
pub use game_engine::GameEngine;
