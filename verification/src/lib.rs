//! Core simulation of a local-multiplayer party game: up to four players
//! share a window and compete in short timed rounds across two minigames,
//! a platformer where colliding with level geometry paints territory, and
//! a bullet-dodging survival mode.
//!
//! This crate holds the per-frame simulation: player physics and input
//! resolution, axis-separated rectangle collision response, territory
//! painting and pixel-classification scoring, and the round/game state
//! machine. All quantities are fixed-point integers: positions and
//! velocities in milliunits (one thousandth of a world unit), times in
//! milliseconds. Rendering, input polling and asset loading are a
//! back-end concern and live outside this crate.

pub mod scalar;
pub mod geom;
pub mod color;
pub mod input;
pub mod game;
pub mod player;
pub mod level;
pub mod collision;
pub mod canvas;
pub mod bullet;
pub mod laws;
