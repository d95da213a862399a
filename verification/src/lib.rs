//! Froginity: the verified core of a side-scrolling frog game.
//!
//! The library holds the parts of the game that compute on plain values:
//! keyboard edge detection, the frame-level control decision, the score
//! display, sprite texel expansion, index-buffer encoding and the surface
//! extent bookkeeping.
pub mod input;
pub mod ui;
pub mod game;
pub mod renderer;
pub mod sprite;
