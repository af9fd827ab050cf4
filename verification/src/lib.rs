//! Core of a minimal real-time snake game: a grid-cell body that shifts one
//! cell per update tick, a four-state heading machine that refuses 180-degree
//! reversals, and a pure computation of the squares to draw. Windowing, the
//! event loop and the actual drawing live outside this crate.

pub mod game;
pub mod snake;
