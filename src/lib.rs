//! Conway's Game of Life on a fixed-size toroidal board.
//!
//! The board is a rectangle of [`Pixel`]s owned by a [`Life`]. One call of
//! [`Life::apply_rules`] advances every cell by one generation at once,
//! counting neighbours with wraparound on both axes.
//!
//! `life` holds the board, its operations and the mathematical model their
//! contracts are stated over; `lemmas` proves laws of that model, among them
//! that a dead board stays dead, that a glider travels one cell diagonally
//! every four generations and that a pulsar has period three.

pub mod lemmas;
pub mod life;
pub mod pixel;

pub use life::{Life, LifeError};
pub use pixel::Pixel;
