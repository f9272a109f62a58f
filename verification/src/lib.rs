//! A 3x3 twisty cube in six machine words, with its quarter-turns proved
//! against a sticker-by-sticker model.
pub mod color;
pub mod cube;
mod cycle;
pub mod grid;
mod lanes;
pub mod laws;
pub mod net;
pub mod sample;
pub mod turn;

pub use color::Color;
pub use cube::Cube;
pub use turn::{Direction, Face, Rotation};
