//! A cellular automaton in the family of Conway's Game of Life, with a third
//! cell state that a cell reaches after it has stayed dead for a while.

pub mod cell;
pub mod laws;
pub mod universe;

pub use cell::{Cell, IDLE_TIME};
pub use universe::{into_cells, GridError, Universe, UniverseView};
