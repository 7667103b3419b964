//! Conway's Game of Life on a grid of fixed size whose edges wrap around.
//!
//! A [`Universe`] owns `H` rows of `W` cells. Each [`Cell`] is dead or
//! alive, and `evolve` steps all of them at once to the next generation:
//! a live cell with two or three live neighbors survives, a dead cell with
//! exactly three is born, and every other cell is dead.
//!
//! The contracts speak of the model in [`grid`]: a sequence of rows of
//! [`CellView`]s, with neighbor counting on the torus ([`torus`]) and the
//! step from one generation to the next. What holds of that model for
//! every grid is proved in [`laws`].

pub mod cell;
pub mod grid;
pub mod laws;
pub mod torus;
pub mod universe;

pub use cell::{Cell, CellView, State};
pub use universe::Universe;
