//! A Langton's-ant-style cellular automaton on a bounded grid: a single agent
//! walks across a binary grid, toggling cell colors and turning by the color
//! it finds under itself.

pub mod ant;
pub mod cell;
pub mod direction;
pub mod state;
pub mod universe;

pub use ant::Ant;
pub use cell::Cell;
pub use direction::Direction;
pub use state::SimState;
pub use universe::SimError;
pub use universe::Universe;
