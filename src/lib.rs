//! Cellular automata over one- and two-dimensional worlds.
//!
//! An engine owns a world of cells and a rule. Each step extracts a window
//! around every cell from the previous generation and lets the rule decide the
//! cell's next value, so updates are synchronous and independent of order.
use vstd::prelude::*;

pub mod automaton;
pub mod conway;
pub mod dim1;
pub mod dim2;
pub mod elementary;

pub use automaton::{CellularAutomaton, CellularAutomatonWorldSizeError};
pub use conway::{ConwayCellularAutomaton, ConwayRule};
pub use dim1::{CellularAutomaton1d, Neighbors1d, Rule1d};
pub use dim2::{CellularAutomaton2d, Neighbors2d, Rule2d};
pub use elementary::{ElementaryCellularAutomaton, ElementaryRule};

verus! {

/// The construction error of the one-dimensional engine.
pub type CellularAutomaton1dError = CellularAutomatonWorldSizeError;

} // verus!
