//! Conway's Game of Life on a fixed-size toroidal grid.
//!
//! The crate is split into the grid engine, which owns the cell state and
//! applies the update rule, and the simulation controller, which decides when
//! a generation fires and routes discrete user actions. A host loop renders
//! the grid and forwards input; it never touches cell state directly.

pub mod grid;
pub mod laws;
pub mod sim;
