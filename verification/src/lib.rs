//! Conway's Game of Life on a bounded rectangular grid: the cell rule, the
//! board that owns the grid, and the controller that turns input events into
//! board operations. Edges have no wrap-around neighbours.

pub mod cell;
pub mod grid;
pub mod board;
pub mod game;
