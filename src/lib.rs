//! Tile-board painting: a palette of colored tiles, a fixed grid of cells, and
//! the press / drag / release state machine that paints the grid.

pub mod board;
pub mod editor;
pub mod error;
pub mod registry;
pub mod session;
pub mod tile;
