use vstd::prelude::*;

verus! {

/// What the board and the editor refuse.
#[derive(Debug, Clone, Copy, PartialEq, Eq, Structural)]
pub enum EditorError {
    /// Cell coordinates outside the grid.
    OutOfRange,
    /// A board asked for with no rows or no columns.
    EmptyDimension,
    /// A tile that is neither in the palette nor the blank tile.
    UnknownTile,
}

} // verus!
