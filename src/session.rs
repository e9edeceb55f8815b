use vstd::prelude::*;
use crate::tile::{Tile, TileView};

verus! {

/// The mathematical value of a paint session.
pub struct SessionView {
    pub selected: Option<TileView>,
    pub dragging: bool,
}

/// The tile that painting uses: the selected one, else the blank tile.
pub open spec fn effective(selected: Option<TileView>, blank: TileView) -> TileView {
    match selected {
        Some(t) => t,
        None => blank,
    }
}

/// The selected tile (none means the eraser) and whether a drag is on.
pub struct PaintSession {
    selected: Option<Tile>,
    dragging: bool,
}

impl View for PaintSession {
    type V = SessionView;

    closed spec fn view(&self) -> SessionView {
        SessionView {
            selected: match self.selected {
                Some(t) => Some(t@),
                None => None,
            },
            dragging: self.dragging,
        }
    }
}

impl PaintSession {
    /// Nothing selected, no drag.
    pub fn new() -> (r: PaintSession)
        ensures
            r@ == (SessionView { selected: None, dragging: false }),
    {
        PaintSession { selected: None, dragging: false }
    }

    /// Selects `tile`; the drag state stays as it is.
    pub fn select_tile(&mut self, tile: Tile)
        ensures
            final(self)@ == (SessionView { selected: Some(tile@), dragging: old(self)@.dragging }),
    {
        self.selected = Some(tile);
    }

    /// The selected tile, if any.
    pub fn selected(&self) -> (r: Option<&Tile>)
        ensures
            match self@.selected {
                Some(v) => r matches Some(t) && t@ == v,
                None => r is None,
            },
    {
        match &self.selected {
            Some(t) => Some(t),
            None => None,
        }
    }

    /// The selected tile, else `blank`.
    pub fn effective_tile<'a>(&'a self, blank: &'a Tile) -> (r: &'a Tile)
        ensures
            r@ == effective(self@.selected, blank@),
    {
        match &self.selected {
            Some(t) => t,
            None => blank,
        }
    }

    pub fn begin_drag(&mut self)
        ensures
            final(self)@ == (SessionView { selected: old(self)@.selected, dragging: true }),
    {
        self.dragging = true;
    }

    pub fn end_drag(&mut self)
        ensures
            final(self)@ == (SessionView { selected: old(self)@.selected, dragging: false }),
    {
        self.dragging = false;
    }

    pub fn is_dragging(&self) -> (r: bool)
        ensures
            r == self@.dragging,
    {
        self.dragging
    }
}

} // verus!
