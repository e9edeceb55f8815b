use vstd::prelude::*;
use crate::board::{
    Board, BoardRow, RowTile, BOARD_COLS, BOARD_ROWS, filled, in_grid, painted,
};
use crate::error::EditorError;
use crate::registry::{TileRegistry, find_slug, registered_all};
use crate::session::{PaintSession, effective};
use crate::tile::{Tile, TileView, slug_of, views};

verus! {

/// An intent of the rendering layer.
pub enum Msg {
    /// Pick a palette (or the blank) tile.
    SelectLegendTile(Tile),
    /// The pointer went down on a cell.
    SelectBoardTile(RowTile),
    /// The pointer entered a cell.
    MaybeSelectBoardTile(RowTile),
    /// The pointer went up.
    EndDrag,
}

/// The mathematical value of an intent: a tile, or a cell's position.
pub enum MsgView {
    SelectLegendTile(TileView),
    SelectBoardTile(nat, nat),
    MaybeSelectBoardTile(nat, nat),
    EndDrag,
}

impl View for Msg {
    type V = MsgView;

    open spec fn view(&self) -> MsgView {
        match self {
            Msg::SelectLegendTile(t) => MsgView::SelectLegendTile(t@),
            Msg::SelectBoardTile(c) => MsgView::SelectBoardTile(c@.row, c@.col),
            Msg::MaybeSelectBoardTile(c) => MsgView::MaybeSelectBoardTile(c@.row, c@.col),
            Msg::EndDrag => MsgView::EndDrag,
        }
    }
}

/// The mathematical value of the editor: the snapshot that rendering reads.
pub struct EditorView {
    pub palette: Seq<TileView>,
    pub blank: TileView,
    pub board: Seq<Seq<TileView>>,
    pub selected: Option<TileView>,
    pub dragging: bool,
}

/// The tile that painting uses in state `s`.
pub open spec fn effective_of(s: EditorView) -> TileView {
    effective(s.selected, s.blank)
}

/// Whether `t` is a palette tile or the blank tile.
pub open spec fn known(s: EditorView, t: TileView) -> bool {
    s.palette.contains(t) || t == s.blank
}

/// `s` with cell (`row`, `col`) painted and the drag on.
pub open spec fn pressed(s: EditorView, row: nat, col: nat) -> EditorView {
    EditorView {
        board: painted(s.board, row as int, col as int, effective_of(s)),
        dragging: true,
        ..s
    }
}

/// The transition of the editor on one intent.
pub open spec fn step(s: EditorView, m: MsgView) -> Result<EditorView, EditorError> {
    match m {
        MsgView::SelectLegendTile(t) => if known(s, t) {
            Ok(EditorView { selected: Some(t), ..s })
        } else {
            Err(EditorError::UnknownTile)
        },
        MsgView::SelectBoardTile(row, col) => if in_grid(s.board, row as int, col as int) {
            Ok(pressed(s, row, col))
        } else {
            Err(EditorError::OutOfRange)
        },
        MsgView::MaybeSelectBoardTile(row, col) => if !s.dragging {
            Ok(s)
        } else if in_grid(s.board, row as int, col as int) {
            Ok(pressed(s, row, col))
        } else {
            Err(EditorError::OutOfRange)
        },
        MsgView::EndDrag => Ok(EditorView { dragging: false, ..s }),
    }
}

/// The palette the editor starts with.
pub open spec fn default_palette() -> Seq<TileView> {
    seq![
        TileView { background: "#444"@, color: "white"@ },
        TileView { background: "blue"@, color: "white"@ },
        TileView { background: "cyan"@, color: "blue"@ },
        TileView { background: "pink"@, color: "white"@ },
        TileView { background: "yellow"@, color: "red"@ },
        TileView { background: "#64c7cc"@, color: "cyan"@ },
        TileView { background: "#00a64d"@, color: "#75f0c3"@ },
        TileView { background: "#f5008b"@, color: "#ffdbbf"@ },
        TileView { background: "#0469bd"@, color: "#75d2fa"@ },
        TileView { background: "#fcf000"@, color: "#d60000"@ },
        TileView { background: "#010103"@, color: "#fa8e66"@ },
        TileView { background: "#7a2c02"@, color: "#fff3e6"@ },
        TileView { background: "#f5989c"@, color: "#963e03"@ },
        TileView { background: "#ed1c23"@, color: "#fff780"@ },
        TileView { background: "#f7f7f7"@, color: "#009e4c"@ },
        TileView { background: "#e04696"@, color: "#9c2c4b"@ },
    ]
}

/// The blank (eraser) tile.
pub open spec fn blank_view() -> TileView {
    TileView { background: "white"@, color: "red"@ }
}

/// The palette tiles, in the order they are registered.
fn default_tiles() -> (r: Vec<Tile>)
    ensures
        views(r@) == default_palette(),
{
    let mut v: Vec<Tile> = Vec::new();
    v.push(Tile::new("#444", "white"));
    v.push(Tile::new("blue", "white"));
    v.push(Tile::new("cyan", "blue"));
    v.push(Tile::new("pink", "white"));
    v.push(Tile::new("yellow", "red"));
    v.push(Tile::new("#64c7cc", "cyan"));
    v.push(Tile::new("#00a64d", "#75f0c3"));
    v.push(Tile::new("#f5008b", "#ffdbbf"));
    v.push(Tile::new("#0469bd", "#75d2fa"));
    v.push(Tile::new("#fcf000", "#d60000"));
    v.push(Tile::new("#010103", "#fa8e66"));
    v.push(Tile::new("#7a2c02", "#fff3e6"));
    v.push(Tile::new("#f5989c", "#963e03"));
    v.push(Tile::new("#ed1c23", "#fff780"));
    v.push(Tile::new("#f7f7f7", "#009e4c"));
    v.push(Tile::new("#e04696", "#9c2c4b"));
    assert(views(v@) =~= default_palette());
    v
}

/// Every cell holds, and the selection names, a palette or blank tile.
pub open spec fn consistent(s: EditorView) -> bool {
    &&& forall|i: int, j: int|
        in_grid(s.board, i, j) ==> known(s, #[trigger] s.board[i][j])
    &&& s.selected matches Some(t) ==> known(s, t)
}

/// Every transition keeps the editor consistent.
pub proof fn lemma_step_consistent(s: EditorView, m: MsgView)
    requires
        consistent(s),
    ensures
        step(s, m) matches Ok(n) ==> consistent(n) && n.palette == s.palette && n.blank == s.blank,
{
    match m {
        MsgView::SelectBoardTile(row, col) => if in_grid(s.board, row as int, col as int) {
            lemma_pressed_consistent(s, row, col);
        },
        MsgView::MaybeSelectBoardTile(row, col) => if in_grid(s.board, row as int, col as int) {
            lemma_pressed_consistent(s, row, col);
        },
        _ => {},
    }
}

proof fn lemma_pressed_consistent(s: EditorView, row: nat, col: nat)
    requires
        consistent(s),
        in_grid(s.board, row as int, col as int),
    ensures
        consistent(pressed(s, row, col)),
{
    let n = pressed(s, row, col);
    assert(known(s, effective_of(s)));
    assert forall|i: int, j: int| in_grid(n.board, i, j) implies known(n, #[trigger] n.board[i][j]) by {
        if i != row as int || j != col as int {
            assert(n.board[i][j] == s.board[i][j]);
        }
    }
}

/// Pressing the same cell twice with the same tile selected changes nothing
/// after the first press.
pub proof fn lemma_press_idempotent(s: EditorView, row: nat, col: nat)
    requires
        in_grid(s.board, row as int, col as int),
    ensures
        step(s, MsgView::SelectBoardTile(row, col)) matches Ok(n) && step(
            n,
            MsgView::SelectBoardTile(row, col),
        ) == Ok::<EditorView, EditorError>(n),
{
    let n = pressed(s, row, col);
    let t = effective_of(s);
    assert(effective_of(n) == t);
    assert(n.board[row as int].update(col as int, t) =~= n.board[row as int]);
    assert(pressed(n, row, col).board =~= n.board);
    assert(pressed(n, row, col) == n);
}

/// A press then a release leaves no drag on, and the pressed cell holds the
/// tile that was in effect at the press.
pub proof fn lemma_press_then_release(s: EditorView, row: nat, col: nat)
    requires
        in_grid(s.board, row as int, col as int),
    ensures
        step(s, MsgView::SelectBoardTile(row, col)) matches Ok(n) && step(n, MsgView::EndDrag) matches Ok(m)
            && !m.dragging && m.board[row as int][col as int] == effective_of(s),
{
}

/// Entering a cell while no drag is on changes nothing.
pub proof fn lemma_hover_when_idle(s: EditorView, row: nat, col: nat)
    requires
        !s.dragging,
    ensures
        step(s, MsgView::MaybeSelectBoardTile(row, col)) == Ok::<EditorView, EditorError>(s),
{
}

/// With nothing selected, a press paints the blank tile.
pub proof fn lemma_eraser_default(s: EditorView, row: nat, col: nat)
    requires
        s.selected is None,
        in_grid(s.board, row as int, col as int),
    ensures
        step(s, MsgView::SelectBoardTile(row, col)) matches Ok(n) && n.board[row as int][col as int]
            == s.blank,
{
}

/// Selecting another tile mid-drag paints the next entered cell with it and
/// leaves the pressed cell as it was painted.
pub proof fn lemma_recolor_mid_drag(
    s: EditorView,
    b: TileView,
    r1: nat,
    c1: nat,
    r2: nat,
    c2: nat,
)
    requires
        in_grid(s.board, r1 as int, c1 as int),
        in_grid(s.board, r2 as int, c2 as int),
        r1 != r2 || c1 != c2,
        s.palette.contains(b),
    ensures
        step(s, MsgView::SelectBoardTile(r1, c1)) matches Ok(n1) && step(
            n1,
            MsgView::SelectLegendTile(b),
        ) matches Ok(n2) && step(n2, MsgView::MaybeSelectBoardTile(r2, c2)) matches Ok(n3)
            && n3.board[r2 as int][c2 as int] == b && n3.board[r1 as int][c1 as int] == effective_of(s),
{
}

/// A press outside the grid fails with `OutOfRange`.
pub proof fn lemma_press_out_of_range(s: EditorView, row: nat, col: nat)
    requires
        !in_grid(s.board, row as int, col as int),
    ensures
        step(s, MsgView::SelectBoardTile(row, col)) == Err::<EditorView, EditorError>(
            EditorError::OutOfRange,
        ),
{
}

/// The editor: palette, blank tile, board and paint session, driven by
/// intents one at a time.
pub struct Model {
    tiles: TileRegistry,
    blank_tile: Tile,
    board: Board,
    session: PaintSession,
}

impl View for Model {
    type V = EditorView;

    closed spec fn view(&self) -> EditorView {
        EditorView {
            palette: self.tiles@,
            blank: self.blank_tile@,
            board: self.board@,
            selected: self.session@.selected,
            dragging: self.session@.dragging,
        }
    }
}

impl Model {
    /// Well-formed: its parts are, and the state is consistent.
    pub closed spec fn wf(&self) -> bool {
        &&& self.tiles.wf()
        &&& self.board.wf()
        &&& consistent(self@)
    }

    /// The editor at start: the default palette, a blank board, nothing
    /// selected, no drag.
    pub fn create() -> (r: Model)
        ensures
            r.wf(),
            r@ == (EditorView {
                palette: registered_all(Seq::empty(), default_palette()),
                blank: blank_view(),
                board: filled(BOARD_ROWS as nat, BOARD_COLS as nat, blank_view()),
                selected: None,
                dragging: false,
            }),
    {
        let blank_tile = Tile::new("white", "red");
        let default_tiles = default_tiles();
        let mut tiles = TileRegistry::new();
        let mut i: usize = 0;
        while i < default_tiles.len()
            invariant
                i <= default_tiles@.len(),
                tiles.wf(),
                tiles@ == registered_all(Seq::empty(), views(default_tiles@).take(i as int)),
            decreases default_tiles@.len() - i,
        {
            let ghost before = views(default_tiles@).take(i as int);
            tiles.register(default_tiles[i].clone());
            assert(views(default_tiles@).take(i + 1).drop_last() =~= before);
            i = i + 1;
        }
        assert(views(default_tiles@).take(i as int) =~= default_palette());
        let board = Board::new(&blank_tile);
        let m = Model { tiles, board, blank_tile, session: PaintSession::new() };
        assert forall|a: int, b: int| in_grid(m@.board, a, b) implies known(m@, #[trigger] m@.board[a][b]) by {}
        m
    }

    /// Paints cell (`row`, `col`) with the effective tile and starts a drag.
    fn paint(&mut self, row: u32, col: u32) -> (r: Result<(), EditorError>)
        requires
            old(self).wf(),
        ensures
            final(self).wf(),
            in_grid(old(self)@.board, row as int, col as int) ==> r is Ok
                && final(self)@ == pressed(old(self)@, row as nat, col as nat),
            !in_grid(old(self)@.board, row as int, col as int) ==> r == Err::<(), EditorError>(EditorError::OutOfRange)
                && final(self)@ == old(self)@,
    {
        let t = self.session.effective_tile(&self.blank_tile).clone();
        match self.board.set_tile(row, col, &t) {
            Ok(()) => {
                self.session.begin_drag();
                proof {
                    lemma_pressed_consistent(old(self)@, row as nat, col as nat);
                    assert(self@ == pressed(old(self)@, row as nat, col as nat));
                }
                Ok(())
            },
            Err(e) => Err(e),
        }
    }

    /// Applies one intent; on failure nothing changes. `Ok(true)`: redraw.
    pub fn update(&mut self, msg: Msg) -> (r: Result<bool, EditorError>)
        requires
            old(self).wf(),
        ensures
            final(self).wf(),
            match step(old(self)@, msg@) {
                Ok(n) => r == Ok::<bool, EditorError>(true) && final(self)@ == n,
                Err(e) => r == Err::<bool, EditorError>(e) && final(self)@ == old(self)@,
            },
    {
        match msg {
            Msg::EndDrag => {
                self.session.end_drag();
            },
            Msg::SelectLegendTile(tile) => {
                if self.tiles.contains(&tile) || tile.same_as(&self.blank_tile) {
                    self.session.select_tile(tile);
                } else {
                    return Err(EditorError::UnknownTile);
                }
            },
            Msg::MaybeSelectBoardTile(row_tile) => {
                if self.session.is_dragging() {
                    match self.paint(row_tile.row_index(), row_tile.tile_index()) {
                        Ok(()) => {},
                        Err(e) => {
                            return Err(e);
                        },
                    }
                }
            },
            Msg::SelectBoardTile(row_tile) => {
                match self.paint(row_tile.row_index(), row_tile.tile_index()) {
                    Ok(()) => {},
                    Err(e) => {
                        return Err(e);
                    },
                }
            },
        }
        Ok(true)
    }

    /// Selects the palette tile whose slug is `id`, else the blank tile if
    /// `id` is its slug; any other `id` fails with `UnknownTile`.
    pub fn select_tile_by_id(&mut self, id: &String) -> (r: Result<bool, EditorError>)
        requires
            old(self).wf(),
        ensures
            final(self).wf(),
            match find_slug(old(self)@.palette, id@) {
                Some(i) => r == Ok::<bool, EditorError>(true) && final(self)@ == (EditorView {
                    selected: Some(old(self)@.palette[i]),
                    ..old(self)@
                }),
                None => if id@ == slug_of(old(self)@.blank) {
                    r == Ok::<bool, EditorError>(true) && final(self)@ == (EditorView {
                        selected: Some(old(self)@.blank),
                        ..old(self)@
                    })
                } else {
                    r == Err::<bool, EditorError>(EditorError::UnknownTile) && final(self)@ == old(self)@
                },
            },
    {
        let found = match self.tiles.lookup(id) {
            Some(t) => Some(t.clone()),
            None => None,
        };
        match found {
            Some(t) => {
                self.session.select_tile(t);
                Ok(true)
            },
            None => {
                if self.blank_tile.slug().eq(id) {
                    let b = self.blank_tile.clone();
                    self.session.select_tile(b);
                    Ok(true)
                } else {
                    Err(EditorError::UnknownTile)
                }
            },
        }
    }

    /// The palette tiles, in insertion order (the blank tile is not among them).
    pub fn get_legend_tiles(&self) -> (r: Vec<Tile>)
        requires
            self.wf(),
        ensures
            views(r@) == self@.palette,
    {
        self.tiles.all()
    }

    /// The tile that painting uses now: the selected one, else the blank tile.
    pub fn get_selected_tile(&self) -> (r: &Tile)
        ensures
            r@ == effective_of(self@),
    {
        self.session.effective_tile(&self.blank_tile)
    }

    /// The explicitly selected tile, if any.
    pub fn selected(&self) -> (r: Option<&Tile>)
        ensures
            match self@.selected {
                Some(v) => r matches Some(t) && t@ == v,
                None => r is None,
            },
    {
        self.session.selected()
    }

    pub fn blank_tile(&self) -> (r: &Tile)
        ensures
            r@ == self@.blank,
    {
        &self.blank_tile
    }

    pub fn board(&self) -> (r: &Board)
        requires
            self.wf(),
        ensures
            r.wf(),
            r@ == self@.board,
    {
        &self.board
    }

    pub fn palette(&self) -> (r: &TileRegistry)
        requires
            self.wf(),
        ensures
            r.wf(),
            r@ == self@.palette,
    {
        &self.tiles
    }

    pub fn is_dragging(&self) -> (r: bool)
        ensures
            r == self@.dragging,
    {
        self.session.is_dragging()
    }
}

} // verus!
