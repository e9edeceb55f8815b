use vstd::prelude::*;
use vstd::string::*;
use crate::error::EditorError;
use crate::tile::{Tile, TileView};

verus! {

/// Rows of the editor's board.
pub const BOARD_ROWS: u32 = 14;

/// Columns of the editor's board.
pub const BOARD_COLS: u32 = 18;

/// The character of a decimal digit.
pub open spec fn digit_char(d: nat) -> char {
    seq!['0', '1', '2', '3', '4', '5', '6', '7', '8', '9'][d as int]
}

/// The decimal numeral of `n`, without leading zeros.
pub open spec fn decimal(n: nat) -> Seq<char>
    decreases n,
{
    if n < 10 {
        seq![digit_char(n)]
    } else {
        decimal(n / 10) + seq![digit_char(n % 10)]
    }
}

/// The key of a cell: `"row-{row}-tile-{col}"`.
pub open spec fn cell_slug(row: nat, col: nat) -> Seq<char> {
    seq!['r', 'o', 'w', '-'] + decimal(row) + seq!['-', 't', 'i', 'l', 'e', '-'] + decimal(col)
}

fn digit_str(d: u32) -> (r: &'static str)
    requires
        d < 10,
    ensures
        r@ == seq![digit_char(d as nat)],
{
    proof {
        reveal_strlit("0");
        reveal_strlit("1");
        reveal_strlit("2");
        reveal_strlit("3");
        reveal_strlit("4");
        reveal_strlit("5");
        reveal_strlit("6");
        reveal_strlit("7");
        reveal_strlit("8");
        reveal_strlit("9");
    }
    let r = match d {
        0 => "0",
        1 => "1",
        2 => "2",
        3 => "3",
        4 => "4",
        5 => "5",
        6 => "6",
        7 => "7",
        8 => "8",
        _ => "9",
    };
    assert(r@ =~= seq![digit_char(d as nat)]);
    r
}

/// Appends the decimal numeral of `n` to `s`.
fn push_decimal(s: &mut String, n: u32)
    ensures
        final(s)@ == old(s)@ + decimal(n as nat),
    decreases n,
{
    if n >= 10 {
        push_decimal(s, n / 10);
    }
    s.append(digit_str(n % 10));
    assert(final(s)@ =~= old(s)@ + decimal(n as nat));
}

/// Builds the key of cell (`row`, `col`).
pub fn make_cell_slug(row: u32, col: u32) -> (r: String)
    ensures
        r@ == cell_slug(row as nat, col as nat),
{
    proof {
        reveal_strlit("row-");
        reveal_strlit("-tile-");
    }
    let mut s = String::from_str("row-");
    push_decimal(&mut s, row);
    s.append("-tile-");
    push_decimal(&mut s, col);
    assert(s@ =~= cell_slug(row as nat, col as nat));
    s
}

/// The mathematical value of a cell: its position and its tile.
pub struct CellView {
    pub row: nat,
    pub col: nat,
    pub tile: TileView,
}

/// One cell of the board; only its tile changes after creation.
pub struct RowTile {
    slug: String,
    row_index: u32,
    tile_index: u32,
    tile: Tile,
}

impl View for RowTile {
    type V = CellView;

    closed spec fn view(&self) -> CellView {
        CellView { row: self.row_index as nat, col: self.tile_index as nat, tile: self.tile@ }
    }
}

impl RowTile {
    /// Well-formed: the key names the cell's position.
    pub closed spec fn wf(&self) -> bool {
        self.slug@ == cell_slug(self.row_index as nat, self.tile_index as nat)
    }

    /// A cell at (`row_index`, `tile_index`) holding `tile`.
    pub fn new(row_index: u32, tile_index: u32, tile: &Tile) -> (r: RowTile)
        ensures
            r.wf(),
            r@ == (CellView { row: row_index as nat, col: tile_index as nat, tile: tile@ }),
    {
        RowTile {
            slug: make_cell_slug(row_index, tile_index),
            row_index,
            tile_index,
            tile: tile.clone(),
        }
    }

    /// The cell's key, `"row-{row}-tile-{col}"`.
    pub fn slug(&self) -> (r: &String)
        requires
            self.wf(),
        ensures
            r@ == cell_slug(self@.row, self@.col),
    {
        &self.slug
    }

    pub fn row_index(&self) -> (r: u32)
        ensures
            r as nat == self@.row,
    {
        self.row_index
    }

    pub fn tile_index(&self) -> (r: u32)
        ensures
            r as nat == self@.col,
    {
        self.tile_index
    }

    pub fn tile(&self) -> (r: &Tile)
        ensures
            r@ == self@.tile,
    {
        &self.tile
    }
}

impl Clone for RowTile {
    fn clone(&self) -> (r: RowTile)
        ensures
            r@ == self@,
            self.wf() ==> r.wf(),
    {
        RowTile {
            slug: self.slug.clone(),
            row_index: self.row_index,
            tile_index: self.tile_index,
            tile: self.tile.clone(),
        }
    }
}

/// The positions and tiles of a sequence of cells.
pub open spec fn cell_views(cells: Seq<RowTile>) -> Seq<CellView> {
    cells.map_values(|c: RowTile| c@)
}

/// The tiles of a sequence of cells.
pub open spec fn row_of_tiles(cells: Seq<CellView>) -> Seq<TileView> {
    cells.map_values(|c: CellView| c.tile)
}

/// `cells` is row `row` of a grid: cell `j` sits at (`row`, `j`).
pub open spec fn cells_placed(cells: Seq<CellView>, row: nat) -> bool {
    forall|j: int| 0 <= j < cells.len() ==> (#[trigger] cells[j]).row == row && cells[j].col == j
}

/// One row of the board, its cells in column order.
pub struct BoardRow {
    tile_rows: Vec<RowTile>,
}

impl View for BoardRow {
    type V = Seq<CellView>;

    closed spec fn view(&self) -> Seq<CellView> {
        cell_views(self.tile_rows@)
    }
}

impl BoardRow {
    /// Well-formed: every cell's key names its position.
    pub closed spec fn wf(&self) -> bool {
        forall|j: int| 0 <= j < self.tile_rows@.len() ==> (#[trigger] self.tile_rows@[j]).wf()
    }

    /// Row `index` of `cols` cells, each holding `default_tile`.
    pub fn new(index: u32, cols: u32, default_tile: &Tile) -> (r: BoardRow)
        ensures
            r.wf(),
            cells_placed(r@, index as nat),
            row_of_tiles(r@) == Seq::new(cols as nat, |j: int| default_tile@),
    {
        let mut tile_rows: Vec<RowTile> = Vec::new();
        let mut n: u32 = 0;
        while n < cols
            invariant
                n <= cols,
                tile_rows@.len() == n,
                forall|j: int| 0 <= j < n ==> (#[trigger] tile_rows@[j]).wf(),
                forall|j: int|
                    0 <= j < n ==> (#[trigger] tile_rows@[j])@ == (CellView {
                        row: index as nat,
                        col: j as nat,
                        tile: default_tile@,
                    }),
            decreases cols - n,
        {
            tile_rows.push(RowTile::new(index, n, default_tile));
            n = n + 1;
        }
        let r = BoardRow { tile_rows };
        assert(row_of_tiles(r@) =~= Seq::new(cols as nat, |j: int| default_tile@));
        r
    }

    /// The cells, in column order.
    pub fn cells(&self) -> (r: &Vec<RowTile>)
        ensures
            cell_views(r@) == self@,
            self.wf() ==> forall|j: int| 0 <= j < r@.len() ==> (#[trigger] r@[j]).wf(),
    {
        &self.tile_rows
    }
}

/// The tiles of a grid of rows.
pub open spec fn grid_of(rows: Seq<Seq<CellView>>) -> Seq<Seq<TileView>> {
    rows.map_values(|r: Seq<CellView>| row_of_tiles(r))
}

/// The cells of a sequence of rows.
pub open spec fn row_views(rows: Seq<BoardRow>) -> Seq<Seq<CellView>> {
    rows.map_values(|r: BoardRow| r@)
}

/// A `rows` by `cols` grid of one tile.
pub open spec fn filled(rows: nat, cols: nat, t: TileView) -> Seq<Seq<TileView>> {
    Seq::new(rows, |i: int| Seq::new(cols, |j: int| t))
}

/// The grid after cell (`row`, `col`) takes tile `t`.
pub open spec fn painted(b: Seq<Seq<TileView>>, row: int, col: int, t: TileView) -> Seq<
    Seq<TileView>,
> {
    b.update(row, b[row].update(col, t))
}

/// Whether (`row`, `col`) is a cell of the grid.
pub open spec fn in_grid(b: Seq<Seq<TileView>>, row: int, col: int) -> bool {
    0 <= row < b.len() && 0 <= col < b[row].len()
}

/// The grid of cells: a fixed number of rows, each of the same length.
pub struct Board {
    rows: Vec<BoardRow>,
}

impl View for Board {
    type V = Seq<Seq<TileView>>;

    closed spec fn view(&self) -> Seq<Seq<TileView>> {
        grid_of(row_views(self.rows@))
    }
}

impl Board {
    /// Well-formed: a non-empty rectangle whose cells sit at their own
    /// positions and carry their own keys.
    pub closed spec fn wf(&self) -> bool {
        &&& 1 <= self.rows@.len() <= u32::MAX
        &&& 1 <= self.rows@[0]@.len() <= u32::MAX
        &&& forall|i: int|
            0 <= i < self.rows@.len() ==> {
                &&& (#[trigger] self.rows@[i]).wf()
                &&& self.rows@[i]@.len() == self.rows@[0]@.len()
                &&& cells_placed(self.rows@[i]@, i as nat)
            }
    }

    /// A `rows` by `cols` board filled with `fill`; fails on a zero dimension.
    pub fn with_size(rows: u32, cols: u32, fill: &Tile) -> (r: Result<Board, EditorError>)
        ensures
            rows == 0 || cols == 0 <==> r is Err,
            r matches Err(e) ==> e == EditorError::EmptyDimension,
            r matches Ok(b) ==> b.wf() && b@ == filled(rows as nat, cols as nat, fill@),
    {
        if rows == 0 || cols == 0 {
            return Err(EditorError::EmptyDimension);
        }
        let mut out: Vec<BoardRow> = Vec::new();
        let mut n: u32 = 0;
        while n < rows
            invariant
                n <= rows,
                cols >= 1,
                out@.len() == n,
                forall|i: int|
                    0 <= i < n ==> {
                        &&& (#[trigger] out@[i]).wf()
                        &&& cells_placed(out@[i]@, i as nat)
                        &&& row_of_tiles(out@[i]@) == Seq::new(cols as nat, |j: int| fill@)
                    },
            decreases rows - n,
        {
            out.push(BoardRow::new(n, cols, fill));
            n = n + 1;
        }
        let b = Board { rows: out };
        assert forall|i: int| 0 <= i < b.rows@.len() implies b.rows@[i]@.len() == cols by {
            assert(row_of_tiles(b.rows@[i]@).len() == cols);
        }
        assert(b@ =~= filled(rows as nat, cols as nat, fill@));
        Ok(b)
    }

    /// The editor's board, `BOARD_ROWS` by `BOARD_COLS`, filled with `default_tile`.
    pub fn new(default_tile: &Tile) -> (r: Board)
        ensures
            r.wf(),
            r@ == filled(BOARD_ROWS as nat, BOARD_COLS as nat, default_tile@),
    {
        match Board::with_size(BOARD_ROWS, BOARD_COLS, default_tile) {
            Ok(b) => b,
            Err(_) => Board { rows: Vec::new() },
        }
    }

    pub fn num_rows(&self) -> (r: u32)
        requires
            self.wf(),
        ensures
            r == self@.len(),
    {
        self.rows.len() as u32
    }

    pub fn num_cols(&self) -> (r: u32)
        requires
            self.wf(),
        ensures
            forall|i: int| 0 <= i < self@.len() ==> r == #[trigger] self@[i].len(),
    {
        self.rows[0].tile_rows.len() as u32
    }

    /// The rows, in order; cell (`i`, `j`) holds the board's tile there.
    pub fn rows(&self) -> (r: &Vec<BoardRow>)
        requires
            self.wf(),
        ensures
            grid_of(row_views(r@)) == self@,
            forall|i: int| 0 <= i < r@.len() ==> cells_placed(#[trigger] r@[i]@, i as nat),
            forall|i: int| 0 <= i < r@.len() ==> (#[trigger] r@[i]).wf(),
    {
        &self.rows
    }

    /// The cell at (`row`, `col`), or `OutOfRange`.
    pub fn get(&self, row: u32, col: u32) -> (r: Result<&RowTile, EditorError>)
        requires
            self.wf(),
        ensures
            in_grid(self@, row as int, col as int) <==> r is Ok,
            r matches Err(e) ==> e == EditorError::OutOfRange,
            r matches Ok(c) ==> c.wf() && c@ == (CellView {
                row: row as nat,
                col: col as nat,
                tile: self@[row as int][col as int],
            }),
    {
        if (row as usize) < self.rows.len() && (col as usize) < self.rows[row as usize].tile_rows.len() {
            let c = &self.rows[row as usize].tile_rows[col as usize];
            assert(self.rows@[row as int].wf());
            assert(self.rows@[row as int].tile_rows@[col as int].wf());
            assert(cell_views(self.rows@[row as int].tile_rows@)[col as int] == c@);
            assert(self.rows@[row as int]@[col as int] == c@);
            assert(cells_placed(self.rows@[row as int]@, row as nat));
            assert(self.rows@[row as int]@[col as int].row == row);
            Ok(c)
        } else {
            Err(EditorError::OutOfRange)
        }
    }

    /// Gives cell (`row`, `col`) the tile `tile`; out of the grid it fails
    /// with `OutOfRange` and changes nothing.
    pub fn set_tile(&mut self, row: u32, col: u32, tile: &Tile) -> (r: Result<(), EditorError>)
        requires
            old(self).wf(),
        ensures
            final(self).wf(),
            in_grid(old(self)@, row as int, col as int) <==> r is Ok,
            r matches Err(e) ==> e == EditorError::OutOfRange && final(self)@ == old(self)@,
            r is Ok ==> final(self)@ == painted(old(self)@, row as int, col as int, tile@),
    {
        if (row as usize) < self.rows.len() && (col as usize) < self.rows[row as usize].tile_rows.len() {
            let ghost before = self.rows@;
            let t = tile.clone();
            self.rows[row as usize].tile_rows[col as usize].tile = t;
            proof {
                let r = row as int;
                let c = col as int;
                assert(cells_placed(before[r]@, r as nat));
                assert(before[r]@.len() == before[r].tile_rows@.len());
                assert(before[r]@[c] == before[r].tile_rows@[c]@);
                assert(before[r]@[c].row == r && before[r]@[c].col == c);
                assert(self.rows@[r].tile_rows@ == before[r].tile_rows@.update(c, self.rows@[r].tile_rows@[c]));
                assert(self.rows@[r].tile_rows@[c]@ == CellView { row: r as nat, col: c as nat, tile: tile@ });
                assert(self.rows@[r]@ =~= before[r]@.update(c, CellView { row: r as nat, col: c as nat, tile: tile@ }));
                assert(row_of_tiles(self.rows@[r]@) =~= row_of_tiles(before[r]@).update(c, tile@));
                assert forall|j: int| 0 <= j < self.rows@[r].tile_rows@.len() implies (#[trigger] self.rows@[r].tile_rows@[j]).wf() by {
                    assert(before[r].tile_rows@[j].wf());
                }
                assert(self@ =~= painted(old(self)@, r, c, tile@));
            }
            Ok(())
        } else {
            Err(EditorError::OutOfRange)
        }
    }
}

} // verus!
