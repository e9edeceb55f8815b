use tile_paint::board::{make_cell_slug, Board, BoardRow, RowTile, BOARD_COLS, BOARD_ROWS};
use tile_paint::error::EditorError;
use tile_paint::registry::TileRegistry;
use tile_paint::session::PaintSession;
use tile_paint::tile::Tile;

#[test]
fn tile_slug_joins_colors() {
    let t = Tile::new("cyan", "blue");
    assert_eq!(t.slug().as_str(), "cyan-blue");
    assert_eq!(t.background_color().as_str(), "cyan");
    assert_eq!(t.color().as_str(), "blue");
}

#[test]
fn tile_clone_and_same_as() {
    let t = Tile::new("#444", "white");
    let c = t.clone();
    assert_eq!(c.slug().as_str(), "#444-white");
    assert!(t.same_as(&c));
    assert!(!t.same_as(&Tile::new("#444", "red")));
}

#[test]
fn registry_same_colors_single_entry() {
    let mut r = TileRegistry::new();
    r.register(Tile::new("pink", "white"));
    r.register(Tile::new("pink", "white"));
    let all = r.all();
    assert_eq!(all.len(), 1);
    assert_eq!(all[0].slug().as_str(), "pink-white");
}

#[test]
fn registry_keeps_insertion_order_and_overwrites_in_place() {
    let mut r = TileRegistry::new();
    r.register(Tile::new("blue", "white"));
    r.register(Tile::new("cyan", "blue"));
    r.register(Tile::new("yellow", "red"));
    r.register(Tile::new("cyan", "blue"));
    let all = r.all();
    let slugs: Vec<&str> = all.iter().map(|t| t.slug().as_str()).collect();
    assert_eq!(slugs, vec!["blue-white", "cyan-blue", "yellow-red"]);
    assert_eq!(r.len(), 3);
}

#[test]
fn registry_lookup_and_contains() {
    let mut r = TileRegistry::new();
    r.register(Tile::new("blue", "white"));
    let found = r.lookup(&"blue-white".to_string());
    assert!(found.is_some());
    assert_eq!(found.unwrap().background_color().as_str(), "blue");
    assert!(r.lookup(&"white-red".to_string()).is_none());
    assert!(r.contains(&Tile::new("blue", "white")));
    assert!(!r.contains(&Tile::new("white", "red")));
}

#[test]
fn cell_slug_numbers() {
    assert_eq!(make_cell_slug(0, 0).as_str(), "row-0-tile-0");
    assert_eq!(make_cell_slug(3, 12).as_str(), "row-3-tile-12");
    assert_eq!(make_cell_slug(4294967295, 100).as_str(), "row-4294967295-tile-100");
}

#[test]
fn row_tile_fields() {
    let c = RowTile::new(2, 7, &Tile::new("blue", "white"));
    assert_eq!(c.row_index(), 2);
    assert_eq!(c.tile_index(), 7);
    assert_eq!(c.slug().as_str(), "row-2-tile-7");
    assert_eq!(c.tile().slug().as_str(), "blue-white");
    let d = c.clone();
    assert_eq!(d.slug().as_str(), "row-2-tile-7");
}

#[test]
fn board_row_cells_in_order() {
    let row = BoardRow::new(5, 4, &Tile::new("white", "red"));
    let cells = row.cells();
    assert_eq!(cells.len(), 4);
    for (j, c) in cells.iter().enumerate() {
        assert_eq!(c.row_index(), 5);
        assert_eq!(c.tile_index() as usize, j);
        assert_eq!(c.tile().slug().as_str(), "white-red");
    }
}

#[test]
fn board_new_is_filled() {
    let b = Board::new(&Tile::new("white", "red"));
    assert_eq!(b.num_rows(), BOARD_ROWS);
    assert_eq!(b.num_cols(), BOARD_COLS);
    assert_eq!(b.num_rows(), 14);
    assert_eq!(b.num_cols(), 18);
    for (i, row) in b.rows().iter().enumerate() {
        assert_eq!(row.cells().len(), 18);
        for (j, c) in row.cells().iter().enumerate() {
            assert_eq!(c.row_index() as usize, i);
            assert_eq!(c.tile_index() as usize, j);
            assert_eq!(c.tile().slug().as_str(), "white-red");
        }
    }
}

#[test]
fn board_with_size_rejects_zero() {
    let t = Tile::new("white", "red");
    assert_eq!(Board::with_size(0, 3, &t).err(), Some(EditorError::EmptyDimension));
    assert_eq!(Board::with_size(3, 0, &t).err(), Some(EditorError::EmptyDimension));
    let b = Board::with_size(2, 3, &t).ok().unwrap();
    assert_eq!(b.num_rows(), 2);
    assert_eq!(b.num_cols(), 3);
}

#[test]
fn board_get_and_set_tile() {
    let mut b = Board::new(&Tile::new("white", "red"));
    let red = Tile::new("#ed1c23", "#fff780");
    assert_eq!(b.set_tile(13, 17, &red), Ok(()));
    let c = b.get(13, 17).ok().unwrap();
    assert_eq!(c.tile().slug().as_str(), "#ed1c23-#fff780");
    assert_eq!(c.slug().as_str(), "row-13-tile-17");
    assert_eq!(b.get(13, 16).ok().unwrap().tile().slug().as_str(), "white-red");
}

#[test]
fn board_out_of_range() {
    let mut b = Board::new(&Tile::new("white", "red"));
    assert!(matches!(b.get(14, 0), Err(EditorError::OutOfRange)));
    assert!(matches!(b.get(0, 18), Err(EditorError::OutOfRange)));
    let red = Tile::new("red", "white");
    assert_eq!(b.set_tile(14, 0, &red), Err(EditorError::OutOfRange));
    assert_eq!(b.set_tile(0, 18, &red), Err(EditorError::OutOfRange));
    for row in b.rows().iter() {
        for c in row.cells().iter() {
            assert_eq!(c.tile().slug().as_str(), "white-red");
        }
    }
}

#[test]
fn session_select_and_drag() {
    let blank = Tile::new("white", "red");
    let mut s = PaintSession::new();
    assert!(!s.is_dragging());
    assert!(s.selected().is_none());
    assert_eq!(s.effective_tile(&blank).slug().as_str(), "white-red");
    s.begin_drag();
    s.begin_drag();
    assert!(s.is_dragging());
    s.select_tile(Tile::new("blue", "white"));
    assert!(s.is_dragging());
    assert_eq!(s.effective_tile(&blank).slug().as_str(), "blue-white");
    s.end_drag();
    s.end_drag();
    assert!(!s.is_dragging());
    assert_eq!(s.selected().unwrap().slug().as_str(), "blue-white");
}
