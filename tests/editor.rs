use tile_paint::board::RowTile;
use tile_paint::editor::{Model, Msg};
use tile_paint::error::EditorError;
use tile_paint::tile::Tile;

fn cell(row: u32, col: u32) -> RowTile {
    RowTile::new(row, col, &Tile::new("white", "red"))
}

fn press(m: &mut Model, row: u32, col: u32) -> Result<bool, EditorError> {
    m.update(Msg::SelectBoardTile(cell(row, col)))
}

fn enter(m: &mut Model, row: u32, col: u32) -> Result<bool, EditorError> {
    m.update(Msg::MaybeSelectBoardTile(cell(row, col)))
}

fn slug_at(m: &Model, row: u32, col: u32) -> String {
    m.board().get(row, col).ok().unwrap().tile().slug().clone()
}

fn all_slugs(m: &Model) -> Vec<String> {
    let mut out = Vec::new();
    for row in m.board().rows().iter() {
        for c in row.cells().iter() {
            out.push(c.tile().slug().clone());
        }
    }
    out
}

#[test]
fn create_has_default_palette_and_blank_board() {
    let m = Model::create();
    let legend = m.get_legend_tiles();
    assert_eq!(legend.len(), 16);
    assert_eq!(legend[0].slug().as_str(), "#444-white");
    assert_eq!(legend[15].slug().as_str(), "#e04696-#9c2c4b");
    assert!(legend.iter().all(|t| t.slug().as_str() != "white-red"));
    assert_eq!(m.blank_tile().slug().as_str(), "white-red");
    assert_eq!(m.get_selected_tile().slug().as_str(), "white-red");
    assert!(m.selected().is_none());
    assert!(!m.is_dragging());
    assert_eq!(m.palette().len(), 16);
    let slugs = all_slugs(&m);
    assert_eq!(slugs.len(), 14 * 18);
    assert!(slugs.iter().all(|s| s == "white-red"));
}

#[test]
fn repeated_press_is_idempotent() {
    let mut m = Model::create();
    let blue = Tile::new("blue", "white");
    assert_eq!(m.update(Msg::SelectLegendTile(blue)), Ok(true));
    assert_eq!(press(&mut m, 4, 5), Ok(true));
    let first = all_slugs(&m);
    assert_eq!(press(&mut m, 4, 5), Ok(true));
    assert_eq!(all_slugs(&m), first);
    assert_eq!(slug_at(&m, 4, 5), "blue-white");
    assert!(m.is_dragging());
}

#[test]
fn press_then_release_ends_drag() {
    let mut m = Model::create();
    assert_eq!(m.update(Msg::SelectLegendTile(Tile::new("cyan", "blue"))), Ok(true));
    let effective = m.get_selected_tile().slug().clone();
    assert_eq!(press(&mut m, 13, 17), Ok(true));
    assert!(m.is_dragging());
    assert_eq!(m.update(Msg::EndDrag), Ok(true));
    assert!(!m.is_dragging());
    assert_eq!(slug_at(&m, 13, 17), effective);
}

#[test]
fn drag_paints_a_path() {
    let mut m = Model::create();
    assert_eq!(m.update(Msg::SelectLegendTile(Tile::new("#ed1c23", "#fff780"))), Ok(true));
    assert_eq!(press(&mut m, 0, 0), Ok(true));
    assert_eq!(enter(&mut m, 0, 1), Ok(true));
    assert_eq!(enter(&mut m, 0, 2), Ok(true));
    assert_eq!(m.update(Msg::EndDrag), Ok(true));
    assert_eq!(slug_at(&m, 0, 0), "#ed1c23-#fff780");
    assert_eq!(slug_at(&m, 0, 1), "#ed1c23-#fff780");
    assert_eq!(slug_at(&m, 0, 2), "#ed1c23-#fff780");
    assert_eq!(slug_at(&m, 0, 3), "white-red");
    assert_eq!(enter(&mut m, 0, 3), Ok(true));
    assert_eq!(slug_at(&m, 0, 3), "white-red");
}

#[test]
fn hover_without_press_never_paints() {
    let mut m = Model::create();
    assert_eq!(m.update(Msg::SelectLegendTile(Tile::new("pink", "white"))), Ok(true));
    let before = all_slugs(&m);
    assert_eq!(enter(&mut m, 2, 3), Ok(true));
    assert_eq!(enter(&mut m, 20, 30), Ok(true));
    assert!(!m.is_dragging());
    assert_eq!(all_slugs(&m), before);
}

#[test]
fn eraser_is_the_default() {
    let mut m = Model::create();
    assert_eq!(press(&mut m, 6, 9), Ok(true));
    assert_eq!(slug_at(&m, 6, 9), "white-red");
    assert_eq!(m.update(Msg::SelectLegendTile(Tile::new("blue", "white"))), Ok(true));
    assert_eq!(press(&mut m, 6, 9), Ok(true));
    assert_eq!(m.update(Msg::SelectLegendTile(Tile::new("white", "red"))), Ok(true));
    assert_eq!(press(&mut m, 6, 9), Ok(true));
    assert_eq!(slug_at(&m, 6, 9), "white-red");
}

#[test]
fn recolor_mid_drag() {
    let mut m = Model::create();
    assert_eq!(m.update(Msg::SelectLegendTile(Tile::new("yellow", "red"))), Ok(true));
    assert_eq!(press(&mut m, 0, 0), Ok(true));
    assert_eq!(m.update(Msg::SelectLegendTile(Tile::new("#0469bd", "#75d2fa"))), Ok(true));
    assert!(m.is_dragging());
    assert_eq!(enter(&mut m, 0, 1), Ok(true));
    assert_eq!(slug_at(&m, 0, 0), "yellow-red");
    assert_eq!(slug_at(&m, 0, 1), "#0469bd-#75d2fa");
}

#[test]
fn press_out_of_range_leaves_board() {
    let mut m = Model::create();
    assert_eq!(m.update(Msg::SelectLegendTile(Tile::new("blue", "white"))), Ok(true));
    let before = all_slugs(&m);
    assert_eq!(press(&mut m, 14, 0), Err(EditorError::OutOfRange));
    assert_eq!(all_slugs(&m), before);
    assert!(!m.is_dragging());
    assert_eq!(press(&mut m, 0, 18), Err(EditorError::OutOfRange));
    assert_eq!(press(&mut m, 0, 0), Ok(true));
    assert_eq!(enter(&mut m, 0, 18), Err(EditorError::OutOfRange));
    assert_eq!(slug_at(&m, 0, 0), "blue-white");
}

#[test]
fn unknown_tile_is_refused() {
    let mut m = Model::create();
    assert_eq!(
        m.update(Msg::SelectLegendTile(Tile::new("green", "black"))),
        Err(EditorError::UnknownTile)
    );
    assert!(m.selected().is_none());
}

#[test]
fn select_tile_by_id() {
    let mut m = Model::create();
    assert_eq!(m.select_tile_by_id(&"pink-white".to_string()), Ok(true));
    assert_eq!(m.get_selected_tile().slug().as_str(), "pink-white");
    assert_eq!(m.select_tile_by_id(&"white-red".to_string()), Ok(true));
    assert_eq!(m.selected().unwrap().slug().as_str(), "white-red");
    assert_eq!(
        m.select_tile_by_id(&"nope".to_string()),
        Err(EditorError::UnknownTile)
    );
    assert_eq!(m.selected().unwrap().slug().as_str(), "white-red");
}
