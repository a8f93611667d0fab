use tile_rpg::map::{Layer, LayerGrid, TileMap};
use tile_rpg::tilesheet::{MapError, Rect, Tilesheet};

fn sheet(tw: u32, th: u32, spacing: u32, margin: u32, sw: u32, sh: u32) -> Tilesheet {
    match Tilesheet::from_tileset("sheet.png".to_string(), tw, th, spacing, margin, sw, sh) {
        Ok(t) => t,
        Err(e) => panic!("unexpected error {:?}", e),
    }
}

#[test]
fn tile_rect_on_a_plain_sheet() {
    let t = sheet(32, 32, 0, 0, 256, 256);
    assert_eq!(t.tiles_per_row(), 8);
    assert_eq!(t.tile_rect(0), Some(Rect::new(0, 0, 32, 32)));
    assert_eq!(t.tile_rect(8), Some(Rect::new(0, 32, 32, 32)));
    assert_eq!(t.tile_rect(9), Some(Rect::new(32, 32, 32, 32)));
    assert_eq!(t.tile_rect(7), Some(Rect::new(224, 0, 32, 32)));
}

#[test]
fn tile_rect_with_spacing_and_margin() {
    // (100 - 2 + 1) / (16 + 1) = 5 tiles per row
    let t = sheet(16, 8, 1, 2, 100, 40);
    assert_eq!(t.tiles_per_row(), 5);
    assert_eq!(t.tile_rect(7), Some(Rect::new(32, 8, 16, 8)));
    assert_eq!((t.spacing(), t.margin(), t.sheet_size()), (1, 2, (100, 40)));
    assert_eq!(t.tilesheet_path(), "sheet.png");
}

#[test]
fn tile_rect_past_the_sheet_is_not_checked() {
    let t = sheet(32, 32, 0, 0, 64, 64);
    assert_eq!(t.tile_rect(100), Some(Rect::new(0, 1600, 32, 32)));
}

#[test]
fn tile_rect_beyond_coordinate_range() {
    let t = sheet(1, u32::MAX, 0, 0, 1, 1);
    assert_eq!(t.tile_rect(1), None);
    assert_eq!(t.tile_rect(0), Some(Rect::new(0, 0, 1, u32::MAX)));
}

#[test]
fn degenerate_tilesheets_are_rejected() {
    let zero_pitch = Tilesheet::from_tileset("a".to_string(), 0, 32, 0, 0, 256, 256);
    assert!(matches!(zero_pitch, Err(MapError::InvalidTilesheet)));
    let too_narrow = Tilesheet::from_tileset("a".to_string(), 64, 32, 0, 0, 32, 256);
    assert!(matches!(too_narrow, Err(MapError::InvalidTilesheet)));
    let wide_margin = Tilesheet::from_tileset("a".to_string(), 8, 8, 0, 300, 256, 256);
    assert!(matches!(wide_margin, Err(MapError::InvalidTilesheet)));
    let exact = Tilesheet::from_tileset("a".to_string(), 32, 32, 0, 0, 32, 32);
    assert!(exact.is_ok());
}

fn two_by_two() -> LayerGrid {
    LayerGrid { width: 2, height: 2, rows: vec![vec![Some(1), None], vec![None, Some(2)]] }
}

#[test]
fn sparse_layer_draw_list() {
    let t = sheet(32, 32, 0, 0, 256, 256);
    let layer = match Layer::from_grid(&t, &two_by_two()) {
        Ok(l) => l,
        Err(e) => panic!("unexpected error {:?}", e),
    };
    assert_eq!(layer.width(), 2);
    assert_eq!(layer.height(), 2);
    assert_eq!(layer.tiles_id(), &vec![1, 2]);
    assert_eq!(layer.tiles().len(), 2);
    assert_eq!(layer.tiles()[0], (Rect::new(32, 0, 32, 32), Rect::new(0, 0, 32, 32)));
    assert_eq!(layer.tiles()[1], (Rect::new(64, 0, 32, 32), Rect::new(32, 32, 32, 32)));
}

#[test]
fn layer_scan_is_column_major() {
    let t = sheet(32, 32, 0, 0, 256, 256);
    // cell (1, 0) holds 5, cell (0, 1) holds 6
    let grid = LayerGrid { width: 2, height: 2, rows: vec![vec![Some(4), Some(5)], vec![Some(6), Some(7)]] };
    let layer = Layer::from_grid(&t, &grid).ok().unwrap();
    assert_eq!(layer.tiles_id(), &vec![4, 6, 5, 7]);
    assert_eq!(layer.tiles()[1].1, Rect::new(0, 32, 32, 32));
    assert_eq!(layer.tiles()[2].1, Rect::new(32, 0, 32, 32));
}

#[test]
fn map_uses_the_first_tileset() {
    let first = sheet(32, 32, 0, 0, 256, 256);
    let second = sheet(16, 16, 0, 0, 256, 256);
    let empty = LayerGrid { width: 1, height: 1, rows: vec![vec![None]] };
    let m = TileMap::new("m.tmx".to_string(), 2, 2, 32, 32, vec![first, second], vec![two_by_two(), empty])
        .ok()
        .unwrap();
    assert_eq!(m.map_path(), "m.tmx");
    assert_eq!((m.width(), m.height()), (2, 2));
    assert_eq!((m.tile_width(), m.tile_height()), (32, 32));
    assert_eq!(m.tilesheet().tile_width(), 32);
    assert_eq!(m.layers().len(), 2);
    assert_eq!(m.layers()[0].tiles().len(), 2);
    assert_eq!(m.layers()[1].tiles().len(), 0);
}

#[test]
fn map_without_tileset_fails() {
    let r = TileMap::new("m.tmx".to_string(), 2, 2, 32, 32, vec![], vec![two_by_two()]);
    assert!(matches!(r, Err(MapError::MissingTileset)));
}

#[test]
fn map_with_unreachable_tile_fails() {
    let t = sheet(1, u32::MAX, 0, 0, 1, 1);
    let grid = LayerGrid { width: 1, height: 1, rows: vec![vec![Some(3)]] };
    let r = TileMap::new("m.tmx".to_string(), 1, 1, 1, 1, vec![t], vec![grid]);
    assert!(matches!(r, Err(MapError::CoordinateOutOfRange)));
}
