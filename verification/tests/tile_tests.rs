use tile_arena::tile::Tile;
use tile_arena::tile::TileMap;
use tile_arena::tile::TileState;
use tile_arena::tile::TILE_SPACE;
use tile_arena::tilesheet::SheetMap;
use tile_arena::tilesheet::TILE_SHEET_NUM_ACROSS;
use tile_arena::tilesheet::TILE_SHEET_NUM_DOWN;

#[test]
fn border_cells_empty_interior_full() {
    let map = TileMap::new(10, 18);
    for y in 0..18usize {
        for x in 0..10usize {
            let on_border = x == 0 || x == 9 || y == 0 || y == 17;
            let state = map.get_state(x, y);
            if on_border {
                assert_eq!(state, TileState::EMPTY);
            } else {
                assert_eq!(state, TileState::FULL);
            }
        }
    }
}

#[test]
fn interior_decorations_run_row_major_from_one() {
    let map = TileMap::new(10, 18);
    assert_eq!(map.map[1][1].image_id, 1);
    assert_eq!(map.map[1][2].image_id, 2);
    assert_eq!(map.map[1][8].image_id, 8);
    assert_eq!(map.map[2][1].image_id, 9);
    assert_eq!(map.map[16][8].image_id, 128);
    assert_eq!(map.map[0][0].image_id, 0);
}

#[test]
fn tiles_sit_at_grid_pitch_positions() {
    let map = TileMap::new(10, 18);
    assert_eq!(map.map[2][3].pos_x, 3 * TILE_SPACE);
    assert_eq!(map.map[2][3].pos_y, 2 * TILE_SPACE);
    assert_eq!(map.map[0][0].pos_x, 0);
}

#[test]
fn set_state_changes_one_cell_only() {
    let mut map = TileMap::new(10, 18);
    map.set_state(4, 5, TileState::EMPTY);
    assert_eq!(map.get_state(4, 5), TileState::EMPTY);
    assert_eq!(map.get_state(3, 5), TileState::FULL);
    assert_eq!(map.get_state(4, 4), TileState::FULL);
    assert_eq!(map.map[5][4].image_id, (5 - 1) * 8 + (4 - 1) + 1);
}

#[test]
fn tile_constructors_fix_position_and_state() {
    let full = Tile::new(3, 2, 77);
    assert_eq!(full.pos_x, 3 * TILE_SPACE);
    assert_eq!(full.pos_y, 2 * TILE_SPACE);
    assert_eq!(full.state, TileState::FULL);
    assert_eq!(full.image_id, 77);

    let empty = Tile::new_empty(1, 1);
    assert_eq!(empty.state, TileState::EMPTY);
    assert_eq!(empty.image_id, 0);
}

#[test]
fn tile_change_state_overwrites() {
    let mut tile = Tile::new(0, 0, 5);
    tile.change_state(TileState::EMPTY);
    assert_eq!(tile.get_state(), TileState::EMPTY);
    assert_eq!(tile.image_id, 5);
}

#[test]
fn sheet_map_counts_row_major() {
    let sheet = SheetMap::new();
    assert_eq!(sheet.map.len(), TILE_SHEET_NUM_DOWN);
    assert_eq!(sheet.map[0].len(), TILE_SHEET_NUM_ACROSS);
    assert_eq!(sheet.map[0][0], 1);
    assert_eq!(sheet.map[0][7], 8);
    assert_eq!(sheet.map[1][0], 9);
    assert_eq!(sheet.map[15][7], 128);
}

#[test]
fn small_map_is_all_border() {
    let map = TileMap::new(2, 2);
    for y in 0..2usize {
        for x in 0..2usize {
            assert_eq!(map.get_state(x, y), TileState::EMPTY);
        }
    }
}
