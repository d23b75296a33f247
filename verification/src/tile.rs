//! The playfield: a fixed grid of floor cells, each solid or missing, with a
//! permanently missing border ring.

use vstd::prelude::*;
use crate::tilesheet::SheetMap;
use crate::tilesheet::TILE_SHEET_NUM_ACROSS;
use crate::tilesheet::TILE_SHEET_NUM_DOWN;
use crate::tilesheet::spec_sheet_index;

verus! {

/// Gap between neighbouring tiles, in pixels.
pub const TILE_SEPARATOR: usize = 2;

/// Side of a tile sprite, in pixels.
pub const TILE_SIZE: usize = 32;

/// The grid pitch, in pixels: one tile plus one separator.
pub const TILE_SPACE: usize = TILE_SIZE + TILE_SEPARATOR;

/// The grid pitch in sub-units: `TILE_SPACE` tenths-of-a-pixel wide.
pub const TILE_SPACE_SUB: i32 = 34 * 10;

/// Largest grid index a tile accepts, so that its pixel position fits.
pub const MAX_TILE_INDEX: usize = 100_000;

#[derive(Clone, Copy, PartialEq, Eq, Structural, Debug)]
pub enum TileState {
    FULL,
    EMPTY,
}

/// One cell of the playfield. Its pixel position is derived from its grid
/// indices at construction; only `state` ever changes afterwards, and only
/// from `FULL` to `EMPTY` in the course of a round.
#[derive(Clone, Copy, PartialEq, Eq, Structural, Debug)]
pub struct Tile {
    pub pos_x: usize,
    pub pos_y: usize,
    pub state: TileState,
    pub image_id: usize,
}

impl Tile {
    /// A missing cell at the given grid indices, with no decorative sprite.
    pub fn new_empty(index_x: usize, index_y: usize) -> (r: Tile)
        requires
            index_x <= MAX_TILE_INDEX,
            index_y <= MAX_TILE_INDEX,
        ensures
            r.pos_x == index_x * TILE_SPACE,
            r.pos_y == index_y * TILE_SPACE,
            r.state == TileState::EMPTY,
            r.image_id == 0,
    {
        proof {
            assert(index_x * TILE_SPACE <= MAX_TILE_INDEX * TILE_SPACE) by (nonlinear_arith)
                requires
                    index_x <= MAX_TILE_INDEX,
            ;
            assert(index_y * TILE_SPACE <= MAX_TILE_INDEX * TILE_SPACE) by (nonlinear_arith)
                requires
                    index_y <= MAX_TILE_INDEX,
            ;
        }
        Tile {
            pos_x: index_x * TILE_SPACE,
            pos_y: index_y * TILE_SPACE,
            state: TileState::EMPTY,
            image_id: 0,
        }
    }

    /// A solid cell at the given grid indices, decorated by the given sheet
    /// sprite.
    pub fn new(index_x: usize, index_y: usize, image_id: usize) -> (r: Tile)
        requires
            index_x <= MAX_TILE_INDEX,
            index_y <= MAX_TILE_INDEX,
        ensures
            r.pos_x == index_x * TILE_SPACE,
            r.pos_y == index_y * TILE_SPACE,
            r.state == TileState::FULL,
            r.image_id == image_id,
    {
        proof {
            assert(index_x * TILE_SPACE <= MAX_TILE_INDEX * TILE_SPACE) by (nonlinear_arith)
                requires
                    index_x <= MAX_TILE_INDEX,
            ;
            assert(index_y * TILE_SPACE <= MAX_TILE_INDEX * TILE_SPACE) by (nonlinear_arith)
                requires
                    index_y <= MAX_TILE_INDEX,
            ;
        }
        Tile {
            pos_x: index_x * TILE_SPACE,
            pos_y: index_y * TILE_SPACE,
            state: TileState::FULL,
            image_id,
        }
    }

    pub fn get_state(&self) -> (r: TileState)
        ensures
            r == self.state,
    {
        self.state
    }

    pub fn change_state(&mut self, tile_state: TileState)
        ensures
            *final(self) == (Tile { state: tile_state, ..*old(self) }),
    {
        self.state = tile_state;
    }
}

/// The grid of floor cells. Dimensions are fixed at construction.
pub struct TileMap {
    pub map: Vec<Vec<Tile>>,
    pub num_tiles_x: usize,
    pub num_tiles_y: usize,
}

impl TileMap {
    /// The stored rows match the recorded dimensions.
    pub open spec fn wf(self) -> bool {
        &&& self.map@.len() == self.num_tiles_y
        &&& forall|y: int|
            0 <= y < self.map@.len() ==> (#[trigger] self.map@[y])@.len() == self.num_tiles_x
    }

    pub open spec fn spec_cell(self, x: int, y: int) -> Tile {
        self.map@[y]@[x]
    }

    pub open spec fn spec_state(self, x: int, y: int) -> TileState {
        self.spec_cell(x, y).state
    }

    pub open spec fn in_bounds(self, x: int, y: int) -> bool {
        0 <= x < self.num_tiles_x && 0 <= y < self.num_tiles_y
    }

    /// Whether `(x, y)` lies on the outermost ring of the grid.
    pub open spec fn on_border(self, x: int, y: int) -> bool {
        x == 0 || x == self.num_tiles_x - 1 || y == 0 || y == self.num_tiles_y - 1
    }

    /// Every border cell is missing. Holds of every freshly built map and is
    /// kept by play, which only ever empties cells further.
    pub open spec fn border_empty(self) -> bool {
        forall|x: int, y: int|
            self.in_bounds(x, y) && self.on_border(x, y) ==> (#[trigger] self.spec_state(x, y))
                == TileState::EMPTY
    }

    /// A freshly built grid: border cells missing and undecorated, interior
    /// cells solid and decorated row-major from the sheet, every cell at the
    /// pixel position its indices dictate.
    pub open spec fn is_fresh(self, nx: int, ny: int) -> bool {
        &&& self.num_tiles_x == nx
        &&& self.num_tiles_y == ny
        &&& self.wf()
        &&& forall|x: int, y: int|
            self.in_bounds(x, y) ==> {
                let cell = #[trigger] self.spec_cell(x, y);
                &&& cell.pos_x == x * TILE_SPACE
                &&& cell.pos_y == y * TILE_SPACE
                &&& self.on_border(x, y) ==> cell.state == TileState::EMPTY && cell.image_id == 0
                &&& !self.on_border(x, y) ==> cell.state == TileState::FULL && cell.image_id
                    == spec_sheet_index(x - 1, y - 1)
            }
    }

    /// Builds the starting grid: the border ring missing, the interior solid
    /// with row-major sheet decorations. The interior must fit the decorative
    /// sheet.
    pub fn new(num_tiles_x: usize, num_tiles_y: usize) -> (r: TileMap)
        requires
            num_tiles_x <= TILE_SHEET_NUM_ACROSS + 2,
            num_tiles_y <= TILE_SHEET_NUM_DOWN + 2,
        ensures
            r.is_fresh(num_tiles_x as int, num_tiles_y as int),
            r.border_empty(),
    {
        let sheetmap = SheetMap::new();
        let mut map: Vec<Vec<Tile>> = Vec::new();
        let mut y_index: usize = 0;
        while y_index < num_tiles_y
            invariant
                sheetmap.wf(),
                num_tiles_x <= TILE_SHEET_NUM_ACROSS + 2,
                num_tiles_y <= TILE_SHEET_NUM_DOWN + 2,
                y_index <= num_tiles_y,
                map@.len() == y_index,
                forall|y: int|
                    0 <= y < y_index ==> (#[trigger] map@[y])@.len() == num_tiles_x,
                forall|x: int, y: int|
                    0 <= y < y_index && 0 <= x < num_tiles_x ==> {
                        let cell = #[trigger] map@[y]@[x];
                        &&& cell.pos_x == x * TILE_SPACE
                        &&& cell.pos_y == y * TILE_SPACE
                        &&& (x == 0 || x == num_tiles_x - 1 || y == 0 || y == num_tiles_y - 1)
                            ==> cell.state == TileState::EMPTY && cell.image_id == 0
                        &&& !(x == 0 || x == num_tiles_x - 1 || y == 0 || y == num_tiles_y - 1)
                            ==> cell.state == TileState::FULL && cell.image_id
                            == spec_sheet_index(x - 1, y - 1)
                    },
            decreases num_tiles_y - y_index,
        {
            let mut tile_row: Vec<Tile> = Vec::new();
            let mut x_index: usize = 0;
            while x_index < num_tiles_x
                invariant
                    sheetmap.wf(),
                    num_tiles_x <= TILE_SHEET_NUM_ACROSS + 2,
                    num_tiles_y <= TILE_SHEET_NUM_DOWN + 2,
                    y_index < num_tiles_y,
                    x_index <= num_tiles_x,
                    tile_row@.len() == x_index,
                    forall|x: int|
                        0 <= x < x_index ==> {
                            let cell = #[trigger] tile_row@[x];
                            &&& cell.pos_x == x * TILE_SPACE
                            &&& cell.pos_y == y_index * TILE_SPACE
                            &&& (x == 0 || x == num_tiles_x - 1 || y_index == 0 || y_index
                                == num_tiles_y - 1) ==> cell.state == TileState::EMPTY
                                && cell.image_id == 0
                            &&& !(x == 0 || x == num_tiles_x - 1 || y_index == 0 || y_index
                                == num_tiles_y - 1) ==> cell.state == TileState::FULL
                                && cell.image_id == spec_sheet_index(x - 1, y_index as int - 1)
                        },
                decreases num_tiles_x - x_index,
            {
                if y_index == 0 || y_index == num_tiles_y - 1 || x_index == 0 || x_index
                    == num_tiles_x - 1 {
                    tile_row.push(Tile::new_empty(x_index, y_index));
                } else {
                    let image_id = sheetmap.map[y_index - 1][x_index - 1];
                    tile_row.push(Tile::new(x_index, y_index, image_id));
                }
                x_index = x_index + 1;
            }
            map.push(tile_row);
            y_index = y_index + 1;
        }
        TileMap { map, num_tiles_x, num_tiles_y }
    }

    /// The state of cell `(x, y)`.
    pub fn get_state(&self, x: usize, y: usize) -> (r: TileState)
        requires
            self.wf(),
            self.in_bounds(x as int, y as int),
        ensures
            r == self.spec_state(x as int, y as int),
    {
        self.map[y][x].get_state()
    }

    /// Rewrites the state of cell `(x, y)` and nothing else. Play uses this
    /// only to empty a solid cell, which keeps the border ring missing.
    pub fn set_state(&mut self, x: usize, y: usize, new_state: TileState)
        requires
            old(self).wf(),
            old(self).in_bounds(x as int, y as int),
        ensures
            final(self).wf(),
            final(self).num_tiles_x == old(self).num_tiles_x,
            final(self).num_tiles_y == old(self).num_tiles_y,
            final(self).spec_cell(x as int, y as int) == (Tile {
                state: new_state,
                ..old(self).spec_cell(x as int, y as int)
            }),
            forall|i: int, j: int|
                old(self).in_bounds(i, j) && !(i == x && j == y)
                    ==> (#[trigger] final(self).spec_cell(i, j)) == old(self).spec_cell(i, j),
            old(self).border_empty() && new_state == TileState::EMPTY
                ==> final(self).border_empty(),
    {
        self.map[y][x].change_state(new_state);
        proof {
            assert(self.spec_cell(x as int, y as int).state == new_state);
            assert forall|i: int, j: int|
                old(self).in_bounds(i, j) && !(i == x && j == y) implies (#[trigger] self.spec_cell(
                i,
                j,
            )) == old(self).spec_cell(i, j) by {
                if j == y {
                    assert(self.map@[j]@ == old(self).map@[j]@.update(x as int, self.map@[j]@[x as int]));
                }
            }
            if old(self).border_empty() && new_state == TileState::EMPTY {
                assert forall|i: int, j: int|
                    self.in_bounds(i, j) && self.on_border(i, j) implies (#[trigger] self.spec_state(
                    i,
                    j,
                )) == TileState::EMPTY by {
                    if i == x && j == y {
                        assert(self.spec_state(i, j) == new_state);
                    } else {
                        assert(self.spec_cell(i, j) == old(self).spec_cell(i, j));
                        assert(old(self).spec_state(i, j) == TileState::EMPTY);
                    }
                }
            }
        }
    }
}

} // verus!
