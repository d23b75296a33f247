//! The decorative tile sheet: a fixed logical grid of sprite indices that the
//! tile map draws its interior cells from.

use vstd::prelude::*;

verus! {

/// Logical width of the decorative sheet, in sprites.
pub const TILE_SHEET_NUM_ACROSS: usize = 8;

/// Logical height of the decorative sheet, in sprites.
pub const TILE_SHEET_NUM_DOWN: usize = 16;

/// The sprite index assigned to sheet cell `(x, y)`: a row-major counter
/// starting at 1, so the indices run 1 through the sheet's area.
pub open spec fn spec_sheet_index(x: int, y: int) -> int {
    1 + y * (TILE_SHEET_NUM_ACROSS as int) + x
}

/// A row-major table of decorative sprite indices, `TILE_SHEET_NUM_DOWN`
/// rows of `TILE_SHEET_NUM_ACROSS` entries each.
pub struct SheetMap {
    pub map: Vec<Vec<usize>>,
    pub num_tiles_across: usize,
    pub num_tiles_down: usize,
}

impl SheetMap {
    /// The table has the sheet's fixed dimensions and every entry holds its
    /// row-major index.
    pub open spec fn wf(self) -> bool {
        &&& self.num_tiles_across == TILE_SHEET_NUM_ACROSS
        &&& self.num_tiles_down == TILE_SHEET_NUM_DOWN
        &&& self.map@.len() == TILE_SHEET_NUM_DOWN
        &&& forall|y: int|
            0 <= y < self.map@.len() ==> (#[trigger] self.map@[y])@.len()
                == TILE_SHEET_NUM_ACROSS
        &&& forall|x: int, y: int|
            0 <= y < TILE_SHEET_NUM_DOWN && 0 <= x < TILE_SHEET_NUM_ACROSS
                ==> (#[trigger] self.map@[y]@[x]) == spec_sheet_index(x, y)
    }

    pub fn new() -> (r: SheetMap)
        ensures
            r.wf(),
    {
        let mut map: Vec<Vec<usize>> = Vec::new();
        let mut i: usize = 1;
        let mut y_index: usize = 0;
        while y_index < TILE_SHEET_NUM_DOWN
            invariant
                y_index <= TILE_SHEET_NUM_DOWN,
                i == 1 + y_index * TILE_SHEET_NUM_ACROSS,
                map@.len() == y_index,
                forall|y: int|
                    0 <= y < y_index ==> (#[trigger] map@[y])@.len() == TILE_SHEET_NUM_ACROSS,
                forall|x: int, y: int|
                    0 <= y < y_index && 0 <= x < TILE_SHEET_NUM_ACROSS
                        ==> (#[trigger] map@[y]@[x]) == spec_sheet_index(x, y),
            decreases TILE_SHEET_NUM_DOWN - y_index,
        {
            let mut tile_row: Vec<usize> = Vec::new();
            let mut x_index: usize = 0;
            while x_index < TILE_SHEET_NUM_ACROSS
                invariant
                    y_index < TILE_SHEET_NUM_DOWN,
                    x_index <= TILE_SHEET_NUM_ACROSS,
                    i == 1 + y_index * TILE_SHEET_NUM_ACROSS + x_index,
                    tile_row@.len() == x_index,
                    forall|x: int|
                        0 <= x < x_index ==> (#[trigger] tile_row@[x]) == spec_sheet_index(
                            x,
                            y_index as int,
                        ),
                decreases TILE_SHEET_NUM_ACROSS - x_index,
            {
                tile_row.push(i);
                i = i + 1;
                x_index = x_index + 1;
            }
            map.push(tile_row);
            y_index = y_index + 1;
        }
        SheetMap {
            map,
            num_tiles_across: TILE_SHEET_NUM_ACROSS,
            num_tiles_down: TILE_SHEET_NUM_DOWN,
        }
    }
}

} // verus!
