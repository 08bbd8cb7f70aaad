//! Spawn selection helpers: uniform choice among the free cells of a grid,
//! and the arithmetic for centering the view.

use vstd::prelude::*;
use crate::models::{AppState, Coord, FIELD_SIZE};

verus! {

/// Relies on rand::random_range over `min..max`: it panics on an empty range
/// and otherwise returns a value of the range, so the range must be non-empty
/// and the result lies in it.
#[verifier::external_body]
pub fn get_random_int(min: usize, max: usize) -> (r: usize)
    requires
        min < max,
    ensures
        min <= r < max,
{
    rand::random_range(min..max)
}

/// Picks a uniformly random empty cell of the grid. Must not be called when
/// no empty cell exists: the level designs guarantee room.
pub fn get_random_free_cell(grid: &Vec<Vec<u16>>) -> (c: Coord)
    requires
        grid@.len() == FIELD_SIZE,
        forall|i: int| 0 <= i < FIELD_SIZE ==> (#[trigger] grid@[i])@.len() == FIELD_SIZE,
        exists|i: int, j: int|
            0 <= i < FIELD_SIZE && 0 <= j < FIELD_SIZE && grid@[i]@[j] == 0,
    ensures
        c.0 < FIELD_SIZE && c.1 < FIELD_SIZE,
        grid@[c.0 as int]@[c.1 as int] == 0,
{
    let mut free_cells: Vec<Coord> = Vec::new();
    let mut i: usize = 0;
    while i < FIELD_SIZE
        invariant
            i <= FIELD_SIZE,
            grid@.len() == FIELD_SIZE,
            forall|a: int| 0 <= a < FIELD_SIZE ==> (#[trigger] grid@[a])@.len() == FIELD_SIZE,
            forall|k: int|
                0 <= k < free_cells@.len() ==> {
                    let c = #[trigger] free_cells@[k];
                    c.0 < FIELD_SIZE && c.1 < FIELD_SIZE && grid@[c.0 as int]@[c.1 as int] == 0
                },
            forall|a: int, b: int|
                0 <= a < i && 0 <= b < FIELD_SIZE && grid@[a]@[b] == 0
                    ==> free_cells@.contains((a as usize, b as usize)),
        decreases FIELD_SIZE - i,
    {
        let mut j: usize = 0;
        while j < FIELD_SIZE
            invariant
                i < FIELD_SIZE,
                j <= FIELD_SIZE,
                grid@.len() == FIELD_SIZE,
                forall|a: int| 0 <= a < FIELD_SIZE ==> (#[trigger] grid@[a])@.len() == FIELD_SIZE,
                forall|k: int|
                    0 <= k < free_cells@.len() ==> {
                        let c = #[trigger] free_cells@[k];
                        c.0 < FIELD_SIZE && c.1 < FIELD_SIZE && grid@[c.0 as int]@[c.1 as int] == 0
                    },
                forall|a: int, b: int|
                    0 <= a < i && 0 <= b < FIELD_SIZE && grid@[a]@[b] == 0
                        ==> free_cells@.contains((a as usize, b as usize)),
                forall|b: int|
                    0 <= b < j && grid@[i as int]@[b] == 0
                        ==> free_cells@.contains((i, b as usize)),
            decreases FIELD_SIZE - j,
        {
            if grid[i][j] == 0 {
                let ghost prev = free_cells@;
                free_cells.push((i, j));
                proof {
                    assert forall|x: Coord| prev.contains(x) implies free_cells@.contains(x) by {
                        let k = choose|k: int| 0 <= k < prev.len() && prev[k] == x;
                        assert(free_cells@[k] == x);
                    }
                    assert(free_cells@[prev.len() as int] == (i, j));
                    assert(free_cells@.contains((i, j)));
                }
            }
            j += 1;
        }
        i += 1;
    }
    proof {
        let (wi, wj) = choose|a: int, b: int|
            0 <= a < FIELD_SIZE && 0 <= b < FIELD_SIZE && grid@[a]@[b] == 0;
        assert(free_cells@.contains((wi as usize, wj as usize)));
    }
    let idx = get_random_int(0, free_cells.len());
    free_cells[idx]
}

/// Offsets that center a view of the given size on a terminal of the given
/// size, never negative.
pub fn get_view_offset(view_width: u16, view_height: u16, cols: u16, rows: u16) -> (r: (u16, u16))
    ensures
        r.0 == (if cols >= view_width {
            (cols - view_width) / 2
        } else {
            0
        }),
        r.1 == (if rows >= view_height {
            (rows - view_height) / 2
        } else {
            0
        }),
{
    let offset_left = cols.saturating_sub(view_width) / 2;
    let offset_top = rows.saturating_sub(view_height) / 2;
    (offset_left, offset_top)
}

/// Adopts a freshly measured view offset; reports whether it changed, so the
/// caller knows to clear the screen.
pub fn check_view_offset(app_state: &mut AppState, offset_left: u16, offset_top: u16) -> (changed:
    bool)
    ensures
        *final(app_state) == (AppState {
            view_offset: (offset_left, offset_top),
            ..*old(app_state)
        }),
        changed == (old(app_state).view_offset != (offset_left, offset_top)),
{
    let (curr_offset_left, curr_offset_top) = app_state.view_offset;
    let changed = offset_left != curr_offset_left || offset_top != curr_offset_top;
    app_state.view_offset = (offset_left, offset_top);
    changed
}

} // verus!
