//! The mathematical model of the grid: a sequence of rows of cells, with
//! neighbor counting on the torus and the step from one generation to
//! the next.

use crate::cell::{next_state, Cell, CellView, State};
use crate::torus::wrap;
use vstd::prelude::*;

verus! {

/// The rows of a grid, top to bottom; each row holds its cells left to
/// right.
pub type Grid = Seq<Seq<CellView>>;

/// The number of rows.
pub open spec fn height(grid: Grid) -> nat {
    grid.len()
}

/// The number of columns.
pub open spec fn width(grid: Grid) -> nat {
    if grid.len() == 0 {
        0
    } else {
        grid[0].len()
    }
}

/// `grid` has `height` rows of `width` cells each.
pub open spec fn has_shape(grid: Grid, height: nat, width: nat) -> bool {
    &&& grid.len() == height
    &&& forall|row: int| 0 <= row < height ==> (#[trigger] grid[row]).len() == width
}

/// Every row of `grid` has the same number of cells.
pub open spec fn rectangular(grid: Grid) -> bool {
    has_shape(grid, height(grid), width(grid))
}

/// The model of a two-dimensional array of cells.
pub open spec fn cells_view<const W: usize, const H: usize>(cells: [[Cell; W]; H]) -> Grid {
    Seq::new(H as nat, |row: int| Seq::new(W as nat, |col: int| cells[row][col]@))
}

/// The grid of the given shape in which every cell is dead and caches a
/// count of zero.
pub open spec fn blank(height: nat, width: nat) -> Grid {
    Seq::new(
        height,
        |row: int|
            Seq::new(width, |col: int| (CellView { state: State::Dead, live_neighbors: 0 })),
    )
}

/// `grid` with `cell` at `(row, col)`; every other cell stays as it is.
pub open spec fn with_cell(grid: Grid, row: int, col: int, cell: CellView) -> Grid {
    grid.update(row, grid[row].update(col, cell))
}

/// `grid` with the cell at `(row, col)` put into `state`; its cached count
/// and every other cell stay as they are.
pub open spec fn with_state(grid: Grid, row: int, col: int, state: State) -> Grid {
    with_cell(grid, row, col, grid[row][col].with_state(state))
}

/// 1 if the cell at `(row, col)` is alive, 0 if it is dead.
pub open spec fn live_at(grid: Grid, row: int, col: int) -> nat {
    if grid[row][col].state == State::Alive {
        1
    } else {
        0
    }
}

/// 1 or 0 as the cell `row_step` rows down and `col_step` columns right of
/// `(row, col)`, wrapping at the edges, is alive or dead.
pub open spec fn neighbor(grid: Grid, row: int, col: int, row_step: int, col_step: int) -> nat {
    live_at(grid, wrap(row, row_step, height(grid) as int), wrap(col, col_step, width(grid) as int))
}

/// The number of live cells among the eight neighbors of `(row, col)`.
///
/// The neighbors are reached by the steps `height - 1`, `0` and `1` down
/// and `width - 1`, `0` and `1` right, the pair `(0, 0)` left out. A step
/// of `height - 1` down is one row up. Where the grid has a single row or a
/// single column, some of these steps lead back to the cell itself, which
/// then counts among its own neighbors.
pub open spec fn live_neighbors(grid: Grid, row: int, col: int) -> nat {
    let up = height(grid) - 1;
    let left = width(grid) - 1;
    neighbor(grid, row, col, up, left) + neighbor(grid, row, col, up, 0)
        + neighbor(grid, row, col, up, 1) + neighbor(grid, row, col, 0, left)
        + neighbor(grid, row, col, 0, 1) + neighbor(grid, row, col, 1, left)
        + neighbor(grid, row, col, 1, 0) + neighbor(grid, row, col, 1, 1)
}

/// The cell at `(row, col)` one generation later. It caches the count of
/// live neighbors that decided its state.
pub open spec fn evolved(grid: Grid, row: int, col: int) -> CellView {
    let count = live_neighbors(grid, row, col);
    CellView { state: next_state(grid[row][col].state, count), live_neighbors: count }
}

/// The grid one generation later: every cell is decided by the states of
/// `grid`, none by a state of the new generation.
pub open spec fn next_generation(grid: Grid) -> Grid {
    Seq::new(
        grid.len(),
        |row: int| Seq::new(grid[row].len(), |col: int| evolved(grid, row, col)),
    )
}

/// The two grids have the same shape and the same state in every cell;
/// their cached counts may differ.
pub open spec fn same_states(a: Grid, b: Grid) -> bool {
    &&& a.len() == b.len()
    &&& forall|row: int| 0 <= row < a.len() ==> (#[trigger] a[row]).len() == b[row].len()
    &&& forall|row: int, col: int|
        0 <= row < a.len() && 0 <= col < a[row].len() ==> (#[trigger] a[row][col]).state
            == b[row][col].state
}

} // verus!
