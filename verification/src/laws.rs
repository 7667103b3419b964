//! What holds of the grid model, whatever the grid.

use crate::cell::{CellView, State};
use crate::grid::{
    blank, has_shape, height, live_at, live_neighbors, neighbor, next_generation, rectangular,
    same_states, width, with_state, Grid,
};
use crate::torus::{lemma_wrap_unfolds, wrap};
use crate::universe::Universe;
use vstd::prelude::*;

verus! {

/// A blank grid has the shape it was asked for, and every cell of it is
/// dead and caches a count of zero.
pub proof fn lemma_blank_is_all_dead(height: nat, width: nat)
    ensures
        has_shape(blank(height, width), height, width),
        forall|row: int, col: int|
            0 <= row < height && 0 <= col < width ==> #[trigger] blank(height, width)[row][col]
                == (CellView { state: State::Dead, live_neighbors: 0 }),
{
}

/// After a cell is put into a state, that cell reads back the state, its
/// cached count is what it was, every other cell is what it was, and the
/// grid has the shape it had.
pub proof fn lemma_with_state_reads_back(grid: Grid, row: int, col: int, state: State)
    requires
        rectangular(grid),
        0 <= row < height(grid),
        0 <= col < width(grid),
    ensures
        with_state(grid, row, col, state)[row][col].state == state,
        with_state(grid, row, col, state)[row][col].live_neighbors
            == grid[row][col].live_neighbors,
        forall|r: int, c: int|
            0 <= r < height(grid) && 0 <= c < width(grid) && (r != row || c != col)
                ==> #[trigger] with_state(grid, row, col, state)[r][c] == grid[r][c],
        has_shape(with_state(grid, row, col, state), height(grid), width(grid)),
{
    assert(grid[0].len() == width(grid));
}

/// Every neighbor of a cell of the grid is a cell of the grid.
pub proof fn lemma_neighbor_is_inside(
    grid: Grid,
    row: int,
    col: int,
    row_step: int,
    col_step: int,
)
    requires
        0 <= row < height(grid),
        0 <= col < width(grid),
        0 <= row_step <= height(grid),
        0 <= col_step <= width(grid),
    ensures
        0 <= wrap(row, row_step, height(grid) as int) < height(grid),
        0 <= wrap(col, col_step, width(grid) as int) < width(grid),
{
    lemma_wrap_unfolds(row, row_step, height(grid) as int);
    lemma_wrap_unfolds(col, col_step, width(grid) as int);
}

/// The count of live neighbors is decided by the states alone: two grids
/// of the same shape and with the same states give every cell the same
/// count, whatever counts their cells cache.
pub proof fn lemma_live_neighbors_of_same_states(a: Grid, b: Grid, row: int, col: int)
    requires
        rectangular(a),
        same_states(a, b),
        0 <= row < height(a),
        0 <= col < width(a),
    ensures
        live_neighbors(a, row, col) == live_neighbors(b, row, col),
{
    let h = height(a) as int;
    let w = width(a) as int;
    assert(a[0].len() == b[0].len());
    assert forall|row_step: int, col_step: int|
        0 <= row_step <= h && 0 <= col_step <= w implies #[trigger] neighbor(
        a,
        row,
        col,
        row_step,
        col_step,
    ) == neighbor(b, row, col, row_step, col_step) by {
        lemma_neighbor_is_inside(a, row, col, row_step, col_step);
        let r = wrap(row, row_step, h);
        let c = wrap(col, col_step, w);
        assert(a[r][c].state == b[r][c].state);
    }
}

/// One step is decided by the states alone: two grids of the same shape
/// and with the same states have the same next generation, cell for cell
/// and cached count for cached count.
pub proof fn lemma_next_generation_of_same_states(a: Grid, b: Grid)
    requires
        rectangular(a),
        same_states(a, b),
    ensures
        next_generation(a) == next_generation(b),
{
    assert forall|row: int, col: int| 0 <= row < a.len() && 0 <= col < a[row].len() implies (
    #[trigger] next_generation(a)[row][col]) == next_generation(b)[row][col] by {
        assert(a[row].len() == b[row].len());
        assert(a[row][col].state == b[row][col].state);
        lemma_live_neighbors_of_same_states(a, b, row, col);
    }
    assert forall|row: int| 0 <= row < a.len() implies (#[trigger] next_generation(a)[row])
        == next_generation(b)[row] by {
        assert(a[row].len() == b[row].len());
        assert(next_generation(a)[row] =~= next_generation(b)[row]);
    }
    assert(next_generation(a) =~= next_generation(b));
}

/// Stepping is deterministic: when two universes hold the same states and
/// each is stepped once, the two results are the same universe.
pub proof fn lemma_evolve_is_deterministic<const W: usize, const H: usize>(
    first: Universe<W, H>,
    second: Universe<W, H>,
    first_stepped: Universe<W, H>,
    second_stepped: Universe<W, H>,
)
    requires
        same_states(first@, second@),
        first_stepped@ == next_generation(first@),
        second_stepped@ == next_generation(second@),
    ensures
        first_stepped == second_stepped,
{
    first.lemma_view_has_shape();
    lemma_next_generation_of_same_states(first@, second@);
    first_stepped.lemma_view_is_injective(&second_stepped);
}

/// One step keeps the shape of the grid.
pub proof fn lemma_next_generation_keeps_shape(grid: Grid)
    requires
        rectangular(grid),
    ensures
        has_shape(next_generation(grid), height(grid), width(grid)),
{
    if grid.len() > 0 {
        assert(next_generation(grid)[0].len() == grid[0].len());
    }
}

/// No cell has more than eight live neighbors.
pub proof fn lemma_live_neighbors_at_most_eight(grid: Grid, row: int, col: int)
    ensures
        live_neighbors(grid, row, col) <= 8,
{
}

/// In a grid of at least two rows and two columns in which every cell but
/// one is dead, that one cell counts zero live neighbors, alive or not:
/// it is not its own neighbor.
pub proof fn lemma_lone_cell_has_no_live_neighbors(grid: Grid, row: int, col: int)
    requires
        rectangular(grid),
        height(grid) >= 2,
        width(grid) >= 2,
        0 <= row < height(grid),
        0 <= col < width(grid),
        forall|r: int, c: int|
            0 <= r < height(grid) && 0 <= c < width(grid) && (r != row || c != col) ==> (
            #[trigger] grid[r][c]).state == State::Dead,
    ensures
        live_neighbors(grid, row, col) == 0,
{
    let h = height(grid) as int;
    let w = width(grid) as int;
    lemma_wrap_unfolds(row, h - 1, h);
    lemma_wrap_unfolds(row, 0, h);
    lemma_wrap_unfolds(row, 1, h);
    lemma_wrap_unfolds(col, w - 1, w);
    lemma_wrap_unfolds(col, 0, w);
    lemma_wrap_unfolds(col, 1, w);
    let up = wrap(row, h - 1, h);
    let down = wrap(row, 1, h);
    let left = wrap(col, w - 1, w);
    let right = wrap(col, 1, w);
    assert(grid[up][left].state == State::Dead);
    assert(grid[up][col].state == State::Dead);
    assert(grid[up][right].state == State::Dead);
    assert(grid[row][left].state == State::Dead);
    assert(grid[row][right].state == State::Dead);
    assert(grid[down][left].state == State::Dead);
    assert(grid[down][col].state == State::Dead);
    assert(grid[down][right].state == State::Dead);
}

/// In a grid of a single cell every step leads back to that cell, so it
/// is its own neighbor eight times: it counts eight live neighbors when
/// alive and none when dead.
pub proof fn lemma_single_cell_is_all_its_neighbors(grid: Grid)
    requires
        has_shape(grid, 1, 1),
    ensures
        live_neighbors(grid, 0, 0) == 8 * live_at(grid, 0, 0),
{
    lemma_wrap_unfolds(0, 0, 1);
    lemma_wrap_unfolds(0, 1, 1);
}

} // verus!
