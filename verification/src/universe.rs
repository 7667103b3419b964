//! The universe: a grid of fixed width and height that steps from one
//! generation to the next.

use crate::cell::{Cell, State};
use crate::grid::{
    blank, cells_view, has_shape, height, live_at, live_neighbors, next_generation, rectangular,
    same_states, width, with_cell, with_state, Grid,
};
use crate::laws::lemma_live_neighbors_of_same_states;
use crate::torus::{lemma_wrap_unfolds, wrapping_step};
use vstd::prelude::*;

verus! {

/// A grid of `H` rows and `W` columns whose edges wrap around: the row
/// above the first is the last, and the column left of the first is the
/// last.
pub struct Universe<const W: usize, const H: usize> {
    grid: [[Cell; W]; H],
}

impl<const W: usize, const H: usize> View for Universe<W, H> {
    type V = Grid;

    closed spec fn view(&self) -> Grid {
        cells_view(self.grid)
    }
}

impl<const W: usize, const H: usize> Universe<W, H> {
    /// The model of a universe always has `H` rows of `W` cells.
    pub proof fn lemma_view_has_shape(&self)
        ensures
            has_shape(self@, H as nat, W as nat),
            rectangular(self@),
            height(self@) == H,
            H > 0 ==> width(self@) == W,
    {
    }

    /// Two universes with the same model are the same universe: a universe
    /// holds nothing but its cells.
    pub proof fn lemma_view_is_injective(&self, other: &Self)
        requires
            self@ == other@,
        ensures
            *self == *other,
    {
        assert forall|row: int| 0 <= row < H implies self.grid[row] == other.grid[row] by {
            assert forall|col: int| 0 <= col < W implies self.grid[row][col]
                == other.grid[row][col] by {
                assert(self@[row][col] == self.grid[row][col]@);
                assert(other@[row][col] == other.grid[row][col]@);
                self.grid[row][col].lemma_view_is_injective(other.grid[row][col]);
            }
            assert(self.grid[row] =~= other.grid[row]);
        }
        assert(self.grid =~= other.grid);
    }

    /// A universe in which every cell is dead.
    pub fn new() -> (universe: Self)
        ensures
            universe@ == blank(H as nat, W as nat),
    {
        let dead = Cell::new();
        let universe = Universe { grid: [[dead; W]; H] };
        assert(universe@ =~~= blank(H as nat, W as nat));
        universe
    }

    /// The number of columns.
    pub fn width(&self) -> (width: usize)
        ensures
            width == W,
    {
        W
    }

    /// The number of rows.
    pub fn height(&self) -> (height: usize)
        ensures
            height == H,
    {
        H
    }

    /// A copy of the cells, row by row.
    pub fn grid(&self) -> (cells: [[Cell; W]; H])
        ensures
            cells_view(cells) == self@,
    {
        self.grid
    }

    /// Puts the cell at `(row, column)` into `state`. Its cached neighbor
    /// count and all other cells stay as they are.
    ///
    /// A position outside the grid is a mistake of the caller: verified
    /// callers prove `row < H` and `column < W`, and a call from unverified
    /// code that breaks the bound panics on the array index.
    pub fn set_cell(&mut self, row: usize, column: usize, state: State)
        requires
            row < H,
            column < W,
        ensures
            final(self)@ == with_state(old(self)@, row as int, column as int, state),
    {
        self.grid[row][column].set_state(state);
        assert(self@ =~~= with_state(old(self)@, row as int, column as int, state));
    }

    /// 1 if the cell at `(row, column)` is alive, 0 if it is dead.
    fn live(&self, row: usize, column: usize) -> (live: u8)
        requires
            row < H,
            column < W,
        ensures
            live == live_at(self@, row as int, column as int),
    {
        if self.grid[row][column].is_alive() {
            1
        } else {
            0
        }
    }

    /// The number of live cells among the eight neighbors of the cell at
    /// `(row, column)`, the grid wrapping at its edges.
    ///
    /// In a universe of a single row or a single column a cell is among
    /// its own neighbors; in one of a single cell it is all eight.
    ///
    /// The position must lie inside the grid, as for `set_cell`.
    pub fn live_neighbor_count(&self, row: usize, column: usize) -> (count: u8)
        requires
            row < H,
            column < W,
        ensures
            count == live_neighbors(self@, row as int, column as int),
            count <= 8,
    {
        let up: usize = wrapping_step(row, H - 1, H);
        let down: usize = wrapping_step(row, 1, H);
        let left: usize = wrapping_step(column, W - 1, W);
        let right: usize = wrapping_step(column, 1, W);
        proof {
            lemma_wrap_unfolds(row as int, 0, H as int);
            lemma_wrap_unfolds(column as int, 0, W as int);
        }
        self.live(up, left) + self.live(up, column) + self.live(up, right) + self.live(row, left)
            + self.live(row, right) + self.live(down, left) + self.live(down, column) + self.live(
            down,
            right,
        )
    }

    /// Stores in every cell the number of its live neighbors. No state
    /// changes.
    fn cache_live_neighbors(&mut self)
        ensures
            forall|row: int, col: int|
                0 <= row < H && 0 <= col < W ==> #[trigger] final(self)@[row][col] == old(
                    self,
                )@[row][col].with_live_neighbors(live_neighbors(old(self)@, row, col)),
    {
        let ghost before = self@;
        let mut row: usize = 0;
        while row < H
            invariant
                row <= H,
                same_states(self@, before),
                has_shape(before, H as nat, W as nat),
                forall|r: int, c: int|
                    0 <= r < row && 0 <= c < W ==> (#[trigger] self@[r][c]).live_neighbors
                        == live_neighbors(before, r, c),
            decreases H - row,
        {
            let mut column: usize = 0;
            while column < W
                invariant
                    row < H,
                    column <= W,
                    same_states(self@, before),
                    has_shape(before, H as nat, W as nat),
                    forall|r: int, c: int|
                        0 <= r < row && 0 <= c < W ==> (#[trigger] self@[r][c]).live_neighbors
                            == live_neighbors(before, r, c),
                    forall|c: int|
                        0 <= c < column ==> (#[trigger] self@[row as int][c]).live_neighbors
                            == live_neighbors(before, row as int, c),
                decreases W - column,
            {
                let count: u8 = self.live_neighbor_count(row, column);
                proof {
                    lemma_live_neighbors_of_same_states(self@, before, row as int, column as int);
                }
                let ghost stale = self@;
                self.grid[row][column].set_live_neighbors(count);
                assert(self@ =~~= with_cell(
                    stale,
                    row as int,
                    column as int,
                    stale[row as int][column as int].with_live_neighbors(count as nat),
                ));
                column += 1;
            }
            row += 1;
        }
    }

    /// Replaces the state of every cell by the one that follows from its
    /// state and its cached count.
    fn advance_cells(&mut self)
        ensures
            forall|row: int, col: int|
                0 <= row < H && 0 <= col < W ==> #[trigger] final(self)@[row][col] == old(
                    self,
                )@[row][col].advanced(),
    {
        let ghost before = self@;
        let mut row: usize = 0;
        while row < H
            invariant
                row <= H,
                has_shape(before, H as nat, W as nat),
                forall|r: int, c: int|
                    0 <= r < row && 0 <= c < W ==> #[trigger] self@[r][c]
                        == before[r][c].advanced(),
                forall|r: int, c: int|
                    row <= r < H && 0 <= c < W ==> #[trigger] self@[r][c] == before[r][c],
            decreases H - row,
        {
            let mut column: usize = 0;
            while column < W
                invariant
                    row < H,
                    column <= W,
                    has_shape(before, H as nat, W as nat),
                    forall|r: int, c: int|
                        0 <= r < row && 0 <= c < W ==> #[trigger] self@[r][c]
                            == before[r][c].advanced(),
                    forall|c: int|
                        0 <= c < column ==> #[trigger] self@[row as int][c]
                            == before[row as int][c].advanced(),
                    forall|c: int|
                        column <= c < W ==> #[trigger] self@[row as int][c] == before[row as int][c],
                    forall|r: int, c: int|
                        row < r < H && 0 <= c < W ==> #[trigger] self@[r][c] == before[r][c],
                decreases W - column,
            {
                let ghost stale = self@;
                self.grid[row][column].evolve();
                assert(self@ =~~= with_cell(
                    stale,
                    row as int,
                    column as int,
                    stale[row as int][column as int].advanced(),
                ));
                column += 1;
            }
            row += 1;
        }
    }

    /// Steps the universe to the next generation. Every cell is decided by
    /// the generation before the step.
    pub fn evolve(&mut self)
        ensures
            final(self)@ == next_generation(old(self)@),
    {
        self.cache_live_neighbors();
        self.advance_cells();
        assert(self@ =~~= next_generation(old(self)@));
    }

    /// The states of the cells, row by row.
    pub fn state_grid(&self) -> (states: [[State; W]; H])
        ensures
            forall|row: int, col: int|
                0 <= row < H && 0 <= col < W ==> #[trigger] states[row][col]
                    == self@[row][col].state,
    {
        let mut states = [[State::Dead; W]; H];
        let mut row: usize = 0;
        while row < H
            invariant
                row <= H,
                forall|r: int, c: int|
                    0 <= r < row && 0 <= c < W ==> #[trigger] states[r][c] == self@[r][c].state,
            decreases H - row,
        {
            let mut column: usize = 0;
            while column < W
                invariant
                    row < H,
                    column <= W,
                    forall|r: int, c: int|
                        0 <= r < row && 0 <= c < W ==> #[trigger] states[r][c]
                            == self@[r][c].state,
                    forall|c: int|
                        0 <= c < column ==> #[trigger] states[row as int][c]
                            == self@[row as int][c].state,
                decreases W - column,
            {
                states[row][column] = self.grid[row][column].state();
                column += 1;
            }
            row += 1;
        }
        states
    }
}

impl<const W: usize, const H: usize> Default for Universe<W, H> {
    fn default() -> (universe: Self)
        ensures
            universe@ == blank(H as nat, W as nat),
    {
        Universe::new()
    }
}

} // verus!
