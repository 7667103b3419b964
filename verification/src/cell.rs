//! A single grid position: its state and a cached count of live neighbors,
//! packed into one byte.

use vstd::prelude::*;

verus! {

/// The state of a cell.
#[derive(Clone, Copy, Debug, PartialEq, Eq, Structural)]
pub enum State {
    Dead,
    Alive,
}

/// What a [`Cell`] holds, as mathematical values.
pub struct CellView {
    /// Whether the cell is populated.
    pub state: State,
    /// The count of live neighbors last stored in the cell.
    pub live_neighbors: nat,
}

impl CellView {
    /// The same cell in `state`.
    pub open spec fn with_state(self, state: State) -> CellView {
        CellView { state, live_neighbors: self.live_neighbors }
    }

    /// The same cell caching `live_neighbors`.
    pub open spec fn with_live_neighbors(self, live_neighbors: nat) -> CellView {
        CellView { state: self.state, live_neighbors }
    }

    /// The cell one generation later, if its cached count is the number of
    /// its live neighbors.
    pub open spec fn advanced(self) -> CellView {
        CellView {
            state: next_state(self.state, self.live_neighbors),
            live_neighbors: self.live_neighbors,
        }
    }
}

/// The largest neighbor count a cell can store (seven bits).
pub const MAX_LIVE_NEIGHBORS: u8 = 127;

/// The state one generation later of a cell in `state` that has
/// `live_neighbors` live neighbors: a live cell survives on two or three,
/// a dead cell is born on exactly three, and every other cell is dead.
pub open spec fn next_state(state: State, live_neighbors: nat) -> State {
    match state {
        State::Alive => if live_neighbors == 2 || live_neighbors == 3 {
            State::Alive
        } else {
            State::Dead
        },
        State::Dead => if live_neighbors == 3 {
            State::Alive
        } else {
            State::Dead
        },
    }
}

/// A cell of the grid.
///
/// Bit 0 of the byte is the state (set when alive); bits 1 to 7 hold the
/// cached neighbor count. Every byte is a valid cell.
#[derive(Clone, Copy, Debug, PartialEq, Eq, Structural)]
pub struct Cell {
    bits: u8,
}

impl View for Cell {
    type V = CellView;

    closed spec fn view(&self) -> CellView {
        CellView {
            state: if self.bits & 1 == 1 {
                State::Alive
            } else {
                State::Dead
            },
            live_neighbors: (self.bits >> 1) as nat,
        }
    }
}

impl Cell {
    /// A dead cell with a neighbor count of zero.
    pub fn new() -> (cell: Cell)
        ensures
            cell@ == (CellView { state: State::Dead, live_neighbors: 0 }),
    {
        assert(0u8 & 1 == 0 && 0u8 >> 1 == 0) by (bit_vector);
        Cell { bits: 0 }
    }

    /// The state of the cell.
    pub fn state(&self) -> (state: State)
        ensures
            state == self@.state,
    {
        if self.bits & 1 == 1 {
            State::Alive
        } else {
            State::Dead
        }
    }

    /// Sets the state and leaves the cached neighbor count as it is.
    pub fn set_state(&mut self, state: State)
        ensures
            final(self)@ == old(self)@.with_state(state),
    {
        let bits: u8 = self.bits;
        match state {
            State::Alive => {
                assert((bits | 1) & 1 == 1 && (bits | 1) >> 1 == bits >> 1) by (bit_vector);
                self.bits = bits | 1;
            },
            State::Dead => {
                assert((bits & 0xfe) & 1 == 0 && (bits & 0xfe) >> 1 == bits >> 1) by (bit_vector);
                self.bits = bits & 0xfe;
            },
        }
    }

    /// A copy of the cell in the given state.
    pub fn with_state(self, state: State) -> (cell: Cell)
        ensures
            cell@ == self@.with_state(state),
    {
        let mut cell = self;
        cell.set_state(state);
        cell
    }

    /// The cached count of live neighbors.
    pub fn live_neighbors(&self) -> (count: u8)
        ensures
            count == self@.live_neighbors,
            count <= MAX_LIVE_NEIGHBORS,
    {
        proof {
            self.lemma_live_neighbors_bounded();
        }
        self.bits >> 1
    }

    /// Stores a count of live neighbors and leaves the state as it is.
    ///
    /// The count must fit in seven bits; a grid never counts more than
    /// eight.
    pub fn set_live_neighbors(&mut self, count: u8)
        requires
            count <= MAX_LIVE_NEIGHBORS,
        ensures
            final(self)@ == old(self)@.with_live_neighbors(count as nat),
    {
        let bits: u8 = self.bits;
        assert(((bits & 1) | (count << 1)) & 1 == bits & 1 && ((bits & 1) | (count << 1)) >> 1
            == count) by (bit_vector)
            requires
                count <= 127,
        ;
        self.bits = (bits & 1) | (count << 1);
    }

    /// Replaces the state by the one that follows from the current state and
    /// the cached neighbor count.
    pub fn evolve(&mut self)
        ensures
            final(self)@ == old(self)@.advanced(),
    {
        let state = match (self.state(), self.live_neighbors()) {
            (State::Dead, 3) => State::Alive,
            (State::Alive, 2) | (State::Alive, 3) => State::Alive,
            _ => State::Dead,
        };
        self.set_state(state);
    }

    /// Whether the cell is alive.
    pub fn is_alive(&self) -> (alive: bool)
        ensures
            alive == (self@.state == State::Alive),
    {
        self.bits & 1 == 1
    }

    /// Two cells with the same state and the same cached count are the same
    /// cell: the byte holds nothing else.
    pub proof fn lemma_view_is_injective(self, other: Cell)
        requires
            self@ == other@,
        ensures
            self == other,
    {
        let a: u8 = self.bits;
        let b: u8 = other.bits;
        assert(a & 1 == 1 <==> b & 1 == 1);
        assert(a >> 1 == b >> 1);
        assert(a == b) by (bit_vector)
            requires
                a & 1 == 1 <==> b & 1 == 1,
                a >> 1 == b >> 1,
        ;
    }

    /// The cached count of any cell fits in seven bits.
    pub proof fn lemma_live_neighbors_bounded(self)
        ensures
            self@.live_neighbors <= MAX_LIVE_NEIGHBORS,
    {
        let bits: u8 = self.bits;
        assert(bits >> 1 <= 127) by (bit_vector);
    }
}

impl Default for Cell {
    fn default() -> (cell: Cell)
        ensures
            cell@ == (CellView { state: State::Dead, live_neighbors: 0 }),
    {
        Cell::new()
    }
}

} // verus!
