use game_of_life_core::cell::MAX_LIVE_NEIGHBORS;
use game_of_life_core::{Cell, State};

fn cell(state: State, live_neighbors: u8) -> Cell {
    let mut cell = Cell::new().with_state(state);
    cell.set_live_neighbors(live_neighbors);
    cell
}

#[test]
fn new_cell_is_dead_and_counts_nothing() {
    let cell = Cell::new();
    assert_eq!(cell.state(), State::Dead);
    assert!(!cell.is_alive());
    assert_eq!(cell.live_neighbors(), 0);
    assert_eq!(Cell::default(), cell);
}

#[test]
fn set_state_keeps_the_cached_count() {
    for count in 0..=MAX_LIVE_NEIGHBORS {
        let mut cell = cell(State::Dead, count);
        cell.set_state(State::Alive);
        assert_eq!(cell.state(), State::Alive);
        assert!(cell.is_alive());
        assert_eq!(cell.live_neighbors(), count);
        cell.set_state(State::Dead);
        assert_eq!(cell.state(), State::Dead);
        assert!(!cell.is_alive());
        assert_eq!(cell.live_neighbors(), count);
    }
}

#[test]
fn set_live_neighbors_keeps_the_state() {
    for state in [State::Dead, State::Alive] {
        let mut cell = Cell::new().with_state(state);
        for count in [0, 1, 2, 3, 8, 64, 126, 127] {
            cell.set_live_neighbors(count);
            assert_eq!(cell.live_neighbors(), count);
            assert_eq!(cell.state(), state);
        }
    }
}

#[test]
fn with_state_returns_a_changed_copy() {
    let dead = cell(State::Dead, 5);
    let alive = dead.with_state(State::Alive);
    assert_eq!(dead.state(), State::Dead);
    assert_eq!(alive.state(), State::Alive);
    assert_eq!(alive.live_neighbors(), 5);
    assert_ne!(dead, alive);
    assert_eq!(alive.with_state(State::Dead), dead);
}

#[test]
fn cells_are_equal_when_state_and_count_are() {
    assert_eq!(cell(State::Alive, 3), cell(State::Alive, 3));
    assert_ne!(cell(State::Alive, 3), cell(State::Dead, 3));
    assert_ne!(cell(State::Alive, 3), cell(State::Alive, 4));
}

#[test]
fn live_cell_survives_on_two_or_three() {
    for count in 0..=8 {
        let mut cell = cell(State::Alive, count);
        cell.evolve();
        let expected = if count == 2 || count == 3 {
            State::Alive
        } else {
            State::Dead
        };
        assert_eq!(cell.state(), expected, "alive with {} neighbors", count);
        assert_eq!(cell.live_neighbors(), count);
    }
}

#[test]
fn dead_cell_is_born_on_exactly_three() {
    for count in 0..=8 {
        let mut cell = cell(State::Dead, count);
        cell.evolve();
        let expected = if count == 3 { State::Alive } else { State::Dead };
        assert_eq!(cell.state(), expected, "dead with {} neighbors", count);
        assert_eq!(cell.live_neighbors(), count);
    }
}

#[test]
fn underpopulated_cell_dies() {
    let mut cell = cell(State::Alive, 1);
    cell.evolve();
    assert_eq!(cell.state(), State::Dead);
}

#[test]
fn overpopulated_cell_dies() {
    let mut cell = cell(State::Alive, 4);
    cell.evolve();
    assert_eq!(cell.state(), State::Dead);
}
