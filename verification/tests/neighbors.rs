use game_of_life_core::{State, Universe};

#[test]
fn lone_live_cell_has_no_live_neighbors_anywhere() {
    for row in 0..4 {
        for column in 0..5 {
            let mut universe = Universe::<5, 4>::new();
            universe.set_cell(row, column, State::Alive);
            assert_eq!(universe.live_neighbor_count(row, column), 0);
        }
    }
}

#[test]
fn lone_live_cell_is_counted_by_its_eight_neighbors_only() {
    let mut universe = Universe::<5, 5>::new();
    universe.set_cell(2, 2, State::Alive);
    for row in 0..5usize {
        for column in 0..5usize {
            let near = row.abs_diff(2) <= 1 && column.abs_diff(2) <= 1;
            let expected = if near && (row, column) != (2, 2) { 1 } else { 0 };
            assert_eq!(universe.live_neighbor_count(row, column), expected);
        }
    }
}

#[test]
fn corners_are_neighbors_of_each_other_across_the_edges() {
    let mut universe = Universe::<4, 4>::new();
    universe.set_cell(0, 0, State::Alive);
    universe.set_cell(0, 3, State::Alive);
    universe.set_cell(3, 0, State::Alive);
    universe.set_cell(3, 3, State::Alive);
    assert_eq!(universe.live_neighbor_count(0, 0), 3);
    assert_eq!(universe.live_neighbor_count(0, 3), 3);
    assert_eq!(universe.live_neighbor_count(3, 0), 3);
    assert_eq!(universe.live_neighbor_count(3, 3), 3);
    assert_eq!(universe.live_neighbor_count(1, 1), 1);
    assert_eq!(universe.live_neighbor_count(2, 2), 1);
    assert_eq!(universe.live_neighbor_count(0, 1), 2);
    assert_eq!(universe.live_neighbor_count(1, 2), 1);
    assert_eq!(universe.live_neighbor_count(3, 1), 2);
}

#[test]
fn cell_on_the_left_edge_sees_the_right_edge() {
    let mut universe = Universe::<6, 3>::new();
    universe.set_cell(1, 5, State::Alive);
    assert_eq!(universe.live_neighbor_count(0, 0), 1);
    assert_eq!(universe.live_neighbor_count(1, 0), 1);
    assert_eq!(universe.live_neighbor_count(2, 0), 1);
    assert_eq!(universe.live_neighbor_count(1, 1), 0);
}

#[test]
fn cell_on_the_top_edge_sees_the_bottom_edge() {
    let mut universe = Universe::<3, 6>::new();
    universe.set_cell(5, 1, State::Alive);
    assert_eq!(universe.live_neighbor_count(0, 0), 1);
    assert_eq!(universe.live_neighbor_count(0, 1), 1);
    assert_eq!(universe.live_neighbor_count(0, 2), 1);
    assert_eq!(universe.live_neighbor_count(1, 1), 0);
}

#[test]
fn full_grid_counts_eight_everywhere() {
    let mut universe = Universe::<4, 3>::new();
    for row in 0..3 {
        for column in 0..4 {
            universe.set_cell(row, column, State::Alive);
        }
    }
    for row in 0..3 {
        for column in 0..4 {
            assert_eq!(universe.live_neighbor_count(row, column), 8);
        }
    }
}

#[test]
fn count_does_not_change_the_universe() {
    let mut universe = Universe::<3, 3>::new();
    universe.set_cell(0, 1, State::Alive);
    let before = universe.grid();
    assert_eq!(universe.live_neighbor_count(1, 1), 1);
    assert_eq!(universe.grid(), before);
}

#[test]
fn single_cell_is_its_own_neighbor_eight_times() {
    let mut universe = Universe::<1, 1>::new();
    assert_eq!(universe.live_neighbor_count(0, 0), 0);
    universe.set_cell(0, 0, State::Alive);
    assert_eq!(universe.live_neighbor_count(0, 0), 8);
}

#[test]
fn single_row_counts_the_cell_itself_twice() {
    let mut universe = Universe::<3, 1>::new();
    universe.set_cell(0, 1, State::Alive);
    assert_eq!(universe.live_neighbor_count(0, 1), 2);
    assert_eq!(universe.live_neighbor_count(0, 0), 3);
    assert_eq!(universe.live_neighbor_count(0, 2), 3);
}

#[test]
fn single_column_counts_the_cell_itself_twice() {
    let mut universe = Universe::<1, 3>::new();
    universe.set_cell(1, 0, State::Alive);
    assert_eq!(universe.live_neighbor_count(1, 0), 2);
    assert_eq!(universe.live_neighbor_count(0, 0), 3);
    assert_eq!(universe.live_neighbor_count(2, 0), 3);
}

#[test]
fn two_by_two_grid_reaches_each_other_cell_more_than_once() {
    let mut universe = Universe::<2, 2>::new();
    universe.set_cell(0, 0, State::Alive);
    assert_eq!(universe.live_neighbor_count(0, 0), 0);
    assert_eq!(universe.live_neighbor_count(0, 1), 2);
    assert_eq!(universe.live_neighbor_count(1, 0), 2);
    assert_eq!(universe.live_neighbor_count(1, 1), 4);
}
