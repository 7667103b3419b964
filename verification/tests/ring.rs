use game_of_life_core::torus::wrapping_step;

#[test]
fn step_inside_the_ring_is_the_sum() {
    assert_eq!(wrapping_step(0, 1, 3), 1);
    assert_eq!(wrapping_step(1, 1, 3), 2);
    assert_eq!(wrapping_step(2, 0, 3), 2);
}

#[test]
fn step_past_the_end_wraps_to_the_start() {
    assert_eq!(wrapping_step(2, 1, 3), 0);
    assert_eq!(wrapping_step(23, 1, 24), 0);
}

#[test]
fn step_of_one_short_of_a_turn_goes_back_by_one() {
    assert_eq!(wrapping_step(0, 2, 3), 2);
    assert_eq!(wrapping_step(1, 2, 3), 0);
    assert_eq!(wrapping_step(2, 2, 3), 1);
    assert_eq!(wrapping_step(0, 15, 16), 15);
}

#[test]
fn full_turn_returns_to_the_start() {
    for index in 0..5 {
        assert_eq!(wrapping_step(index, 5, 5), index);
    }
}

#[test]
fn ring_of_one_always_stays() {
    assert_eq!(wrapping_step(0, 0, 1), 0);
    assert_eq!(wrapping_step(0, 1, 1), 0);
}

#[test]
fn step_agrees_with_the_remainder() {
    for len in 1..=7usize {
        for index in 0..len {
            for step in 0..=len {
                assert_eq!(wrapping_step(index, step, len), (index + step) % len);
            }
        }
    }
}

#[test]
fn step_does_not_overflow_near_the_largest_index() {
    let len = usize::MAX;
    assert_eq!(wrapping_step(len - 1, 1, len), 0);
    assert_eq!(wrapping_step(len - 1, len - 1, len), len - 2);
    assert_eq!(wrapping_step(0, len - 1, len), len - 1);
}
