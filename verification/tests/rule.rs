use gpu_life::rule::{next_cell, ALIVE, DEAD};

#[test]
fn cell_values() {
    assert_eq!(DEAD, 0);
    assert_eq!(ALIVE, 1);
}

#[test]
fn live_cell_survives_with_two_or_three_neighbours() {
    assert_eq!(next_cell(1, 2), 1);
    assert_eq!(next_cell(1, 3), 1);
}

#[test]
fn live_cell_dies_of_loneliness_or_crowding() {
    for neighbours in [0u8, 1, 4, 5, 6, 7, 8] {
        assert_eq!(next_cell(1, neighbours), 0);
    }
}

#[test]
fn dead_cell_is_born_with_exactly_three_neighbours() {
    assert_eq!(next_cell(0, 3), 1);
    for neighbours in [0u8, 1, 2, 4, 5, 6, 7, 8] {
        assert_eq!(next_cell(0, neighbours), 0);
    }
}

#[test]
fn every_value_but_zero_counts_as_alive() {
    assert_eq!(next_cell(2, 2), 1);
    assert_eq!(next_cell(u32::MAX, 2), 1);
    assert_eq!(next_cell(2, 3), 1);
    assert_eq!(next_cell(2, 4), 0);
    assert_eq!(next_cell(2, 1), 0);
}

#[test]
fn counts_beyond_eight_give_a_dead_cell() {
    assert_eq!(next_cell(1, 9), 0);
    assert_eq!(next_cell(0, 255), 0);
}
