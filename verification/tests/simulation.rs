use langton::Cell;
use langton::Direction;
use langton::SimError;
use langton::Universe;

#[test]
fn fresh_universe_is_all_white_with_centered_agent() {
    let u = Universe::new();
    assert_eq!(u.width(), 17);
    assert_eq!(u.height(), 17);
    assert_eq!(u.cells().len(), 289);
    assert!(u.cells().iter().all(|&c| c == Cell::White));
    let a = u.ant();
    assert_eq!(a.x, 8);
    assert_eq!(a.y, 8);
    assert_eq!(a.direction, Direction::Up);
}

#[test]
fn first_step_turns_right_toggles_and_moves() {
    let mut u = Universe::new();
    assert_eq!(u.read_cell(8, 8), Ok(Cell::White));
    assert_eq!(u.tick(), Ok(()));
    assert_eq!(u.read_cell(8, 8), Ok(Cell::Black));
    let a = u.ant();
    assert_eq!(a.direction, Direction::Right);
    assert_eq!((a.x, a.y), (8, 9));
}

#[test]
fn second_step_turns_down_from_white_cell() {
    let mut u = Universe::new();
    assert_eq!(u.tick(), Ok(()));
    assert_eq!(u.read_cell(8, 9), Ok(Cell::White));
    assert_eq!(u.tick(), Ok(()));
    assert_eq!(u.read_cell(8, 9), Ok(Cell::Black));
    let a = u.ant();
    assert_eq!(a.direction, Direction::Down);
    assert_eq!((a.x, a.y), (9, 9));
}

#[test]
fn step_on_black_cell_turns_left_and_restores_white() {
    let mut u = Universe::new();
    assert_eq!(u.toggle_cell(8, 8), Ok(()));
    assert_eq!(u.read_cell(8, 8), Ok(Cell::Black));
    assert_eq!(u.tick(), Ok(()));
    // Black under the agent: turn left (Up -> Left), toggle back to white,
    // move left to (8, 7).
    assert_eq!(u.read_cell(8, 8), Ok(Cell::White));
    let a = u.ant();
    assert_eq!(a.direction, Direction::Left);
    assert_eq!((a.x, a.y), (8, 7));
}

#[test]
fn determinism_two_runs_reach_identical_states() {
    let mut a = Universe::new();
    let mut b = Universe::new();
    let mut results_a: Vec<Result<(), SimError>> = Vec::new();
    let mut results_b: Vec<Result<(), SimError>> = Vec::new();
    for _ in 0..200 {
        results_a.push(a.tick());
    }
    for _ in 0..200 {
        results_b.push(b.tick());
    }
    assert_eq!(results_a, results_b);
    assert_eq!(a.cells(), b.cells());
    assert_eq!(a.ant(), b.ant());
}

#[test]
fn cell_counts_sum_to_grid_area_after_any_steps() {
    let mut u = Universe::new();
    for k in 0..150 {
        let whites = u.cells().iter().filter(|&&c| c == Cell::White).count();
        let blacks = u.cells().iter().filter(|&&c| c == Cell::Black).count();
        assert_eq!(whites + blacks, 289, "after {k} steps");
        assert_eq!(u.tick(), Ok(()));
    }
}

#[test]
fn toggle_cell_touches_only_the_named_cell() {
    let mut u = Universe::new();
    let before = u.ant();
    assert_eq!(u.toggle_cell(0, 0), Ok(()));
    assert_eq!(u.read_cell(0, 0), Ok(Cell::Black));
    for row in 0..17 {
        for col in 0..17 {
            if (row, col) != (0, 0) {
                assert_eq!(u.read_cell(row, col), Ok(Cell::White));
            }
        }
    }
    assert_eq!(u.ant(), before);
    assert_eq!(u.toggle_cell(0, 0), Ok(()));
    assert_eq!(u.read_cell(0, 0), Ok(Cell::White));
}

#[test]
fn read_cell_rejects_out_of_range_positions() {
    let u = Universe::new();
    assert_eq!(u.read_cell(u.height(), 0), Err(SimError::IndexOutOfBounds));
    assert_eq!(u.read_cell(0, u.width()), Err(SimError::IndexOutOfBounds));
    assert_eq!(u.read_cell(u.height(), u.width()), Err(SimError::IndexOutOfBounds));
    assert_eq!(u.read_cell(u32::MAX, 0), Err(SimError::IndexOutOfBounds));
}

#[test]
fn toggle_cell_rejects_out_of_range_positions() {
    let mut u = Universe::new();
    assert_eq!(u.toggle_cell(17, 0), Err(SimError::IndexOutOfBounds));
    assert_eq!(u.toggle_cell(0, 17), Err(SimError::IndexOutOfBounds));
    assert!(u.cells().iter().all(|&c| c == Cell::White));
}

#[test]
fn agent_walking_off_the_grid_fails_the_next_step() {
    // On a 1 x 1 grid the agent starts at (0, 0) on white: it turns right
    // (Up -> Right), toggles the cell, and moves to column 1, off the grid.
    let mut u = Universe::new_with_size(1, 1);
    assert_eq!(u.tick(), Ok(()));
    assert_eq!(u.ant().y, 1);
    assert_eq!(u.read_cell(0, 0), Ok(Cell::Black));
    assert_eq!(u.tick(), Err(SimError::AgentOutOfBounds));
    // The failing step leaves the state alone.
    assert_eq!(u.ant().y, 1);
    assert_eq!(u.read_cell(0, 0), Ok(Cell::Black));
}

#[test]
fn move_below_column_zero_fails_without_mutating() {
    // On a 1 x 1 grid with the cell black, the agent turns left (Up -> Left)
    // and would move to column -1, which no coordinate can hold: the step
    // fails and changes nothing.
    let mut u = Universe::new_with_size(1, 1);
    assert_eq!(u.toggle_cell(0, 0), Ok(()));
    assert_eq!(u.tick(), Err(SimError::AgentOutOfBounds));
    assert_eq!(u.read_cell(0, 0), Ok(Cell::Black));
    let a = u.ant();
    assert_eq!((a.x, a.y), (0, 0));
    assert_eq!(a.direction, Direction::Up);
}
