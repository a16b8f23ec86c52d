use game_of_life::cell::Cell;
use game_of_life::cell::Cell::{Alive, Dead};
use game_of_life::grid::{count_live_neighbors, write_row, Grid};

fn dead(w: usize, h: usize) -> Vec<Vec<Cell>> {
    vec![vec![Dead; w]; h]
}

fn with_alive(w: usize, h: usize, alive: &[(usize, usize)]) -> Vec<Vec<Cell>> {
    let mut cells = dead(w, h);
    for &(x, y) in alive {
        cells[y][x] = Alive;
    }
    cells
}

fn grid_of(cells: &Vec<Vec<Cell>>) -> Grid {
    Grid::from_cells(cells.clone()).expect("a rectangular generation")
}

/// One tick: compute the following generation, then make it readable.
fn advance(grid: &mut Grid) {
    grid.step();
    grid.swap();
}

#[test]
fn new_grid_has_the_requested_shape() {
    for &(w, h) in &[(1usize, 1usize), (1, 7), (7, 1), (2, 2), (13, 5), (64, 48)] {
        let mut grid = Grid::new(w, h);
        assert_eq!(grid.width(), w);
        assert_eq!(grid.height(), h);
        assert_eq!(grid.current().len(), h);
        assert!(grid.current().iter().all(|row| row.len() == w));
        grid.swap();
        assert_eq!(grid.current(), &dead(w, h));
    }
}

#[test]
fn new_grid_scratch_buffer_is_dead() {
    let mut grid = Grid::new(9, 6);
    let seeded = grid.current().clone();
    grid.swap();
    assert_eq!(grid.current(), &dead(9, 6));
    grid.swap();
    assert_eq!(grid.current(), &seeded);
}

#[test]
fn about_a_third_of_the_seeded_cells_are_alive() {
    let grid = Grid::new(300, 200);
    let alive = grid
        .current()
        .iter()
        .map(|row| row.iter().filter(|c| **c == Alive).count())
        .sum::<usize>();
    let total = 300 * 200;
    assert!(alive * 100 > total * 30, "only {} of {} alive", alive, total);
    assert!(alive * 100 < total * 36, "as many as {} of {} alive", alive, total);
}

#[test]
fn seeding_varies_between_cells() {
    let grid = Grid::new(100, 100);
    let cells = grid.current();
    assert!(cells.iter().any(|row| row.contains(&Alive)));
    assert!(cells.iter().any(|row| row.contains(&Dead)));
}

#[test]
fn from_cells_keeps_the_cells() {
    let cells = with_alive(4, 3, &[(0, 0), (3, 2), (1, 1)]);
    let grid = grid_of(&cells);
    assert_eq!(grid.width(), 4);
    assert_eq!(grid.height(), 3);
    assert_eq!(grid.current(), &cells);
    assert_eq!(grid.cell(3, 2), Alive);
    assert_eq!(grid.cell(2, 2), Dead);
    assert_eq!(grid.cell(1, 1), Alive);
}

#[test]
fn from_cells_rejects_no_rows() {
    assert!(Grid::from_cells(Vec::new()).is_none());
}

#[test]
fn from_cells_rejects_empty_rows() {
    assert!(Grid::from_cells(vec![Vec::new()]).is_none());
    assert!(Grid::from_cells(vec![Vec::new(), Vec::new()]).is_none());
}

#[test]
fn from_cells_rejects_ragged_rows() {
    assert!(Grid::from_cells(vec![vec![Dead, Dead], vec![Dead]]).is_none());
    assert!(Grid::from_cells(vec![vec![Dead], vec![Dead, Alive]]).is_none());
    assert!(Grid::from_cells(vec![vec![Dead, Dead], vec![Dead, Dead], vec![]]).is_none());
}

#[test]
fn draws_below_the_threshold_seed_live_cells() {
    assert_eq!(Cell::from_draw(0), Alive);
    assert_eq!(Cell::from_draw(32), Alive);
    assert_eq!(Cell::from_draw(33), Dead);
    assert_eq!(Cell::from_draw(99), Dead);
    assert_eq!(Cell::from_draw(100), Dead);
    let alive = (0..100u32).filter(|d| Cell::from_draw(*d) == Alive).count();
    assert_eq!(alive, 33);
}

#[test]
fn rule_for_live_cells() {
    let expected = [Dead, Dead, Alive, Alive, Dead, Dead, Dead, Dead, Dead];
    for n in 0..=8u8 {
        assert_eq!(Alive.next_state(n), expected[n as usize], "alive with {}", n);
    }
}

#[test]
fn rule_for_dead_cells() {
    for n in 0..=8u8 {
        let expected = if n == 3 { Alive } else { Dead };
        assert_eq!(Dead.next_state(n), expected, "dead with {}", n);
    }
}

#[test]
fn is_alive_tells_the_states_apart() {
    assert!(Alive.is_alive());
    assert!(!Dead.is_alive());
}

#[test]
fn step_is_repeatable() {
    let cells = with_alive(6, 5, &[(0, 0), (1, 0), (2, 1), (5, 4), (5, 3), (4, 4), (3, 2)]);
    let mut a = grid_of(&cells);
    let mut b = grid_of(&cells);
    a.step();
    b.step();
    b.step();
    a.swap();
    b.swap();
    assert_eq!(a.current(), b.current());
}

#[test]
fn step_ignores_what_the_scratch_buffer_held() {
    let flat = with_alive(5, 5, &[(1, 2), (2, 2), (3, 2)]);
    let upright = with_alive(5, 5, &[(2, 1), (2, 2), (2, 3)]);
    // The scratch buffer of a fresh grid is dead.
    let mut fresh = grid_of(&flat);
    advance(&mut fresh);
    // After two ticks the readable generation is the flat blinker again, and
    // the scratch buffer holds the upright one.
    let mut used = grid_of(&flat);
    advance(&mut used);
    advance(&mut used);
    assert_eq!(used.current(), &flat);
    used.swap();
    assert_eq!(used.current(), &upright);
    used.swap();
    advance(&mut used);
    assert_eq!(used.current(), fresh.current());
}

#[test]
fn step_leaves_the_readable_generation() {
    let cells = with_alive(5, 5, &[(1, 2), (2, 2), (3, 2)]);
    let mut grid = grid_of(&cells);
    grid.step();
    assert_eq!(grid.current(), &cells);
    assert_eq!(grid.width(), 5);
    assert_eq!(grid.height(), 5);
}

#[test]
fn corner_cell_is_counted_across_the_edges() {
    let (w, h) = (6usize, 5usize);
    let cells = with_alive(w, h, &[(0, 0)]);
    let around = [
        (w - 1, h - 1),
        (w - 1, 0),
        (0, h - 1),
        (1, 0),
        (0, 1),
        (1, 1),
        (w - 1, 1),
        (1, h - 1),
    ];
    for y in 0..h {
        for x in 0..w {
            let expected = if around.contains(&(x, y)) { 1 } else { 0 };
            assert_eq!(count_live_neighbors(&cells, x, y), expected, "at ({}, {})", x, y);
        }
    }
}

#[test]
fn neighbours_are_counted_exactly() {
    let cells = with_alive(4, 4, &[(0, 0), (1, 0), (2, 0), (0, 1), (2, 1), (0, 2), (1, 2), (2, 2)]);
    assert_eq!(count_live_neighbors(&cells, 1, 1), 8);
    assert_eq!(count_live_neighbors(&cells, 3, 1), 6);
    assert_eq!(count_live_neighbors(&cells, 1, 3), 6);
    assert_eq!(count_live_neighbors(&cells, 3, 3), 4);
    assert_eq!(count_live_neighbors(&cells, 0, 0), 2);
    assert_eq!(count_live_neighbors(&cells, 1, 0), 4);
}

#[test]
fn one_by_one_torus_counts_its_cell_eight_times() {
    let cells = vec![vec![Alive]];
    assert_eq!(count_live_neighbors(&cells, 0, 0), 8);
    let mut grid = grid_of(&cells);
    advance(&mut grid);
    assert_eq!(grid.current(), &vec![vec![Dead]]);
    assert_eq!(count_live_neighbors(&vec![vec![Dead]], 0, 0), 0);
}

#[test]
fn two_wide_torus_counts_a_neighbour_twice() {
    // One row of two cells: the other cell is both the left and the right
    // neighbour, in each of the three rows that all wrap to the one row.
    let cells = vec![vec![Alive, Dead]];
    assert_eq!(count_live_neighbors(&cells, 1, 0), 6);
    assert_eq!(count_live_neighbors(&cells, 0, 0), 2);
    let mut grid = grid_of(&cells);
    advance(&mut grid);
    assert_eq!(grid.current(), &vec![vec![Alive, Dead]]);
}

#[test]
fn two_by_two_torus_dies_of_crowding() {
    let mut grid = grid_of(&vec![vec![Alive, Alive], vec![Alive, Alive]]);
    advance(&mut grid);
    assert_eq!(grid.current(), &dead(2, 2));
}

#[test]
fn write_row_fills_one_row() {
    let cells = with_alive(5, 5, &[(1, 2), (2, 2), (3, 2)]);
    let mut row = vec![Alive; 5];
    write_row(&cells, 1, &mut row);
    assert_eq!(row, vec![Dead, Dead, Alive, Dead, Dead]);
    write_row(&cells, 2, &mut row);
    assert_eq!(row, vec![Dead, Dead, Alive, Dead, Dead]);
    write_row(&cells, 0, &mut row);
    assert_eq!(row, vec![Dead; 5]);
}

#[test]
fn block_is_a_still_life() {
    let cells = with_alive(4, 4, &[(1, 1), (2, 1), (1, 2), (2, 2)]);
    let mut grid = grid_of(&cells);
    for _ in 0..10 {
        advance(&mut grid);
        assert_eq!(grid.current(), &cells);
    }
}

#[test]
fn block_across_the_edges_is_a_still_life() {
    let cells = with_alive(5, 4, &[(4, 3), (0, 3), (4, 0), (0, 0)]);
    let mut grid = grid_of(&cells);
    for _ in 0..7 {
        advance(&mut grid);
        assert_eq!(grid.current(), &cells);
    }
}

#[test]
fn blinker_has_period_two() {
    let flat = with_alive(5, 5, &[(1, 2), (2, 2), (3, 2)]);
    let upright = with_alive(5, 5, &[(2, 1), (2, 2), (2, 3)]);
    let mut grid = grid_of(&flat);
    for _ in 0..6 {
        advance(&mut grid);
        assert_eq!(grid.current(), &upright);
        advance(&mut grid);
        assert_eq!(grid.current(), &flat);
    }
}

#[test]
fn blinker_across_the_edge_has_period_two() {
    let flat = with_alive(4, 6, &[(3, 0), (0, 0), (1, 0)]);
    let upright = with_alive(4, 6, &[(0, 5), (0, 0), (0, 1)]);
    let mut grid = grid_of(&flat);
    advance(&mut grid);
    assert_eq!(grid.current(), &upright);
    advance(&mut grid);
    assert_eq!(grid.current(), &flat);
}

#[test]
fn dead_grid_stays_dead() {
    let mut grid = grid_of(&dead(7, 3));
    for _ in 0..12 {
        advance(&mut grid);
        assert_eq!(grid.current(), &dead(7, 3));
    }
}

#[test]
fn lonely_cells_die_and_three_neighbours_give_birth() {
    // A lone cell dies.
    let mut lone = grid_of(&with_alive(5, 5, &[(2, 2)]));
    advance(&mut lone);
    assert_eq!(lone.current(), &dead(5, 5));
    // A pair dies: each has one neighbour.
    let mut pair = grid_of(&with_alive(5, 5, &[(2, 2), (3, 2)]));
    advance(&mut pair);
    assert_eq!(pair.current(), &dead(5, 5));
    // The centre of a plus has four neighbours and dies; the corners between
    // its arms have three and are born.
    let mut plus = grid_of(&with_alive(7, 7, &[(3, 3), (2, 3), (4, 3), (3, 2), (3, 4)]));
    advance(&mut plus);
    assert_eq!(plus.cell(3, 3), Dead);
    assert_eq!(plus.cell(2, 2), Alive);
    assert_eq!(plus.cell(4, 2), Alive);
    assert_eq!(plus.cell(2, 4), Alive);
    assert_eq!(plus.cell(4, 4), Alive);
    assert_eq!(plus.cell(2, 3), Alive);
}

#[test]
fn glider_moves_one_cell_diagonally_in_four_steps() {
    let start = with_alive(8, 8, &[(1, 0), (2, 1), (0, 2), (1, 2), (2, 2)]);
    let moved = with_alive(8, 8, &[(2, 1), (3, 2), (1, 3), (2, 3), (3, 3)]);
    let mut grid = grid_of(&start);
    for _ in 0..4 {
        advance(&mut grid);
    }
    assert_eq!(grid.current(), &moved);
}

#[test]
fn swap_exposes_the_scratch_buffer() {
    let flat = with_alive(5, 5, &[(1, 2), (2, 2), (3, 2)]);
    let upright = with_alive(5, 5, &[(2, 1), (2, 2), (2, 3)]);
    let mut grid = grid_of(&flat);
    grid.step();
    assert_eq!(grid.current(), &flat);
    grid.swap();
    assert_eq!(grid.current(), &upright);
    grid.swap();
    assert_eq!(grid.current(), &flat);
}

#[test]
fn swap_moves_the_buffers_without_copying() {
    let cells = with_alive(3, 3, &[(1, 1)]);
    let mut grid = grid_of(&cells);
    let readable = grid.current().as_ptr();
    grid.swap();
    let scratch = grid.current().as_ptr();
    assert_ne!(readable, scratch);
    grid.swap();
    assert_eq!(grid.current().as_ptr(), readable);
    grid.swap();
    assert_eq!(grid.current().as_ptr(), scratch);
}

#[test]
fn swap_keeps_the_shape() {
    let mut grid = grid_of(&dead(4, 9));
    grid.swap();
    assert_eq!(grid.width(), 4);
    assert_eq!(grid.height(), 9);
    assert_eq!(grid.current(), &dead(4, 9));
}
