//! The double-buffered grid: one readable generation, one scratch buffer, and
//! the step that writes the following generation into the scratch buffer.

use vstd::prelude::*;
use rayon::iter::{IndexedParallelIterator, IntoParallelRefMutIterator, ParallelIterator};
use crate::cell::{Cell, DRAW_RANGE};
use crate::generation::{barren, evolve, evolve_row, evolve_cell, live_neighbors, rectangular, shaped, width_of, wrap_steps};
use crate::random::{draw_below, thread_rng};

verus! {

/// The generation that a buffer of rows holds.
pub open spec fn cells_of(buffer: Vec<Vec<Cell>>) -> Seq<Seq<Cell>> {
    Seq::new(buffer@.len(), |y: int| buffer@[y]@)
}

/// Two buffers of one shape. `current` is the generation that can be read;
/// `next` is where a step writes the generation that follows it. To advance
/// the readable generation by one, call `step` and then `swap`.
pub struct Grid {
    current: Vec<Vec<Cell>>,
    next: Vec<Vec<Cell>>,
    w: usize,
    h: usize,
}

/// 1 if the cell at `(x, y)` is alive, 0 otherwise.
fn population_at(buffer: &Vec<Vec<Cell>>, x: usize, y: usize) -> (n: u8)
    requires
        y < buffer.len(),
        x < buffer[y as int].len(),
    ensures
        n == cells_of(*buffer)[y as int][x as int].population(),
{
    if buffer[y][x].is_alive() {
        1
    } else {
        0
    }
}

/// Counts the live cells among the eight neighbours of `(x, y)` on the torus.
pub fn count_live_neighbors(buffer: &Vec<Vec<Cell>>, x: usize, y: usize) -> (n: u8)
    requires
        shaped(cells_of(*buffer)),
        y < buffer.len(),
        x < buffer[0].len(),
    ensures
        n == live_neighbors(cells_of(*buffer), x as int, y as int),
{
    let h: usize = buffer.len();
    let w: usize = buffer[0].len();
    proof {
        wrap_steps(x as int, w as int);
        wrap_steps(y as int, h as int);
        assert(forall|r: int| 0 <= r < h ==> (#[trigger] cells_of(*buffer)[r]).len() == w);
        assert(forall|r: int| 0 <= r < h ==> cells_of(*buffer)[r] == (#[trigger] buffer[r])@);
    }
    let left: usize = if x == 0 { w - 1 } else { x - 1 };
    let right: usize = if x + 1 == w { 0 } else { x + 1 };
    let up: usize = if y == 0 { h - 1 } else { y - 1 };
    let down: usize = if y + 1 == h { 0 } else { y + 1 };
    let above: u8 = population_at(buffer, left, up) + population_at(buffer, x, up)
        + population_at(buffer, right, up);
    let beside: u8 = population_at(buffer, left, y) + population_at(buffer, right, y);
    let below: u8 = population_at(buffer, left, down) + population_at(buffer, x, down)
        + population_at(buffer, right, down);
    above + beside + below
}

/// Writes into `row` row `y` of the generation that follows `current`. Every
/// cell of `row` is overwritten and none is read.
pub fn write_row(current: &Vec<Vec<Cell>>, y: usize, row: &mut Vec<Cell>)
    requires
        shaped(cells_of(*current)),
        y < current.len(),
        old(row).len() == current[0].len(),
    ensures
        final(row)@ == evolve_row(cells_of(*current), y as int),
{
    let w: usize = row.len();
    let mut x: usize = 0;
    proof {
        assert(cells_of(*current)[y as int] == current[y as int]@);
        assert(cells_of(*current)[y as int].len() == w);
    }
    while x < w
        invariant
            shaped(cells_of(*current)),
            y < current.len(),
            w == current[0].len(),
            current[y as int].len() == w,
            row.len() == w,
            x <= w,
            forall|i: int| 0 <= i < x ==> row[i] == evolve_cell(cells_of(*current), i, y as int),
        decreases w - x,
    {
        let n: u8 = count_live_neighbors(current, x, y);
        let cell: Cell = current[y][x].next_state(n);
        row[x] = cell;
        x += 1;
    }
    assert(row@ =~= evolve_row(cells_of(*current), y as int));
}

/// Hands the rows of `next` to rayon's `par_iter_mut().enumerate().for_each`,
/// which runs `write_row` once on every row together with its index. Trusted:
/// that every row is visited exactly once with its own index, so that each
/// row ends as `write_row` leaves it, and that the number of rows stays.
#[verifier::external_body]
fn write_rows(next: &mut Vec<Vec<Cell>>, current: &Vec<Vec<Cell>>)
    requires
        shaped(cells_of(*current)),
        old(next).len() == current.len(),
        forall|y: int| 0 <= y < old(next).len() ==> (#[trigger] old(next)[y]).len() == current[0].len(),
    ensures
        final(next).len() == old(next).len(),
        forall|y: int| 0 <= y < final(next).len() ==> (#[trigger] final(next)[y])@ == evolve_row(cells_of(*current), y),
{
    next.par_iter_mut().enumerate().for_each(|(y, row)| write_row(current, y, row));
}

/// A buffer of `h` rows of `w` dead cells.
fn dead_buffer(w: usize, h: usize) -> (buffer: Vec<Vec<Cell>>)
    ensures
        cells_of(buffer) == barren(w as int, h as int),
{
    let mut buffer: Vec<Vec<Cell>> = Vec::new();
    let mut y: usize = 0;
    while y < h
        invariant
            y <= h,
            buffer.len() == y,
            forall|r: int| 0 <= r < y ==> (#[trigger] buffer[r])@ == Seq::new(w as nat, |x: int| Cell::Dead),
        decreases h - y,
    {
        let mut row: Vec<Cell> = Vec::new();
        let mut x: usize = 0;
        while x < w
            invariant
                x <= w,
                row.len() == x,
                forall|i: int| 0 <= i < x ==> row[i] == Cell::Dead,
            decreases w - x,
        {
            row.push(Cell::Dead);
            x += 1;
        }
        assert(row@ =~= Seq::new(w as nat, |x: int| Cell::Dead));
        buffer.push(row);
        y += 1;
    }
    assert(cells_of(buffer) =~= barren(w as int, h as int));
    buffer
}

impl Grid {
    /// The generation that can be read.
    pub closed spec fn current_cells(&self) -> Seq<Seq<Cell>> {
        cells_of(self.current)
    }

    /// What the scratch buffer holds.
    pub closed spec fn next_cells(&self) -> Seq<Seq<Cell>> {
        cells_of(self.next)
    }

    pub closed spec fn spec_width(&self) -> int {
        self.w as int
    }

    pub closed spec fn spec_height(&self) -> int {
        self.h as int
    }

    /// Both buffers have `spec_height()` rows of `spec_width()` cells, and
    /// neither dimension is zero.
    pub open spec fn wf(&self) -> bool {
        &&& rectangular(self.current_cells(), self.spec_width(), self.spec_height())
        &&& rectangular(self.next_cells(), self.spec_width(), self.spec_height())
    }

    /// What a step makes of `before`: the scratch buffer holds the generation
    /// that follows the readable one, and nothing else has changed.
    pub open spec fn stepped_from(&self, before: Grid) -> bool {
        &&& self.wf()
        &&& self.spec_width() == before.spec_width()
        &&& self.spec_height() == before.spec_height()
        &&& self.current_cells() == before.current_cells()
        &&& self.next_cells() == evolve(before.current_cells())
    }

    /// What a swap makes of `before`: the two buffers have changed roles.
    pub open spec fn swapped_from(&self, before: Grid) -> bool {
        &&& self.current_cells() == before.next_cells()
        &&& self.next_cells() == before.current_cells()
        &&& self.spec_width() == before.spec_width()
        &&& self.spec_height() == before.spec_height()
        &&& before.wf() ==> self.wf()
    }

    /// A grid of `w` columns and `h` rows whose readable generation is drawn
    /// cell by cell from the thread's random source, each cell alive exactly
    /// when its draw from `0..DRAW_RANGE` seeds a live cell; the scratch
    /// buffer starts dead.
    pub fn new(w: usize, h: usize) -> (grid: Grid)
        requires
            w >= 1,
            h >= 1,
        ensures
            grid.wf(),
            grid.spec_width() == w,
            grid.spec_height() == h,
            grid.next_cells() == barren(w as int, h as int),
    {
        let mut rng = thread_rng();
        let mut current: Vec<Vec<Cell>> = Vec::new();
        let mut y: usize = 0;
        while y < h
            invariant
                y <= h,
                current.len() == y,
                forall|r: int| 0 <= r < y ==> (#[trigger] current[r]).len() == w,
            decreases h - y,
        {
            let mut row: Vec<Cell> = Vec::new();
            let mut x: usize = 0;
            while x < w
                invariant
                    x <= w,
                    row.len() == x,
                decreases w - x,
            {
                let draw: u32 = draw_below(&mut rng, DRAW_RANGE);
                row.push(Cell::from_draw(draw));
                x += 1;
            }
            current.push(row);
            y += 1;
        }
        let next = dead_buffer(w, h);
        Grid { current, next, w, h }
    }

    /// A grid whose readable generation is `cells`, with a dead scratch
    /// buffer. `None` exactly when `cells` has no row, an empty first row, or
    /// rows of different lengths.
    pub fn from_cells(cells: Vec<Vec<Cell>>) -> (made: Option<Grid>)
        ensures
            made.is_some() == shaped(cells_of(cells)),
            match made {
                Some(grid) => {
                    &&& grid.wf()
                    &&& grid.spec_width() == width_of(cells_of(cells))
                    &&& grid.spec_height() == cells.len()
                    &&& grid.current_cells() == cells_of(cells)
                    &&& grid.next_cells() == barren(grid.spec_width(), grid.spec_height())
                },
                None => true,
            },
    {
        let h: usize = cells.len();
        if h == 0 {
            return None;
        }
        let w: usize = cells[0].len();
        assert(cells_of(cells)[0] == cells[0]@);
        if w == 0 {
            return None;
        }
        let mut y: usize = 1;
        while y < h
            invariant
                1 <= y <= h,
                h == cells.len(),
                w == cells[0].len(),
                forall|r: int| 0 <= r < y ==> (#[trigger] cells[r]).len() == w,
            decreases h - y,
        {
            if cells[y].len() != w {
                assert(cells_of(cells)[y as int] == cells[y as int]@);
                return None;
            }
            y += 1;
        }
        assert forall|r: int| 0 <= r < h implies (#[trigger] cells_of(cells)[r]).len() == w by {
            assert(cells_of(cells)[r] == cells[r]@);
        }
        let next = dead_buffer(w, h);
        Some(Grid { current: cells, next, w, h })
    }

    /// The number of columns.
    pub fn width(&self) -> (w: usize)
        ensures
            w == self.spec_width(),
    {
        self.w
    }

    /// The number of rows.
    pub fn height(&self) -> (h: usize)
        ensures
            h == self.spec_height(),
    {
        self.h
    }

    /// The readable generation, row by row.
    pub fn current(&self) -> (rows: &Vec<Vec<Cell>>)
        ensures
            cells_of(*rows) == self.current_cells(),
    {
        &self.current
    }

    /// The cell at column `x` of row `y` of the readable generation.
    pub fn cell(&self, x: usize, y: usize) -> (c: Cell)
        requires
            self.wf(),
            x < self.spec_width(),
            y < self.spec_height(),
        ensures
            c == self.current_cells()[y as int][x as int],
    {
        proof {
            assert(self.current_cells()[y as int] == self.current[y as int]@);
        }
        self.current[y][x]
    }

    /// Exchanges the roles of the two buffers: what was the scratch buffer
    /// becomes the readable generation and the other way round. No cell is
    /// copied.
    pub fn swap(&mut self)
        ensures
            final(self).swapped_from(*old(self)),
    {
        core::mem::swap(&mut self.current, &mut self.next);
    }

    /// Writes the generation that follows the readable one into the scratch
    /// buffer. The readable generation is left as it was.
    pub fn step(&mut self)
        requires
            old(self).wf(),
        ensures
            final(self).stepped_from(*old(self)),
    {
        proof {
            assert(self.current_cells()[0].len() == self.w);
            assert forall|y: int| 0 <= y < self.next.len() implies (#[trigger] self.next[y]).len()
                == self.current[0].len() by {
                assert(self.next_cells()[y] == self.next[y]@);
                assert(self.current_cells()[0] == self.current[0]@);
            }
        }
        write_rows(&mut self.next, &self.current);
        proof {
            assert(cells_of(self.next) =~= evolve(cells_of(self.current)));
            crate::generation::evolve_keeps_shape(cells_of(self.current), self.w as int, self.h as int);
        }
    }
}

/// Determinism: two steps from grids with the same readable generation
/// write the same cells into the scratch buffer, whatever it held before.
pub proof fn step_is_deterministic(a: Grid, a_after: Grid, b: Grid, b_after: Grid)
    requires
        a_after.stepped_from(a),
        b_after.stepped_from(b),
        a.current_cells() == b.current_cells(),
    ensures
        a_after.next_cells() == b_after.next_cells(),
{
}

/// After a swap the readable generation is what the scratch buffer held
/// before it, and a second swap puts both buffers back.
pub proof fn swap_exposes_scratch(before: Grid, once: Grid, twice: Grid)
    requires
        once.swapped_from(before),
        twice.swapped_from(once),
    ensures
        once.current_cells() == before.next_cells(),
        twice.current_cells() == before.current_cells(),
        twice.next_cells() == before.next_cells(),
{
}

/// A step followed by a swap advances the readable generation by one, and
/// keeps the generation before it in the scratch buffer.
pub proof fn step_then_swap_advances(before: Grid, stepped: Grid, after: Grid)
    requires
        before.wf(),
        stepped.stepped_from(before),
        after.swapped_from(stepped),
    ensures
        after.wf(),
        after.current_cells() == evolve(before.current_cells()),
        after.next_cells() == before.current_cells(),
{
}

} // verus!
