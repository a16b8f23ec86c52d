//! Laws of the step function, shown on the classic patterns: the barren
//! grid, the block, the blinker, and a lone cell at the corner of the torus.

use vstd::prelude::*;
use crate::cell::Cell;
use crate::generation::{barren, evolve, evolve_cell, evolve_n, live_neighbors, neighbor, rectangular, wrap, wrap_steps};

verus! {

/// The generation of the given shape in which exactly the positions that
/// `alive` accepts are alive.
pub open spec fn pattern(w: int, h: int, alive: spec_fn(int, int) -> bool) -> Seq<Seq<Cell>> {
    Seq::new(
        h as nat,
        |y: int| Seq::new(w as nat, |x: int| if alive(x, y) { Cell::Alive } else { Cell::Dead }),
    )
}

/// A generation that a step leaves unchanged stays unchanged for good.
pub proof fn fixed_point_stays(g: Seq<Seq<Cell>>, n: nat)
    requires
        evolve(g) == g,
    ensures
        evolve_n(g, n) == g,
    decreases n,
{
    if n > 0 {
        fixed_point_stays(g, (n - 1) as nat);
    }
}

/// A generation that returns to itself after two steps is found again after
/// every even number of steps, and its successor after every odd number.
pub proof fn period_two_alternates(g: Seq<Seq<Cell>>, n: nat)
    requires
        evolve(evolve(g)) == g,
    ensures
        evolve_n(g, n) == (if n % 2 == 0 { g } else { evolve(g) }),
    decreases n,
{
    if n >= 2 {
        period_two_alternates(g, (n - 2) as nat);
        assert(evolve_n(g, n) == evolve_n(evolve(g), (n - 1) as nat));
        assert(evolve_n(evolve(g), (n - 1) as nat) == evolve_n(evolve(evolve(g)), (n - 2) as nat));
    } else if n == 1 {
        assert(evolve_n(g, 1) == evolve_n(evolve(g), 0));
    }
}

/// Extinction: a grid without a live cell has none after any number of steps.
pub proof fn barren_stays_barren(w: int, h: int, n: nat)
    requires
        w > 0,
        h > 0,
    ensures
        evolve(barren(w, h)) == barren(w, h),
        evolve_n(barren(w, h), n) == barren(w, h),
{
    let g = barren(w, h);
    assert(g[0].len() == w);
    assert forall|x: int, y: int| 0 <= x < w && 0 <= y < h implies evolve_cell(g, x, y)
        == Cell::Dead by {
        wrap_steps(x, w);
        wrap_steps(y, h);
    }
    assert(evolve(g) =~~= g);
    fixed_point_stays(g, n);
}

/// The 2 x 2 block whose upper left cell is `(bx, by)`; it may reach across
/// the edges of the torus.
pub open spec fn block(w: int, h: int, bx: int, by: int) -> Seq<Seq<Cell>> {
    pattern(
        w,
        h,
        |x: int, y: int| (x == bx || x == wrap(bx, 1, w)) && (y == by || y == wrap(by, 1, h)),
    )
}

/// Still life: on a grid of at least 4 x 4 cells a block, alone on the grid,
/// is unchanged by any number of steps.
pub proof fn block_is_still(w: int, h: int, bx: int, by: int, n: nat)
    requires
        w >= 4,
        h >= 4,
        0 <= bx < w,
        0 <= by < h,
    ensures
        evolve(block(w, h, bx, by)) == block(w, h, bx, by),
        evolve_n(block(w, h, bx, by), n) == block(w, h, bx, by),
{
    let g = block(w, h, bx, by);
    assert(g[0].len() == w);
    wrap_steps(bx, w);
    wrap_steps(by, h);
    assert forall|x: int, y: int| 0 <= x < w && 0 <= y < h implies evolve_cell(g, x, y)
        == g[y][x] by {
        wrap_steps(x, w);
        wrap_steps(y, h);
    }
    assert(evolve(g) =~~= g);
    fixed_point_stays(g, n);
}

/// The blinker that lies in row `cy`, centred on `(cx, cy)`.
pub open spec fn blinker_flat(w: int, h: int, cx: int, cy: int) -> Seq<Seq<Cell>> {
    pattern(
        w,
        h,
        |x: int, y: int| y == cy && (x == wrap(cx, -1, w) || x == cx || x == wrap(cx, 1, w)),
    )
}

/// The blinker that stands in column `cx`, centred on `(cx, cy)`.
pub open spec fn blinker_upright(w: int, h: int, cx: int, cy: int) -> Seq<Seq<Cell>> {
    pattern(
        w,
        h,
        |x: int, y: int| x == cx && (y == wrap(cy, -1, h) || y == cy || y == wrap(cy, 1, h)),
    )
}

/// Oscillator: on a grid of at least 4 x 4 cells a step turns the flat
/// blinker into the upright one and the upright one into the flat one, so
/// that either is back after two steps.
pub proof fn blinker_oscillates(w: int, h: int, cx: int, cy: int, n: nat)
    requires
        w >= 4,
        h >= 4,
        0 <= cx < w,
        0 <= cy < h,
    ensures
        evolve(blinker_flat(w, h, cx, cy)) == blinker_upright(w, h, cx, cy),
        evolve(blinker_upright(w, h, cx, cy)) == blinker_flat(w, h, cx, cy),
        evolve_n(blinker_flat(w, h, cx, cy), n) == (if n % 2 == 0 {
            blinker_flat(w, h, cx, cy)
        } else {
            blinker_upright(w, h, cx, cy)
        }),
{
    let flat = blinker_flat(w, h, cx, cy);
    let upright = blinker_upright(w, h, cx, cy);
    assert(flat[0].len() == w);
    assert(upright[0].len() == w);
    wrap_steps(cx, w);
    wrap_steps(cy, h);
    assert forall|x: int, y: int| 0 <= x < w && 0 <= y < h implies evolve_cell(flat, x, y)
        == upright[y][x] by {
        wrap_steps(x, w);
        wrap_steps(y, h);
    }
    assert(evolve(flat) =~~= upright);
    assert forall|x: int, y: int| 0 <= x < w && 0 <= y < h implies evolve_cell(upright, x, y)
        == flat[y][x] by {
        wrap_steps(x, w);
        wrap_steps(y, h);
    }
    assert(evolve(upright) =~~= flat);
    period_two_alternates(flat, n);
}

/// Wraparound: a live cell at the corner `(0, 0)` is counted by each of its
/// eight neighbours on the torus, those across the edges included. On a grid
/// of at least 3 x 3 cells where it is the only live cell, each of them
/// counts exactly one.
pub proof fn corner_counts_across_edges(g: Seq<Seq<Cell>>, w: int, h: int, dx: int, dy: int)
    requires
        rectangular(g, w, h),
        g[0][0] == Cell::Alive,
        -1 <= dx <= 1,
        -1 <= dy <= 1,
        dx != 0 || dy != 0,
    ensures
        live_neighbors(g, wrap(0, dx, w), wrap(0, dy, h)) >= 1,
        w >= 3 && h >= 3 && g == pattern(w, h, |x: int, y: int| x == 0 && y == 0)
            ==> live_neighbors(g, wrap(0, dx, w), wrap(0, dy, h)) == 1,
{
    let x = wrap(0, dx, w);
    let y = wrap(0, dy, h);
    assert(g[0].len() == w);
    wrap_steps(0, w);
    wrap_steps(0, h);
    wrap_steps(x, w);
    wrap_steps(y, h);
    assert(neighbor(g, x, y, -dx, -dy) == 1);
}

} // verus!
