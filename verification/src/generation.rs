//! The mathematical model of a generation: a rectangular sequence of rows on
//! a torus, and the function that maps one generation to the next.

use vstd::prelude::*;
use crate::cell::Cell;

verus! {

/// `g` has `h` rows of `w` cells each, and at least one cell.
pub open spec fn rectangular(g: Seq<Seq<Cell>>, w: int, h: int) -> bool {
    &&& w > 0
    &&& h > 0
    &&& g.len() == h
    &&& forall|y: int| 0 <= y < h ==> (#[trigger] g[y]).len() == w
}

/// The number of columns of a generation.
pub open spec fn width_of(g: Seq<Seq<Cell>>) -> int {
    g[0].len() as int
}

/// The number of rows of a generation.
pub open spec fn height_of(g: Seq<Seq<Cell>>) -> int {
    g.len() as int
}

/// `g` has at least one cell, and all its rows have one length.
pub open spec fn shaped(g: Seq<Seq<Cell>>) -> bool {
    rectangular(g, width_of(g), height_of(g))
}

/// The coordinate reached from `c` by the offset `d` on a ring of `n`
/// positions.
pub open spec fn wrap(c: int, d: int, n: int) -> int {
    (c + d + n) % n
}

/// 1 if the cell at offset `(dx, dy)` from `(x, y)` is alive, 0 otherwise.
pub open spec fn neighbor(g: Seq<Seq<Cell>>, x: int, y: int, dx: int, dy: int) -> int {
    g[wrap(y, dy, height_of(g))][wrap(x, dx, width_of(g))].population()
}

/// The number of live cells among the eight neighbours of `(x, y)`. On a
/// narrow torus one cell may stand at several offsets, and counts once for
/// each.
pub open spec fn live_neighbors(g: Seq<Seq<Cell>>, x: int, y: int) -> int {
    neighbor(g, x, y, -1, -1) + neighbor(g, x, y, 0, -1) + neighbor(g, x, y, 1, -1)
        + neighbor(g, x, y, -1, 0) + neighbor(g, x, y, 1, 0)
        + neighbor(g, x, y, -1, 1) + neighbor(g, x, y, 0, 1) + neighbor(g, x, y, 1, 1)
}

/// The state of `(x, y)` in the generation that follows `g`.
pub open spec fn evolve_cell(g: Seq<Seq<Cell>>, x: int, y: int) -> Cell {
    g[y][x].rule(live_neighbors(g, x, y))
}

/// Row `y` of the generation that follows `g`.
pub open spec fn evolve_row(g: Seq<Seq<Cell>>, y: int) -> Seq<Cell> {
    Seq::new(width_of(g) as nat, |x: int| evolve_cell(g, x, y))
}

/// The generation that follows `g`.
pub open spec fn evolve(g: Seq<Seq<Cell>>) -> Seq<Seq<Cell>> {
    Seq::new(g.len(), |y: int| evolve_row(g, y))
}

/// The generation reached from `g` after `n` steps.
pub open spec fn evolve_n(g: Seq<Seq<Cell>>, n: nat) -> Seq<Seq<Cell>>
    decreases n,
{
    if n == 0 {
        g
    } else {
        evolve_n(evolve(g), (n - 1) as nat)
    }
}

/// A generation of the given shape with no live cell.
pub open spec fn barren(w: int, h: int) -> Seq<Seq<Cell>> {
    Seq::new(h as nat, |y: int| Seq::new(w as nat, |x: int| Cell::Dead))
}

/// On a ring of `n` positions, the step back from 0 lands on `n - 1`, the
/// step forward from `n - 1` lands on 0, and every other step stays inside.
pub proof fn wrap_steps(c: int, n: int)
    requires
        0 <= c < n,
    ensures
        wrap(c, -1, n) == (if c == 0 { n - 1 } else { c - 1 }),
        wrap(c, 0, n) == c,
        wrap(c, 1, n) == (if c + 1 == n { 0 } else { c + 1 }),
{
    assert(wrap(c, -1, n) == (if c == 0 { n - 1 } else { c - 1 })) by (nonlinear_arith)
        requires 0 <= c < n, wrap(c, -1, n) == (c - 1 + n) % n;
    assert(wrap(c, 0, n) == c) by (nonlinear_arith)
        requires 0 <= c < n, wrap(c, 0, n) == (c + n) % n;
    assert(wrap(c, 1, n) == (if c + 1 == n { 0 } else { c + 1 })) by (nonlinear_arith)
        requires 0 <= c < n, wrap(c, 1, n) == (c + 1 + n) % n;
}

/// A step keeps the shape of a generation.
pub proof fn evolve_keeps_shape(g: Seq<Seq<Cell>>, w: int, h: int)
    requires
        rectangular(g, w, h),
    ensures
        rectangular(evolve(g), w, h),
{
    assert(g[0].len() == w);
}

} // verus!
