//! The mathematical model of the grid: a sequence of columns, indexed
//! `[x][y]`, and the operations on it that the board's contracts speak of.

use vstd::prelude::*;
use crate::cell::{flipped, next_cell, Cell};

verus! {

/// A grid as a sequence of columns.
pub type Grid = Seq<Seq<Cell>>;

/// Every one of the `width` columns holds `height` cells.
pub open spec fn rectangular(g: Grid, width: nat, height: nat) -> bool {
    &&& g.len() == width
    &&& forall|x: int| 0 <= x < g.len() ==> (#[trigger] g[x]).len() == height
}

/// `(x, y)` is a coordinate of the grid.
pub open spec fn in_range(g: Grid, x: int, y: int) -> bool {
    0 <= x < g.len() && 0 <= y < g[x].len()
}

/// `(x, y)` is a coordinate of the grid and the cell there is alive. A
/// coordinate outside the grid is never alive: the edges do not wrap.
pub open spec fn is_alive(g: Grid, x: int, y: int) -> bool {
    in_range(g, x, y) && g[x][y] == Cell::Alive
}

/// What the coordinate `(x, y)` adds to a count of live cells.
pub open spec fn alive_count(g: Grid, x: int, y: int) -> nat {
    if is_alive(g, x, y) {
        1
    } else {
        0
    }
}

/// The number of live cells among the eight coordinates around `(x, y)`.
pub open spec fn alive_neighbors(g: Grid, x: int, y: int) -> nat {
    alive_count(g, x - 1, y - 1) + alive_count(g, x - 1, y) + alive_count(g, x - 1, y + 1)
        + alive_count(g, x, y - 1) + alive_count(g, x, y + 1) + alive_count(g, x + 1, y - 1)
        + alive_count(g, x + 1, y) + alive_count(g, x + 1, y + 1)
}

/// One column of the next generation.
pub open spec fn next_column(g: Grid, x: int) -> Seq<Cell> {
    Seq::new(g[x].len(), |y: int| next_cell(g[x][y], alive_neighbors(g, x, y)))
}

/// The next generation: every cell follows the rule on the counts taken in
/// `g` itself.
pub open spec fn next_generation(g: Grid) -> Grid {
    Seq::new(g.len(), |x: int| next_column(g, x))
}

/// The grid after `n` generations.
pub open spec fn generations(g: Grid, n: nat) -> Grid
    decreases n,
{
    if n == 0 {
        g
    } else {
        next_generation(generations(g, (n - 1) as nat))
    }
}

/// The grid with the cell at `(x, y)` flipped; the grid itself where `(x, y)`
/// is no coordinate of it.
pub open spec fn toggled(g: Grid, x: int, y: int) -> Grid {
    if in_range(g, x, y) {
        g.update(x, g[x].update(y, flipped(g[x][y])))
    } else {
        g
    }
}

/// A grid of the given size with every cell dead.
pub open spec fn blank(width: nat, height: nat) -> Grid {
    Seq::new(width, |x: int| Seq::new(height, |y: int| Cell::Dead))
}

/// The grid of the given size that keeps the cell of `g` at every coordinate
/// that `g` has, and holds a dead cell elsewhere.
pub open spec fn resized(g: Grid, width: nat, height: nat) -> Grid {
    Seq::new(
        width,
        |x: int| Seq::new(height, |y: int| if in_range(g, x, y) { g[x][y] } else { Cell::Dead }),
    )
}

/// `(x, y)` is one of the six cells of the starting pattern on a grid of the
/// given size: three in the centre row from the centre rightwards, and three
/// in the row below, shifted one to the left.
pub open spec fn is_seed(width: nat, height: nat, x: int, y: int) -> bool {
    let cx = width as int / 2;
    let cy = height as int / 2;
    (y == cy && cx <= x <= cx + 2) || (y == cy + 1 && cx - 1 <= x <= cx + 1)
}

/// The starting pattern lies within a grid of the given size.
pub open spec fn seed_fits(width: nat, height: nat) -> bool {
    width >= 5 && height >= 3
}

/// A grid of the given size that holds the starting pattern and is dead
/// elsewhere.
pub open spec fn seeded(width: nat, height: nat) -> Grid {
    Seq::new(
        width,
        |x: int|
            Seq::new(
                height,
                |y: int| if is_seed(width, height, x, y) { Cell::Alive } else { Cell::Dead },
            ),
    )
}

/// At most eight cells around a coordinate are alive.
pub proof fn lemma_alive_neighbors_bound(g: Grid, x: int, y: int)
    ensures
        alive_neighbors(g, x, y) <= 8,
{
}

/// The next generation has the shape of the grid it comes from, and each of
/// its cells is the rule applied to the cell and the neighbour count of the
/// grid before: no cell of the next generation depends on another.
pub proof fn lemma_next_generation_cell(g: Grid, x: int, y: int)
    requires
        in_range(g, x, y),
    ensures
        in_range(next_generation(g), x, y),
        next_generation(g).len() == g.len(),
        next_generation(g)[x].len() == g[x].len(),
        next_generation(g)[x][y] == next_cell(g[x][y], alive_neighbors(g, x, y)),
{
}

/// A cell with fewer than two live neighbours is dead in the next
/// generation.
pub proof fn lemma_underpopulation(g: Grid, x: int, y: int)
    requires
        in_range(g, x, y),
        alive_neighbors(g, x, y) <= 1,
    ensures
        next_generation(g)[x][y] == Cell::Dead,
{
}

/// A cell with more than three live neighbours, and so one with all eight
/// alive, is dead in the next generation.
pub proof fn lemma_overpopulation(g: Grid, x: int, y: int)
    requires
        in_range(g, x, y),
        alive_neighbors(g, x, y) >= 4,
    ensures
        next_generation(g)[x][y] == Cell::Dead,
{
}

/// A live cell stays alive exactly on two or three live neighbours.
pub proof fn lemma_survival(g: Grid, x: int, y: int)
    requires
        in_range(g, x, y),
        g[x][y] == Cell::Alive,
    ensures
        next_generation(g)[x][y] == Cell::Alive <==> (alive_neighbors(g, x, y) == 2
            || alive_neighbors(g, x, y) == 3),
{
}

/// A dead cell comes alive exactly on three live neighbours: on two, on
/// four, and on any other count it stays dead.
pub proof fn lemma_birth(g: Grid, x: int, y: int)
    requires
        in_range(g, x, y),
        g[x][y] == Cell::Dead,
    ensures
        next_generation(g)[x][y] == Cell::Alive <==> alive_neighbors(g, x, y) == 3,
        next_generation(g)[x][y] == Cell::Dead <==> alive_neighbors(g, x, y) != 3,
{
}

/// Flipping the same cell twice gives the grid back.
pub proof fn lemma_toggled_twice(g: Grid, x: int, y: int)
    ensures
        toggled(toggled(g, x, y), x, y) == g,
{
    if in_range(g, x, y) {
        let once = toggled(g, x, y);
        assert(once[x] == g[x].update(y, flipped(g[x][y])));
        assert(in_range(once, x, y));
        assert(toggled(once, x, y)[x] =~= g[x]);
        assert(toggled(once, x, y) =~= g);
    }
}

/// Flipping at a coordinate that the grid does not have changes nothing.
pub proof fn lemma_toggled_out_of_range(g: Grid, x: int, y: int)
    requires
        !in_range(g, x, y),
    ensures
        toggled(g, x, y) == g,
{
}

/// Flipping a cell changes that cell and no other, and keeps the grid's
/// shape.
pub proof fn lemma_toggled_cell(g: Grid, x: int, y: int, i: int, j: int)
    requires
        in_range(g, x, y),
        in_range(g, i, j),
    ensures
        in_range(toggled(g, x, y), i, j),
        toggled(g, x, y).len() == g.len(),
        toggled(g, x, y)[i].len() == g[i].len(),
        toggled(g, x, y)[i][j] == if i == x && j == y {
            flipped(g[i][j])
        } else {
            g[i][j]
        },
{
}

/// After a resize, a coordinate that both grids have keeps its cell, and a
/// coordinate that only the new grid has holds a dead cell.
pub proof fn lemma_resized_cell(g: Grid, width: nat, height: nat, x: int, y: int)
    requires
        0 <= x < width,
        0 <= y < height,
    ensures
        rectangular(resized(g, width, height), width, height),
        in_range(g, x, y) ==> resized(g, width, height)[x][y] == g[x][y],
        !in_range(g, x, y) ==> resized(g, width, height)[x][y] == Cell::Dead,
{
}

} // verus!
