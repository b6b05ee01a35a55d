//! The board: the grid of cells, its size in cells, and the number of screen
//! pixels per cell edge from which that size is derived.

use vstd::prelude::*;
use crate::cell::{next_cell, Cell};
use crate::grid::{
    alive_count, alive_neighbors, blank, in_range, is_alive, next_column, next_generation,
    rectangular, resized, seed_fits, seeded, toggled, Grid,
};

verus! {

/// A rectangular grid of cells, stored column by column.
pub struct Board {
    tiles: Vec<Vec<Cell>>,
    scale: u32,
    width: u32,
    height: u32,
}

/// The grid that a vector of columns stands for.
spec fn grid_of(tiles: Vec<Vec<Cell>>) -> Grid {
    Seq::new(tiles.len() as nat, |x: int| tiles[x]@)
}

/// A column of `height` dead cells.
fn dead_column(height: u32) -> (column: Vec<Cell>)
    ensures
        column@ == Seq::new(height as nat, |y: int| Cell::Dead),
{
    let mut column: Vec<Cell> = Vec::new();
    let mut y: u32 = 0;
    while y < height
        invariant
            y <= height,
            column.len() == y,
            forall|j: int| 0 <= j < y ==> column[j] == Cell::Dead,
        decreases height - y,
    {
        column.push(Cell::Dead);
        y += 1;
    }
    assert(column@ =~= Seq::new(height as nat, |y: int| Cell::Dead));
    column
}

/// `width` columns of `height` dead cells each.
fn dead_tiles(width: u32, height: u32) -> (tiles: Vec<Vec<Cell>>)
    ensures
        grid_of(tiles) == blank(width as nat, height as nat),
{
    let mut tiles: Vec<Vec<Cell>> = Vec::new();
    let mut x: u32 = 0;
    while x < width
        invariant
            x <= width,
            tiles.len() == x,
            forall|i: int|
                0 <= i < x ==> (#[trigger] tiles[i])@ == Seq::new(
                    height as nat,
                    |y: int| Cell::Dead,
                ),
        decreases width - x,
    {
        tiles.push(dead_column(height));
        x += 1;
    }
    assert(grid_of(tiles) =~= blank(width as nat, height as nat));
    tiles
}

impl View for Board {
    type V = Grid;

    closed spec fn view(&self) -> Grid {
        grid_of(self.tiles)
    }
}

impl Board {
    /// The number of columns.
    pub closed spec fn spec_width(&self) -> nat {
        self.width as nat
    }

    /// The number of rows.
    pub closed spec fn spec_height(&self) -> nat {
        self.height as nat
    }

    /// The number of screen pixels per cell edge.
    pub closed spec fn spec_scale(&self) -> nat {
        self.scale as nat
    }

    /// The board's invariant: the scale is positive and every coordinate
    /// within the board's size holds a cell.
    pub open spec fn wf(&self) -> bool {
        &&& 0 < self.spec_scale() <= u32::MAX
        &&& self.spec_width() <= u32::MAX
        &&& self.spec_height() <= u32::MAX
        &&& rectangular(self@, self.spec_width(), self.spec_height())
    }

    /// The stored column `x` is the grid's column `x` and has the board's
    /// height.
    proof fn lemma_column(&self, x: int)
        requires
            self.wf(),
            0 <= x < self.width,
        ensures
            self.tiles.len() == self.width,
            self@[x] == self.tiles[x]@,
            self.tiles[x].len() == self.height,
    {
        assert(self@[x].len() == self.height);
    }

    /// Whether the starting pattern fits the grid that the given pixel
    /// dimensions give at the given scale.
    pub fn can_seed(scale: u32, pixel_width: u32, pixel_height: u32) -> (ok: bool)
        ensures
            ok == (scale > 0 && seed_fits(
                (pixel_width as int / scale as int) as nat,
                (pixel_height as int / scale as int) as nat,
            )),
    {
        scale > 0 && pixel_width / scale >= 5 && pixel_height / scale >= 3
    }

    /// A board of `pixel_width / scale` by `pixel_height / scale` cells that
    /// holds the starting pattern around its centre and is dead elsewhere.
    pub fn new(scale: u32, pixel_width: u32, pixel_height: u32) -> (board: Board)
        requires
            scale > 0,
            seed_fits(
                (pixel_width as int / scale as int) as nat,
                (pixel_height as int / scale as int) as nat,
            ),
        ensures
            board.wf(),
            board.spec_scale() == scale,
            board.spec_width() == pixel_width as int / scale as int,
            board.spec_height() == pixel_height as int / scale as int,
            board@ == seeded(board.spec_width(), board.spec_height()),
    {
        let mut board = Board::new_empty(scale, pixel_width, pixel_height);
        let cx: u32 = board.width / 2;
        let cy: u32 = board.height / 2;
        let ghost w = board.width as nat;
        let ghost h = board.height as nat;
        board.toggle_cell(cx, cy);
        board.toggle_cell(cx + 1, cy);
        board.toggle_cell(cx + 2, cy);
        board.toggle_cell(cx - 1, cy + 1);
        board.toggle_cell(cx, cy + 1);
        board.toggle_cell(cx + 1, cy + 1);
        proof {
            assert(board@ =~~= seeded(w, h));
        }
        board
    }

    /// A board of `pixel_width / scale` by `pixel_height / scale` cells, all
    /// of them dead.
    pub fn new_empty(scale: u32, pixel_width: u32, pixel_height: u32) -> (board: Board)
        requires
            scale > 0,
        ensures
            board.wf(),
            board.spec_scale() == scale,
            board.spec_width() == pixel_width as int / scale as int,
            board.spec_height() == pixel_height as int / scale as int,
            board@ == blank(board.spec_width(), board.spec_height()),
    {
        let width: u32 = pixel_width / scale;
        let height: u32 = pixel_height / scale;
        Board { tiles: dead_tiles(width, height), scale, width, height }
    }

    /// The number of columns.
    pub fn width(&self) -> (width: u32)
        ensures
            width == self.spec_width(),
    {
        self.width
    }

    /// The number of rows.
    pub fn height(&self) -> (height: u32)
        ensures
            height == self.spec_height(),
    {
        self.height
    }

    /// The number of screen pixels per cell edge.
    pub fn scale(&self) -> (scale: u32)
        ensures
            scale == self.spec_scale(),
    {
        self.scale
    }

    /// The cell at `(x, y)`, or `None` where the board has no such coordinate.
    pub fn cell(&self, x: u32, y: u32) -> (cell: Option<Cell>)
        requires
            self.wf(),
        ensures
            cell == if in_range(self@, x as int, y as int) {
                Some(self@[x as int][y as int])
            } else {
                None
            },
    {
        if x < self.width && y < self.height {
            proof {
                self.lemma_column(x as int);
            }
            Some(self.tiles[x as usize][y as usize])
        } else {
            None
        }
    }

    /// Whether `(x, y)` is a coordinate of the board with a live cell.
    fn alive_at(&self, x: i64, y: i64) -> (alive: bool)
        requires
            self.wf(),
        ensures
            alive == is_alive(self@, x as int, y as int),
    {
        if 0 <= x && x < self.width as i64 && 0 <= y && y < self.height as i64 {
            proof {
                self.lemma_column(x as int);
            }
            self.tiles[x as usize][y as usize].is_alive()
        } else {
            false
        }
    }

    /// What `(x, y)` adds to a count of live cells: one or nothing.
    fn count_at(&self, x: i64, y: i64) -> (n: u32)
        requires
            self.wf(),
        ensures
            n == alive_count(self@, x as int, y as int),
    {
        if self.alive_at(x, y) {
            1
        } else {
            0
        }
    }

    /// The number of live cells among the up to eight cells around `(x, y)`.
    /// Coordinates beyond the edges count as dead; `(x, y)` itself need not
    /// be on the board.
    pub fn count_alive_neighbors(&self, x: u32, y: u32) -> (n: u32)
        requires
            self.wf(),
        ensures
            n == alive_neighbors(self@, x as int, y as int),
            n <= 8,
    {
        let cx: i64 = x as i64;
        let cy: i64 = y as i64;
        let mut n: u32 = 0;
        n += self.count_at(cx - 1, cy - 1);
        n += self.count_at(cx - 1, cy);
        n += self.count_at(cx - 1, cy + 1);
        n += self.count_at(cx, cy - 1);
        n += self.count_at(cx, cy + 1);
        n += self.count_at(cx + 1, cy - 1);
        n += self.count_at(cx + 1, cy);
        n += self.count_at(cx + 1, cy + 1);
        n
    }

    /// Flips the cell at `(x, y)`. Where the board has no such coordinate,
    /// nothing changes.
    pub fn toggle_cell(&mut self, x: u32, y: u32)
        requires
            old(self).wf(),
        ensures
            final(self).wf(),
            final(self).spec_scale() == old(self).spec_scale(),
            final(self).spec_width() == old(self).spec_width(),
            final(self).spec_height() == old(self).spec_height(),
            final(self)@ == toggled(old(self)@, x as int, y as int),
    {
        if x < self.width && y < self.height {
            let flipped_cell = self.tiles[x as usize][y as usize].toggled();
            self.tiles[x as usize][y as usize] = flipped_cell;
            assert(self@ =~= toggled(old(self)@, x as int, y as int));
        }
    }

    /// The next generation of column `x`, computed from the board as it is.
    fn step_column(&self, x: u32) -> (column: Vec<Cell>)
        requires
            self.wf(),
            x < self.spec_width(),
        ensures
            column@ == next_column(self@, x as int),
    {
        let mut column: Vec<Cell> = Vec::new();
        let mut y: u32 = 0;
        while y < self.height
            invariant
                self.wf(),
                x < self.width,
                y <= self.height,
                column.len() == y,
                forall|j: int|
                    0 <= j < y ==> column[j] == next_cell(
                        self@[x as int][j],
                        alive_neighbors(self@, x as int, j),
                    ),
            decreases self.height - y,
        {
            let n: u32 = self.count_alive_neighbors(x, y);
            let current = self.tiles[x as usize][y as usize];
            column.push(current.next(n));
            y += 1;
        }
        assert(column@ =~= next_column(self@, x as int));
        column
    }

    /// Advances the board by one generation. Every neighbour count is taken
    /// on the grid as it was before the call, and the whole grid is replaced
    /// at once.
    pub fn step(&mut self)
        requires
            old(self).wf(),
        ensures
            final(self).wf(),
            final(self).spec_scale() == old(self).spec_scale(),
            final(self).spec_width() == old(self).spec_width(),
            final(self).spec_height() == old(self).spec_height(),
            final(self)@ == next_generation(old(self)@),
    {
        let mut next: Vec<Vec<Cell>> = Vec::new();
        let mut x: u32 = 0;
        while x < self.width
            invariant
                self.wf(),
                x <= self.width,
                next.len() == x,
                forall|i: int| 0 <= i < x ==> (#[trigger] next[i])@ == next_column(self@, i),
            decreases self.width - x,
        {
            next.push(self.step_column(x));
            x += 1;
        }
        assert(grid_of(next) =~= next_generation(self@));
        self.tiles = next;
    }

    /// The column `x` of a board of `height` rows that keeps this board's
    /// cells where it has them.
    fn resized_column(&self, x: u32, height: u32) -> (column: Vec<Cell>)
        requires
            self.wf(),
        ensures
            column@ == Seq::new(
                height as nat,
                |y: int| if in_range(self@, x as int, y) { self@[x as int][y] } else { Cell::Dead },
            ),
    {
        let mut column: Vec<Cell> = Vec::new();
        let mut y: u32 = 0;
        while y < height
            invariant
                self.wf(),
                y <= height,
                column.len() == y,
                forall|j: int|
                    0 <= j < y ==> column[j] == if in_range(self@, x as int, j) {
                        self@[x as int][j]
                    } else {
                        Cell::Dead
                    },
            decreases height - y,
        {
            let kept = if x < self.width && y < self.height {
                self.tiles[x as usize][y as usize]
            } else {
                Cell::Dead
            };
            column.push(kept);
            y += 1;
        }
        assert(column@ =~= Seq::new(
            height as nat,
            |y: int| if in_range(self@, x as int, y) { self@[x as int][y] } else { Cell::Dead },
        ));
        column
    }

    /// Gives the board the size that the new pixel dimensions give at its
    /// scale. A coordinate that the board had keeps its cell, a new one
    /// holds a dead cell, and cells beyond the new size are dropped.
    pub fn resize(&mut self, new_pixel_width: u32, new_pixel_height: u32)
        requires
            old(self).wf(),
        ensures
            final(self).wf(),
            final(self).spec_scale() == old(self).spec_scale(),
            final(self).spec_width() == new_pixel_width as int / old(self).spec_scale() as int,
            final(self).spec_height() == new_pixel_height as int / old(self).spec_scale() as int,
            final(self)@ == resized(old(self)@, final(self).spec_width(), final(self).spec_height()),
    {
        let width: u32 = new_pixel_width / self.scale;
        let height: u32 = new_pixel_height / self.scale;
        let mut tiles: Vec<Vec<Cell>> = Vec::new();
        let mut x: u32 = 0;
        while x < width
            invariant
                self.wf(),
                x <= width,
                tiles.len() == x,
                forall|i: int|
                    0 <= i < x ==> (#[trigger] tiles[i])@ == resized(
                        self@,
                        width as nat,
                        height as nat,
                    )[i],
            decreases width - x,
        {
            let column = self.resized_column(x, height);
            assert(column@ =~= resized(self@, width as nat, height as nat)[x as int]);
            tiles.push(column);
            x += 1;
        }
        assert(grid_of(tiles) =~= resized(self@, width as nat, height as nat));
        self.tiles = tiles;
        self.width = width;
        self.height = height;
    }

    /// Replaces the grid by one of the same size with every cell dead.
    pub fn clear(&mut self)
        requires
            old(self).wf(),
        ensures
            final(self).wf(),
            final(self).spec_scale() == old(self).spec_scale(),
            final(self).spec_width() == old(self).spec_width(),
            final(self).spec_height() == old(self).spec_height(),
            final(self)@ == blank(final(self).spec_width(), final(self).spec_height()),
    {
        self.tiles = dead_tiles(self.width, self.height);
    }
}

} // verus!
