//! The well: which cells are occupied, collision tests, locking and line clearing.

use arrayvec::ArrayVec;
use vstd::prelude::*;
use vstd::set_lib::lemma_len_subset;
use crate::draw::{draw_at, draw_cell, DrawCell};
use crate::rows::{row_at, rows_from, rows_of, rows_push, rows_remove, set_cell, Row};
use crate::tetrimino::{cells_of, Point, Shape};
use crate::{ROWS, WIDTH};

verus! {

/// The contents of a well: rows from the floor upward, each a sequence of
/// cells from the left wall, each cell empty or holding the shape locked there.
pub type Grid = Seq<Seq<Option<Shape>>>;

/// A grid of `ROWS` rows of `WIDTH` cells.
pub open spec fn is_well(grid: Grid) -> bool {
    &&& grid.len() == ROWS
    &&& forall|y: int| 0 <= y < grid.len() ==> (#[trigger] grid[y]).len() == WIDTH
}

/// A row in which no cell is occupied.
pub open spec fn empty_row() -> Seq<Option<Shape>> {
    Seq::new(WIDTH as nat, |x: int| None)
}

/// A grid in which no cell is occupied.
pub open spec fn empty_grid() -> Grid {
    Seq::new(ROWS as nat, |y: int| empty_row())
}

/// Whether `cell` lies left or right of the well or below its floor.
pub open spec fn outside(cell: (int, int)) -> bool {
    cell.0 < 0 || cell.0 >= WIDTH || cell.1 < 0
}

/// Whether a piece cannot take `cell`: it lies outside the walls or below the
/// floor, or a locked piece holds it. Above the topmost row nothing is in the way.
pub open spec fn cell_blocked(grid: Grid, cell: (int, int)) -> bool {
    outside(cell) || (cell.1 < grid.len() && grid[cell.1][cell.0] is Some)
}

/// Whether any of `cells` is blocked.
pub open spec fn blocked(grid: Grid, cells: Seq<(int, int)>) -> bool {
    exists|i: int| 0 <= i < cells.len() && cell_blocked(grid, #[trigger] cells[i])
}

/// Whether every one of `cells` is a cell of the grid.
pub open spec fn in_grid(grid: Grid, cells: Seq<(int, int)>) -> bool {
    forall|i: int|
        0 <= i < cells.len() ==> 0 <= (#[trigger] cells[i]).0 < WIDTH && 0 <= cells[i].1
            < grid.len()
}

/// The grid after `shape` was written into each of `cells`.
pub open spec fn stamped(grid: Grid, cells: Seq<(int, int)>, shape: Shape) -> Grid {
    Seq::new(
        grid.len(),
        |y: int|
            Seq::new(
                grid[y].len(),
                |x: int|
                    if cells.contains((x, y)) {
                        Some(shape)
                    } else {
                        grid[y][x]
                    },
            ),
    )
}

/// Whether every cell of `row` is occupied.
pub open spec fn row_full(row: Seq<Option<Shape>>) -> bool {
    forall|x: int| 0 <= x < row.len() ==> (#[trigger] row[x]) is Some
}

/// Whether one of `cells` lies in row `y`.
pub open spec fn touches(cells: Seq<(int, int)>, y: int) -> bool {
    exists|i: int| 0 <= i < cells.len() && (#[trigger] cells[i]).1 == y
}

/// The rows to clear: those that `cells` touch and that are full.
pub open spec fn completed(grid: Grid, cells: Seq<(int, int)>) -> Set<int> {
    Set::new(|y: int| 0 <= y < grid.len() && touches(cells, y) && row_full(grid[y]))
}

/// The rows of `grid` whose index is not in `gone`, in their old order.
pub open spec fn without_rows(grid: Grid, gone: Set<int>) -> Grid
    decreases grid.len(),
{
    if grid.len() == 0 {
        grid
    } else if gone.contains(grid.len() - 1) {
        without_rows(grid.drop_last(), gone)
    } else {
        without_rows(grid.drop_last(), gone).push(grid.last())
    }
}

/// The grid after its completed rows were cleared: the other rows move down
/// to close the gaps, and as many empty rows are added on top.
pub open spec fn cleared(grid: Grid, cells: Seq<(int, int)>) -> Grid {
    without_rows(grid, completed(grid, cells)) + Seq::new(
        completed(grid, cells).len(),
        |i: int| empty_row(),
    )
}

/// The draw instructions for the occupied cells among the first `n` cells of
/// the row `row` at height `y`, from the left.
pub open spec fn row_drawn(row: Seq<Option<Shape>>, y: int, n: nat) -> Seq<DrawCell>
    decreases n,
{
    if n == 0 {
        Seq::empty()
    } else {
        let rest = row_drawn(row, y, (n - 1) as nat);
        match row[n - 1] {
            Some(shape) => rest.push(draw_at(shape, (n - 1, y))),
            None => rest,
        }
    }
}

/// The draw instructions for the occupied cells of the lowest `n` rows, row
/// by row from the floor.
pub open spec fn grid_drawn(grid: Grid, n: nat) -> Seq<DrawCell>
    decreases n,
{
    if n == 0 {
        Seq::empty()
    } else {
        grid_drawn(grid, (n - 1) as nat) + row_drawn(grid[n - 1], n - 1, grid[n - 1].len())
    }
}

/// The well.
pub struct Field {
    rows: ArrayVec<Row, ROWS>,
}

impl View for Field {
    type V = Grid;

    closed spec fn view(&self) -> Grid {
        rows_of(self.rows)
    }
}

impl Field {
    /// The well has all its rows, and every row all its columns.
    pub open spec fn wf(&self) -> bool {
        is_well(self@)
    }

    /// An empty well.
    pub fn new() -> (field: Self)
        ensures
            field.wf(),
            field@ == empty_grid(),
    {
        let row: Row = [None; WIDTH];
        let grid: [Row; ROWS] = [row; ROWS];
        let field = Field { rows: rows_from(grid) };
        assert(field@ =~~= empty_grid());
        field
    }

    /// The cell in column `x` of row `y`; `None` also where the well has no such cell.
    pub fn cell(&self, x: usize, y: usize) -> (cell: Option<Shape>)
        requires
            self.wf(),
        ensures
            cell == if x < WIDTH && y < ROWS {
                self@[y as int][x as int]
            } else {
                None
            },
    {
        if x < WIDTH && y < ROWS {
            row_at(&self.rows, y)[x]
        } else {
            None
        }
    }

    /// The draw instructions for the well: one for every occupied cell and
    /// none for an empty one, row by row from the floor, each row from the left.
    pub fn render(&self) -> (cells: Vec<DrawCell>)
        requires
            self.wf(),
        ensures
            cells@ == grid_drawn(self@, ROWS as nat),
    {
        let mut cells: Vec<DrawCell> = Vec::new();
        let mut y: usize = 0;
        while y < ROWS
            invariant
                y <= ROWS,
                self.wf(),
                cells@ == grid_drawn(self@, y as nat),
            decreases ROWS - y,
        {
            let row = row_at(&self.rows, y);
            let mut x: usize = 0;
            while x < WIDTH
                invariant
                    x <= WIDTH,
                    y < ROWS,
                    self.wf(),
                    row@ == self@[y as int],
                    cells@ == grid_drawn(self@, y as nat) + row_drawn(row@, y as int, x as nat),
                decreases WIDTH - x,
            {
                if let Some(shape) = row[x] {
                    cells.push(draw_cell(shape, x as i16, y as i16));
                }
                x += 1;
            }
            y += 1;
        }
        cells
    }

    /// Whether a piece cannot take `points`: true as soon as one of them lies
    /// outside the walls, below the floor, or on an occupied cell. There is
    /// no ceiling: a point above the topmost row is never in the way.
    pub fn is_occupied(&self, points: [Point; 4]) -> (occupied: bool)
        requires
            self.wf(),
        ensures
            occupied == blocked(self@, cells_of(points)),
            (exists|i: int| 0 <= i < 4 && outside(#[trigger] cells_of(points)[i])) ==> occupied,
    {
        let ghost cells = cells_of(points);
        let mut i: usize = 0;
        while i < 4
            invariant
                i <= 4,
                self.wf(),
                cells == cells_of(points),
                forall|k: int| 0 <= k < i ==> !cell_blocked(self@, #[trigger] cells[k]),
            decreases 4 - i,
        {
            let (x, y): Point = points[i];
            assert(cells[i as int] == (x as int, y as int));
            if y < 0 || x < 0 || x as usize >= WIDTH {
                return true;
            }
            if (y as usize) < ROWS && row_at(&self.rows, y as usize)[x as usize].is_some() {
                return true;
            }
            i += 1;
        }
        false
    }

    /// Locks `points`: writes `shape` into each of the four cells, over
    /// whatever a cell held. Every point must be a cell of the well.
    pub fn set_occupied(&mut self, points: [Point; 4], shape: Shape)
        requires
            old(self).wf(),
            in_grid(old(self)@, cells_of(points)),
        ensures
            final(self).wf(),
            final(self)@ == stamped(old(self)@, cells_of(points), shape),
            blocked(final(self)@, cells_of(points)),
    {
        let ghost cells = cells_of(points);
        assert(self@ =~~= stamped(self@, cells.take(0), shape));
        let mut i: usize = 0;
        while i < 4
            invariant
                i <= 4,
                self.wf(),
                old(self).wf(),
                cells == cells_of(points),
                in_grid(old(self)@, cells),
                self@ == stamped(old(self)@, cells.take(i as int), shape),
            decreases 4 - i,
        {
            let (x, y): Point = points[i];
            assert(cells[i as int] == (x as int, y as int));
            set_cell(&mut self.rows, x as usize, y as usize, Some(shape));
            proof {
                let done = cells.take(i as int);
                let more = cells.take(i + 1);
                assert forall|c: (int, int)| more.contains(c) <==> done.contains(c) || c == (
                    x as int,
                    y as int,
                ) by {
                    assert(more =~= done.push(cells[i as int]));
                    assert(more[i as int] == cells[i as int]);
                }
                assert(self@ =~~= stamped(old(self)@, more, shape));
            }
            i += 1;
        }
        proof {
            assert(cells.take(4) =~= cells);
            assert(cell_blocked(self@, cells[0]));
        }
    }

    /// Clears the completed rows among those that `points` touch: each such
    /// row is taken out, the rows above it move down, and an empty row is
    /// added on top. A row counts once however many points lie in it. Returns
    /// the number of rows cleared, which is at most four.
    pub fn update_lines(&mut self, points: [Point; 4]) -> (lines: u32)
        requires
            old(self).wf(),
        ensures
            final(self).wf(),
            final(self)@ == cleared(old(self)@, cells_of(points)),
            lines == completed(old(self)@, cells_of(points)).len(),
            lines <= 4,
    {
        let ghost cells = cells_of(points);
        let ghost grid = self@;
        let ghost gone = completed(grid, cells);
        let ghost mut done: Set<int> = Set::empty();
        let mut lines: u32 = 0;
        let mut y: usize = 0;
        assert(self@ =~= without_rows(grid.take(0), gone) + grid.skip(0) + Seq::new(
            0,
            |i: int| empty_row(),
        ));
        while y < ROWS
            invariant
                y <= ROWS,
                lines <= y,
                is_well(grid),
                is_well(self@),
                cells == cells_of(points),
                gone == completed(grid, cells),
                done.finite(),
                done.len() == lines,
                done =~= Set::new(|k: int| 0 <= k < y && gone.contains(k)),
                without_rows(grid.take(y as int), gone).len() == y - lines,
                self@ == without_rows(grid.take(y as int), gone) + grid.skip(y as int) + Seq::new(
                    lines as nat,
                    |i: int| empty_row(),
                ),
            decreases ROWS - y,
        {
            let at: usize = y - lines as usize;
            let ghost kept = without_rows(grid.take(y as int), gone);
            assert(grid.take(y + 1).drop_last() =~= grid.take(y as int));
            if touches_row(&points, y) && is_full(row_at(&self.rows, at)) {
                let _ = rows_remove(&mut self.rows, at);
                let row: Row = [None; WIDTH];
                assert(row@ =~= empty_row());
                rows_push(&mut self.rows, row);
                lines += 1;
                proof {
                    done = done.insert(y as int);
                    assert(self@ =~= kept + grid.skip(y + 1) + Seq::new(
                        lines as nat,
                        |i: int| empty_row(),
                    ));
                }
            }
            y += 1;
        }
        proof {
            assert(done =~= gone);
            lemma_completed_at_most_four(grid, cells);
        }
        lines
    }
}

/// Whether one of the four points lies in row `y`.
fn touches_row(points: &[Point; 4], y: usize) -> (hit: bool)
    ensures
        hit == touches(cells_of(*points), y as int),
{
    let ghost cells = cells_of(*points);
    let mut i: usize = 0;
    while i < 4
        invariant
            i <= 4,
            cells == cells_of(*points),
            forall|k: int| 0 <= k < i ==> (#[trigger] cells[k]).1 != y,
        decreases 4 - i,
    {
        let (_, row): Point = points[i];
        assert(cells[i as int].1 == row);
        if row >= 0 && row as usize == y {
            return true;
        }
        i += 1;
    }
    false
}

/// Whether every cell of `row` is occupied.
fn is_full(row: &Row) -> (full: bool)
    ensures
        full == row_full(row@),
{
    let mut x: usize = 0;
    while x < WIDTH
        invariant
            x <= WIDTH,
            forall|k: int| 0 <= k < x ==> (#[trigger] row@[k]) is Some,
        decreases WIDTH - x,
    {
        if row[x].is_none() {
            return false;
        }
        x += 1;
    }
    true
}

/// Four cells touch at most four rows, so at most four rows are completed at once.
pub proof fn lemma_completed_at_most_four(grid: Grid, cells: Seq<(int, int)>)
    requires
        cells.len() == 4,
    ensures
        completed(grid, cells).finite(),
        completed(grid, cells).len() <= 4,
{
    let touched: Set<int> = set![cells[0].1, cells[1].1, cells[2].1, cells[3].1];
    lemma_len_subset(completed(grid, cells), touched);
}

/// Cells of which one lies outside the walls or below the floor are blocked,
/// whatever the grid holds.
pub proof fn lemma_outside_is_blocked(grid: Grid, cells: Seq<(int, int)>, i: int)
    requires
        0 <= i < cells.len(),
        outside(cells[i]),
    ensures
        blocked(grid, cells),
{
}

/// Right after `shape` was written into cells of the grid, those cells are blocked.
pub proof fn lemma_stamped_is_blocked(grid: Grid, cells: Seq<(int, int)>, shape: Shape)
    requires
        is_well(grid),
        cells.len() > 0,
        in_grid(grid, cells),
    ensures
        blocked(stamped(grid, cells, shape), cells),
{
    assert(cell_blocked(stamped(grid, cells, shape), cells[0]));
}

/// Taking out no row of the grid leaves the grid as it is.
proof fn lemma_without_none(grid: Grid, gone: Set<int>)
    requires
        forall|k: int| 0 <= k < grid.len() ==> !gone.contains(k),
    ensures
        without_rows(grid, gone) == grid,
    decreases grid.len(),
{
    if grid.len() > 0 {
        lemma_without_none(grid.drop_last(), gone);
    }
}

/// Taking out the one row `y` is `Seq::remove` at `y`.
proof fn lemma_without_one(grid: Grid, y: int)
    requires
        0 <= y < grid.len(),
    ensures
        without_rows(grid, set![y]) == grid.remove(y),
    decreases grid.len(),
{
    if y == grid.len() - 1 {
        lemma_without_none(grid.drop_last(), set![y]);
    } else {
        lemma_without_one(grid.drop_last(), y);
    }
}

/// Where exactly one row that `cells` touch is full, clearing counts one row,
/// takes that row out, moves the rows above it down by one and puts an empty
/// row on top; the number of rows stays the same.
pub proof fn lemma_one_line_cleared(grid: Grid, cells: Seq<(int, int)>, y: int)
    requires
        is_well(grid),
        0 <= y < grid.len(),
        touches(cells, y),
        row_full(grid[y]),
        forall|k: int| 0 <= k < grid.len() && k != y && touches(cells, k) ==> !row_full(grid[k]),
    ensures
        completed(grid, cells).len() == 1,
        cleared(grid, cells) == grid.remove(y).push(empty_row()),
        cleared(grid, cells).len() == grid.len(),
{
    assert(completed(grid, cells) =~= set![y]);
    lemma_without_one(grid, y);
}

/// Where exactly one row that `cells` touch is full, and the row above it is
/// empty or there is none, that row is empty after clearing.
pub proof fn lemma_one_line_cleared_leaves_it_empty(grid: Grid, cells: Seq<(int, int)>, y: int)
    requires
        is_well(grid),
        0 <= y < grid.len(),
        touches(cells, y),
        row_full(grid[y]),
        forall|k: int| 0 <= k < grid.len() && k != y && touches(cells, k) ==> !row_full(grid[k]),
        y + 1 < grid.len() ==> grid[y + 1] == empty_row(),
    ensures
        completed(grid, cells).len() == 1,
        cleared(grid, cells).len() == grid.len(),
        cleared(grid, cells)[y] == empty_row(),
{
    lemma_one_line_cleared(grid, cells, y);
}

} // verus!
