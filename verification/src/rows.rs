//! The storage of the well: a fixed-capacity vector of rows, bottom row first.
//! What this file states of `arrayvec::ArrayVec` is taken on trust from that
//! crate; everything built on it is proved.

use arrayvec::ArrayVec;
use vstd::prelude::*;
use crate::tetrimino::Shape;
use crate::{ROWS, WIDTH};

verus! {

/// One row of the well: for each column, the shape locked there, if any.
pub type Row = [Option<Shape>; WIDTH];

/// `arrayvec::ArrayVec`, a vector of at most `CAP` items stored inline. Its
/// fields are hidden: the verifier knows a value of it only through `rows_of`.
#[verifier::external_type_specification]
#[verifier::external_body]
#[verifier::reject_recursive_types(T)]
pub struct ExArrayVec<T, const CAP: usize>(ArrayVec<T, CAP>);

/// The rows that the vector holds, in index order, each as its sequence of cells.
pub uninterp spec fn rows_of(rows: ArrayVec<Row, ROWS>) -> Seq<Seq<Option<Shape>>>;

/// `ArrayVec::from` on an array of exactly `ROWS` rows: the vector is full and
/// holds the rows of the array in the same order.
#[verifier::external_body]
pub(crate) fn rows_from(grid: [Row; ROWS]) -> (rows: ArrayVec<Row, ROWS>)
    ensures
        rows_of(rows) == grid@.map_values(|row: Row| row@),
{
    ArrayVec::from(grid)
}

/// Indexing through `ArrayVec`'s `Deref` to a slice: the row at index `y`.
/// The index must be below the length; the slice index panics otherwise.
#[verifier::external_body]
pub(crate) fn row_at(rows: &ArrayVec<Row, ROWS>, y: usize) -> (row: &Row)
    requires
        y < rows_of(*rows).len(),
    ensures
        row@ == rows_of(*rows)[y as int],
{
    &rows[y]
}

/// Assignment through `ArrayVec`'s `DerefMut` to a slice: the cell in column
/// `x` of the row at index `y` becomes `cell`, and nothing else changes.
#[verifier::external_body]
pub(crate) fn set_cell(rows: &mut ArrayVec<Row, ROWS>, x: usize, y: usize, cell: Option<Shape>)
    requires
        y < rows_of(*old(rows)).len(),
        x < WIDTH,
    ensures
        rows_of(*final(rows)) == rows_of(*old(rows)).update(
            y as int,
            rows_of(*old(rows))[y as int].update(x as int, cell),
        ),
{
    rows[y][x] = cell;
}

/// `ArrayVec::remove`: takes out the row at `index` and shifts the rows above
/// it down by one. The index must be below the length; `remove` panics otherwise.
#[verifier::external_body]
pub(crate) fn rows_remove(rows: &mut ArrayVec<Row, ROWS>, index: usize) -> (row: Row)
    requires
        index < rows_of(*old(rows)).len(),
    ensures
        rows_of(*final(rows)) == rows_of(*old(rows)).remove(index as int),
        row@ == rows_of(*old(rows))[index as int],
{
    rows.remove(index)
}

/// `ArrayVec::push`: appends `row` after the last row. The vector must not be
/// full; `push` panics otherwise.
#[verifier::external_body]
pub(crate) fn rows_push(rows: &mut ArrayVec<Row, ROWS>, row: Row)
    requires
        rows_of(*old(rows)).len() < ROWS,
    ensures
        rows_of(*final(rows)) == rows_of(*old(rows)).push(row@),
{
    rows.push(row)
}

} // verus!
