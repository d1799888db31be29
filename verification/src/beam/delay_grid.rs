//! Dipole delays of all tiles, in a two-dimensional array.

use vstd::prelude::*;

use crate::arrays::rows_of;

verus! {

/// Dipole delays with a row for each tile, in an `ndarray::Array2`.
#[derive(Debug)]
#[verifier::external_body]
pub struct DelayGrid {
    inner: ndarray::Array2<u32>,
}

/// The rows of a grid.
pub uninterp spec fn delay_rows(grid: DelayGrid) -> Seq<Seq<u32>>;

/// The number of columns of a grid, which it has without any row too.
pub uninterp spec fn delay_columns(grid: DelayGrid) -> nat;

/// All rows of a grid are as long as it has columns.
pub open spec fn rectangular(grid: DelayGrid) -> bool {
    forall|r: int|
        0 <= r < delay_rows(grid).len() ==> (#[trigger] delay_rows(grid)[r]).len() == delay_columns(
            grid,
        )
}

/// `ndarray::Array2::from_shape_vec` with a shape that matches the values: the
/// rows of the array are the values, row after row.
#[verifier::external_body]
fn array_from_shape_vec(rows: usize, columns: usize, values: Vec<u32>) -> (grid: DelayGrid)
    requires
        rows * columns == values@.len(),
        rows <= isize::MAX,
        columns <= isize::MAX,
    ensures
        delay_rows(grid) == rows_of(values@, rows as nat, columns as nat),
        delay_columns(grid) == columns,
{
    DelayGrid { inner: ndarray::Array2::from_shape_vec((rows, columns), values).unwrap() }
}

/// `ndarray::ArrayBase::clone`: an array of the same shape with the same values.
#[verifier::external_body]
fn array_clone(grid: &DelayGrid) -> (r: DelayGrid)
    ensures
        delay_rows(r) == delay_rows(*grid),
        delay_columns(r) == delay_columns(*grid),
{
    DelayGrid { inner: grid.inner.clone() }
}

impl Clone for DelayGrid {
    fn clone(&self) -> (r: Self)
        ensures
            delay_rows(r) == delay_rows(*self),
            delay_columns(r) == delay_columns(*self),
    {
        array_clone(self)
    }
}

impl DelayGrid {
    /// A grid of `rows` by `columns` delays, given row after row. There is none
    /// where the shape asks for another number of values.
    pub fn from_shape_vec(rows: usize, columns: usize, values: Vec<u32>) -> (grid: Option<
        DelayGrid,
    >)
        ensures
            grid is Some <==> rows * columns == values@.len() && rows <= isize::MAX && columns
                <= isize::MAX,
            grid matches Some(g) ==> {
                &&& delay_rows(g) == rows_of(values@, rows as nat, columns as nat)
                &&& delay_columns(g) == columns
                &&& rectangular(g)
            },
    {
        let limit: usize = isize::MAX as usize;
        let len: usize = values.len();
        match rows.checked_mul(columns) {
            Some(size) => if size == len && rows <= limit && columns <= limit {
                Some(array_from_shape_vec(rows, columns, values))
            } else {
                None
            },
            None => None,
        }
    }

    /// The delay of one dipole of one tile, where the grid has it.
    pub fn delay(&self, row: usize, column: usize) -> (delay: Option<u32>)
        ensures
            delay == (if row < delay_rows(*self).len() && column < delay_columns(*self) {
                Some(delay_rows(*self)[row as int][column as int])
            } else {
                None
            }),
    {
        let (rows, columns) = self.shape();
        if row < rows && column < columns {
            Some(self.get(row, column))
        } else {
            None
        }
    }

    /// `ndarray::ArrayBase::dim`: the numbers of rows and columns, every row
    /// being as long as there are columns.
    #[verifier::external_body]
    pub(crate) fn shape(&self) -> (shape: (usize, usize))
        ensures
            shape.0 == delay_rows(*self).len(),
            shape.1 == delay_columns(*self),
            forall|r: int|
                0 <= r < shape.0 ==> (#[trigger] delay_rows(*self)[r]).len() == shape.1,
    {
        self.inner.dim()
    }

    /// `ndarray`'s indexing by row and column.
    #[verifier::external_body]
    pub(crate) fn get(&self, row: usize, column: usize) -> (delay: u32)
        requires
            row < delay_rows(*self).len(),
            column < delay_columns(*self),
        ensures
            delay == delay_rows(*self)[row as int][column as int],
    {
        self.inner[[row, column]]
    }

    /// `ndarray::ArrayBase::assign` on one row, with as many values as the grid
    /// has columns: the row becomes these values and nothing else changes.
    #[verifier::external_body]
    pub(crate) fn assign_row(&mut self, row: usize, values: &[u32; 16])
        requires
            row < delay_rows(*old(self)).len(),
            delay_columns(*old(self)) == 16,
        ensures
            delay_rows(*final(self)) == delay_rows(*old(self)).update(row as int, values@),
            delay_columns(*final(self)) == delay_columns(*old(self)),
    {
        self.inner.row_mut(row).assign(&ndarray::ArrayView1::from(values));
    }
}

} // verus!
