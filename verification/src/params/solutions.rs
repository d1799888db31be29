//! Calibration solutions while they are being gathered.

use ndarray::{Array2, Array3, Axis};
use vec1::Vec1;
use vstd::prelude::*;

use super::cubes::{allocatable, in_shape, Shape};
use super::input::Chanblock;
use super::timeblock::Timeblock;
use crate::arrays::rows_of;
use crate::beam::no_beam::{identity, spec_identity};
use crate::beam::traits::{Jones, JONES_BYTES};
use crate::binary64::Binary64;

verus! {

/// Solutions by timeblock, tile and chanblock, in an `ndarray::Array3`.
#[derive(Debug)]
#[verifier::external_body]
pub struct SolutionCube {
    inner: Array3<[Binary64; 8]>,
}

/// The numbers of timeblocks, tiles and chanblocks.
pub uninterp spec fn solution_shape(cube: SolutionCube) -> (usize, usize, usize);

/// The solutions of a cube.
pub uninterp spec fn solution_cells(cube: SolutionCube) -> Map<(int, int, int), [Binary64; 8]>;

impl SolutionCube {
    /// Solutions without effect.
    pub fn identities(shape: Shape) -> (cube: SolutionCube)
        requires
            allocatable(shape, JONES_BYTES as int),
        ensures
            solution_shape(cube) == shape,
            forall|t: int, i: int, c: int|
                in_shape(shape, t, i, c) ==> (#[trigger] solution_cells(cube)[(t, i, c)])@
                    == spec_identity(),
    {
        SolutionCube::from_elem(shape, identity())
    }

    /// The numbers of timeblocks, tiles and chanblocks.
    pub fn shape(&self) -> (shape: Shape)
        ensures
            shape == solution_shape(*self),
    {
        self.dim()
    }

    /// The solution of a timeblock, tile and chanblock, where there is one.
    pub fn get(&self, timeblock: usize, tile: usize, chanblock: usize) -> (value: Option<Jones>)
        ensures
            value == (if in_shape(
                solution_shape(*self),
                timeblock as int,
                tile as int,
                chanblock as int,
            ) {
                Some(solution_cells(*self)[(timeblock as int, tile as int, chanblock as int)])
            } else {
                None
            }),
    {
        let (timeblocks, tiles, chanblocks) = self.dim();
        if timeblock < timeblocks && tile < tiles && chanblock < chanblocks {
            Some(self.cell(timeblock, tile, chanblock))
        } else {
            None
        }
    }

    /// Set the solution of a timeblock, tile and chanblock, where there is one;
    /// tell whether there is.
    pub fn set(&mut self, timeblock: usize, tile: usize, chanblock: usize, value: Jones) -> (done:
        bool)
        ensures
            done == in_shape(
                solution_shape(*old(self)),
                timeblock as int,
                tile as int,
                chanblock as int,
            ),
            solution_shape(*final(self)) == solution_shape(*old(self)),
            done ==> solution_cells(*final(self)) == solution_cells(*old(self)).insert(
                (timeblock as int, tile as int, chanblock as int),
                value,
            ),
            !done ==> *final(self) == *old(self),
    {
        let (timeblocks, tiles, chanblocks) = self.dim();
        if timeblock < timeblocks && tile < tiles && chanblock < chanblocks {
            self.set_cell(timeblock, tile, chanblock, value);
            true
        } else {
            false
        }
    }

    /// `ndarray::Array3::from_elem`: the same value everywhere.
    #[verifier::external_body]
    fn from_elem(shape: Shape, value: Jones) -> (cube: SolutionCube)
        requires
            allocatable(shape, JONES_BYTES as int),
        ensures
            solution_shape(cube) == shape,
            forall|t: int, i: int, c: int|
                in_shape(shape, t, i, c) ==> #[trigger] solution_cells(cube)[(t, i, c)] == value,
    {
        SolutionCube { inner: Array3::from_elem(shape, value) }
    }

    /// `ndarray::ArrayBase::dim`: the shape.
    #[verifier::external_body]
    fn dim(&self) -> (shape: Shape)
        ensures
            shape == solution_shape(*self),
    {
        self.inner.dim()
    }

    /// `ndarray`'s indexing.
    #[verifier::external_body]
    fn cell(&self, timeblock: usize, tile: usize, chanblock: usize) -> (value: Jones)
        requires
            in_shape(
                solution_shape(*self),
                timeblock as int,
                tile as int,
                chanblock as int,
            ),
        ensures
            value == solution_cells(*self)[(timeblock as int, tile as int, chanblock as int)],
    {
        self.inner[[timeblock, tile, chanblock]]
    }

    /// `ndarray`'s indexing, to write: one solution changes and nothing else.
    #[verifier::external_body]
    fn set_cell(&mut self, timeblock: usize, tile: usize, chanblock: usize, value: Jones)
        requires
            in_shape(
                solution_shape(*old(self)),
                timeblock as int,
                tile as int,
                chanblock as int,
            ),
        ensures
            solution_shape(*final(self)) == solution_shape(*old(self)),
            solution_cells(*final(self)) == solution_cells(*old(self)).insert(
                (timeblock as int, tile as int, chanblock as int),
                value,
            ),
    {
        self.inner[[timeblock, tile, chanblock]] = value;
    }

    /// `ndarray::ArrayBase::index_axis_mut` and `ndarray::ArrayBase::assign`:
    /// the solutions of timeblock `index` become those of the first timeblock
    /// of `other`, which has the same tiles and chanblocks, and those of other
    /// timeblocks stay.
    #[verifier::external_body]
    pub(crate) fn assign_timeblock(&mut self, index: usize, other: &SolutionCube)
        requires
            index < solution_shape(*old(self)).0,
            0 < solution_shape(*other).0,
            solution_shape(*other).1 == solution_shape(*old(self)).1,
            solution_shape(*other).2 == solution_shape(*old(self)).2,
        ensures
            solution_shape(*final(self)) == solution_shape(*old(self)),
            forall|t: int, i: int, c: int|
                in_shape(solution_shape(*final(self)), t, i, c) ==> #[trigger] solution_cells(
                    *final(self),
                )[(t, i, c)] == if t == index {
                    solution_cells(*other)[(0, i, c)]
                } else {
                    solution_cells(*old(self))[(t, i, c)]
                },
    {
        self.inner.index_axis_mut(Axis(0), index).assign(&other.inner.index_axis(Axis(0), 0));
    }
}

/// The precision that calibration reached, by timeblock and chanblock, in an
/// `ndarray::Array2`.
#[derive(Debug)]
#[verifier::external_body]
pub struct PrecisionGrid {
    inner: Array2<Binary64>,
}

/// The precisions of each timeblock.
pub uninterp spec fn precision_rows(grid: PrecisionGrid) -> Seq<Seq<Binary64>>;

/// The number of chanblocks, which a grid has without any timeblock too.
pub uninterp spec fn precision_columns(grid: PrecisionGrid) -> nat;

impl PrecisionGrid {
    /// The precisions of `rows` timeblocks of `columns` chanblocks, given
    /// timeblock after timeblock. There are none where the shape asks for
    /// another number of values.
    pub fn from_shape_vec(rows: usize, columns: usize, values: Vec<Binary64>) -> (grid: Option<
        PrecisionGrid,
    >)
        ensures
            grid is Some <==> rows * columns == values@.len() && rows <= isize::MAX && columns
                <= isize::MAX,
            grid matches Some(g) ==> precision_rows(g) == rows_of(
                values@,
                rows as nat,
                columns as nat,
            ) && precision_columns(g) == columns,
    {
        let limit: usize = isize::MAX as usize;
        let len: usize = values.len();
        match rows.checked_mul(columns) {
            Some(size) => if size == len && rows <= limit && columns <= limit {
                Some(PrecisionGrid::array_from_shape_vec(rows, columns, values))
            } else {
                None
            },
            None => None,
        }
    }

    /// The numbers of timeblocks and chanblocks.
    pub fn shape(&self) -> (shape: (usize, usize))
        ensures
            shape.0 == precision_rows(*self).len(),
            shape.1 == precision_columns(*self),
    {
        self.dim()
    }

    /// The precision of a timeblock and chanblock, where there is one.
    pub fn get(&self, timeblock: usize, chanblock: usize) -> (value: Option<Binary64>)
        ensures
            value == (if timeblock < precision_rows(*self).len() && chanblock < precision_columns(
                *self,
            ) {
                Some(precision_rows(*self)[timeblock as int][chanblock as int])
            } else {
                None
            }),
    {
        let (rows, columns) = self.dim();
        if timeblock < rows && chanblock < columns {
            Some(self.cell(timeblock, chanblock))
        } else {
            None
        }
    }

    /// `ndarray::Array2::from_shape_vec` with a shape that matches the values:
    /// the rows of the array are the values, row after row.
    #[verifier::external_body]
    pub(crate) fn array_from_shape_vec(rows: usize, columns: usize, values: Vec<Binary64>) -> (grid:
        PrecisionGrid)
        requires
            rows * columns == values@.len(),
            rows <= isize::MAX,
            columns <= isize::MAX,
        ensures
            precision_rows(grid) == rows_of(values@, rows as nat, columns as nat),
            precision_columns(grid) == columns,
    {
        PrecisionGrid { inner: Array2::from_shape_vec((rows, columns), values).unwrap() }
    }

    /// `ndarray::ArrayBase::dim`: the numbers of rows and columns.
    #[verifier::external_body]
    fn dim(&self) -> (shape: (usize, usize))
        ensures
            shape.0 == precision_rows(*self).len(),
            shape.1 == precision_columns(*self),
    {
        self.inner.dim()
    }

    /// `ndarray`'s indexing by row and column.
    #[verifier::external_body]
    fn cell(&self, row: usize, column: usize) -> (value: Binary64)
        requires
            row < precision_rows(*self).len(),
            column < precision_columns(*self),
        ensures
            value == precision_rows(*self)[row as int][column as int],
    {
        self.inner[[row, column]]
    }

    /// `ndarray::Array2::into_raw_vec_and_offset`: the elements as they are
    /// stored. A grid is only ever made from rows that lie one after another
    /// and is not sliced after that, so these are its rows in the same order.
    #[verifier::external_body]
    pub(crate) fn into_raw_vec(self) -> (values: Vec<Binary64>)
        ensures
            values@.len() == precision_rows(self).len() * precision_columns(self),
            precision_rows(self) == rows_of(
                values@,
                precision_rows(self).len(),
                precision_columns(self),
            ),
    {
        self.inner.into_raw_vec_and_offset().0
    }
}

/// Calibration solutions that still lack what the observation is about.
#[derive(Debug)]
pub struct IncompleteSolutions<'a> {
    pub di_jones: SolutionCube,
    pub timeblocks: &'a Vec1<Timeblock>,
    pub chanblocks: &'a Vec<Chanblock>,
    pub max_iterations: u32,
    pub stop_threshold: Binary64,
    pub min_threshold: Binary64,
}

} // verus!
