//! Two-dimensional arrays.

use vstd::prelude::*;

verus! {

/// The `rows` rows of `columns` values that lie one after another in `values`.
pub open spec fn rows_of<T>(values: Seq<T>, rows: nat, columns: nat) -> Seq<Seq<T>> {
    Seq::new(rows, |r: int| Seq::new(columns, |c: int| values[r * columns + c]))
}

/// Can an array of that shape be had? What counts are the lengths other than 0.
pub open spec fn grid_representable(rows: usize, columns: usize) -> bool {
    let a = if rows == 0 { 1int } else { rows as int };
    let b = if columns == 0 { 1int } else { columns as int };
    a * b <= isize::MAX
}

/// Can an array of that shape be had, with elements of so many bytes, where its
/// memory has to be asked for?
pub open spec fn grid_allocatable(rows: usize, columns: usize, bytes: int) -> bool {
    grid_representable(rows, columns) && rows * columns * bytes <= isize::MAX
}

} // verus!
