//! Copies of lists.

use vstd::prelude::*;

verus! {

/// A copy of a list of plain values.
pub fn copy_of<T: Copy>(values: &[T]) -> (r: Vec<T>)
    ensures
        r@ == values@,
{
    let mut r: Vec<T> = Vec::new();
    let mut i: usize = 0;
    while i < values.len()
        invariant
            i <= values@.len(),
            r@ =~= values@.subrange(0, i as int),
        decreases values.len() - i,
    {
        r.push(values[i]);
        i = i + 1;
    }
    assert(r@ =~= values@);
    r
}

/// Are there the same values in both, or none in either?
pub open spec fn same_some<T>(a: Option<Vec<T>>, b: Option<Vec<T>>) -> bool {
    match (a, b) {
        (Some(x), Some(y)) => x@ == y@,
        (None, None) => true,
        _ => false,
    }
}

/// A copy of a list of plain values, if there is one.
pub fn copy_of_some<T: Copy>(values: &Option<Vec<T>>) -> (r: Option<Vec<T>>)
    ensures
        same_some(r, *values),
{
    match values {
        Some(v) => Some(copy_of(v.as_slice())),
        None => None,
    }
}

/// A copy has the same values in the same order, and there is one exactly if there
/// are values.
pub proof fn lemma_copies_are_the_same<T: Copy>(
    values: &[T],
    copy: Vec<T>,
    some: Option<Vec<T>>,
    copied: Option<Vec<T>>,
)
    requires
        call_ensures(copy_of::<T>, (values,), copy),
        call_ensures(copy_of_some::<T>, (&some,), copied),
    ensures
        copy@ == values@,
        copied is Some <==> some is Some,
        some matches Some(v) ==> copied->0@ == v@,
{
}

} // verus!
