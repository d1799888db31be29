//! Lists that cannot be empty, `vec1::Vec1`.

use hifitime::Epoch;
use vec1::{Size0Error, Vec1};
use vstd::prelude::*;

use crate::binary64::Binary64;
use crate::params::timeblock::Timeblock;

verus! {

/// `vec1::Vec1`: a `Vec` with at least one element.
#[verifier::external_type_specification]
#[verifier::external_body]
#[verifier::reject_recursive_types(T)]
pub struct ExVec1<T>(Vec1<T>);

/// `vec1::Size0Error`: there was no element.
#[verifier::external_type_specification]
#[verifier::external_body]
pub struct ExSize0Error(Size0Error);

/// The timeblocks in a list.
pub uninterp spec fn timeblocks_of(list: Vec1<Timeblock>) -> Seq<Timeblock>;

/// The quantities in a list.
pub uninterp spec fn quantities_of(list: Vec1<Binary64>) -> Seq<Binary64>;

/// The instants in a list.
pub uninterp spec fn instants_of(list: Vec1<Epoch>) -> Seq<Epoch>;

/// `vec1::Vec1::as_vec`: the underlying `Vec`, which is not empty.
#[verifier::external_body]
pub(crate) fn instants_as_vec(list: &Vec1<Epoch>) -> (r: &Vec<Epoch>)
    ensures
        r@ == instants_of(*list),
        r@.len() > 0,
{
    list.as_vec()
}

/// `vec1::Vec1::try_from_vec`: the same elements, unless there are none.
#[verifier::external_body]
pub(crate) fn instants_try_from_vec(values: Vec<Epoch>) -> (r: Result<Vec1<Epoch>, Size0Error>)
    ensures
        match r {
            Ok(list) => values@.len() > 0 && instants_of(list) == values@,
            Err(_) => values@.len() == 0,
        },
{
    Vec1::try_from_vec(values)
}

/// `vec1::Vec1::as_vec`: the underlying `Vec`, which is not empty.
#[verifier::external_body]
pub(crate) fn timeblocks_as_vec(list: &Vec1<Timeblock>) -> (r: &Vec<Timeblock>)
    ensures
        r@ == timeblocks_of(*list),
        r@.len() > 0,
{
    list.as_vec()
}

/// `vec1::Vec1::as_vec`: the underlying `Vec`, which is not empty.
#[verifier::external_body]
pub(crate) fn quantities_as_vec(list: &Vec1<Binary64>) -> (r: &Vec<Binary64>)
    ensures
        r@ == quantities_of(*list),
        r@.len() > 0,
{
    list.as_vec()
}

/// `vec1::Vec1::new`: the list of one element.
#[verifier::external_body]
pub(crate) fn single_timeblock(timeblock: Timeblock) -> (r: Vec1<Timeblock>)
    ensures
        timeblocks_of(r) == seq![timeblock],
{
    Vec1::new(timeblock)
}

/// `vec1::Vec1::try_from_vec`: the same elements, unless there are none.
#[verifier::external_body]
pub(crate) fn quantities_try_from_vec(values: Vec<Binary64>) -> (r: Result<
    Vec1<Binary64>,
    Size0Error,
>)
    ensures
        match r {
            Ok(list) => values@.len() > 0 && quantities_of(list) == values@,
            Err(_) => values@.len() == 0,
        },
{
    Vec1::try_from_vec(values)
}

} // verus!
