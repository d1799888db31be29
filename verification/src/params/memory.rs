//! Memory for the visibilities that calibration works on.

use vstd::prelude::*;

use super::cal_vis::{zero_jones, CalVis};
use super::cubes::{
    checked_size, flat_index, in_shape, representable, size, vis_cells, vis_shape, weight_cells,
    weight_shape, Shape, VisCube, VisJones, WeightCube,
};
use super::error::DiCalibrateError;
use super::input::Polarisations;

verus! {

/// The size of a single-precision Jones matrix \[bytes\].
pub const VIS_JONES_BYTES: usize = 32;

/// The size of a weight \[bytes\].
pub const WEIGHT_BYTES: usize = 4;

/// The bytes that a calibration of that shape needs: two arrays of visibilities
/// and one of weights.
pub open spec fn needed_bytes(shape: Shape) -> int {
    size(shape) * (2 * VIS_JONES_BYTES + WEIGHT_BYTES)
}

/// Can a calibration of that shape be asked for at all?
pub open spec fn addressable(shape: Shape) -> bool {
    representable(shape) && needed_bytes(shape) <= usize::MAX
}

/// Can a calibration of that shape be asked for at all?
pub fn is_addressable(shape: Shape) -> (r: bool)
    ensures
        r == addressable(shape),
{
    match checked_size(shape) {
        None => false,
        Some(num_elems) => {
            assert(needed_bytes(shape) == num_elems * (2 * VIS_JONES_BYTES + WEIGHT_BYTES));
            num_elems.checked_mul(2 * VIS_JONES_BYTES + WEIGHT_BYTES).is_some()
        },
    }
}

/// Visibilities, weights and model that are all zero.
pub open spec fn is_blank(cal_vis: CalVis, shape: Shape) -> bool {
    &&& cal_vis.wf()
    &&& vis_shape(cal_vis.vis_data) == shape
    &&& forall|t: int, c: int, b: int| #[trigger]
        in_shape(shape, t, c, b) ==> {
            &&& vis_cells(cal_vis.vis_data)[(t, c, b)]@ == zero_jones()
            &&& vis_cells(cal_vis.vis_model)[(t, c, b)]@ == zero_jones()
            &&& weight_cells(cal_vis.vis_weights)[(t, c, b)] == 0
        }
}

/// `Vec::try_reserve_exact`: room for more elements, if there is any to be had.
/// The elements stay as they are either way. Whether there is room depends on
/// the machine; it is only said that none is needed for no elements.
#[verifier::external_body]
pub(crate) fn try_reserve_exact<T>(v: &mut Vec<T>, additional: usize) -> (done: bool)
    ensures
        final(v)@ == old(v)@,
        additional == 0 ==> done,
{
    v.try_reserve_exact(additional).is_ok()
}

/// Did [`try_reserve_exact`] refuse room for so many elements in an empty list?
pub open(crate) spec fn refused<T>(num_elems: usize) -> bool {
    exists|v: &mut Vec<T>|
        (*v)@.len() == 0 && #[trigger] call_ensures(
            try_reserve_exact::<T>,
            (v, num_elems),
            false,
        )
}

/// Did [`try_reserve_exact`] refuse room for one of the three arrays?
pub open(crate) spec fn refused_for(shape: Shape) -> bool {
    refused::<VisJones>(size(shape) as usize) || refused::<u32>(size(shape) as usize)
}

/// Call a function that makes room in a list.
fn ask_for_room<T, R: Fn(&mut Vec<T>, usize) -> bool>(
    reserve: &R,
    v: &mut Vec<T>,
    num_elems: usize,
) -> (done: bool)
    requires
        forall|v: &mut Vec<T>, n: usize| #[trigger] reserve.requires((v, n)),
    ensures
        exists|w: &mut Vec<T>|
            *w == *old(v) && *final(w) == *final(v) && #[trigger] reserve.ensures(
                (w, num_elems),
                done,
            ),
{
    reserve(v, num_elems)
}

/// An empty list with room for so many elements, unless that is refused.
fn list_with_room<T>(num_elems: usize) -> (r: Option<Vec<T>>)
    ensures
        match r {
            Some(v) => v@.len() == 0,
            None => refused::<T>(num_elems) && num_elems > 0,
        },
{
    let mut v: Vec<T> = Vec::new();
    if ask_for_room(&try_reserve_exact::<T>, &mut v, num_elems) {
        Some(v)
    } else {
        None
    }
}

proof fn lemma_flat_index(shape: Shape, t: int, c: int, b: int)
    requires
        in_shape(shape, t, c, b),
    ensures
        0 <= flat_index(shape, t, c, b) < size(shape),
{
    let (x, y, z) = (shape.0 as int, shape.1 as int, shape.2 as int);
    assert(0 <= t * y + c) by (nonlinear_arith)
        requires
            0 <= t,
            0 <= y,
            0 <= c,
    ;
    assert(t * y + c + 1 <= x * y) by (nonlinear_arith)
        requires
            t + 1 <= x,
            c + 1 <= y,
            0 <= y,
    ;
    assert(0 <= (t * y + c) * z) by (nonlinear_arith)
        requires
            0 <= t * y + c,
            0 <= z,
    ;
    assert((t * y + c) * z + z <= x * y * z) by (nonlinear_arith)
        requires
            t * y + c + 1 <= x * y,
            0 <= z,
    ;
}

/// As many zero visibilities, if there is memory for them.
fn blank_vis(shape: Shape, num_elems: usize) -> (r: Option<VisCube>)
    requires
        representable(shape),
        num_elems == size(shape),
    ensures
        r matches Some(cube) ==> vis_shape(cube) == shape && forall|t: int, c: int, b: int|
            in_shape(shape, t, c, b) ==> (#[trigger] vis_cells(cube)[(t, c, b)])@ == zero_jones(),
        num_elems == 0 ==> r is Some,
        r is None ==> refused::<VisJones>(num_elems),
{
    let mut v: Vec<VisJones> = match list_with_room(num_elems) {
        Some(v) => v,
        None => {
            return None;
        },
    };
    let zero: VisJones = [0; 8];
    assert(zero@ =~= zero_jones());
    let mut i: usize = 0;
    while i < num_elems
        invariant
            i <= num_elems,
            v@.len() == i,
            zero@ == zero_jones(),
            forall|k: int| 0 <= k < i ==> (#[trigger] v@[k])@ == zero_jones(),
        decreases num_elems - i,
    {
        v.push(zero);
        i = i + 1;
    }
    assert forall|t: int, c: int, b: int| in_shape(shape, t, c, b) implies 0 <= #[trigger] flat_index(
        shape,
        t,
        c,
        b,
    ) < size(shape) by {
        lemma_flat_index(shape, t, c, b);
    }
    Some(VisCube::from_shape_vec(shape, v))
}

/// As many zero weights, if there is memory for them.
fn blank_weights(shape: Shape, num_elems: usize) -> (r: Option<WeightCube>)
    requires
        representable(shape),
        num_elems == size(shape),
    ensures
        r matches Some(cube) ==> weight_shape(cube) == shape && forall|t: int, c: int, b: int|
            in_shape(shape, t, c, b) ==> (#[trigger] weight_cells(cube)[(t, c, b)]) == 0,
        num_elems == 0 ==> r is Some,
        r is None ==> refused::<u32>(num_elems),
{
    let mut v: Vec<u32> = match list_with_room(num_elems) {
        Some(v) => v,
        None => {
            return None;
        },
    };
    let mut i: usize = 0;
    while i < num_elems
        invariant
            i <= num_elems,
            v@.len() == i,
            forall|k: int| 0 <= k < i ==> (#[trigger] v@[k]) == 0,
        decreases num_elems - i,
    {
        v.push(0);
        i = i + 1;
    }
    assert forall|t: int, c: int, b: int| in_shape(shape, t, c, b) implies 0 <= #[trigger] flat_index(
        shape,
        t,
        c,
        b,
    ) < size(shape) by {
        lemma_flat_index(shape, t, c, b);
    }
    Some(WeightCube::from_shape_vec(shape, v))
}

/// The number of cells.
fn num_cells(shape: Shape) -> (n: usize)
    requires
        addressable(shape),
    ensures
        n == size(shape),
        n * (2 * VIS_JONES_BYTES + WEIGHT_BYTES) <= usize::MAX,
{
    let (x, y, z) = shape;
    if x == 0 || y == 0 || z == 0 {
        assert(size(shape) == 0) by (nonlinear_arith)
            requires
                size(shape) == shape.0 * shape.1 * shape.2,
                shape.0 == 0 || shape.1 == 0 || shape.2 == 0,
        ;
        return 0;
    }
    assert(0 <= x * y <= x * y * z) by (nonlinear_arith)
        requires
            x > 0,
            y > 0,
            z > 0,
    ;
    x * y * z
}

/// The answer when there is no memory for one of the arrays.
pub open spec fn memory_error(shape: Shape) -> DiCalibrateError {
    // Instead of how many bytes the one array needs, say how many bytes are
    // needed in total.
    DiCalibrateError::InsufficientMemory { need_bytes: needed_bytes(shape) as u64 }
}

/// Put the three arrays together, or say how much memory is needed for them
/// all if there was none for one of them.
pub fn combine_arrays(
    shape: Shape,
    vis_data: Option<VisCube>,
    vis_model: Option<VisCube>,
    vis_weights: Option<WeightCube>,
) -> (r: Result<CalVis, DiCalibrateError>)
    requires
        addressable(shape),
    ensures
        match (vis_data, vis_model, vis_weights) {
            (Some(data), Some(model), Some(weights)) => r == Ok::<CalVis, DiCalibrateError>(
                CalVis {
                    vis_data: data,
                    vis_weights: weights,
                    vis_model: model,
                    pols: Polarisations::XxXyYxYy,
                },
            ),
            _ => r == Err::<CalVis, DiCalibrateError>(memory_error(shape)),
        },
{
    match (vis_data, vis_model, vis_weights) {
        (Some(vis_data), Some(vis_model), Some(vis_weights)) => {
            Ok(CalVis { vis_data, vis_weights, vis_model, pols: Polarisations::default() })
        },
        _ => {
            let num_elems: usize = num_cells(shape);
            let need_bytes: usize = num_elems * (2 * VIS_JONES_BYTES + WEIGHT_BYTES);
            Err(DiCalibrateError::InsufficientMemory { need_bytes: need_bytes as u64 })
        },
    }
}

/// Arrays of zeros for calibration, if there is memory for them: there are, unless
/// room for one of them was refused.
pub fn allocate(shape: Shape) -> (r: Result<CalVis, DiCalibrateError>)
    requires
        addressable(shape),
    ensures
        match r {
            Ok(cal_vis) => is_blank(cal_vis, shape),
            Err(e) => e == memory_error(shape) && size(shape) > 0 && refused_for(shape),
        },
{
    let num_elems: usize = num_cells(shape);
    let vis_data: Option<VisCube> = blank_vis(shape, num_elems);
    let vis_model: Option<VisCube> = if vis_data.is_some() {
        blank_vis(shape, num_elems)
    } else {
        None
    };
    let vis_weights: Option<WeightCube> = if vis_model.is_some() {
        blank_weights(shape, num_elems)
    } else {
        None
    };
    combine_arrays(shape, vis_data, vis_model, vis_weights)
}

} // verus!
