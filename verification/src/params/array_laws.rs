//! What the arrays of visibilities, weights, solutions and precisions are for.

use vstd::prelude::*;

use super::cal_vis::CalVis;
use super::cubes::{
    checked_size, is_allocatable, vis_cells, vis_shape, weight_cells, weight_shape, Shape, VisCube,
    VisJones, WeightCube,
};
use super::error::DiCalibrateError;
use super::memory::{addressable, allocate, combine_arrays, is_addressable, try_reserve_exact};
use super::model_frame::{
    frame_cells, frame_shape, weight_frame_cells, weight_frame_shape, ModelFrame, WeightFrame,
};
use super::solutions::{
    precision_columns, precision_rows, solution_cells, solution_shape, PrecisionGrid, SolutionCube,
};
use crate::beam::traits::Jones;
use crate::binary64::Binary64;

verus! {

/// Are all parts of a visibility zero?
pub open spec fn is_zero(vis: VisJones) -> bool {
    forall|i: int| 0 <= i < 8 ==> #[trigger] vis@[i] == 0
}

/// Are these arrays of that shape, with nothing in them?
pub open spec fn are_blank(vis: CalVis, shape: Shape) -> bool {
    &&& vis_shape(vis.vis_data) == shape
    &&& vis_shape(vis.vis_model) == shape
    &&& weight_shape(vis.vis_weights) == shape
    &&& forall|t: int, c: int, b: int|
        #![trigger vis_cells(vis.vis_data)[(t, c, b)]]
        #![trigger vis_cells(vis.vis_model)[(t, c, b)]]
        #![trigger weight_cells(vis.vis_weights)[(t, c, b)]]
        0 <= t < shape.0 && 0 <= c < shape.1 && 0 <= b < shape.2 ==> {
            &&& is_zero(vis_cells(vis.vis_data)[(t, c, b)])
            &&& is_zero(vis_cells(vis.vis_model)[(t, c, b)])
            &&& weight_cells(vis.vis_weights)[(t, c, b)] == 0
        }
}

/// There is memory, unless the machine has none: where no reservation of room for
/// as many visibilities or weights as there are cells is refused, arrays of zeros
/// are had, however large they are.
pub(crate) proof fn lemma_memory_is_refused_by_the_machine_alone(
    shape: Shape,
    num_elems: usize,
    r: Result<CalVis, DiCalibrateError>,
)
    requires
        addressable(shape),
        num_elems == shape.0 * shape.1 * shape.2,
        call_ensures(allocate, (shape,), r),
        forall|v: &mut Vec<VisJones>|
            (*v)@.len() == 0 ==> !#[trigger] call_ensures(
                try_reserve_exact::<VisJones>,
                (v, num_elems),
                false,
            ),
        forall|v: &mut Vec<u32>|
            (*v)@.len() == 0 ==> !#[trigger] call_ensures(
                try_reserve_exact::<u32>,
                (v, num_elems),
                false,
            ),
    ensures
        r matches Ok(vis) && are_blank(vis, shape),
{
    if let Ok(vis) = r {
        lemma_are_blank(vis, shape);
    }
}

/// What is had is blank. What is refused is told in bytes: 32 for each of two
/// visibilities and 4 for a weight, in every cell. Nothing is refused where there
/// is no cell.
pub proof fn lemma_memory_is_blank_or_told(
    shape: Shape,
    r: Result<CalVis, DiCalibrateError>,
)
    requires
        addressable(shape),
        call_ensures(allocate, (shape,), r),
    ensures
        match r {
            Ok(vis) => are_blank(vis, shape),
            Err(e) => {
                &&& e matches DiCalibrateError::InsufficientMemory { need_bytes }
                &&& need_bytes == shape.0 * shape.1 * shape.2 * 68
                &&& shape.0 > 0 && shape.1 > 0 && shape.2 > 0
            },
        },
{
    if let Ok(vis) = r {
        lemma_are_blank(vis, shape);
    } else {
        lemma_cells(shape);
    }
}

proof fn lemma_cells(shape: Shape)
    ensures
        shape.0 * shape.1 * shape.2 > 0 ==> shape.0 > 0 && shape.1 > 0 && shape.2 > 0,
{
    if shape.0 == 0 || shape.1 == 0 || shape.2 == 0 {
        assert(shape.0 * shape.1 * shape.2 == 0) by (nonlinear_arith)
            requires
                shape.0 == 0 || shape.1 == 0 || shape.2 == 0,
        ;
    }
}

pub(crate) proof fn lemma_are_blank(vis: CalVis, shape: Shape)
    requires
        super::memory::is_blank(vis, shape),
    ensures
        are_blank(vis, shape),
{
    assert forall|t: int, c: int, b: int|
        #![trigger vis_cells(vis.vis_data)[(t, c, b)]]
        #![trigger vis_cells(vis.vis_model)[(t, c, b)]]
        #![trigger weight_cells(vis.vis_weights)[(t, c, b)]]
        0 <= t < shape.0 && 0 <= c < shape.1 && 0 <= b < shape.2 implies {
        &&& is_zero(vis_cells(vis.vis_data)[(t, c, b)])
        &&& is_zero(vis_cells(vis.vis_model)[(t, c, b)])
        &&& weight_cells(vis.vis_weights)[(t, c, b)] == 0
    } by {
        assert(super::cubes::in_shape(shape, t, c, b));
    }
}

/// Three arrays make the visibilities, each in its own place; fewer make an error
/// with the bytes that all of them need.
pub proof fn lemma_arrays_have_their_places(
    shape: Shape,
    data: Option<VisCube>,
    model: Option<VisCube>,
    weights: Option<WeightCube>,
    r: Result<CalVis, DiCalibrateError>,
)
    requires
        addressable(shape),
        call_ensures(combine_arrays, (shape, data, model, weights), r),
    ensures
        r is Ok <==> data is Some && model is Some && weights is Some,
        r matches Ok(vis) ==> {
            &&& Some(vis.vis_data) == data
            &&& Some(vis.vis_model) == model
            &&& Some(vis.vis_weights) == weights
        },
        r matches Err(e) ==> (e matches DiCalibrateError::InsufficientMemory { need_bytes }
            && need_bytes == shape.0 * shape.1 * shape.2 * 68),
{
}

/// Could an array of that shape be had, were there no end of memory? Axes without
/// length do not count.
pub open spec fn has_indices(shape: Shape) -> bool {
    let a: int = if shape.0 > 0 {
        shape.0 as int
    } else {
        1
    };
    let b: int = if shape.1 > 0 {
        shape.1 as int
    } else {
        1
    };
    let c: int = if shape.2 > 0 {
        shape.2 as int
    } else {
        1
    };
    a * b * c <= isize::MAX
}

/// Sizes are counted without overflow.
pub proof fn lemma_sizes_are_counted(
    shape: Shape,
    bytes: usize,
    size: Option<usize>,
    fits: bool,
    fits_in_all: bool,
)
    requires
        call_ensures(checked_size, (shape,), size),
        call_ensures(is_allocatable, (shape, bytes), fits),
        call_ensures(is_addressable, (shape,), fits_in_all),
    ensures
        size is Some <==> has_indices(shape),
        size matches Some(n) ==> n == shape.0 * shape.1 * shape.2,
        fits <==> has_indices(shape) && shape.0 * shape.1 * shape.2 * bytes <= isize::MAX,
        fits_in_all <==> has_indices(shape) && shape.0 * shape.1 * shape.2 * 68 <= usize::MAX,
{
}

/// A visibility that is set is there afterwards, and no other has changed. What is
/// outside of a cube can be neither set nor got.
pub proof fn lemma_visibilities_are_kept(
    t: usize,
    c: usize,
    b: usize,
    value: VisJones,
    i: usize,
    j: usize,
    k: usize,
)
    ensures
        forall|cube: &mut VisCube, done: bool, got: Option<VisJones>| #[trigger]
            call_ensures(VisCube::set, (cube, t, c, b, value), done) && #[trigger] call_ensures(
                VisCube::get,
                (&*final(cube), i, j, k),
                got,
            ) ==> {
                let shape = vis_shape(*cube);
                &&& vis_shape(*final(cube)) == shape
                &&& done <==> t < shape.0 && c < shape.1 && b < shape.2
                &&& got is Some <==> i < shape.0 && j < shape.1 && k < shape.2
                &&& done && (i, j, k) == (t, c, b) ==> got == Some(value)
                &&& got is Some && (i, j, k) != (t, c, b) ==> got == Some(
                    vis_cells(*cube)[(i as int, j as int, k as int)],
                )
                &&& !done ==> *final(cube) == *cube
            },
{
}

/// A weight that is set is there afterwards, and no other has changed.
pub proof fn lemma_weights_are_kept(
    t: usize,
    c: usize,
    b: usize,
    value: u32,
    i: usize,
    j: usize,
    k: usize,
)
    ensures
        forall|cube: &mut WeightCube, done: bool, got: Option<u32>| #[trigger]
            call_ensures(WeightCube::set, (cube, t, c, b, value), done) && #[trigger] call_ensures(
                WeightCube::get,
                (&*final(cube), i, j, k),
                got,
            ) ==> {
                let shape = weight_shape(*cube);
                &&& weight_shape(*final(cube)) == shape
                &&& done <==> t < shape.0 && c < shape.1 && b < shape.2
                &&& got is Some <==> i < shape.0 && j < shape.1 && k < shape.2
                &&& done && (i, j, k) == (t, c, b) ==> got == Some(value)
                &&& got is Some && (i, j, k) != (t, c, b) ==> got == Some(
                    weight_cells(*cube)[(i as int, j as int, k as int)],
                )
                &&& !done ==> *final(cube) == *cube
            },
{
}

/// A solution that is set is there afterwards, and no other has changed.
pub proof fn lemma_solutions_are_kept(
    t: usize,
    c: usize,
    b: usize,
    value: Jones,
    i: usize,
    j: usize,
    k: usize,
)
    ensures
        forall|cube: &mut SolutionCube, done: bool, got: Option<Jones>| #[trigger]
            call_ensures(SolutionCube::set, (cube, t, c, b, value), done)
                && #[trigger] call_ensures(SolutionCube::get, (&*final(cube), i, j, k), got) ==> {
                let shape = solution_shape(*cube);
                &&& solution_shape(*final(cube)) == shape
                &&& done <==> t < shape.0 && c < shape.1 && b < shape.2
                &&& got is Some <==> i < shape.0 && j < shape.1 && k < shape.2
                &&& done && (i, j, k) == (t, c, b) ==> got == Some(value)
                &&& got is Some && (i, j, k) != (t, c, b) ==> got == Some(
                    solution_cells(*cube)[(i as int, j as int, k as int)],
                )
                &&& !done ==> *final(cube) == *cube
            },
{
}

/// A visibility that is set in a frame is there afterwards, and no other has
/// changed.
pub proof fn lemma_frames_are_kept(c: usize, b: usize, value: VisJones, j: usize, k: usize)
    ensures
        forall|frame: &mut ModelFrame, done: bool, got: Option<VisJones>| #[trigger]
            call_ensures(ModelFrame::set, (frame, c, b, value), done) && #[trigger] call_ensures(
                ModelFrame::get,
                (&*final(frame), j, k),
                got,
            ) ==> {
                let shape = frame_shape(*frame);
                &&& frame_shape(*final(frame)) == shape
                &&& done <==> c < shape.0 && b < shape.1
                &&& got is Some <==> j < shape.0 && k < shape.1
                &&& done && (j, k) == (c, b) ==> got == Some(value)
                &&& got is Some && (j, k) != (c, b) ==> got == Some(
                    frame_cells(*frame)[(j as int, k as int)],
                )
                &&& !done ==> *final(frame) == *frame
            },
{
}

/// A weight that is set in a frame is there afterwards, and no other has changed.
pub proof fn lemma_weight_frames_are_kept(c: usize, b: usize, value: u32, j: usize, k: usize)
    ensures
        forall|frame: &mut WeightFrame, done: bool, got: Option<u32>| #[trigger]
            call_ensures(WeightFrame::set, (frame, c, b, value), done) && #[trigger] call_ensures(
                WeightFrame::get,
                (&*final(frame), j, k),
                got,
            ) ==> {
                let shape = weight_frame_shape(*frame);
                &&& weight_frame_shape(*final(frame)) == shape
                &&& done <==> c < shape.0 && b < shape.1
                &&& got is Some <==> j < shape.0 && k < shape.1
                &&& done && (j, k) == (c, b) ==> got == Some(value)
                &&& got is Some && (j, k) != (c, b) ==> got == Some(
                    weight_frame_cells(*frame)[(j as int, k as int)],
                )
                &&& !done ==> *final(frame) == *frame
            },
{
}

/// New frames have the shape that was asked for, and nothing in them.
pub proof fn lemma_new_frames_are_blank(
    shape: (usize, usize),
    frame: ModelFrame,
    weights: WeightFrame,
    c: usize,
    b: usize,
    vis: Option<VisJones>,
    weight: Option<u32>,
)
    requires
        call_ensures(ModelFrame::blank, (shape,), frame),
        call_ensures(WeightFrame::blank, (shape,), weights),
        call_ensures(ModelFrame::get, (&frame, c, b), vis),
        call_ensures(WeightFrame::get, (&weights, c, b), weight),
    ensures
        vis is Some <==> c < shape.0 && b < shape.1,
        weight is Some <==> c < shape.0 && b < shape.1,
        vis matches Some(v) ==> is_zero(v),
        weight matches Some(w) ==> w == 0,
{
}

/// Shapes are told as they are.
pub proof fn lemma_shapes_are_told(
    vis: VisCube,
    weights: WeightCube,
    solutions: SolutionCube,
    frame: ModelFrame,
    weight_frame: WeightFrame,
    precisions: PrecisionGrid,
    shapes: (Shape, Shape, Shape, (usize, usize), (usize, usize), (usize, usize)),
)
    requires
        call_ensures(VisCube::shape, (&vis,), shapes.0),
        call_ensures(WeightCube::shape, (&weights,), shapes.1),
        call_ensures(SolutionCube::shape, (&solutions,), shapes.2),
        call_ensures(ModelFrame::shape, (&frame,), shapes.3),
        call_ensures(WeightFrame::shape, (&weight_frame,), shapes.4),
        call_ensures(PrecisionGrid::shape, (&precisions,), shapes.5),
    ensures
        shapes.0 == vis_shape(vis),
        shapes.1 == weight_shape(weights),
        shapes.2 == solution_shape(solutions),
        shapes.3 == frame_shape(frame),
        shapes.4 == weight_frame_shape(weight_frame),
        shapes.5.0 == precision_rows(precisions).len(),
        shapes.5.1 == precision_columns(precisions),
{
}

/// Is this the identity matrix: 1, 0, 0 and 1, without imaginary parts?
pub open spec fn is_identity(jones: Jones) -> bool {
    &&& jones@[0].is_int(1)
    &&& jones@[6].is_int(1)
    &&& forall|i: int| 0 < i < 8 && i != 6 ==> #[trigger] jones@[i].bits == 0
}

pub(crate) proof fn lemma_is_identity(jones: Jones)
    requires
        jones@ == crate::beam::no_beam::spec_identity(),
    ensures
        is_identity(jones),
{
    lemma_one();
}

/// The encoding of 1 encodes 1, and that of 0 encodes 0.
pub proof fn lemma_one()
    ensures
        (Binary64 { bits: crate::binary64::ONE_BITS }).is_int(1),
        (Binary64 { bits: crate::binary64::ZERO_BITS }).is_int(0),
        crate::binary64::ZERO_BITS == 0,
{
    vstd::arithmetic::power2::lemma2_to64_rest();
    crate::binary64::lemma_is_int(Binary64 { bits: crate::binary64::ONE_BITS }, 1, 52);
}

/// New solutions have no effect.
pub proof fn lemma_new_solutions_have_no_effect(
    shape: Shape,
    cube: SolutionCube,
    t: usize,
    i: usize,
    c: usize,
    got: Option<Jones>,
)
    requires
        call_ensures(SolutionCube::identities, (shape,), cube),
        call_ensures(SolutionCube::get, (&cube, t, i, c), got),
    ensures
        got is Some <==> t < shape.0 && i < shape.1 && c < shape.2,
        got matches Some(jones) ==> is_identity(jones),
{
    if let Some(jones) = got {
        lemma_is_identity(jones);
    }
}

/// Precisions are given row after row, and got by row and column.
pub proof fn lemma_precisions_are_kept(
    rows: usize,
    columns: usize,
    values: Vec<Binary64>,
    grid: Option<PrecisionGrid>,
    r: usize,
    c: usize,
)
    requires
        call_ensures(PrecisionGrid::from_shape_vec, (rows, columns, values), grid),
    ensures
        grid is Some <==> rows * columns == values@.len() && rows <= isize::MAX && columns
            <= isize::MAX,
        grid matches Some(g) ==> forall|got: Option<Binary64>| #[trigger]
            call_ensures(PrecisionGrid::get, (&g, r, c), got) ==> {
                &&& got is Some <==> r < rows && c < columns
                &&& got matches Some(v) ==> v == values@[r * columns + c]
            },
{
}

} // verus!
