//! What calibration is for.

use std::ops::Range;
use vec1::Vec1;
use vstd::prelude::*;

use super::array_laws::{are_blank, is_identity, is_zero, lemma_are_blank, lemma_one};
use super::cal_vis::{weighted, weights_view, CalVis};
use super::cubes::{in_shape, vis_cells, vis_shape, weight_cells, Shape, VisJones};
use super::di_calibration::{last_at, outcomes_of, DiCalParams, Outcomes, Stage};
use super::error::DiCalibrateError;
use super::input::Chanblock;
use super::memory::{is_blank, refused_for, try_reserve_exact};
use super::solutions::{
    precision_rows, solution_cells, solution_shape, IncompleteSolutions, PrecisionGrid,
    SolutionCube,
};
use super::threads::ThreadResults;
use super::timeblock::Timeblock;
use crate::binary64::Binary64;
use crate::non_empty::{quantities_of, timeblocks_of};

verus! {

/// Is a weight above 0? One that is not a number is not at most 0 either, and
/// counts as above.
pub open spec fn is_above_zero(weight: Binary64) -> bool {
    weight.spec_is_nan() || weight.value() > 0
}

/// Are a visibility and its model multiplied by a weight above 0, and flagged
/// under any other?
pub open spec fn multiplies<S: Fn(VisJones, Binary64) -> VisJones>(
    scale: S,
    weight: Binary64,
    data: VisJones,
    model: VisJones,
    data_after: VisJones,
    model_after: VisJones,
) -> bool {
    &&& is_above_zero(weight) ==> scale.ensures((data, weight), data_after) && scale.ensures(
        (model, weight),
        model_after,
    )
    &&& !is_above_zero(weight) ==> is_zero(data_after) && is_zero(model_after)
}

/// Is the weight of a cell its own, multiplied by that of its baseline? Without
/// baseline weights, all of them are 1.
pub open spec fn is_the_weight<P: Fn(u32, Binary64) -> Binary64>(
    product: P,
    baseline_weights: Option<Seq<Binary64>>,
    own: u32,
    b: int,
    weight: Binary64,
) -> bool {
    &&& baseline_weights matches Some(weights) ==> product.ensures((own, weights[b]), weight)
    &&& baseline_weights is None ==> exists|one: Binary64|
        one.is_int(1) && #[trigger] product.ensures((own, one), weight)
}

/// Is cell (t, c, b) multiplied by its weight, in data and model alike?
pub open spec fn cell_is_weighted<
    P: Fn(u32, Binary64) -> Binary64,
    S: Fn(VisJones, Binary64) -> VisJones,
>(
    before: CalVis,
    after: CalVis,
    baseline_weights: Option<Seq<Binary64>>,
    product: P,
    scale: S,
    t: int,
    c: int,
    b: int,
) -> bool {
    exists|weight: Binary64|
        {
            &&& is_the_weight(
                product,
                baseline_weights,
                weight_cells(before.vis_weights)[(t, c, b)],
                b,
                weight,
            )
            &&& #[trigger] multiplies(
                scale,
                weight,
                vis_cells(before.vis_data)[(t, c, b)],
                vis_cells(before.vis_model)[(t, c, b)],
                vis_cells(after.vis_data)[(t, c, b)],
                vis_cells(after.vis_model)[(t, c, b)],
            )
        }
}

/// Are all cells multiplied by their weights, and is nothing else changed?
pub open spec fn are_weighted<
    P: Fn(u32, Binary64) -> Binary64,
    S: Fn(VisJones, Binary64) -> VisJones,
>(
    before: CalVis,
    after: CalVis,
    baseline_weights: Option<Seq<Binary64>>,
    product: P,
    scale: S,
) -> bool {
    let shape = vis_shape(before.vis_data);
    &&& vis_shape(after.vis_data) == shape
    &&& vis_shape(after.vis_model) == shape
    &&& after.vis_weights == before.vis_weights
    &&& forall|t: int, c: int, b: int|
        0 <= t < shape.0 && 0 <= c < shape.1 && 0 <= b < shape.2 ==> #[trigger] cell_is_weighted(
            before,
            after,
            baseline_weights,
            product,
            scale,
            t,
            c,
            b,
        )
}

/// Every visibility, of the data and of the model, is multiplied by its weight and
/// that of its baseline where their product is above 0, whatever its size, and
/// becomes zero where it is not. The weights and polarisations stay.
pub proof fn lemma_visibilities_are_weighted<
    P: Fn(u32, Binary64) -> Binary64,
    S: Fn(VisJones, Binary64) -> VisJones,
>(baseline_weights: Option<&Vec<Binary64>>, product: P, scale: S)
    ensures
        forall|vis: &mut CalVis| #[trigger]
            call_ensures(
                CalVis::scale_by_weights::<P, S>,
                (vis, baseline_weights, &product, &scale),
                (),
            ) ==> {
                &&& are_weighted(
                    *vis,
                    *final(vis),
                    match baseline_weights {
                        Some(w) => Some(w@),
                        None => None,
                    },
                    product,
                    scale,
                )
                &&& final(vis).pols == vis.pols
            },
{
    assert forall|vis: &mut CalVis| #[trigger]
        call_ensures(
            CalVis::scale_by_weights::<P, S>,
            (vis, baseline_weights, &product, &scale),
            (),
        ) implies are_weighted(
        *vis,
        *final(vis),
        weights_view(baseline_weights),
        product,
        scale,
    ) by {
        lemma_are_weighted(*vis, *final(vis), weights_view(baseline_weights), product, scale);
    }
}

proof fn lemma_are_weighted<
    P: Fn(u32, Binary64) -> Binary64,
    S: Fn(VisJones, Binary64) -> VisJones,
>(
    before: CalVis,
    after: CalVis,
    baseline_weights: Option<Seq<Binary64>>,
    product: P,
    scale: S,
)
    requires
        after.scaled_from(before, baseline_weights, product, scale),
    ensures
        are_weighted(before, after, baseline_weights, product, scale),
{
    let shape = vis_shape(before.vis_data);
    lemma_one();
    assert forall|t: int, c: int, b: int|
        0 <= t < shape.0 && 0 <= c < shape.1 && 0 <= b < shape.2 implies
        #[trigger] cell_is_weighted(
        before,
        after,
        baseline_weights,
        product,
        scale,
        t,
        c,
        b,
    ) by {
        assert(in_shape(shape, t, c, b));
        assert(after.scaled_cell(before, baseline_weights, product, scale, t, c, b));
        let weight = choose|weight: Binary64|
            {
                &&& product.ensures(
                    (
                        weight_cells(before.vis_weights)[(t, c, b)],
                        super::cal_vis::baseline_weight(baseline_weights, b),
                    ),
                    weight,
                )
                &&& #[trigger] weighted(
                    scale,
                    weight,
                    vis_cells(before.vis_data)[(t, c, b)],
                    vis_cells(after.vis_data)[(t, c, b)],
                )
                &&& weighted(
                    scale,
                    weight,
                    vis_cells(before.vis_model)[(t, c, b)],
                    vis_cells(after.vis_model)[(t, c, b)],
                )
            };
        assert(multiplies(
            scale,
            weight,
            vis_cells(before.vis_data)[(t, c, b)],
            vis_cells(before.vis_model)[(t, c, b)],
            vis_cells(after.vis_data)[(t, c, b)],
            vis_cells(after.vis_model)[(t, c, b)],
        ));
    }
}

/// The first error of the threads, in the order of reading, modelling and writing.
pub open spec fn is_the_first_error(results: ThreadResults, e: DiCalibrateError) -> bool {
    match (results.read, results.model, results.write) {
        (Err(text), _, _) => e == DiCalibrateError::VisRead(text),
        (Ok(_), Err(text), _) => e == DiCalibrateError::Model(text),
        (Ok(_), Ok(_), Err(text)) => e == DiCalibrateError::VisWrite(text),
        _ => false,
    }
}

/// Did no thread fail?
pub open spec fn all_succeeded(results: ThreadResults) -> bool {
    results.read is Ok && results.model is Ok && results.write is Ok
}

/// What the threads report is joined to the first error, if there is any.
pub proof fn lemma_the_first_error_is_reported(
    results: ThreadResults,
    r: Result<(), DiCalibrateError>,
)
    requires
        call_ensures(ThreadResults::join, (results,), r),
    ensures
        r is Ok <==> all_succeeded(results),
        r matches Err(e) ==> is_the_first_error(results, e),
{
}

/// Is this what comes of arrays that the threads left like that: the first error,
/// or the weighted visibilities with the polarisations of the observation?
pub open spec fn comes_of_filled<
    P: Fn(u32, Binary64) -> Binary64,
    S: Fn(VisJones, Binary64) -> VisJones,
>(
    params: DiCalParams,
    filled: CalVis,
    results: ThreadResults,
    product: P,
    scale: S,
    r: Result<CalVis, DiCalibrateError>,
) -> bool {
    match r {
        Ok(vis) => {
            &&& all_succeeded(results)
            &&& are_weighted(
                filled,
                vis,
                Some(quantities_of(params.baseline_weights)),
                product,
                scale,
            )
            &&& vis.pols == params.input_vis_params.polarisations
        },
        Err(e) => is_the_first_error(results, e),
    }
}

/// Filled arrays are weighted, unless a thread failed.
pub proof fn lemma_filled_arrays_are_finished<
    P: Fn(u32, Binary64) -> Binary64,
    S: Fn(VisJones, Binary64) -> VisJones,
>(
    params: DiCalParams,
    filled: CalVis,
    results: ThreadResults,
    product: P,
    scale: S,
    r: Result<CalVis, DiCalibrateError>,
)
    requires
        call_ensures(
            DiCalParams::finish::<P, S>,
            (&params, filled, results, &product, &scale),
            r,
        ),
    ensures
        comes_of_filled(params, filled, results, product, scale, r),
{
    lemma_finished(params, filled, results, product, scale, r);
}

proof fn lemma_finished<
    P: Fn(u32, Binary64) -> Binary64,
    S: Fn(VisJones, Binary64) -> VisJones,
>(
    params: DiCalParams,
    filled: CalVis,
    results: ThreadResults,
    product: P,
    scale: S,
    r: Result<CalVis, DiCalibrateError>,
)
    requires
        params.filled((filled, results), product, scale, r),
    ensures
        comes_of_filled(params, filled, results, product, scale, r),
{
    if let Ok(vis) = r {
        let weights = Some(quantities_of(params.baseline_weights));
        let with_pols = filled.with_pols(params.input_vis_params.polarisations);
        lemma_are_weighted(with_pols, vis, weights, product, scale);
        let shape = vis_shape(filled.vis_data);
        assert forall|t: int, c: int, b: int|
            0 <= t < shape.0 && 0 <= c < shape.1 && 0 <= b < shape.2 implies
            #[trigger] cell_is_weighted(filled, vis, weights, product, scale, t, c, b) by {
            assert(cell_is_weighted(with_pols, vis, weights, product, scale, t, c, b));
            let weight = choose|weight: Binary64|
                {
                    &&& is_the_weight(
                        product,
                        weights,
                        weight_cells(with_pols.vis_weights)[(t, c, b)],
                        b,
                        weight,
                    )
                    &&& #[trigger] multiplies(
                        scale,
                        weight,
                        vis_cells(with_pols.vis_data)[(t, c, b)],
                        vis_cells(with_pols.vis_model)[(t, c, b)],
                        vis_cells(vis.vis_data)[(t, c, b)],
                        vis_cells(vis.vis_model)[(t, c, b)],
                    )
                };
            assert(multiplies(
                scale,
                weight,
                vis_cells(filled.vis_data)[(t, c, b)],
                vis_cells(filled.vis_model)[(t, c, b)],
                vis_cells(vis.vis_data)[(t, c, b)],
                vis_cells(vis.vis_model)[(t, c, b)],
            ));
        }
    }
}

/// Auto-correlations are modelled exactly if the data have them and they are
/// written out.
pub open spec fn wants_autos(params: DiCalParams) -> bool {
    match params.output_model_vis_params {
        Some(output) => output.output_autos && params.input_vis_params.using_autos,
        None => false,
    }
}

/// [`wants_autos`] is what is answered.
pub proof fn lemma_when_autos_are_modelled(params: DiCalParams, r: bool)
    requires
        call_ensures(DiCalParams::using_autos, (&params,), r),
    ensures
        r == wants_autos(params),
{
}

/// Is this the shape of the data of `n` timeblocks: all channels, and a baseline
/// for each two unflagged tiles?
pub open spec fn is_the_shape(params: DiCalParams, n: int, shape: Shape) -> bool {
    let tiles = params.input_vis_params.spec_num_unflagged_tiles();
    &&& shape.0 == n
    &&& shape.1 == params.input_vis_params.chanblocks@.len()
    &&& 2 * shape.2 == tiles * (tiles - 1)
}

/// Does a result come of filling arrays with a range of timeblocks?
pub open spec fn comes_of_loading_into<
    L: Fn(CalVis, usize, usize, bool) -> (CalVis, ThreadResults),
    P: Fn(u32, Binary64) -> Binary64,
    S: Fn(VisJones, Binary64) -> VisJones,
>(
    params: DiCalParams,
    start: usize,
    end: usize,
    arrays: CalVis,
    load: L,
    product: P,
    scale: S,
    r: Result<CalVis, DiCalibrateError>,
) -> bool {
    exists|out: (CalVis, ThreadResults)|
        {
            &&& #[trigger] load.ensures((arrays, start, end, wants_autos(params)), out)
            &&& comes_of_filled(params, out.0, out.1, product, scale, r)
        }
}

/// Arrays that were had are filled with the range that is asked for, and weighted;
/// without arrays, it is told why there are none.
pub proof fn lemma_arrays_are_filled<
    L: Fn(CalVis, usize, usize, bool) -> (CalVis, ThreadResults),
    P: Fn(u32, Binary64) -> Binary64,
    S: Fn(VisJones, Binary64) -> VisJones,
>(
    params: DiCalParams,
    range: Range<usize>,
    allocated: Result<CalVis, DiCalibrateError>,
    load: L,
    product: P,
    scale: S,
    r: Result<CalVis, DiCalibrateError>,
)
    requires
        call_ensures(
            DiCalParams::load_into::<L, P, S>,
            (&params, range, allocated, &load, &product, &scale),
            r,
        ),
    ensures
        match allocated {
            Err(e) => r == Err::<CalVis, DiCalibrateError>(e),
            Ok(arrays) => comes_of_loading_into(
                params,
                range.start,
                range.end,
                arrays,
                load,
                product,
                scale,
                r,
            ),
        },
{
    if let Ok(arrays) = allocated {
        let out = choose|out: (CalVis, ThreadResults)|
            {
                &&& #[trigger] load.ensures(
                    (arrays, range.start, range.end, params.models_autos()),
                    out,
                )
                &&& params.filled(out, product, scale, r)
            };
        assert(params.models_autos() == wants_autos(params));
        assert(load.ensures((arrays, range.start, range.end, wants_autos(params)), out));
        assert(out == (out.0, out.1));
        lemma_finished(params, out.0, out.1, product, scale, r);
    }
}

/// Does a result come of loading a range of timeblocks of input data? There is
/// nothing to load for an empty range. Otherwise blank arrays of the right shape
/// are filled and weighted, unless room for one of them was refused.
pub open spec fn comes_of_the_range<
    L: Fn(CalVis, usize, usize, bool) -> (CalVis, ThreadResults),
    P: Fn(u32, Binary64) -> Binary64,
    S: Fn(VisJones, Binary64) -> VisJones,
>(
    params: DiCalParams,
    start: usize,
    end: usize,
    load: L,
    product: P,
    scale: S,
    r: Result<CalVis, DiCalibrateError>,
) -> bool {
    if start == end {
        r == Err::<CalVis, DiCalibrateError>(DiCalibrateError::InsufficientMemory { need_bytes: 0 })
    } else {
        exists|shape: Shape| #[trigger]
            comes_of_shape(params, start, end, shape, load, product, scale, r)
    }
}

/// [`comes_of_the_range`], for arrays of a shape.
pub open spec fn comes_of_shape<
    L: Fn(CalVis, usize, usize, bool) -> (CalVis, ThreadResults),
    P: Fn(u32, Binary64) -> Binary64,
    S: Fn(VisJones, Binary64) -> VisJones,
>(
    params: DiCalParams,
    start: usize,
    end: usize,
    shape: Shape,
    load: L,
    product: P,
    scale: S,
    r: Result<CalVis, DiCalibrateError>,
) -> bool {
    &&& is_the_shape(params, end - start, shape)
    &&& {
        ||| is_refused(shape, r)
        ||| exists|arrays: CalVis|
            are_blank(arrays, shape) && #[trigger] comes_of_loading_into(
                params,
                start,
                end,
                arrays,
                load,
                product,
                scale,
                r,
            )
    }
}

/// Was room refused for one of the arrays of that shape, and is that told with the
/// bytes that all of them need?
pub open spec fn is_refused(shape: Shape, r: Result<CalVis, DiCalibrateError>) -> bool {
    &&& r matches Err(e) && e matches DiCalibrateError::InsufficientMemory { need_bytes }
        && need_bytes == shape.0 * shape.1 * shape.2 * 68
    &&& shape.0 * shape.1 * shape.2 > 0
    &&& refused_for(shape)
}

/// A range of timeblocks is loaded.
pub proof fn lemma_ranges_are_loaded<
    L: Fn(CalVis, usize, usize, bool) -> (CalVis, ThreadResults),
    P: Fn(u32, Binary64) -> Binary64,
    S: Fn(VisJones, Binary64) -> VisJones,
>(
    params: DiCalParams,
    range: Range<usize>,
    load: L,
    product: P,
    scale: S,
    r: Result<CalVis, DiCalibrateError>,
)
    requires
        params.loadable(range.start as int, range.end as int),
        call_ensures(
            DiCalParams::get_cal_vis_for_input_range::<L, P, S>,
            (&params, range, &load, &product, &scale),
            r,
        ),
    ensures
        comes_of_the_range(params, range.start, range.end, load, product, scale, r),
{
    lemma_loaded_range(params, range.start, range.end, load, product, scale, r);
}

/// All timeblocks are loaded.
pub proof fn lemma_everything_is_loaded<
    L: Fn(CalVis, usize, usize, bool) -> (CalVis, ThreadResults),
    P: Fn(u32, Binary64) -> Binary64,
    S: Fn(VisJones, Binary64) -> VisJones,
>(
    params: DiCalParams,
    num_timeblocks: usize,
    load: L,
    product: P,
    scale: S,
    r: Result<CalVis, DiCalibrateError>,
)
    requires
        num_timeblocks == timeblocks_of(params.input_vis_params.timeblocks).len(),
        params.loadable(0, num_timeblocks as int),
        call_ensures(
            DiCalParams::get_cal_vis::<L, P, S>,
            (&params, &load, &product, &scale),
            r,
        ),
    ensures
        comes_of_the_range(params, 0, num_timeblocks, load, product, scale, r),
{
    lemma_loaded_range(params, 0, num_timeblocks, load, product, scale, r);
}

proof fn lemma_loaded_range<
    L: Fn(CalVis, usize, usize, bool) -> (CalVis, ThreadResults),
    P: Fn(u32, Binary64) -> Binary64,
    S: Fn(VisJones, Binary64) -> VisJones,
>(
    params: DiCalParams,
    start: usize,
    end: usize,
    load: L,
    product: P,
    scale: S,
    r: Result<CalVis, DiCalibrateError>,
)
    requires
        params.loadable(start as int, end as int),
        params.loaded(start as int, end as int, load, product, scale, r),
    ensures
        comes_of_the_range(params, start, end, load, product, scale, r),
{
    if start != end {
        let shape = params.vis_shape(end - start);
        lemma_pairs(params.input_vis_params.spec_num_unflagged_tiles());
        assert(params.input_vis_params.chanblocks.len() == shape.1);
        assert(is_the_shape(params, end - start, shape));
        if exists|blank: CalVis, out: (CalVis, ThreadResults)|
            {
                &&& is_blank(blank, shape)
                &&& #[trigger] load.ensures((blank, start, end, params.models_autos()), out)
                &&& params.filled(out, product, scale, r)
            } {
            let (blank, out) = choose|blank: CalVis, out: (CalVis, ThreadResults)|
                {
                    &&& is_blank(blank, shape)
                    &&& #[trigger] load.ensures((blank, start, end, params.models_autos()), out)
                    &&& params.filled(out, product, scale, r)
                };
            lemma_are_blank(blank, shape);
            assert(params.models_autos() == wants_autos(params));
            assert(load.ensures((blank, start, end, wants_autos(params)), out));
            assert(out == (out.0, out.1));
            lemma_finished(params, out.0, out.1, product, scale, r);
            assert(comes_of_loading_into(params, start, end, blank, load, product, scale, r));
        } else {
            assert(is_refused(shape, r));
        }
        assert(comes_of_shape(params, start, end, shape, load, product, scale, r));
    }
}

/// There is a baseline for each two tiles.
pub proof fn lemma_pairs(n: nat)
    ensures
        2 * super::input::cross_baselines(n) == n * (n - 1),
        n * (n - 1) >= 0,
    decreases n,
{
    super::input::lemma_cross_baselines(n);
    if n > 0 {
        lemma_pairs((n - 1) as nat);
        super::input::lemma_cross_baselines((n - 1) as nat);
        assert(n * (n - 1) == (n - 1) * (n - 2) + 2 * (n - 1)) by (nonlinear_arith);
    }
}

/// A range is loaded, however large it is, where no reservation of room for its
/// cells is refused and no thread fails.
pub(crate) proof fn lemma_ranges_are_loaded_where_there_is_memory<
    L: Fn(CalVis, usize, usize, bool) -> (CalVis, ThreadResults),
    P: Fn(u32, Binary64) -> Binary64,
    S: Fn(VisJones, Binary64) -> VisJones,
>(
    params: DiCalParams,
    range: Range<usize>,
    load: L,
    product: P,
    scale: S,
    r: Result<CalVis, DiCalibrateError>,
)
    requires
        range.start < range.end,
        params.loadable(range.start as int, range.end as int),
        call_ensures(
            DiCalParams::get_cal_vis_for_input_range::<L, P, S>,
            (&params, range, &load, &product, &scale),
            r,
        ),
        forall|v: &mut Vec<VisJones>, n: usize| !#[trigger]
            call_ensures(try_reserve_exact::<VisJones>, (v, n), false),
        forall|v: &mut Vec<u32>, n: usize| !#[trigger]
            call_ensures(try_reserve_exact::<u32>, (v, n), false),
        forall|arrays: CalVis, start: usize, end: usize, autos: bool, out: (CalVis, ThreadResults)|
         #[trigger]
            load.ensures((arrays, start, end, autos), out) ==> all_succeeded(out.1),
    ensures
        r is Ok,
{
    lemma_loaded_range(params, range.start, range.end, load, product, scale, r);
    let shape = choose|shape: Shape| #[trigger]
        comes_of_shape(params, range.start, range.end, shape, load, product, scale, r);
    assert(!refused_for(shape));
}

/// What was got, and the timeblocks and results of its calibration.
pub open spec fn is_calibrated<
    C: Fn(&CalVis, &Vec1<Timeblock>, &Vec<Chanblock>, u32, Binary64, Binary64) -> (
        SolutionCube,
        PrecisionGrid,
    ),
>(
    params: DiCalParams,
    calibrate: C,
    vis: CalVis,
    timeblocks: Vec1<Timeblock>,
    solutions: SolutionCube,
    precisions: PrecisionGrid,
) -> bool {
    calibrate.ensures(
        (
            &vis,
            &timeblocks,
            &params.input_vis_params.chanblocks,
            params.max_iterations,
            params.stop_threshold,
            params.min_threshold,
        ),
        (solutions, precisions),
    )
}

/// Is a timeblock calibrated by itself: from the visibilities of its own range, as
/// the first and only timeblock?
pub open spec fn is_calibrated_by_itself<
    C: Fn(&CalVis, &Vec1<Timeblock>, &Vec<Chanblock>, u32, Binary64, Binary64) -> (
        SolutionCube,
        PrecisionGrid,
    ),
>(
    params: DiCalParams,
    outcomes: Outcomes,
    calibrate: C,
    timeblock: Timeblock,
    stage: Stage,
) -> bool {
    let local = timeblocks_of(stage.1)[0];
    &&& outcomes(timeblock.range.start as int, timeblock.range.end as int, Ok(stage.0))
    &&& timeblocks_of(stage.1).len() == 1
    &&& local.index == 0
    &&& local.range.start == 0
    &&& local.range.end == vis_shape(stage.0.vis_data).0
    &&& local.timestamps@ == timeblock.timestamps@
    &&& local.timesteps@ == timeblock.timesteps@
    &&& local.median == timeblock.median
    &&& is_calibrated(params, calibrate, stage.0, stage.1, stage.2, stage.3)
}

/// Are the first timeblocks calibrated by themselves?
pub open spec fn are_calibrated_by_themselves<
    C: Fn(&CalVis, &Vec1<Timeblock>, &Vec<Chanblock>, u32, Binary64, Binary64) -> (
        SolutionCube,
        PrecisionGrid,
    ),
>(params: DiCalParams, outcomes: Outcomes, calibrate: C, stages: Seq<Stage>) -> bool {
    forall|k: int|
        0 <= k < stages.len() ==> is_calibrated_by_itself(
            params,
            outcomes,
            calibrate,
            timeblocks_of(params.cal_timeblocks)[k],
            #[trigger] stages[k],
        )
}

/// Is `k` the last timeblock that goes by an index?
pub open spec fn is_last_with_index(timeblocks: Seq<Timeblock>, index: int, k: int) -> bool {
    &&& 0 <= k < timeblocks.len()
    &&& timeblocks[k].index == index
    &&& forall|j: int| k < j < timeblocks.len() ==> (#[trigger] timeblocks[j]).index != index
}

/// Do timeblocks have the solutions of their own calibration, at their index, and
/// are precisions in the order of the timeblocks? What no timeblock goes by is left
/// without effect.
pub open spec fn results_are_in_place(
    params: DiCalParams,
    stages: Seq<Stage>,
    solutions: SolutionCube,
    precisions: PrecisionGrid,
) -> bool {
    let tbs = timeblocks_of(params.cal_timeblocks);
    let shape = solution_shape(solutions);
    &&& stages.len() == tbs.len()
    &&& shape.0 == tbs.len()
    &&& shape.1 == params.input_vis_params.spec_num_unflagged_tiles()
    &&& shape.2 == params.input_vis_params.chanblocks@.len()
    &&& forall|k: int, t: int, i: int, c: int|
        #![trigger is_last_with_index(tbs, t, k), solution_cells(solutions)[(t, i, c)]]
        is_last_with_index(tbs, t, k) && 0 <= t < shape.0 && 0 <= i < shape.1 && 0 <= c < shape.2
            ==> solution_cells(solutions)[(t, i, c)]@ == solution_cells(stages[k].2)[(0, i, c)]@
    &&& forall|t: int, i: int, c: int|
        #![trigger solution_cells(solutions)[(t, i, c)]]
        0 <= t < shape.0 && 0 <= i < shape.1 && 0 <= c < shape.2 && (forall|k: int|
            0 <= k < tbs.len() ==> (#[trigger] tbs[k]).index != t) ==> is_identity(
            solution_cells(solutions)[(t, i, c)],
        )
    &&& precision_rows(precisions).len() == tbs.len()
    &&& forall|k: int|
        0 <= k < tbs.len() ==> #[trigger] precision_rows(precisions)[k] == precision_rows(
            stages[k].3,
        )[0]
}

/// Is one timeblock calibrated at a time? There have to be several, and no model to
/// write.
pub open spec fn is_streamed(params: DiCalParams) -> bool {
    timeblocks_of(params.cal_timeblocks).len() >= 2 && params.output_model_vis_params is None
}

/// Do these results come of calibration?
pub open spec fn comes_of_calibration<
    C: Fn(&CalVis, &Vec1<Timeblock>, &Vec<Chanblock>, u32, Binary64, Binary64) -> (
        SolutionCube,
        PrecisionGrid,
    ),
>(
    params: DiCalParams,
    outcomes: Outcomes,
    calibrate: C,
    solutions: SolutionCube,
    precisions: PrecisionGrid,
) -> bool {
    if is_streamed(params) {
        exists|stages: Seq<Stage>|
            are_calibrated_by_themselves(params, outcomes, calibrate, stages)
                && #[trigger] results_are_in_place(params, stages, solutions, precisions)
    } else {
        exists|vis: CalVis|
            outcomes(
                0,
                timeblocks_of(params.input_vis_params.timeblocks).len() as int,
                Ok(vis),
            ) && #[trigger] is_calibrated(
                params,
                calibrate,
                vis,
                params.cal_timeblocks,
                solutions,
                precisions,
            )
    }
}

/// Is this error the first that comes of getting visibilities?
pub open spec fn comes_of_getting<
    C: Fn(&CalVis, &Vec1<Timeblock>, &Vec<Chanblock>, u32, Binary64, Binary64) -> (
        SolutionCube,
        PrecisionGrid,
    ),
>(params: DiCalParams, outcomes: Outcomes, calibrate: C, e: DiCalibrateError) -> bool {
    let tbs = timeblocks_of(params.cal_timeblocks);
    if is_streamed(params) {
        exists|stages: Seq<Stage>|
            {
                &&& stages.len() < tbs.len()
                &&& #[trigger] are_calibrated_by_themselves(params, outcomes, calibrate, stages)
                &&& outcomes(
                    tbs[stages.len() as int].range.start as int,
                    tbs[stages.len() as int].range.end as int,
                    Err(e),
                )
            }
    } else {
        outcomes(0, timeblocks_of(params.input_vis_params.timeblocks).len() as int, Err(e))
    }
}

/// Does a result come of performing calibration, and is it told what it is for?
pub open spec fn is_performed<
    C: Fn(&CalVis, &Vec1<Timeblock>, &Vec<Chanblock>, u32, Binary64, Binary64) -> (
        SolutionCube,
        PrecisionGrid,
    ),
>(
    params: DiCalParams,
    outcomes: Outcomes,
    calibrate: C,
    r: Result<(IncompleteSolutions, PrecisionGrid), DiCalibrateError>,
) -> bool {
    match r {
        Ok((incomplete, precisions)) => {
            &&& comes_of_calibration(params, outcomes, calibrate, incomplete.di_jones, precisions)
            &&& *incomplete.timeblocks == params.cal_timeblocks
            &&& *incomplete.chanblocks == params.input_vis_params.chanblocks
            &&& incomplete.max_iterations == params.max_iterations
            &&& incomplete.stop_threshold == params.stop_threshold
            &&& incomplete.min_threshold == params.min_threshold
        },
        Err(e) => comes_of_getting(params, outcomes, calibrate, e),
    }
}

/// Calibration is performed with the visibilities that are got: by timeblock where
/// that is to be done, and else at once.
pub proof fn lemma_calibration_is_performed_with_what_is_got<
    G: Fn(usize, usize) -> Result<CalVis, DiCalibrateError>,
    C: Fn(&CalVis, &Vec1<Timeblock>, &Vec<Chanblock>, u32, Binary64, Binary64) -> (
        SolutionCube,
        PrecisionGrid,
    ),
>(
    params: DiCalParams,
    get: G,
    calibrate: C,
    r: Result<(IncompleteSolutions, PrecisionGrid), DiCalibrateError>,
)
    requires
        call_ensures(DiCalParams::run_with::<G, C>, (&params, &get, &calibrate), r),
    ensures
        is_performed(
            params,
            |start: int, end: int, got: Result<CalVis, DiCalibrateError>|
                get.ensures((start as usize, end as usize), got),
            calibrate,
            r,
        ),
{
    lemma_performed(params, outcomes_of(get), calibrate, r);
    assert(outcomes_of(get) =~= (|
        start: int,
        end: int,
        got: Result<CalVis, DiCalibrateError>,
    | get.ensures((start as usize, end as usize), got)));
}

/// Calibration is performed with the visibilities that are loaded.
pub proof fn lemma_calibration_is_performed<
    L: Fn(CalVis, usize, usize, bool) -> (CalVis, ThreadResults),
    P: Fn(u32, Binary64) -> Binary64,
    S: Fn(VisJones, Binary64) -> VisJones,
    C: Fn(&CalVis, &Vec1<Timeblock>, &Vec<Chanblock>, u32, Binary64, Binary64) -> (
        SolutionCube,
        PrecisionGrid,
    ),
>(
    params: DiCalParams,
    load: L,
    product: P,
    scale: S,
    calibrate: C,
    r: Result<(IncompleteSolutions, PrecisionGrid), DiCalibrateError>,
)
    requires
        call_ensures(
            DiCalParams::run::<L, P, S, C>,
            (&params, &load, &product, &scale, &calibrate),
            r,
        ),
    ensures
        is_performed(params, params.load_outcomes(load, product, scale), calibrate, r),
        // What may come of loading is what comes of the range.
        forall|start: usize, end: usize, got: Result<CalVis, DiCalibrateError>|
            params.loadable(start as int, end as int) && #[trigger] params.load_outcomes(
                load,
                product,
                scale,
            )(start as int, end as int, got) ==> comes_of_the_range(
                params,
                start,
                end,
                load,
                product,
                scale,
                got,
            ),
{
    lemma_performed(params, params.load_outcomes(load, product, scale), calibrate, r);
    assert forall|start: usize, end: usize, got: Result<CalVis, DiCalibrateError>|
        params.loadable(start as int, end as int) && #[trigger] params.load_outcomes(
            load,
            product,
            scale,
        )(start as int, end as int, got) implies comes_of_the_range(
        params,
        start,
        end,
        load,
        product,
        scale,
        got,
    ) by {
        lemma_loaded_range(params, start, end, load, product, scale, got);
    }
}

proof fn lemma_performed<
    C: Fn(&CalVis, &Vec1<Timeblock>, &Vec<Chanblock>, u32, Binary64, Binary64) -> (
        SolutionCube,
        PrecisionGrid,
    ),
>(
    params: DiCalParams,
    outcomes: Outcomes,
    calibrate: C,
    r: Result<(IncompleteSolutions, PrecisionGrid), DiCalibrateError>,
)
    requires
        params.ran(outcomes, calibrate, r),
    ensures
        is_performed(params, outcomes, calibrate, r),
{
    let tbs = timeblocks_of(params.cal_timeblocks);
    assert(params.streams() == is_streamed(params));
    match r {
        Ok((incomplete, precisions)) => {
            if params.streams() {
                let stages = choose|stages: Seq<Stage>|
                    {
                        &&& stages.len() == tbs.len()
                        &&& params.staged_first(stages, outcomes, calibrate)
                        &&& #[trigger] params.gathered(stages, incomplete.di_jones, precisions)
                    };
                lemma_staged(params, outcomes, calibrate, stages);
                lemma_in_place(params, stages, incomplete.di_jones, precisions);
            } else {
                let vis = choose|vis: CalVis|
                    #[trigger] params.calibrated_at_once(
                        vis,
                        outcomes,
                        calibrate,
                        (incomplete.di_jones, precisions),
                    );
                assert(is_calibrated(
                    params,
                    calibrate,
                    vis,
                    params.cal_timeblocks,
                    incomplete.di_jones,
                    precisions,
                ));
            }
        },
        Err(e) => {
            if params.streams() {
                let stages = choose|stages: Seq<Stage>|
                    {
                        let k = stages.len() as int;
                        &&& k < tbs.len()
                        &&& #[trigger] params.staged_first(stages, outcomes, calibrate)
                        &&& outcomes(tbs[k].range.start as int, tbs[k].range.end as int, Err(e))
                    };
                lemma_staged(params, outcomes, calibrate, stages);
            }
        },
    }
}

proof fn lemma_staged<
    C: Fn(&CalVis, &Vec1<Timeblock>, &Vec<Chanblock>, u32, Binary64, Binary64) -> (
        SolutionCube,
        PrecisionGrid,
    ),
>(params: DiCalParams, outcomes: Outcomes, calibrate: C, stages: Seq<Stage>)
    requires
        params.staged_first(stages, outcomes, calibrate),
    ensures
        are_calibrated_by_themselves(params, outcomes, calibrate, stages),
{
    let tbs = timeblocks_of(params.cal_timeblocks);
    assert forall|k: int| 0 <= k < stages.len() implies is_calibrated_by_itself(
        params,
        outcomes,
        calibrate,
        tbs[k],
        #[trigger] stages[k],
    ) by {
        assert(params.staged(tbs[k], stages[k], outcomes, calibrate));
    }
}

proof fn lemma_in_place(
    params: DiCalParams,
    stages: Seq<Stage>,
    solutions: SolutionCube,
    precisions: PrecisionGrid,
)
    requires
        stages.len() == timeblocks_of(params.cal_timeblocks).len(),
        params.gathered(stages, solutions, precisions),
    ensures
        results_are_in_place(params, stages, solutions, precisions),
{
    let tbs = timeblocks_of(params.cal_timeblocks);
    let shape = solution_shape(solutions);
    assert forall|k: int, t: int, i: int, c: int|
        #![trigger is_last_with_index(tbs, t, k), solution_cells(solutions)[(t, i, c)]]
        is_last_with_index(tbs, t, k) && 0 <= t < shape.0 && 0 <= i < shape.1 && 0 <= c
            < shape.2 implies solution_cells(solutions)[(t, i, c)]@ == solution_cells(
        stages[k].2,
    )[(0, i, c)]@ by {
        assert(in_shape(shape, t, i, c));
        lemma_last_at(tbs, t, k);
    }
    assert forall|t: int, i: int, c: int|
        #![trigger solution_cells(solutions)[(t, i, c)]]
        0 <= t < shape.0 && 0 <= i < shape.1 && 0 <= c < shape.2 && (forall|k: int|
            0 <= k < tbs.len() ==> (#[trigger] tbs[k]).index != t) implies is_identity(
        solution_cells(solutions)[(t, i, c)],
    ) by {
        assert(in_shape(shape, t, i, c));
        lemma_not_at(tbs, t);
        super::array_laws::lemma_is_identity(solution_cells(solutions)[(t, i, c)]);
    }
}

proof fn lemma_last_at(timeblocks: Seq<Timeblock>, index: int, k: int)
    requires
        is_last_with_index(timeblocks, index, k),
    ensures
        last_at(timeblocks, index) == Some(k),
    decreases timeblocks.len(),
{
    if k < timeblocks.len() - 1 {
        let before = timeblocks.drop_last();
        assert(timeblocks[timeblocks.len() - 1].index != index);
        assert(is_last_with_index(before, index, k)) by {
            assert forall|j: int| k < j < before.len() implies (#[trigger] before[j]).index
                != index by {
                assert(timeblocks[j].index != index);
            }
        }
        lemma_last_at(before, index, k);
    }
}

proof fn lemma_not_at(timeblocks: Seq<Timeblock>, index: int)
    requires
        forall|k: int| 0 <= k < timeblocks.len() ==> (#[trigger] timeblocks[k]).index != index,
    ensures
        last_at(timeblocks, index) is None,
    decreases timeblocks.len(),
{
    if timeblocks.len() > 0 {
        let before = timeblocks.drop_last();
        assert(timeblocks[timeblocks.len() - 1].index != index);
        assert forall|k: int| 0 <= k < before.len() implies (#[trigger] before[k]).index
            != index by {
            assert(timeblocks[k].index != index);
        }
        lemma_not_at(before, index);
    }
}

} // verus!
