//! What calibration owes to the data alone, where reading, modelling and
//! arithmetic always give the same.

use vec1::Vec1;
use vstd::prelude::*;

use super::cal_vis::{baseline_weight, lemma_no_weights_are_ones, ones, weighted, CalVis};
use super::cubes::{in_shape, vis_cells, vis_shape, weight_cells, VisJones};
use super::di_calibration::{
    lemma_each_timeblock_has_its_solutions, lemma_fewer_timeblocks_are_solvable, DiCalParams,
    Stage,
};
use super::input::Chanblock;
use super::memory::is_blank;
use super::solutions::{
    precision_rows, solution_cells, solution_shape, PrecisionGrid, SolutionCube,
};
use super::threads::ThreadResults;
use super::timeblock::Timeblock;
use crate::binary64::Binary64;
use crate::non_empty::{quantities_of, timeblocks_of};

verus! {

/// Observed data: the visibility, the weight and the model of each timeblock of
/// input data, channel and baseline.
pub type Source = spec_fn(int, int, int) -> (VisJones, u32, VisJones);

/// Are arrays always filled with these data, when nothing goes wrong?
pub open spec fn delivers<L: Fn(CalVis, usize, usize, bool) -> (CalVis, ThreadResults)>(
    params: DiCalParams,
    load: L,
    source: Source,
) -> bool {
    forall|vis: CalVis, start: usize, end: usize, autos: bool, out: (CalVis, ThreadResults)| #[trigger]
        load.ensures((vis, start, end, autos), out) && params.fillable(
            vis,
            start as int,
            end as int,
            autos,
        ) && out.1.error() is None ==> holds_rows(out.0, source, start as int)
}

/// Do arrays hold the data from a timeblock on?
pub open spec fn holds_rows(vis: CalVis, source: Source, start: int) -> bool {
    forall|t: int, c: int, b: int| #[trigger]
        in_shape(vis_shape(vis.vis_data), t, c, b) ==> {
            &&& vis_cells(vis.vis_data)[(t, c, b)] == source(start + t, c, b).0
            &&& weight_cells(vis.vis_weights)[(t, c, b)] == source(start + t, c, b).1
            &&& vis_cells(vis.vis_model)[(t, c, b)] == source(start + t, c, b).2
        }
}

/// Does a product always come out the same?
pub open spec fn one_product<P: Fn(u32, Binary64) -> Binary64>(product: P) -> bool {
    forall|w: u32, b: Binary64, x: Binary64, y: Binary64| #[trigger]
        product.ensures((w, b), x) && #[trigger] product.ensures((w, b), y) ==> x == y
}

/// Does a scaled visibility always come out the same?
pub open spec fn one_scaling<S: Fn(VisJones, Binary64) -> VisJones>(scale: S) -> bool {
    forall|v: VisJones, w: Binary64, x: VisJones, y: VisJones| #[trigger]
        scale.ensures((v, w), x) && #[trigger] scale.ensures((v, w), y) ==> x == y
}

/// Do a visibility and its model come of these data under the weight of the
/// baseline?
spec fn comes_of<
    P: Fn(u32, Binary64) -> Binary64,
    S: Fn(VisJones, Binary64) -> VisJones,
>(
    product: P,
    scale: S,
    from: (VisJones, u32, VisJones),
    own: Binary64,
    data: VisJones,
    model: VisJones,
) -> bool {
    exists|weight: Binary64|
        {
            &&& product.ensures((from.1, own), weight)
            &&& #[trigger] weighted(scale, weight, from.0, data)
            &&& weighted(scale, weight, from.2, model)
        }
}

proof fn lemma_comes_of_one<
    P: Fn(u32, Binary64) -> Binary64,
    S: Fn(VisJones, Binary64) -> VisJones,
>(
    product: P,
    scale: S,
    from: (VisJones, u32, VisJones),
    own: Binary64,
    data: VisJones,
    model: VisJones,
    data2: VisJones,
    model2: VisJones,
)
    requires
        one_product(product),
        one_scaling(scale),
        comes_of(product, scale, from, own, data, model),
        comes_of(product, scale, from, own, data2, model2),
    ensures
        data@ == data2@,
        model@ == model2@,
{
    let w = choose|weight: Binary64|
        {
            &&& product.ensures((from.1, own), weight)
            &&& #[trigger] weighted(scale, weight, from.0, data)
            &&& weighted(scale, weight, from.2, model)
        };
    let w2 = choose|weight: Binary64|
        {
            &&& product.ensures((from.1, own), weight)
            &&& #[trigger] weighted(scale, weight, from.0, data2)
            &&& weighted(scale, weight, from.2, model2)
        };
    assert(w == w2);
}

/// Are visibilities what comes of the data from a timeblock on?
spec fn comes_of_rows<
    P: Fn(u32, Binary64) -> Binary64,
    S: Fn(VisJones, Binary64) -> VisJones,
>(
    vis: CalVis,
    source: Source,
    start: int,
    weights: Seq<Binary64>,
    product: P,
    scale: S,
) -> bool {
    forall|t: int, c: int, b: int| #[trigger]
        in_shape(vis_shape(vis.vis_data), t, c, b) ==> {
            &&& comes_of(
                product,
                scale,
                source(start + t, c, b),
                weights[b],
                vis_cells(vis.vis_data)[(t, c, b)],
                vis_cells(vis.vis_model)[(t, c, b)],
            )
            &&& weight_cells(vis.vis_weights)[(t, c, b)] == source(start + t, c, b).1
        }
}

proof fn lemma_loaded<
    L: Fn(CalVis, usize, usize, bool) -> (CalVis, ThreadResults),
    P: Fn(u32, Binary64) -> Binary64,
    S: Fn(VisJones, Binary64) -> VisJones,
>(
    params: DiCalParams,
    load: L,
    source: Source,
    product: P,
    scale: S,
    start: usize,
    end: usize,
    vis: CalVis,
)
    requires
        params.loads(load),
        delivers(params, load, source),
        start <= end <= timeblocks_of(params.input_vis_params.timeblocks).len(),
        params.loaded(start as int, end as int, load, product, scale, Ok(vis)),
    ensures
        vis.wf(),
        vis_shape(vis.vis_data) == params.vis_shape(end - start),
        vis.pols == params.input_vis_params.polarisations,
        comes_of_rows(
            vis,
            source,
            start as int,
            quantities_of(params.baseline_weights),
            product,
            scale,
        ),
{
    let shape = params.vis_shape(end - start);
    let r = Ok::<CalVis, super::error::DiCalibrateError>(vis);
    let weights = quantities_of(params.baseline_weights);
    let (blank, out) = choose|blank: CalVis, out: (CalVis, ThreadResults)|
        {
            &&& is_blank(blank, shape)
            &&& #[trigger] load.ensures((blank, start, end, params.models_autos()), out)
            &&& params.filled(out, product, scale, r)
        };
    assert(params.fillable(blank, start as int, end as int, params.models_autos()));
    let before = out.0.with_pols(params.input_vis_params.polarisations);
    assert(holds_rows(out.0, source, start as int));
    assert(vis.scaled_from(before, Some(weights), product, scale));
    assert forall|t: int, c: int, b: int| #[trigger]
        in_shape(vis_shape(vis.vis_data), t, c, b) implies {
        &&& comes_of(
            product,
            scale,
            source(start + t, c, b),
            weights[b],
            vis_cells(vis.vis_data)[(t, c, b)],
            vis_cells(vis.vis_model)[(t, c, b)],
        )
        &&& weight_cells(vis.vis_weights)[(t, c, b)] == source(start + t, c, b).1
    } by {
        assert(in_shape(vis_shape(out.0.vis_data), t, c, b));
        assert(vis.scaled_cell(before, Some(weights), product, scale, t, c, b));
        lemma_scaled_cell_comes_of(vis, before, Some(weights), product, scale, t, c, b);
        let from = source(start + t, c, b);
        assert(from == (from.0, from.1, from.2));
    }
}

/// Loading a range of timeblocks gives the rows that loading all of them gives.
pub proof fn lemma_a_range_is_part_of_all<
    L: Fn(CalVis, usize, usize, bool) -> (CalVis, ThreadResults),
    P: Fn(u32, Binary64) -> Binary64,
    S: Fn(VisJones, Binary64) -> VisJones,
>(
    params: DiCalParams,
    load: L,
    source: Source,
    product: P,
    scale: S,
    start: usize,
    end: usize,
    num_timeblocks: usize,
    part: CalVis,
    all: CalVis,
)
    requires
        params.loads(load),
        delivers(params, load, source),
        one_product(product),
        one_scaling(scale),
        num_timeblocks == timeblocks_of(params.input_vis_params.timeblocks).len(),
        start < end <= num_timeblocks,
        params.loaded(start as int, end as int, load, product, scale, Ok(part)),
        params.loaded(0, num_timeblocks as int, load, product, scale, Ok(all)),
    ensures
        part.pols == all.pols,
        vis_shape(part.vis_data).0 == end - start,
        vis_shape(all.vis_data).0 == num_timeblocks,
        vis_shape(part.vis_data).1 == vis_shape(all.vis_data).1,
        vis_shape(part.vis_data).2 == vis_shape(all.vis_data).2,
        forall|t: int, c: int, b: int| #[trigger]
            in_shape(vis_shape(part.vis_data), t, c, b) ==> {
                &&& vis_cells(part.vis_data)[(t, c, b)]@ == vis_cells(all.vis_data)[(
                    start + t,
                    c,
                    b,
                )]@
                &&& vis_cells(part.vis_model)[(t, c, b)]@ == vis_cells(all.vis_model)[(
                    start + t,
                    c,
                    b,
                )]@
                &&& weight_cells(part.vis_weights)[(t, c, b)] == weight_cells(all.vis_weights)[(
                    start + t,
                    c,
                    b,
                )]
            },
{
    lemma_loaded(params, load, source, product, scale, start, end, part);
    lemma_loaded(params, load, source, product, scale, 0, num_timeblocks, all);
    let weights = quantities_of(params.baseline_weights);
    assert forall|t: int, c: int, b: int| #[trigger]
        in_shape(vis_shape(part.vis_data), t, c, b) implies {
        &&& vis_cells(part.vis_data)[(t, c, b)]@ == vis_cells(all.vis_data)[(start + t, c, b)]@
        &&& vis_cells(part.vis_model)[(t, c, b)]@ == vis_cells(all.vis_model)[(start + t, c, b)]@
        &&& weight_cells(part.vis_weights)[(t, c, b)] == weight_cells(all.vis_weights)[(
            start + t,
            c,
            b,
        )]
    } by {
        assert(in_shape(vis_shape(all.vis_data), start + t, c, b));
        lemma_comes_of_one(
            product,
            scale,
            source(start + t, c, b),
            weights[b],
            vis_cells(part.vis_data)[(t, c, b)],
            vis_cells(part.vis_model)[(t, c, b)],
            vis_cells(all.vis_data)[(start + t, c, b)],
            vis_cells(all.vis_model)[(start + t, c, b)],
        );
    }
}

/// Do both hold the same visibilities, weights, model and polarisations?
pub open spec fn same_vis(x: CalVis, y: CalVis) -> bool {
    &&& x.wf()
    &&& y.wf()
    &&& vis_shape(x.vis_data) == vis_shape(y.vis_data)
    &&& x.pols == y.pols
    &&& forall|t: int, c: int, b: int| #[trigger]
        in_shape(vis_shape(x.vis_data), t, c, b) ==> {
            &&& vis_cells(x.vis_data)[(t, c, b)]@ == vis_cells(y.vis_data)[(t, c, b)]@
            &&& vis_cells(x.vis_model)[(t, c, b)]@ == vis_cells(y.vis_model)[(t, c, b)]@
            &&& weight_cells(x.vis_weights)[(t, c, b)] == weight_cells(y.vis_weights)[(t, c, b)]
        }
}

proof fn lemma_scaled_cell_comes_of<
    P: Fn(u32, Binary64) -> Binary64,
    S: Fn(VisJones, Binary64) -> VisJones,
>(
    after: CalVis,
    before: CalVis,
    weights: Option<Seq<Binary64>>,
    product: P,
    scale: S,
    t: int,
    c: int,
    b: int,
)
    requires
        after.scaled_cell(before, weights, product, scale, t, c, b),
    ensures
        comes_of(
            product,
            scale,
            (
                vis_cells(before.vis_data)[(t, c, b)],
                weight_cells(before.vis_weights)[(t, c, b)],
                vis_cells(before.vis_model)[(t, c, b)],
            ),
            baseline_weight(weights, b),
            vis_cells(after.vis_data)[(t, c, b)],
            vis_cells(after.vis_model)[(t, c, b)],
        ),
{
    let weight = choose|weight: Binary64|
        {
            &&& product.ensures(
                (
                    weight_cells(before.vis_weights)[(t, c, b)],
                    baseline_weight(weights, b),
                ),
                weight,
            )
            &&& #[trigger] weighted(
                scale,
                weight,
                vis_cells(before.vis_data)[(t, c, b)],
                vis_cells(after.vis_data)[(t, c, b)],
            )
            &&& weighted(
                scale,
                weight,
                vis_cells(before.vis_model)[(t, c, b)],
                vis_cells(after.vis_model)[(t, c, b)],
            )
        };
    let from = (
        vis_cells(before.vis_data)[(t, c, b)],
        weight_cells(before.vis_weights)[(t, c, b)],
        vis_cells(before.vis_model)[(t, c, b)],
    );
    assert(weighted(scale, weight, from.0, vis_cells(after.vis_data)[(t, c, b)]));
}

/// Visibilities that are weighted without baseline weights come out the same as
/// with baseline weights of one.
pub proof fn lemma_no_weights_give_what_ones_give<
    P: Fn(u32, Binary64) -> Binary64,
    S: Fn(VisJones, Binary64) -> VisJones,
>(before: CalVis, x: CalVis, y: CalVis, product: P, scale: S)
    requires
        one_product(product),
        one_scaling(scale),
        x.scaled_from(before, None, product, scale),
        y.scaled_from(
            before,
            Some(ones(vis_shape(before.vis_data).2 as nat)),
            product,
            scale,
        ),
    ensures
        same_vis(x, y),
{
    lemma_no_weights_are_ones(before, y, product, scale);
    assert forall|t: int, c: int, b: int| #[trigger]
        in_shape(vis_shape(x.vis_data), t, c, b) implies {
        &&& vis_cells(x.vis_data)[(t, c, b)]@ == vis_cells(y.vis_data)[(t, c, b)]@
        &&& vis_cells(x.vis_model)[(t, c, b)]@ == vis_cells(y.vis_model)[(t, c, b)]@
        &&& weight_cells(x.vis_weights)[(t, c, b)] == weight_cells(y.vis_weights)[(t, c, b)]
    } by {
        assert(in_shape(vis_shape(before.vis_data), t, c, b));
        lemma_scaled_cell_comes_of(x, before, None, product, scale, t, c, b);
        lemma_scaled_cell_comes_of(y, before, None, product, scale, t, c, b);
        lemma_comes_of_one(
            product,
            scale,
            (
                vis_cells(before.vis_data)[(t, c, b)],
                weight_cells(before.vis_weights)[(t, c, b)],
                vis_cells(before.vis_model)[(t, c, b)],
            ),
            baseline_weight(None, b),
            vis_cells(x.vis_data)[(t, c, b)],
            vis_cells(x.vis_model)[(t, c, b)],
            vis_cells(y.vis_data)[(t, c, b)],
            vis_cells(y.vis_model)[(t, c, b)],
        );
    }
}

/// Are both the same timeblock?
pub open spec fn same_timeblock(x: Timeblock, y: Timeblock) -> bool {
    &&& x.index == y.index
    &&& x.range.start == y.range.start
    &&& x.range.end == y.range.end
    &&& x.timestamps@ == y.timestamps@
    &&& x.timesteps@ == y.timesteps@
    &&& x.median == y.median
}

/// Are both the same timeblocks?
pub open spec fn same_timeblocks(x: Vec1<Timeblock>, y: Vec1<Timeblock>) -> bool {
    &&& timeblocks_of(x).len() == timeblocks_of(y).len()
    &&& forall|i: int|
        0 <= i < timeblocks_of(x).len() ==> same_timeblock(
            #[trigger] timeblocks_of(x)[i],
            timeblocks_of(y)[i],
        )
}

/// Are both the same solutions and precisions?
pub open spec fn same_solutions(
    x: (SolutionCube, PrecisionGrid),
    y: (SolutionCube, PrecisionGrid),
) -> bool {
    &&& solution_shape(x.0) == solution_shape(y.0)
    &&& forall|t: int, i: int, c: int| #[trigger]
        in_shape(solution_shape(x.0), t, i, c) ==> solution_cells(x.0)[(t, i, c)]@
            == solution_cells(y.0)[(t, i, c)]@
    &&& precision_rows(x.1) == precision_rows(y.1)
}

/// Do the solutions depend on the visibilities and timeblocks alone?
pub open spec fn one_calibration<
    C: Fn(&CalVis, &Vec1<Timeblock>, &Vec<Chanblock>, u32, Binary64, Binary64) -> (
        SolutionCube,
        PrecisionGrid,
    ),
>(calibrate: C) -> bool {
    forall|
        v: CalVis,
        w: CalVis,
        tbs: Vec1<Timeblock>,
        ubs: Vec1<Timeblock>,
        chans: Vec<Chanblock>,
        n: u32,
        stop: Binary64,
        min: Binary64,
        x: (SolutionCube, PrecisionGrid),
        y: (SolutionCube, PrecisionGrid),
    |
        same_vis(v, w) && same_timeblocks(tbs, ubs) && #[trigger] calibrate.ensures(
            (&v, &tbs, &chans, n, stop, min),
            x,
        ) && #[trigger] calibrate.ensures((&w, &ubs, &chans, n, stop, min), y)
            ==> same_solutions(x, y)
}

/// When timeblocks are streamed, the solutions and precisions of one depend on
/// its own data alone: where two sets of data agree on the range of a timeblock,
/// it gets the same solutions and precisions from both.
pub proof fn lemma_streamed_solutions_depend_on_own_data<
    L: Fn(CalVis, usize, usize, bool) -> (CalVis, ThreadResults),
    L2: Fn(CalVis, usize, usize, bool) -> (CalVis, ThreadResults),
    P: Fn(u32, Binary64) -> Binary64,
    S: Fn(VisJones, Binary64) -> VisJones,
    C: Fn(&CalVis, &Vec1<Timeblock>, &Vec<Chanblock>, u32, Binary64, Binary64) -> (
        SolutionCube,
        PrecisionGrid,
    ),
>(
    params: DiCalParams,
    load: L,
    load2: L2,
    source: Source,
    source2: Source,
    product: P,
    scale: S,
    calibrate: C,
    out: (SolutionCube, PrecisionGrid),
    out2: (SolutionCube, PrecisionGrid),
    k: int,
)
    requires
        params.loads(load),
        params.loads(load2),
        delivers(params, load, source),
        delivers(params, load2, source2),
        one_product(product),
        one_scaling(scale),
        params.runnable(),
        params.streams(),
        params.calibrates(calibrate),
        one_calibration(calibrate),
        params.streamed(
            params.load_outcomes(load, product, scale),
            calibrate,
            out.0,
            out.1,
        ),
        params.streamed(
            params.load_outcomes(load2, product, scale),
            calibrate,
            out2.0,
            out2.1,
        ),
        forall|i: int|
            0 <= i < timeblocks_of(params.cal_timeblocks).len() ==> (#[trigger] timeblocks_of(
                params.cal_timeblocks,
            )[i]).index == i,
        0 <= k < timeblocks_of(params.cal_timeblocks).len(),
        forall|t: int, c: int, b: int|
            timeblocks_of(params.cal_timeblocks)[k].range.start <= t < timeblocks_of(
                params.cal_timeblocks,
            )[k].range.end ==> #[trigger] source(t, c, b) == source2(t, c, b),
    ensures
        solution_shape(out.0) == solution_shape(out2.0),
        solution_shape(out.0).0 == timeblocks_of(params.cal_timeblocks).len(),
        forall|i: int, c: int| #[trigger]
            in_shape(solution_shape(out.0), k, i, c) ==> solution_cells(out.0)[(k, i, c)]@
                == solution_cells(out2.0)[(k, i, c)]@,
        precision_rows(out.1)[k] == precision_rows(out2.1)[k],
{
    let tbs = timeblocks_of(params.cal_timeblocks);
    let (start, end) = (tbs[k].range.start, tbs[k].range.end);
    let outcomes = params.load_outcomes(load, product, scale);
    let outcomes2 = params.load_outcomes(load2, product, scale);
    let stages = choose|stages: Seq<Stage>|
        {
            &&& stages.len() == tbs.len()
            &&& params.staged_first(stages, outcomes, calibrate)
            &&& #[trigger] params.gathered(stages, out.0, out.1)
        };
    let stages2 = choose|stages: Seq<Stage>|
        {
            &&& stages.len() == tbs.len()
            &&& params.staged_first(stages, outcomes2, calibrate)
            &&& #[trigger] params.gathered(stages, out2.0, out2.1)
        };
    let (s, s2) = (stages[k], stages2[k]);
    assert(params.loadable(start as int, end as int));
    assert(params.staged(tbs[k], s, outcomes, calibrate));
    assert(params.staged(tbs[k], s2, outcomes2, calibrate));
    lemma_loaded(params, load, source, product, scale, start, end, s.0);
    lemma_loaded(params, load2, source2, product, scale, start, end, s2.0);
    let weights = quantities_of(params.baseline_weights);
    assert forall|t: int, c: int, b: int| #[trigger]
        in_shape(vis_shape(s.0.vis_data), t, c, b) implies {
        &&& vis_cells(s.0.vis_data)[(t, c, b)]@ == vis_cells(s2.0.vis_data)[(t, c, b)]@
        &&& vis_cells(s.0.vis_model)[(t, c, b)]@ == vis_cells(s2.0.vis_model)[(t, c, b)]@
        &&& weight_cells(s.0.vis_weights)[(t, c, b)] == weight_cells(s2.0.vis_weights)[(t, c, b)]
    } by {
        assert(in_shape(vis_shape(s2.0.vis_data), t, c, b));
        assert(source(start + t, c, b) == source2(start + t, c, b));
        lemma_comes_of_one(
            product,
            scale,
            source(start + t, c, b),
            weights[b],
            vis_cells(s.0.vis_data)[(t, c, b)],
            vis_cells(s.0.vis_model)[(t, c, b)],
            vis_cells(s2.0.vis_data)[(t, c, b)],
            vis_cells(s2.0.vis_model)[(t, c, b)],
        );
    }
    lemma_fewer_timeblocks_are_solvable(params, 1, tbs.len());
    assert(params.hands_over_one(k, s.0, s.1));
    assert(params.hands_over_one(k, s2.0, s2.1));
    assert(same_vis(s.0, s2.0));
    assert(same_timeblocks(s.1, s2.1));
    assert(same_solutions((s.2, s.3), (s2.2, s2.3)));
    assert forall|i: int, c: int| #[trigger]
        in_shape(solution_shape(out.0), k, i, c) implies solution_cells(out.0)[(k, i, c)]@
        == solution_cells(out2.0)[(k, i, c)]@ by {
        lemma_each_timeblock_has_its_solutions(params, stages, out.0, out.1, k, i, c);
        lemma_each_timeblock_has_its_solutions(params, stages2, out2.0, out2.1, k, i, c);
        assert(in_shape(solution_shape(s.2), 0, i, c));
    }
}

} // verus!
