//! Direction-independent calibration.

use std::ops::Range;
use vec1::Vec1;
use vstd::prelude::*;

use super::cal_vis::CalVis;
use super::cubes::{
    allocatable, in_shape, is_allocatable, representable, size, vis_shape, Shape, VisJones,
};
use super::error::DiCalibrateError;
use super::input::{cross_baselines, num_cross_baselines, Chanblock, InputVisParams};
use super::memory::{
    addressable, allocate, is_addressable, is_blank, memory_error, needed_bytes, refused_for,
    VIS_JONES_BYTES, WEIGHT_BYTES,
};
use super::solutions::{
    precision_columns, precision_rows, solution_cells, solution_shape, IncompleteSolutions,
    PrecisionGrid, SolutionCube,
};
use super::threads::ThreadResults;
use super::timeblock::Timeblock;
use crate::beam::no_beam::spec_identity;
use crate::beam::traits::JONES_BYTES;
use crate::binary64::Binary64;
use crate::non_empty::{
    quantities_as_vec, quantities_of, single_timeblock, timeblocks_as_vec, timeblocks_of,
};

verus! {

/// The parameters for optional sky-model visibilities files.
#[derive(Debug, Clone, Copy)]
pub struct OutputVisParams {
    /// Are auto-correlations written out?
    pub output_autos: bool,
}

/// Parameters needed to perform calibration.
#[derive(Debug)]
pub struct DiCalParams {
    /// The input data, metadata and flags.
    pub input_vis_params: InputVisParams,

    /// Blocks of timesteps used for calibration. Each timeblock contains
    /// indices of the input data to average together during calibration. Each
    /// timeblock may have a different number of timesteps; the number of blocks
    /// and their lengths depends on which input data timesteps are being used
    /// as well as how many timesteps are averaged.
    pub cal_timeblocks: Vec1<Timeblock>,

    /// Multiplicative factors to apply to unflagged baselines. These are mostly
    /// all 1.0, but flagged baselines (perhaps due to a UVW cutoff) have values
    /// of 0.0.
    pub baseline_weights: Vec1<Binary64>,

    /// The maximum number of times to iterate when performing calibration.
    pub max_iterations: u32,

    /// The threshold at which we stop convergence when performing calibration.
    /// This is smaller than `min_threshold`.
    pub stop_threshold: Binary64,

    /// The minimum threshold to satisfy convergence when performing calibration.
    /// Reaching this threshold counts as "converged", but it's not as good as
    /// the stop threshold. This is bigger than `stop_threshold`.
    pub min_threshold: Binary64,

    /// The parameters for optional sky-model visibilities files. If specified,
    /// model visibilities will be written out before calibration.
    pub output_model_vis_params: Option<OutputVisParams>,
}

/// What may come of getting the visibilities of a range of timeblocks of input
/// data.
pub type Outcomes = spec_fn(int, int, Result<CalVis, DiCalibrateError>) -> bool;

/// What may come of getting visibilities like that.
pub open spec fn outcomes_of<G: Fn(usize, usize) -> Result<CalVis, DiCalibrateError>>(
    get: G,
) -> Outcomes {
    |start: int, end: int, r: Result<CalVis, DiCalibrateError>|
        get.ensures((start as usize, end as usize), r)
}

/// Visibilities, the timeblocks that they are calibrated for, and the solutions
/// and precisions that calibration gives.
pub type Stage = (CalVis, Vec1<Timeblock>, SolutionCube, PrecisionGrid);

/// Which of the timeblocks is the last with an index?
pub open spec fn last_at(timeblocks: Seq<Timeblock>, index: int) -> Option<int>
    decreases timeblocks.len(),
{
    if timeblocks.len() == 0 {
        None
    } else if timeblocks.last().index == index {
        Some(timeblocks.len() - 1)
    } else {
        last_at(timeblocks.drop_last(), index)
    }
}

impl DiCalParams {
    /// Are auto-correlations modelled? Only if the input data have them and
    /// they are to be written out.
    pub open spec fn models_autos(self) -> bool {
        &&& self.input_vis_params.using_autos
        &&& self.output_model_vis_params matches Some(o)
        &&& o.output_autos
    }

    /// The shape of the arrays for a number of timeblocks of input data.
    pub open spec fn vis_shape(self, num_timeblocks: int) -> Shape {
        (
            num_timeblocks as usize,
            self.input_vis_params.chanblocks@.len() as usize,
            cross_baselines(self.input_vis_params.spec_num_unflagged_tiles()) as usize,
        )
    }

    /// Can a range of timeblocks of input data be loaded and weighted?
    pub open spec fn loadable(self, start: int, end: int) -> bool {
        let n = self.input_vis_params.spec_num_unflagged_tiles();
        &&& 0 <= start <= end <= timeblocks_of(self.input_vis_params.timeblocks).len()
        &&& start < end ==> {
            &&& n * (n - 1) <= usize::MAX
            &&& addressable(self.vis_shape(end - start))
            &&& quantities_of(self.baseline_weights).len() == cross_baselines(n)
        }
    }

    /// Are these arrays that can be filled with the data of a range of timeblocks,
    /// with or without auto-correlations in the model that is written?
    pub open spec fn fillable(self, vis: CalVis, start: int, end: int, autos: bool) -> bool {
        &&& 0 <= start < end <= timeblocks_of(self.input_vis_params.timeblocks).len()
        &&& vis.wf()
        &&& vis_shape(vis.vis_data) == self.vis_shape(end - start)
        &&& autos == self.models_autos()
    }

    /// Can arrays be loaded with the timeblocks that there are, and do they keep
    /// their shape?
    pub open spec fn loads<L: Fn(CalVis, usize, usize, bool) -> (CalVis, ThreadResults)>(
        self,
        load: L,
    ) -> bool {
        &&& forall|vis: CalVis, start: usize, end: usize, autos: bool|
            self.fillable(vis, start as int, end as int, autos) ==> #[trigger] load.requires(
                (vis, start, end, autos),
            )
        &&& forall|
            vis: CalVis,
            start: usize,
            end: usize,
            autos: bool,
            out: (CalVis, ThreadResults),
        |
            self.fillable(vis, start as int, end as int, autos) && #[trigger] load.ensures(
                (vis, start, end, autos),
                out,
            ) ==> out.0.wf() && vis_shape(out.0.vis_data) == vis_shape(vis.vis_data)
    }

    /// Are these visibilities what comes of loading a range of timeblocks of
    /// input data, or is this the error that does? Nothing can be loaded for an
    /// empty range. Otherwise arrays of zeros are filled, if there is memory for
    /// them, and then weighted, if they could be filled.
    pub open spec fn loaded<
        L: Fn(CalVis, usize, usize, bool) -> (CalVis, ThreadResults),
        P: Fn(u32, Binary64) -> Binary64,
        S: Fn(VisJones, Binary64) -> VisJones,
    >(
        self,
        start: int,
        end: int,
        load: L,
        product: P,
        scale: S,
        r: Result<CalVis, DiCalibrateError>,
    ) -> bool {
        let shape = self.vis_shape(end - start);
        if start == end {
            r == Err::<CalVis, DiCalibrateError>(
                DiCalibrateError::InsufficientMemory { need_bytes: 0 },
            )
        } else {
            ||| size(shape) > 0 && refused_for(shape) && r == Err::<CalVis, DiCalibrateError>(
                memory_error(shape),
            )
            ||| exists|blank: CalVis, out: (CalVis, ThreadResults)|
                {
                    &&& is_blank(blank, shape)
                    &&& #[trigger] load.ensures(
                        (blank, start as usize, end as usize, self.models_autos()),
                        out,
                    )
                    &&& self.filled(out, product, scale, r)
                }
        }
    }

    /// Is this what comes of arrays that the threads left like that?
    pub open spec fn filled<
        P: Fn(u32, Binary64) -> Binary64,
        S: Fn(VisJones, Binary64) -> VisJones,
    >(
        self,
        out: (CalVis, ThreadResults),
        product: P,
        scale: S,
        r: Result<CalVis, DiCalibrateError>,
    ) -> bool {
        match out.1.error() {
            Some(e) => r == Err::<CalVis, DiCalibrateError>(e),
            None => r matches Ok(vis) && vis.scaled_from(
                out.0.with_pols(self.input_vis_params.polarisations),
                Some(quantities_of(self.baseline_weights)),
                product,
                scale,
            ),
        }
    }

    /// Are auto-correlations modelled?
    pub fn using_autos(&self) -> (r: bool)
        ensures
            r == self.models_autos(),
    {
        self.input_vis_params.using_autos && match &self.output_model_vis_params {
            Some(o) => o.output_autos,
            None => false,
        }
    }

    /// What comes of arrays that the threads left like that: the error of a
    /// thread, or the arrays with their weights applied and the polarisations of
    /// the observation.
    pub fn finish<
        P: Fn(u32, Binary64) -> Binary64,
        S: Fn(VisJones, Binary64) -> VisJones,
    >(&self, cal_vis: CalVis, results: ThreadResults, product: &P, scale: &S) -> (r: Result<
        CalVis,
        DiCalibrateError,
    >)
        requires
            cal_vis.wf(),
            quantities_of(self.baseline_weights).len() == vis_shape(cal_vis.vis_data).2,
            forall|w: u32, b: Binary64| #[trigger] product.requires((w, b)),
            forall|v: VisJones, w: Binary64| #[trigger] scale.requires((v, w)),
        ensures
            self.filled((cal_vis, results), *product, *scale, r),
    {
        match results.join() {
            Err(e) => Err(e),
            Ok(()) => {
                let mut cal_vis: CalVis = cal_vis;
                cal_vis.pols = self.input_vis_params.polarisations;
                cal_vis.scale_by_weights(
                    Some(quantities_as_vec(&self.baseline_weights)),
                    product,
                    scale,
                );
                Ok(cal_vis)
            },
        }
    }

    /// For calibration, read in unflagged visibilities and generate sky-model
    /// visibilities for all selected input timeblocks.
    pub fn get_cal_vis<
        L: Fn(CalVis, usize, usize, bool) -> (CalVis, ThreadResults),
        P: Fn(u32, Binary64) -> Binary64,
        S: Fn(VisJones, Binary64) -> VisJones,
    >(&self, load: &L, product: &P, scale: &S) -> (r: Result<CalVis, DiCalibrateError>)
        requires
            self.loadable(
                0,
                timeblocks_of(self.input_vis_params.timeblocks).len() as int,
            ),
            self.loads(*load),
            forall|w: u32, b: Binary64| #[trigger] product.requires((w, b)),
            forall|v: VisJones, w: Binary64| #[trigger] scale.requires((v, w)),
        ensures
            self.loaded(
                0,
                timeblocks_of(self.input_vis_params.timeblocks).len() as int,
                *load,
                *product,
                *scale,
                r,
            ),
    {
        let end: usize = timeblocks_as_vec(&self.input_vis_params.timeblocks).len();
        self.get_cal_vis_for_input_range(0..end, load, product, scale)
    }

    /// Like [`Self::get_cal_vis`], but only for a contiguous range of indices
    /// into [`InputVisParams::timeblocks`]. Used to stream calibration
    /// timeblocks and limit peak host memory.
    ///
    /// `load` reads, models and writes: it fills arrays with the data of a range
    /// of timeblocks, with or without auto-correlations in the model that is
    /// written. `product` multiplies the weight of a visibility by that of its
    /// baseline, and `scale` multiplies a visibility by a weight.
    pub fn get_cal_vis_for_input_range<
        L: Fn(CalVis, usize, usize, bool) -> (CalVis, ThreadResults),
        P: Fn(u32, Binary64) -> Binary64,
        S: Fn(VisJones, Binary64) -> VisJones,
    >(&self, input_time_range: Range<usize>, load: &L, product: &P, scale: &S) -> (r: Result<
        CalVis,
        DiCalibrateError,
    >)
        requires
            self.loadable(input_time_range.start as int, input_time_range.end as int),
            self.loads(*load),
            forall|w: u32, b: Binary64| #[trigger] product.requires((w, b)),
            forall|v: VisJones, w: Binary64| #[trigger] scale.requires((v, w)),
        ensures
            self.loaded(
                input_time_range.start as int,
                input_time_range.end as int,
                *load,
                *product,
                *scale,
                r,
            ),
    {
        let start: usize = input_time_range.start;
        let end: usize = input_time_range.end;
        if start == end {
            return Err(DiCalibrateError::InsufficientMemory { need_bytes: 0 });
        }
        let num_unflagged_tiles: usize = self.input_vis_params.get_num_unflagged_tiles();
        let num_baselines: usize = num_cross_baselines(num_unflagged_tiles);
        let shape: Shape = (end - start, self.input_vis_params.chanblocks.len(), num_baselines);
        assert(shape == self.vis_shape(end - start));
        self.load_into(start..end, allocate(shape), load, product, scale)
    }

    /// What comes of loading a range of timeblocks of input data, given the arrays
    /// to fill, or the error that there is no memory for them. The parameters are
    /// as in [`Self::get_cal_vis_for_input_range`].
    pub fn load_into<
        L: Fn(CalVis, usize, usize, bool) -> (CalVis, ThreadResults),
        P: Fn(u32, Binary64) -> Binary64,
        S: Fn(VisJones, Binary64) -> VisJones,
    >(
        &self,
        input_time_range: Range<usize>,
        allocated: Result<CalVis, DiCalibrateError>,
        load: &L,
        product: &P,
        scale: &S,
    ) -> (r: Result<CalVis, DiCalibrateError>)
        requires
            self.loadable(input_time_range.start as int, input_time_range.end as int),
            allocated matches Ok(arrays) ==> self.fillable(
                arrays,
                input_time_range.start as int,
                input_time_range.end as int,
                self.models_autos(),
            ),
            self.loads(*load),
            forall|w: u32, b: Binary64| #[trigger] product.requires((w, b)),
            forall|v: VisJones, w: Binary64| #[trigger] scale.requires((v, w)),
        ensures
            match allocated {
                Err(e) => r == Err::<CalVis, DiCalibrateError>(e),
                Ok(arrays) => exists|out: (CalVis, ThreadResults)|
                    {
                        &&& #[trigger] load.ensures(
                            (
                                arrays,
                                input_time_range.start,
                                input_time_range.end,
                                self.models_autos(),
                            ),
                            out,
                        )
                        &&& self.filled(out, *product, *scale, r)
                    },
            },
    {
        let start: usize = input_time_range.start;
        let end: usize = input_time_range.end;
        let arrays: CalVis = match allocated {
            Ok(arrays) => arrays,
            Err(e) => {
                return Err(e);
            },
        };
        let ghost before = arrays;
        let (cal_vis, results) = load(arrays, start, end, self.using_autos());
        assert(load.ensures((before, start, end, self.models_autos()), (cal_vis, results)));
        self.finish(cal_vis, results, product, scale)
    }

    /// Is one calibration timeblock loaded at a time? That is done when it
    /// reduces peak host RAM (multiple cal timeblocks) and we are not also
    /// writing model vis (the writer expects a single continuous model stream).
    pub open spec fn streams(self) -> bool {
        timeblocks_of(self.cal_timeblocks).len() > 1 && self.output_model_vis_params is None
    }

    /// The number of solutions along each axis.
    pub open spec fn solutions_shape(self) -> (nat, nat, nat) {
        (
            timeblocks_of(self.cal_timeblocks).len(),
            self.input_vis_params.spec_num_unflagged_tiles(),
            self.input_vis_params.chanblocks@.len(),
        )
    }

    /// Can all calibration timeblocks be loaded, and do they have places among
    /// the solutions?
    pub open spec fn streamable(self) -> bool {
        let tbs = timeblocks_of(self.cal_timeblocks);
        forall|i: int|
            #![trigger tbs[i]]
            0 <= i < tbs.len() ==> {
                &&& tbs[i].index < tbs.len()
                &&& self.loadable(tbs[i].range.start as int, tbs[i].range.end as int)
            }
    }

    /// Could there be solutions for so many timeblocks?
    pub open spec fn solvable(self, num_timeblocks: nat) -> bool {
        let shape = self.solutions_shape();
        &&& num_timeblocks <= shape.0
        &&& num_timeblocks <= usize::MAX
        &&& allocatable(
            (num_timeblocks as usize, shape.1 as usize, shape.2 as usize),
            JONES_BYTES as int,
        )
    }

    /// Is this range of timeblocks of input data asked for?
    pub open spec fn asks(self, start: int, end: int) -> bool {
        let tbs = timeblocks_of(self.cal_timeblocks);
        if self.streams() {
            exists|k: int|
                0 <= k < tbs.len() && (#[trigger] tbs[k]).range.start == start && tbs[k].range.end
                    == end
        } else {
            start == 0 && end == timeblocks_of(self.input_vis_params.timeblocks).len()
        }
    }

    /// Can the visibilities be got that are asked for, and do they have the right
    /// shape?
    pub open spec fn gets<G: Fn(usize, usize) -> Result<CalVis, DiCalibrateError>>(
        self,
        get: G,
    ) -> bool {
        &&& forall|start: usize, end: usize|
            self.asks(start as int, end as int) ==> #[trigger] get.requires((start, end))
        &&& forall|start: usize, end: usize, vis: CalVis|
            self.asks(start as int, end as int) && #[trigger] get.ensures(
                (start, end),
                Ok::<CalVis, DiCalibrateError>(vis),
            ) ==> vis.wf() && vis_shape(vis.vis_data) == self.vis_shape(end - start)
    }

    /// Do calibration timeblocks have places among the solutions, where they are
    /// calibrated one after the other?
    pub open spec fn places(self) -> bool {
        let tbs = timeblocks_of(self.cal_timeblocks);
        self.streams() ==> forall|i: int|
            0 <= i < tbs.len() ==> (#[trigger] tbs[i]).index < tbs.len()
    }

    /// Are these the visibilities and the timeblock that are calibrated for
    /// calibration timeblock `k` by itself?
    pub open spec fn hands_over_one(
        self,
        k: int,
        vis: CalVis,
        timeblocks: Vec1<Timeblock>,
    ) -> bool {
        let tbs = timeblocks_of(self.cal_timeblocks);
        &&& 0 <= k < tbs.len()
        &&& timeblocks_of(timeblocks).len() == 1
        &&& tbs[k].is_local(timeblocks_of(timeblocks)[0], vis_shape(vis.vis_data).0 as int)
        &&& vis_shape(vis.vis_data) == self.vis_shape(tbs[k].range.end - tbs[k].range.start)
    }

    /// Can these visibilities and timeblocks be handed over to be calibrated?
    pub open spec fn hands_over(self, vis: CalVis, timeblocks: Vec1<Timeblock>) -> bool {
        &&& vis.wf()
        &&& self.solvable(timeblocks_of(timeblocks).len())
        &&& if self.streams() {
            exists|k: int| #[trigger] self.hands_over_one(k, vis, timeblocks)
        } else {
            &&& timeblocks == self.cal_timeblocks
            &&& vis_shape(vis.vis_data) == self.vis_shape(
                timeblocks_of(self.input_vis_params.timeblocks).len() as int,
            )
        }
    }

    /// Can visibilities be calibrated, and are there solutions and precisions
    /// for each timeblock then?
    pub open spec fn calibrates<
        C: Fn(&CalVis, &Vec1<Timeblock>, &Vec<Chanblock>, u32, Binary64, Binary64) -> (
            SolutionCube,
            PrecisionGrid,
        ),
    >(self, calibrate: C) -> bool {
        let chans = self.input_vis_params.chanblocks;
        let (n, stop, min) = (self.max_iterations, self.stop_threshold, self.min_threshold);
        &&& forall|vis: CalVis, tbs: Vec1<Timeblock>|
            self.hands_over(vis, tbs) ==> #[trigger] calibrate.requires(
                (&vis, &tbs, &chans, n, stop, min),
            )
        &&& forall|vis: CalVis, tbs: Vec1<Timeblock>, out: (SolutionCube, PrecisionGrid)|
            self.hands_over(vis, tbs) && #[trigger] calibrate.ensures(
                (&vis, &tbs, &chans, n, stop, min),
                out,
            ) ==> {
                &&& solution_shape(out.0).0 == timeblocks_of(tbs).len()
                &&& solution_shape(out.0).1 == self.solutions_shape().1
                &&& solution_shape(out.0).2 == self.solutions_shape().2
                &&& precision_rows(out.1).len() == timeblocks_of(tbs).len()
                &&& precision_columns(out.1) == self.solutions_shape().2
            }
    }

    /// Is this how a calibration timeblock is calibrated by itself?
    pub open spec fn staged<
        C: Fn(&CalVis, &Vec1<Timeblock>, &Vec<Chanblock>, u32, Binary64, Binary64) -> (
            SolutionCube,
            PrecisionGrid,
        ),
    >(
        self,
        timeblock: Timeblock,
        stage: Stage,
        outcomes: Outcomes,
        calibrate: C,
    ) -> bool {
        &&& outcomes(timeblock.range.start as int, timeblock.range.end as int, Ok(stage.0))
        &&& timeblocks_of(stage.1).len() == 1
        &&& timeblock.is_local(timeblocks_of(stage.1)[0], vis_shape(stage.0.vis_data).0 as int)
        &&& calibrate.ensures(
            (
                &stage.0,
                &stage.1,
                &self.input_vis_params.chanblocks,
                self.max_iterations,
                self.stop_threshold,
                self.min_threshold,
            ),
            (stage.2, stage.3),
        )
    }

    /// Do the solutions and precisions come from these stages, one for each
    /// calibration timeblock? Each timeblock's solutions are at its index; the
    /// precisions are in the order of the timeblocks.
    pub open spec fn gathered(
        self,
        stages: Seq<Stage>,
        di_jones: SolutionCube,
        precisions: PrecisionGrid,
    ) -> bool {
        let tbs = timeblocks_of(self.cal_timeblocks);
        &&& solution_shape(di_jones).0 == self.solutions_shape().0
        &&& solution_shape(di_jones).1 == self.solutions_shape().1
        &&& solution_shape(di_jones).2 == self.solutions_shape().2
        &&& forall|t: int, i: int, c: int|
            in_shape(solution_shape(di_jones), t, i, c) ==> (#[trigger] solution_cells(
                di_jones,
            )[(t, i, c)])@ == match last_at(tbs, t) {
                Some(k) => solution_cells(stages[k].2)[(0, i, c)]@,
                None => spec_identity(),
            }
        &&& precision_rows(precisions) == Seq::new(
            tbs.len(),
            |k: int| precision_rows(stages[k].3)[0],
        )
        &&& precision_columns(precisions) == self.solutions_shape().2
    }

    /// Is there a stage for each of the first calibration timeblocks?
    pub open spec fn staged_first<
        C: Fn(&CalVis, &Vec1<Timeblock>, &Vec<Chanblock>, u32, Binary64, Binary64) -> (
            SolutionCube,
            PrecisionGrid,
        ),
    >(self, stages: Seq<Stage>, outcomes: Outcomes, calibrate: C) -> bool {
        let tbs = timeblocks_of(self.cal_timeblocks);
        &&& stages.len() <= tbs.len()
        &&& forall|k: int|
            0 <= k < stages.len() ==> self.staged(
                tbs[k],
                #[trigger] stages[k],
                outcomes,
                calibrate,
            )
    }

    /// Do these solutions and precisions come of calibrating one timeblock
    /// after the other?
    pub open spec fn streamed<
        C: Fn(&CalVis, &Vec1<Timeblock>, &Vec<Chanblock>, u32, Binary64, Binary64) -> (
            SolutionCube,
            PrecisionGrid,
        ),
    >(
        self,
        outcomes: Outcomes,
        calibrate: C,
        di_jones: SolutionCube,
        precisions: PrecisionGrid,
    ) -> bool {
        exists|stages: Seq<Stage>|
            {
                &&& stages.len() == timeblocks_of(self.cal_timeblocks).len()
                &&& self.staged_first(stages, outcomes, calibrate)
                &&& #[trigger] self.gathered(stages, di_jones, precisions)
            }
    }

    /// Is this the error of the first calibration timeblock whose visibilities
    /// could not be got?
    pub open spec fn stream_failed<
        C: Fn(&CalVis, &Vec1<Timeblock>, &Vec<Chanblock>, u32, Binary64, Binary64) -> (
            SolutionCube,
            PrecisionGrid,
        ),
    >(self, outcomes: Outcomes, calibrate: C, e: DiCalibrateError) -> bool {
        exists|stages: Seq<Stage>|
            {
                let tbs = timeblocks_of(self.cal_timeblocks);
                let k = stages.len() as int;
                &&& k < tbs.len()
                &&& #[trigger] self.staged_first(stages, outcomes, calibrate)
                &&& outcomes(tbs[k].range.start as int, tbs[k].range.end as int, Err(e))
            }
    }

    /// Calibrate one timeblock after the other.
    fn run_streamed<
        G: Fn(usize, usize) -> Result<CalVis, DiCalibrateError>,
        C: Fn(&CalVis, &Vec1<Timeblock>, &Vec<Chanblock>, u32, Binary64, Binary64) -> (
            SolutionCube,
            PrecisionGrid,
        ),
    >(&self, get: &G, calibrate: &C) -> (r: Result<
        (SolutionCube, PrecisionGrid),
        DiCalibrateError,
    >)
        requires
            self.solvable(timeblocks_of(self.cal_timeblocks).len()),
            self.streams(),
            self.places(),
            self.gets(*get),
            self.calibrates(*calibrate),
        ensures
            match r {
                Ok(out) => self.streamed(outcomes_of(*get), *calibrate, out.0, out.1),
                Err(e) => self.stream_failed(outcomes_of(*get), *calibrate, e),
            },
    {
        let timeblocks: &Vec<Timeblock> = timeblocks_as_vec(&self.cal_timeblocks);
        let num_timeblocks: usize = timeblocks.len();
        let num_chanblocks: usize = self.input_vis_params.chanblocks.len();
        let num_tiles: usize = self.input_vis_params.get_num_unflagged_tiles();
        let shape: Shape = (num_timeblocks, num_tiles, num_chanblocks);
        let mut di_jones: SolutionCube = SolutionCube::identities(shape);
        let mut precisions: Vec<Binary64> = Vec::new();
        let ghost mut stages: Seq<Stage> = seq![];
        proof {
            lemma_fewer_timeblocks_are_solvable(*self, 1, num_timeblocks as nat);
        }
        let mut k: usize = 0;
        while k < num_timeblocks
            invariant
                timeblocks@ == timeblocks_of(self.cal_timeblocks),
                num_timeblocks == timeblocks@.len(),
                num_chanblocks == self.input_vis_params.chanblocks@.len(),
                num_tiles == self.input_vis_params.spec_num_unflagged_tiles(),
                shape == (num_timeblocks, num_tiles, num_chanblocks),
                k <= num_timeblocks,
                self.solvable(1),
                self.streams(),
                self.places(),
                self.gets(*get),
                self.calibrates(*calibrate),
                stages.len() == k,
                forall|i: int|
                    0 <= i < k ==> self.staged(
                        timeblocks@[i],
                        #[trigger] stages[i],
                        outcomes_of(*get),
                        *calibrate,
                    ),
                solution_shape(di_jones) == shape,
                forall|t: int, i: int, c: int|
                    in_shape(shape, t, i, c) ==> (#[trigger] solution_cells(di_jones)[(t, i, c)])@
                        == match last_at(timeblocks@.subrange(0, k as int), t) {
                        Some(j) => solution_cells(stages[j].2)[(0, i, c)]@,
                        None => spec_identity(),
                    },
                precisions@ == flattened(stages),
                precisions@.len() == k * num_chanblocks,
                precision_lists(stages, num_chanblocks as nat),
            decreases num_timeblocks - k,
        {
            let timeblock: &Timeblock = &timeblocks[k];
            assert(*timeblock == timeblocks@[k as int]);
            let cal_vis: CalVis = match get(timeblock.range.start, timeblock.range.end) {
                Ok(cal_vis) => cal_vis,
                Err(e) => {
                    assert(self.staged_first(stages, outcomes_of(*get), *calibrate));
                    return Err(e);
                },
            };
            let local: Vec1<Timeblock> = single_timeblock(
                timeblock.local(cal_vis.vis_data.shape().0),
            );
            assert(self.hands_over_one(k as int, cal_vis, local));
            let (solutions, results) = calibrate(
                &cal_vis,
                &local,
                &self.input_vis_params.chanblocks,
                self.max_iterations,
                self.stop_threshold,
                self.min_threshold,
            );
            let ghost before = stages;
            proof {
                stages = stages.push((cal_vis, local, solutions, results));
            }
            di_jones.assign_timeblock(timeblock.index, &solutions);
            let mut values: Vec<Binary64> = results.into_raw_vec();
            precisions.append(&mut values);
            proof {
                let done = timeblocks@.subrange(0, k + 1);
                assert(done.last() == *timeblock);
                assert(done.drop_last() =~= timeblocks@.subrange(0, k as int));
                assert(stages.drop_last() =~= before);
                lemma_last_at_in_range(timeblocks@.subrange(0, k as int));
                assert((k + 1) * num_chanblocks == k * num_chanblocks + num_chanblocks)
                    by (nonlinear_arith);
            }
            k = k + 1;
        }
        proof {
            assert(timeblocks@.subrange(0, num_timeblocks as int) =~= timeblocks@);
            lemma_axes(shape);
            lemma_flattened(stages, num_chanblocks as nat);
        }
        let grid: PrecisionGrid = PrecisionGrid::array_from_shape_vec(
            num_timeblocks,
            num_chanblocks,
            precisions,
        );
        proof {
            let rows = Seq::new(
                timeblocks@.len(),
                |k: int| precision_rows(stages[k].3)[0],
            );
            assert forall|k: int| 0 <= k < rows.len() implies #[trigger] precision_rows(grid)[k]
                == rows[k] by {
                assert(precision_rows(stages[k].3)[0].len() == num_chanblocks);
                assert forall|c: int| 0 <= c < num_chanblocks implies precision_rows(grid)[k][c]
                    == rows[k][c] by {
                    assert(flattened(stages)[k * (num_chanblocks as nat) + c] == rows[k][c]);
                }
                assert(precision_rows(grid)[k] =~= rows[k]);
            }
            assert(precision_rows(grid) =~= rows);
            assert(self.staged_first(stages, outcomes_of(*get), *calibrate));
            assert(self.gathered(stages, di_jones, grid));
        }
        Ok((di_jones, grid))
    }

    /// Can calibration be performed?
    pub open spec fn runnable(self) -> bool {
        &&& self.solvable(timeblocks_of(self.cal_timeblocks).len())
        &&& if self.streams() {
            self.streamable()
        } else {
            self.loadable(0, timeblocks_of(self.input_vis_params.timeblocks).len() as int)
        }
    }

    /// Can a range of timeblocks of input data be loaded and weighted?
    pub fn is_loadable(&self, start: usize, end: usize) -> (r: bool)
        ensures
            r == self.loadable(start as int, end as int),
    {
        if !(start <= end && end <= timeblocks_as_vec(&self.input_vis_params.timeblocks).len()) {
            return false;
        }
        if start == end {
            return true;
        }
        let n: usize = self.input_vis_params.get_num_unflagged_tiles();
        if n > 0 {
            match n.checked_mul(n - 1) {
                None => {
                    return false;
                },
                Some(pairs) => {
                    assert(pairs == n * (n - 1));
                },
            }
        } else {
            assert(n * (n - 1) == 0) by (nonlinear_arith)
                requires
                    n == 0,
            ;
        }
        let num_baselines: usize = num_cross_baselines(n);
        let shape: Shape = (end - start, self.input_vis_params.chanblocks.len(), num_baselines);
        assert(shape == self.vis_shape(end - start));
        is_addressable(shape) && quantities_as_vec(&self.baseline_weights).len() == num_baselines
    }

    /// Can calibration be performed?
    pub fn is_runnable(&self) -> (r: bool)
        ensures
            r == self.runnable(),
    {
        let timeblocks: &Vec<Timeblock> = timeblocks_as_vec(&self.cal_timeblocks);
        let num_timeblocks: usize = timeblocks.len();
        let shape: Shape = (
            num_timeblocks,
            self.input_vis_params.get_num_unflagged_tiles(),
            self.input_vis_params.chanblocks.len(),
        );
        if !is_allocatable(shape, JONES_BYTES) {
            return false;
        }
        if !(num_timeblocks > 1 && self.output_model_vis_params.is_none()) {
            return self.is_loadable(0, timeblocks_as_vec(&self.input_vis_params.timeblocks).len());
        }
        let mut i: usize = 0;
        while i < num_timeblocks
            invariant
                timeblocks@ == timeblocks_of(self.cal_timeblocks),
                num_timeblocks == timeblocks@.len(),
                i <= num_timeblocks,
                self.streams(),
                forall|k: int|
                    #![trigger timeblocks@[k]]
                    0 <= k < i ==> {
                        &&& timeblocks@[k].index < num_timeblocks
                        &&& self.loadable(
                            timeblocks@[k].range.start as int,
                            timeblocks@[k].range.end as int,
                        )
                    },
            decreases num_timeblocks - i,
        {
            let timeblock: &Timeblock = &timeblocks[i];
            assert(*timeblock == timeblocks@[i as int]);
            if !(timeblock.index < num_timeblocks && self.is_loadable(
                timeblock.range.start,
                timeblock.range.end,
            )) {
                return false;
            }
            i = i + 1;
        }
        true
    }

    /// Do these solutions and precisions come of calibrating these
    /// visibilities, which were loaded at once?
    pub open spec fn calibrated_at_once<
        C: Fn(&CalVis, &Vec1<Timeblock>, &Vec<Chanblock>, u32, Binary64, Binary64) -> (
            SolutionCube,
            PrecisionGrid,
        ),
    >(
        self,
        vis: CalVis,
        outcomes: Outcomes,
        calibrate: C,
        out: (SolutionCube, PrecisionGrid),
    ) -> bool {
        &&& outcomes(
            0,
            timeblocks_of(self.input_vis_params.timeblocks).len() as int,
            Ok(vis),
        )
        &&& calibrate.ensures(
            (
                &vis,
                &self.cal_timeblocks,
                &self.input_vis_params.chanblocks,
                self.max_iterations,
                self.stop_threshold,
                self.min_threshold,
            ),
            out,
        )
    }

    /// Do these solutions and precisions come of calibration?
    pub open spec fn calibrated<
        C: Fn(&CalVis, &Vec1<Timeblock>, &Vec<Chanblock>, u32, Binary64, Binary64) -> (
            SolutionCube,
            PrecisionGrid,
        ),
    >(
        self,
        outcomes: Outcomes,
        calibrate: C,
        di_jones: SolutionCube,
        precisions: PrecisionGrid,
    ) -> bool {
        if self.streams() {
            self.streamed(outcomes, calibrate, di_jones, precisions)
        } else {
            exists|vis: CalVis|
                #[trigger] self.calibrated_at_once(
                    vis,
                    outcomes,
                    calibrate,
                    (di_jones, precisions),
                )
        }
    }

    /// Does this error come of calibration?
    pub open spec fn not_calibrated<
        C: Fn(&CalVis, &Vec1<Timeblock>, &Vec<Chanblock>, u32, Binary64, Binary64) -> (
            SolutionCube,
            PrecisionGrid,
        ),
    >(self, outcomes: Outcomes, calibrate: C, e: DiCalibrateError) -> bool {
        if self.streams() {
            self.stream_failed(outcomes, calibrate, e)
        } else {
            outcomes(
                0,
                timeblocks_of(self.input_vis_params.timeblocks).len() as int,
                Err(e),
            )
        }
    }

    /// Is this what comes of performing calibration, when that may come of getting
    /// visibilities?
    pub open spec fn ran<
        C: Fn(&CalVis, &Vec1<Timeblock>, &Vec<Chanblock>, u32, Binary64, Binary64) -> (
            SolutionCube,
            PrecisionGrid,
        ),
    >(
        self,
        outcomes: Outcomes,
        calibrate: C,
        r: Result<(IncompleteSolutions, PrecisionGrid), DiCalibrateError>,
    ) -> bool {
        match r {
            Ok((incomplete, precisions)) => {
                &&& self.calibrated(outcomes, calibrate, incomplete.di_jones, precisions)
                &&& incomplete.timeblocks == self.cal_timeblocks
                &&& incomplete.chanblocks == self.input_vis_params.chanblocks
                &&& incomplete.max_iterations == self.max_iterations
                &&& incomplete.stop_threshold == self.stop_threshold
                &&& incomplete.min_threshold == self.min_threshold
            },
            Err(e) => self.not_calibrated(outcomes, calibrate, e),
        }
    }

    /// What may come of loading a range of timeblocks of input data.
    pub open spec fn load_outcomes<
        L: Fn(CalVis, usize, usize, bool) -> (CalVis, ThreadResults),
        P: Fn(u32, Binary64) -> Binary64,
        S: Fn(VisJones, Binary64) -> VisJones,
    >(self, load: L, product: P, scale: S) -> Outcomes {
        |start: int, end: int, r: Result<CalVis, DiCalibrateError>|
            self.loaded(start, end, load, product, scale, r)
    }

    /// Perform calibration, given how to get the visibilities of a range of
    /// timeblocks of input data. Timeblocks are got and calibrated one after the
    /// other, up to the first that cannot be got, or all at once.
    ///
    /// `calibrate` is as in [`Self::run`].
    pub fn run_with<
        G: Fn(usize, usize) -> Result<CalVis, DiCalibrateError>,
        C: Fn(&CalVis, &Vec1<Timeblock>, &Vec<Chanblock>, u32, Binary64, Binary64) -> (
            SolutionCube,
            PrecisionGrid,
        ),
    >(&self, get: &G, calibrate: &C) -> (r: Result<
        (IncompleteSolutions, PrecisionGrid),
        DiCalibrateError,
    >)
        requires
            self.solvable(timeblocks_of(self.cal_timeblocks).len()),
            self.places(),
            self.gets(*get),
            self.calibrates(*calibrate),
        ensures
            self.ran(outcomes_of(*get), *calibrate, r),
    {
        let stream: bool = timeblocks_as_vec(&self.cal_timeblocks).len() > 1
            && self.output_model_vis_params.is_none();
        let out: (SolutionCube, PrecisionGrid) = if stream {
            match self.run_streamed(get, calibrate) {
                Ok(out) => out,
                Err(e) => {
                    return Err(e);
                },
            }
        } else {
            let end: usize = timeblocks_as_vec(&self.input_vis_params.timeblocks).len();
            let cal_vis: CalVis = match get(0, end) {
                Ok(cal_vis) => cal_vis,
                Err(e) => {
                    return Err(e);
                },
            };
            let out: (SolutionCube, PrecisionGrid) = calibrate(
                &cal_vis,
                &self.cal_timeblocks,
                &self.input_vis_params.chanblocks,
                self.max_iterations,
                self.stop_threshold,
                self.min_threshold,
            );
            assert(self.calibrated_at_once(cal_vis, outcomes_of(*get), *calibrate, out));
            out
        };
        let (di_jones, precisions) = out;
        Ok(
            (
                IncompleteSolutions {
                    di_jones,
                    timeblocks: &self.cal_timeblocks,
                    chanblocks: &self.input_vis_params.chanblocks,
                    max_iterations: self.max_iterations,
                    stop_threshold: self.stop_threshold,
                    min_threshold: self.min_threshold,
                },
                precisions,
            ),
        )
    }

    /// Use the [`DiCalParams`] to perform calibration and obtain solutions, with
    /// the precision that was reached for each of them.
    ///
    /// `load`, `product` and `scale` are as in
    /// [`Self::get_cal_vis_for_input_range`]; `calibrate` calibrates timeblocks,
    /// given the channels, the maximum number of iterations, the stop threshold
    /// and the minimum threshold.
    pub fn run<
        L: Fn(CalVis, usize, usize, bool) -> (CalVis, ThreadResults),
        P: Fn(u32, Binary64) -> Binary64,
        S: Fn(VisJones, Binary64) -> VisJones,
        C: Fn(&CalVis, &Vec1<Timeblock>, &Vec<Chanblock>, u32, Binary64, Binary64) -> (
            SolutionCube,
            PrecisionGrid,
        ),
    >(&self, load: &L, product: &P, scale: &S, calibrate: &C) -> (r: Result<
        (IncompleteSolutions, PrecisionGrid),
        DiCalibrateError,
    >)
        requires
            self.runnable(),
            self.loads(*load),
            self.calibrates(*calibrate),
            forall|w: u32, b: Binary64| #[trigger] product.requires((w, b)),
            forall|v: VisJones, w: Binary64| #[trigger] scale.requires((v, w)),
        ensures
            self.ran(self.load_outcomes(*load, *product, *scale), *calibrate, r),
    {
        let num_timeblocks: usize = timeblocks_as_vec(&self.input_vis_params.timeblocks).len();
        let get = |start: usize, end: usize| -> (r: Result<CalVis, DiCalibrateError>)
            requires
                can_load(self, start, end),
            ensures
                comes_of_loading(self, start, end, load, product, scale, r),
            { self.get_cal_vis_for_input_range(start..end, load, product, scale) };
        proof {
            assert forall|start: usize, end: usize| self.asks(start as int, end as int) implies
                #[trigger] get.requires((start, end)) by {
                assert(self.loadable(start as int, end as int));
            }
            assert forall|start: usize, end: usize, vis: CalVis|
                self.asks(start as int, end as int) && #[trigger] get.ensures(
                    (start, end),
                    Ok::<CalVis, DiCalibrateError>(vis),
                ) implies vis.wf() && vis_shape(vis.vis_data) == self.vis_shape(end - start) by {
                assert(self.loadable(start as int, end as int));
                lemma_loaded_shape(*self, start as int, end as int, *load, *product, *scale, vis);
            }
        }
        let r: Result<(IncompleteSolutions, PrecisionGrid), DiCalibrateError> = self.run_with(
            &get,
            calibrate,
        );
        proof {
            assert forall|start: int, end: int, got: Result<CalVis, DiCalibrateError>|
                self.asks(start, end) && #[trigger] outcomes_of(get)(
                    start,
                    end,
                    got,
                ) implies self.load_outcomes(*load, *product, *scale)(start, end, got) by {
                if !self.streams() {
                    assert(end == num_timeblocks);
                }
            }
            lemma_ran_from(
                *self,
                outcomes_of(get),
                self.load_outcomes(*load, *product, *scale),
                *calibrate,
                r,
            );
        }
        r
    }
}

/// [`DiCalParams::loadable`]
spec fn can_load(params: &DiCalParams, start: usize, end: usize) -> bool {
    params.loadable(start as int, end as int)
}

/// [`DiCalParams::loaded`]
spec fn comes_of_loading<
    L: Fn(CalVis, usize, usize, bool) -> (CalVis, ThreadResults),
    P: Fn(u32, Binary64) -> Binary64,
    S: Fn(VisJones, Binary64) -> VisJones,
>(
    params: &DiCalParams,
    start: usize,
    end: usize,
    load: &L,
    product: &P,
    scale: &S,
    r: Result<CalVis, DiCalibrateError>,
) -> bool {
    params.loaded(start as int, end as int, *load, *product, *scale, r)
}

/// Visibilities that were loaded have the shape of the arrays that were filled.
pub proof fn lemma_loaded_shape<
    L: Fn(CalVis, usize, usize, bool) -> (CalVis, ThreadResults),
    P: Fn(u32, Binary64) -> Binary64,
    S: Fn(VisJones, Binary64) -> VisJones,
>(params: DiCalParams, start: int, end: int, load: L, product: P, scale: S, vis: CalVis)
    requires
        params.loads(load),
        0 <= start <= end <= timeblocks_of(params.input_vis_params.timeblocks).len(),
        end <= usize::MAX,
        params.loaded(start, end, load, product, scale, Ok(vis)),
    ensures
        vis.wf(),
        vis_shape(vis.vis_data) == params.vis_shape(end - start),
{
    let r = Ok::<CalVis, DiCalibrateError>(vis);
    let (blank, out) = choose|blank: CalVis, out: (CalVis, ThreadResults)|
        {
            &&& is_blank(blank, params.vis_shape(end - start))
            &&& #[trigger] load.ensures(
                (blank, start as usize, end as usize, params.models_autos()),
                out,
            )
            &&& params.filled(out, product, scale, r)
        };
    assert(params.fillable(blank, start, end, params.models_autos()));
}

/// Calibration gives no other results where nothing else may come of getting
/// visibilities.
proof fn lemma_ran_from<
    C: Fn(&CalVis, &Vec1<Timeblock>, &Vec<Chanblock>, u32, Binary64, Binary64) -> (
        SolutionCube,
        PrecisionGrid,
    ),
>(
    params: DiCalParams,
    few: Outcomes,
    many: Outcomes,
    calibrate: C,
    r: Result<(IncompleteSolutions, PrecisionGrid), DiCalibrateError>,
)
    requires
        params.ran(few, calibrate, r),
        forall|start: int, end: int, got: Result<CalVis, DiCalibrateError>|
            params.asks(start, end) && #[trigger] few(start, end, got) ==> many(start, end, got),
    ensures
        params.ran(many, calibrate, r),
{
    let tbs = timeblocks_of(params.cal_timeblocks);
    if params.streams() {
        match r {
            Ok((incomplete, precisions)) => {
                let stages = choose|stages: Seq<Stage>|
                    {
                        &&& stages.len() == tbs.len()
                        &&& params.staged_first(stages, few, calibrate)
                        &&& #[trigger] params.gathered(stages, incomplete.di_jones, precisions)
                    };
                assert(params.staged_first(stages, many, calibrate));
            },
            Err(e) => {
                let stages = choose|stages: Seq<Stage>|
                    {
                        let k = stages.len() as int;
                        &&& k < tbs.len()
                        &&& #[trigger] params.staged_first(stages, few, calibrate)
                        &&& few(tbs[k].range.start as int, tbs[k].range.end as int, Err(e))
                    };
                assert(params.staged_first(stages, many, calibrate));
            },
        }
    } else if let Ok((incomplete, precisions)) = r {
        let vis = choose|vis: CalVis|
            #[trigger] params.calibrated_at_once(
                vis,
                few,
                calibrate,
                (incomplete.di_jones, precisions),
            );
        assert(params.calibrated_at_once(
            vis,
            many,
            calibrate,
            (incomplete.di_jones, precisions),
        ));
    }
}

/// Streaming limits memory: no range of timeblocks needs more than all of them
/// do at once, and a shorter range needs no more than a longer one.
pub proof fn lemma_streaming_limits_memory(params: DiCalParams, part: usize, all: usize)
    requires
        part <= all,
    ensures
        needed_bytes(params.vis_shape(part as int)) <= needed_bytes(params.vis_shape(all as int)),
{
    let a = params.vis_shape(part as int);
    let b = params.vis_shape(all as int);
    let (y, z) = (a.1 as int, a.2 as int);
    assert(part * y * z <= all * y * z) by (nonlinear_arith)
        requires
            part <= all,
            0 <= y,
            0 <= z,
    ;
    let (m, n) = (size(a), size(b));
    assert(m == part * y * z && n == all * y * z);
    assert(m * (2 * VIS_JONES_BYTES + WEIGHT_BYTES) <= n * (2 * VIS_JONES_BYTES + WEIGHT_BYTES))
        by (nonlinear_arith)
        requires
            m <= n,
    ;
}

/// When the timeblocks are numbered in order, each has the solutions of its own
/// calibration, and nothing is left without.
pub proof fn lemma_each_timeblock_has_its_solutions(
    params: DiCalParams,
    stages: Seq<Stage>,
    di_jones: SolutionCube,
    precisions: PrecisionGrid,
    t: int,
    i: int,
    c: int,
)
    requires
        params.gathered(stages, di_jones, precisions),
        forall|k: int|
            0 <= k < timeblocks_of(params.cal_timeblocks).len() ==> (#[trigger] timeblocks_of(
                params.cal_timeblocks,
            )[k]).index == k,
        in_shape(solution_shape(di_jones), t, i, c),
    ensures
        solution_cells(di_jones)[(t, i, c)]@ == solution_cells(stages[t].2)[(0, i, c)]@,
        precision_rows(precisions)[t] == precision_rows(stages[t].3)[0],
{
    lemma_last_at_of_numbered(timeblocks_of(params.cal_timeblocks), t);
}

proof fn lemma_last_at_of_numbered(timeblocks: Seq<Timeblock>, t: int)
    requires
        forall|k: int| 0 <= k < timeblocks.len() ==> (#[trigger] timeblocks[k]).index == k,
        0 <= t < timeblocks.len(),
    ensures
        last_at(timeblocks, t) == Some(t),
    decreases timeblocks.len(),
{
    assert(timeblocks.last() == timeblocks[timeblocks.len() - 1]);
    if t < timeblocks.len() - 1 {
        let before = timeblocks.drop_last();
        assert forall|k: int| 0 <= k < before.len() implies (#[trigger] before[k]).index == k by {
            assert(before[k] == timeblocks[k]);
        }
        lemma_last_at_of_numbered(before, t);
    }
}

/// The precisions of all stages, one after the other.
spec fn flattened(stages: Seq<Stage>) -> Seq<Binary64>
    decreases stages.len(),
{
    if stages.len() == 0 {
        seq![]
    } else {
        flattened(stages.drop_last()) + precision_rows(stages.last().3)[0]
    }
}

/// Each stage has precisions for one timeblock.
spec fn precision_lists(stages: Seq<Stage>, num_chanblocks: nat) -> bool {
    forall|i: int|
        #![trigger stages[i]]
        0 <= i < stages.len() ==> precision_rows(stages[i].3).len() == 1 && precision_rows(
            stages[i].3,
        )[0].len() == num_chanblocks
}

proof fn lemma_last_at_in_range(timeblocks: Seq<Timeblock>)
    ensures
        forall|index: int|
            (#[trigger] last_at(timeblocks, index)) matches Some(k) ==> 0 <= k < timeblocks.len(),
    decreases timeblocks.len(),
{
    if timeblocks.len() > 0 {
        lemma_last_at_in_range(timeblocks.drop_last());
        assert forall|index: int|
            (#[trigger] last_at(timeblocks, index)) is Some implies 0 <= last_at(timeblocks, index)->0
            < timeblocks.len() by {
            let before = last_at(timeblocks.drop_last(), index);
        }
    }
}

/// Where the precisions of a stage lie among those of all stages.
proof fn lemma_flattened(stages: Seq<Stage>, num_chanblocks: nat)
    requires
        precision_lists(stages, num_chanblocks),
    ensures
        flattened(stages).len() == stages.len() * num_chanblocks,
        forall|k: int, c: int|
            0 <= k < stages.len() && 0 <= c < num_chanblocks ==> #[trigger] flattened(stages)[k
                * num_chanblocks + c] == precision_rows(stages[k].3)[0][c],
    decreases stages.len(),
{
    if stages.len() > 0 {
        let before = stages.drop_last();
        let n = before.len() as int;
        let m = num_chanblocks as int;
        assert forall|i: int| #![trigger before[i]] 0 <= i < before.len() implies precision_rows(
            before[i].3,
        ).len() == 1 && precision_rows(before[i].3)[0].len() == num_chanblocks by {
            assert(before[i] == stages[i]);
        }
        lemma_flattened(before, num_chanblocks);
        assert(stages.last() == stages[n]);
        assert((n + 1) * m == n * m + m) by (nonlinear_arith);
        assert forall|k: int, c: int| 0 <= k < stages.len() && 0 <= c < num_chanblocks implies
            #[trigger] flattened(stages)[k * num_chanblocks + c] == precision_rows(
            stages[k].3,
        )[0][c] by {
            assert(0 <= k * m) by (nonlinear_arith)
                requires
                    0 <= k,
                    0 <= m,
            ;
            if k < n {
                assert(k * m + m <= n * m) by (nonlinear_arith)
                    requires
                        k + 1 <= n,
                        0 <= m,
                ;
                assert(flattened(before)[k * m + c] == precision_rows(before[k].3)[0][c]);
            }
        }
    }
}

/// Where there could be solutions for some timeblocks, there could be for fewer.
pub proof fn lemma_fewer_timeblocks_are_solvable(params: DiCalParams, few: nat, many: nat)
    requires
        0 < few <= many,
        params.solvable(many),
    ensures
        params.solvable(few),
{
    let shape = params.solutions_shape();
    let (y, z) = (shape.1 as usize as int, shape.2 as usize as int);
    let b = if y == 0 { 1int } else { y };
    let c = if z == 0 { 1int } else { z };
    let m = JONES_BYTES as int;
    assert(few * b * c <= many * b * c) by (nonlinear_arith)
        requires
            few <= many,
            b >= 1,
            c >= 1,
    ;
    assert(few * y * z * m <= many * y * z * m) by (nonlinear_arith)
        requires
            few <= many,
            0 <= y,
            0 <= z,
            0 <= m,
    ;
}

/// No axis of a cube is longer than what the others leave room for.
proof fn lemma_axes(shape: Shape)
    requires
        representable(shape),
    ensures
        shape.0 <= isize::MAX,
        shape.2 <= isize::MAX,
{
    let a = if shape.0 == 0 { 1int } else { shape.0 as int };
    let b = if shape.1 == 0 { 1int } else { shape.1 as int };
    let c = if shape.2 == 0 { 1int } else { shape.2 as int };
    assert(a <= a * b * c && c <= a * b * c) by (nonlinear_arith)
        requires
            a >= 1,
            b >= 1,
            c >= 1,
    ;
}

} // verus!
