//! What the threads and devices of calibration work towards.

use std::collections::HashSet;
use vstd::prelude::*;

use super::array_laws::has_indices;
use super::calibration_laws::lemma_pairs;
use super::cubes::{
    in_shape, vis_cells, vis_shape, weight_cells, weight_shape, Shape, VisCube, VisJones,
    WeightCube,
};
use super::di_calibration::DiCalParams;
use super::error::{human_bytes, insufficient_memory_message, DiCalibrateError};
use super::input::{
    keep_unflagged, num_cross_baselines, num_unflagged, unflagged, InputVisParams, Polarisations,
};
use super::message::VisTimestep;
use super::model_frame::{
    frame_cells, frame_shape, in_frame, weight_frame_cells, weight_frame_shape, ModelFrame,
    WeightFrame,
};
use super::sharding::{assemble, assembled, piece_holds, use_baseline_shards};
use super::threads::{ModelEvent, ModelLoop, ModelStep, ReadEvent, ReadLoop, ReadStep};
use super::timeblock::Timeblock;
use crate::binary64::Binary64;
use crate::non_empty::{quantities_of, timeblocks_of};

verus! {

/// Are these all indices below `n` that are not flagged, in order?
pub open spec fn lists_unflagged(n: int, flagged: Set<usize>, kept: Seq<int>) -> bool {
    &&& forall|k: int|
        0 <= k < kept.len() ==> 0 <= #[trigger] kept[k] < n && !flagged.contains(kept[k] as usize)
    &&& forall|k: int, j: int| 0 <= k < j < kept.len() ==> (#[trigger] kept[k]) < #[trigger] kept[j]
    &&& forall|i: int|
        0 <= i < n && !(#[trigger] flagged.contains(i as usize)) ==> kept.contains(i)
}

/// The elements that are not flagged are kept, in order, and no others.
pub proof fn lemma_unflagged_elements_are_kept<T: Copy>(
    all: &[T],
    flagged: HashSet<usize>,
    r: Vec<T>,
)
    requires
        call_ensures(keep_unflagged::<T>, (all, &flagged), r),
    ensures
        exists|kept: Seq<int>|
            #![trigger lists_unflagged(all@.len() as int, flagged@, kept)]
            lists_unflagged(all@.len() as int, flagged@, kept) && kept.len() == r@.len() && forall|
                k: int,
            | 0 <= k < r@.len() ==> #[trigger] r@[k] == all@[kept[k]],
{
    let kept = lemma_unflagged(all@, flagged@);
    lemma_lists_unflagged(all@.len(), flagged@, kept);
}

/// The indices of the elements that are kept.
spec fn kept_indices(n: nat, flagged: Set<usize>) -> Seq<int>
    decreases n,
{
    if n == 0 {
        seq![]
    } else {
        let before = kept_indices((n - 1) as nat, flagged);
        if flagged.contains((n - 1) as usize) {
            before
        } else {
            before.push(n - 1)
        }
    }
}

proof fn lemma_unflagged<T>(all: Seq<T>, flagged: Set<usize>) -> (kept: Seq<int>)
    ensures
        kept == kept_indices(all.len(), flagged),
        kept.len() == unflagged(all, flagged).len(),
        forall|k: int|
            #![trigger kept[k]]
            #![trigger unflagged(all, flagged)[k]]
            0 <= k < kept.len() ==> 0 <= kept[k] < all.len() && unflagged(all, flagged)[k]
                == all[kept[k]],
    decreases all.len(),
{
    if all.len() > 0 {
        let init = all.drop_last();
        let before = lemma_unflagged(init, flagged);
        let kept = kept_indices(all.len(), flagged);
        assert forall|k: int|
            #![trigger kept[k]]
            #![trigger unflagged(all, flagged)[k]]
            0 <= k < kept.len() implies 0 <= kept[k] < all.len() && unflagged(all, flagged)[k]
            == all[kept[k]] by {
            if k < before.len() {
                assert(unflagged(init, flagged)[k] == init[before[k]]);
            }
        }
    }
    kept_indices(all.len(), flagged)
}

proof fn lemma_lists_unflagged(n: nat, flagged: Set<usize>, kept: Seq<int>)
    requires
        kept == kept_indices(n, flagged),
    ensures
        lists_unflagged(n as int, flagged, kept),
        kept.len() == num_unflagged(n, flagged),
    decreases n,
{
    if n > 0 {
        let before = kept_indices((n - 1) as nat, flagged);
        lemma_lists_unflagged((n - 1) as nat, flagged, before);
        assert forall|i: int|
            0 <= i < n && !(#[trigger] flagged.contains(i as usize)) implies kept.contains(i) by {
            if i < n - 1 {
                assert(before.contains(i));
                let k = choose|k: int| 0 <= k < before.len() && before[k] == i;
                assert(kept[k] == i);
            } else {
                assert(kept[kept.len() - 1] == i);
            }
        }
    }
}

/// Unflagged tiles are counted.
pub proof fn lemma_unflagged_tiles_are_counted(input: InputVisParams, r: usize)
    requires
        call_ensures(InputVisParams::get_num_unflagged_tiles, (&input,), r),
    ensures
        exists|kept: Seq<int>| #[trigger]
            lists_unflagged(input.num_tiles as int, input.flagged_tiles@, kept) && kept.len() == r,
{
    let kept = kept_indices(input.num_tiles as nat, input.flagged_tiles@);
    lemma_lists_unflagged(input.num_tiles as nat, input.flagged_tiles@, kept);
}

/// There is a baseline for each two tiles.
pub proof fn lemma_baselines_are_counted(n: usize, r: usize)
    requires
        call_ensures(num_cross_baselines, (n,), r),
    ensures
        2 * r == n * (n - 1),
{
    lemma_pairs(n as nat);
}

/// Channels have their frequencies, in order.
pub proof fn lemma_frequencies_are_those_of_channels(input: InputVisParams, r: Vec<Binary64>)
    requires
        call_ensures(InputVisParams::get_freqs, (&input,), r),
    ensures
        r@.len() == input.chanblocks@.len(),
        forall|i: int| 0 <= i < r@.len() ==> #[trigger] r@[i] == input.chanblocks@[i].freq,
{
}

/// Data have all polarisations, unless it is known otherwise.
pub proof fn lemma_default_polarisations(r: Polarisations)
    requires
        call_ensures(<Polarisations as Default>::default, (), r),
    ensures
        r is XxXyYxYy,
{
}

/// Is `shape` that of a range of timeblocks?
pub open spec fn is_shape_of(params: DiCalParams, start: int, end: int, shape: Shape) -> bool {
    let n = params.input_vis_params.spec_num_unflagged_tiles();
    &&& shape.0 == end - start
    &&& shape.1 == params.input_vis_params.chanblocks@.len()
    &&& 2 * shape.2 == n * (n - 1)
}

/// Every range of timeblocks that there is can be loaded, as long as its bytes can
/// be counted and there is a weight for each baseline. No other limit holds.
pub proof fn lemma_what_can_be_loaded(
    params: DiCalParams,
    start: usize,
    end: usize,
    shape: Shape,
    r: bool,
)
    requires
        call_ensures(DiCalParams::is_loadable, (&params, start, end), r),
        start < end ==> is_shape_of(params, start as int, end as int, shape),
    ensures
        start > end ==> !r,
        start == end ==> (r <==> end <= timeblocks_of(params.input_vis_params.timeblocks).len()),
        start < end ==> (r <==> {
            &&& end <= timeblocks_of(params.input_vis_params.timeblocks).len()
            &&& has_indices(shape)
            &&& shape.0 * shape.1 * shape.2 * 68 <= usize::MAX
            &&& 2 * shape.2 <= usize::MAX
            &&& quantities_of(params.baseline_weights).len() == shape.2
        }),
{
    lemma_pairs(params.input_vis_params.spec_num_unflagged_tiles());
    if start < end {
        assert(params.vis_shape(end - start) == shape);
    }
}

/// Calibration can be performed exactly if the solutions of all timeblocks can be
/// had, and what is loaded can be loaded: all data, or those of each timeblock, which
/// then has a place among the solutions.
pub proof fn lemma_what_can_be_calibrated(params: DiCalParams, num_timeblocks: usize, r: bool)
    requires
        call_ensures(DiCalParams::is_runnable, (&params,), r),
        num_timeblocks == timeblocks_of(params.cal_timeblocks).len(),
        params.input_vis_params.spec_num_unflagged_tiles() <= usize::MAX,
    ensures
        ({
            let tbs = timeblocks_of(params.cal_timeblocks);
            let shape: Shape = (
                num_timeblocks,
                params.input_vis_params.spec_num_unflagged_tiles() as usize,
                params.input_vis_params.chanblocks@.len() as usize,
            );
            let solutions = has_indices(shape) && shape.0 * shape.1 * shape.2 * 64 <= isize::MAX;
            if num_timeblocks >= 2 && params.output_model_vis_params is None {
                r <==> solutions && forall|k: int|
                    0 <= k < num_timeblocks ==> (#[trigger] tbs[k]).index < num_timeblocks
                        && params.loadable(tbs[k].range.start as int, tbs[k].range.end as int)
            } else {
                r <==> solutions && params.loadable(
                    0,
                    timeblocks_of(params.input_vis_params.timeblocks).len() as int,
                )
            }
        }),
{
}

/// Baselines are shared out exactly if a GPU is used, and there are at least two
/// devices and two baselines.
pub proof fn lemma_when_baselines_are_shared_out(
    on_gpu: bool,
    num_baselines: usize,
    gpu_devices: &[i32],
    r: bool,
)
    requires
        call_ensures(use_baseline_shards, (on_gpu, num_baselines, gpu_devices), r),
    ensures
        r <==> on_gpu && num_baselines >= 2 && gpu_devices@.len() >= 2,
{
}

/// Does piece `k` decide on a baseline: it holds it, and no later one does?
pub open spec fn decides(pieces: Seq<(usize, ModelFrame)>, b: int, k: int) -> bool {
    &&& 0 <= k < pieces.len()
    &&& pieces[k].0 <= b < pieces[k].0 + frame_shape(pieces[k].1).1
    &&& forall|j: int|
        k < j < pieces.len() ==> !((#[trigger] pieces[j]).0 <= b < pieces[j].0 + frame_shape(
            pieces[j].1,
        ).1)
}

/// Does a baseline have the visibilities of the piece that decides on it, from its
/// own place in the piece, or those from before where there is none?
pub open spec fn is_placed(
    before: ModelFrame,
    after: ModelFrame,
    pieces: Seq<(usize, ModelFrame)>,
    c: int,
    b: int,
) -> bool {
    let cell = frame_cells(after)[(c, b)];
    &&& forall|k: int| #[trigger]
        decides(pieces, b, k) ==> cell == frame_cells(pieces[k].1)[(c, b - pieces[k].0)]
    &&& (forall|k: int| !#[trigger] decides(pieces, b, k)) ==> cell == frame_cells(before)[(c, b)]
}

/// Pieces are put where they belong, and what no piece holds stays.
pub proof fn lemma_pieces_have_their_places(pieces: Vec<(usize, ModelFrame)>, c: int, b: int)
    ensures
        forall|frame: &mut ModelFrame| #[trigger]
            call_ensures(assemble, (frame, &pieces), ()) ==> {
                &&& frame_shape(*final(frame)) == frame_shape(*frame)
                &&& 0 <= c < frame_shape(*frame).0 && 0 <= b < frame_shape(*frame).1 ==> is_placed(
                    *frame,
                    *final(frame),
                    pieces@,
                    c,
                    b,
                )
            },
{
    assert forall|frame: &mut ModelFrame| #[trigger]
        call_ensures(assemble, (frame, &pieces), ()) && 0 <= c < frame_shape(*frame).0 && 0 <= b
            < frame_shape(*frame).1 implies is_placed(*frame, *final(frame), pieces@, c, b) by {
        assert(in_frame(frame_shape(*final(frame)), c, b));
        lemma_decided(frame_cells(*frame)[(c, b)], pieces@, c, b);
    }
}

proof fn lemma_decided(before: VisJones, pieces: Seq<(usize, ModelFrame)>, c: int, b: int)
    ensures
        forall|k: int| #[trigger]
            decides(pieces, b, k) ==> assembled(before, pieces, c, b) == frame_cells(
                pieces[k].1,
            )[(c, b - pieces[k].0)],
        (forall|k: int| !#[trigger] decides(pieces, b, k)) ==> assembled(before, pieces, c, b)
            == before,
    decreases pieces.len(),
{
    if pieces.len() > 0 {
        let init = pieces.drop_last();
        let last = pieces.len() - 1;
        lemma_decided(before, init, c, b);
        if piece_holds(pieces.last(), b) {
            assert(decides(pieces, b, last));
            assert forall|k: int| #[trigger] decides(pieces, b, k) implies k == last by {
                if k < last {
                    assert(pieces[last] == pieces.last());
                }
            }
        } else {
            assert forall|k: int| #[trigger] decides(pieces, b, k) implies decides(init, b, k) by {
                assert forall|j: int| k < j < init.len() implies !((#[trigger] init[j]).0 <= b
                    < init[j].0 + frame_shape(init[j].1).1) by {
                    assert(pieces[j] == init[j]);
                }
            }
            assert forall|k: int| #[trigger] decides(init, b, k) implies decides(pieces, b, k) by {
                assert forall|j: int| k < j < pieces.len() implies !((#[trigger] pieces[j]).0 <= b
                    < pieces[j].0 + frame_shape(pieces[j].1).1) by {
                    if j < last {
                        assert(pieces[j] == init[j]);
                    }
                }
            }
        }
    }
}

/// What is sent for a timestep is what was modelled for it: the cross-correlations,
/// the auto-correlations if there are any, the median timestamp of its timeblock,
/// and the same weight for each visibility.
pub proof fn lemma_messages_tell_what_was_modelled(
    work: ModelLoop,
    input: InputVisParams,
    timeblocks: &[Timeblock],
    timestep: usize,
    cross: ModelFrame,
    autos: Option<ModelFrame>,
    weight: u32,
    r: VisTimestep,
    c: int,
    b: int,
)
    requires
        call_ensures(
            ModelLoop::message,
            (
                &work,
                &input,
                timeblocks,
                &(ModelStep::Send { timestep }),
                cross,
                autos,
                weight,
            ),
            r,
        ),
    ensures
        r.timestamp == timeblocks@[timestep as int].median,
        r.cross_data_fb == cross,
        weight_frame_shape(r.cross_weights_fb) == frame_shape(cross),
        0 <= c < frame_shape(cross).0 && 0 <= b < frame_shape(cross).1 ==> weight_frame_cells(
            r.cross_weights_fb,
        )[(c, b)] == weight,
        r.autos is Some <==> autos is Some,
        r.autos matches Some((data, weights)) ==> {
            &&& Some(data) == autos
            &&& weight_frame_shape(weights) == frame_shape(data)
            &&& 0 <= c < frame_shape(data).0 && 0 <= b < frame_shape(data).1
                ==> weight_frame_cells(weights)[(c, b)] == weight
        },
{
}

/// The data or model of a timestep go into that timestep, and no other changes.
pub proof fn lemma_timesteps_have_their_places(
    timestep: usize,
    frame: ModelFrame,
    weights: WeightFrame,
    t: int,
    c: int,
    b: int,
)
    ensures
        forall|cube: &mut VisCube| #[trigger]
            call_ensures(VisCube::set_timestep, (cube, timestep, &frame), ()) ==> {
                let shape = vis_shape(*cube);
                &&& vis_shape(*final(cube)) == shape
                &&& 0 <= t < shape.0 && 0 <= c < shape.1 && 0 <= b < shape.2 ==> {
                    &&& t == timestep ==> vis_cells(*final(cube))[(t, c, b)] == frame_cells(
                        frame,
                    )[(c, b)]
                    &&& t != timestep ==> vis_cells(*final(cube))[(t, c, b)] == vis_cells(
                        *cube,
                    )[(t, c, b)]
                }
            },
        forall|cube: &mut WeightCube| #[trigger]
            call_ensures(WeightCube::set_timestep, (cube, timestep, &weights), ()) ==> {
                let shape = weight_shape(*cube);
                &&& weight_shape(*final(cube)) == shape
                &&& 0 <= t < shape.0 && 0 <= c < shape.1 && 0 <= b < shape.2 ==> {
                    &&& t == timestep ==> weight_cells(*final(cube))[(t, c, b)]
                        == weight_frame_cells(weights)[(c, b)]
                    &&& t != timestep ==> weight_cells(*final(cube))[(t, c, b)] == weight_cells(
                        *cube,
                    )[(t, c, b)]
                }
            },
{
    assert forall|cube: &mut VisCube| #[trigger]
        call_ensures(VisCube::set_timestep, (cube, timestep, &frame), ()) implies in_shape(
        vis_shape(*final(cube)),
        t,
        c,
        b,
    ) == (0 <= t < vis_shape(*cube).0 && 0 <= c < vis_shape(*cube).1 && 0 <= b < vis_shape(
        *cube,
    ).2) by {}
    assert forall|cube: &mut WeightCube| #[trigger]
        call_ensures(WeightCube::set_timestep, (cube, timestep, &weights), ()) implies in_shape(
        weight_shape(*final(cube)),
        t,
        c,
        b,
    ) == (0 <= t < weight_shape(*cube).0 && 0 <= c < weight_shape(*cube).1 && 0 <= b
        < weight_shape(*cube).2) by {}
}

/// A timeblock by itself is the first, of all data that were loaded for it, and
/// else what it was.
pub proof fn lemma_local_timeblocks(timeblock: Timeblock, num_timesteps: usize, r: Timeblock)
    requires
        call_ensures(Timeblock::local, (&timeblock, num_timesteps), r),
    ensures
        r.index == 0,
        r.range.start == 0,
        r.range.end == num_timesteps,
        r.timestamps@ == timeblock.timestamps@,
        r.timesteps@ == timeblock.timesteps@,
        r.median == timeblock.median,
{
}

/// The thread starts at the first timestep, if there is one. A step leads to the
/// one after it: cross-correlations to auto-correlations, if there are to be any,
/// then to a look at the other threads, then to sending, then to the next timestep.
pub proof fn lemma_steps_of_modelling(
    work: ModelLoop,
    timestep: usize,
    issue: bool,
    taken: bool,
    first: ModelStep,
    after_cross: ModelStep,
    after_autos: ModelStep,
    after_check: ModelStep,
    after_send: ModelStep,
)
    requires
        timestep < work.num_timesteps,
        call_ensures(ModelLoop::start, (&work,), first),
        call_ensures(
            ModelLoop::next,
            (&work, ModelStep::Cross { timestep }, ModelEvent::Modelled),
            after_cross,
        ),
        call_ensures(
            ModelLoop::next,
            (&work, ModelStep::Autos { timestep }, ModelEvent::Modelled),
            after_autos,
        ),
        call_ensures(
            ModelLoop::next,
            (&work, ModelStep::Check { timestep }, ModelEvent::Checked { issue }),
            after_check,
        ),
        call_ensures(
            ModelLoop::next,
            (&work, ModelStep::Send { timestep }, ModelEvent::Sent { taken }),
            after_send,
        ),
    ensures
        first == (ModelStep::Cross { timestep: 0 }),
        work.model_autos ==> after_cross == (ModelStep::Autos { timestep }),
        !work.model_autos ==> after_cross == (ModelStep::Check { timestep }),
        after_autos == (ModelStep::Check { timestep }),
        issue ==> after_check is Abandoned,
        !issue ==> after_check == (ModelStep::Send { timestep }),
        !taken ==> after_send is Abandoned,
        taken && timestep + 1 < work.num_timesteps ==> after_send == (ModelStep::Cross {
            timestep: (timestep + 1) as usize,
        }),
        taken && timestep + 1 == work.num_timesteps ==> after_send is Finished,
{
}

/// Modelling that fails ends the thread with its error, for cross-correlations and
/// auto-correlations alike. Without timesteps there is nothing to do.
pub proof fn lemma_failures_of_modelling(
    work: ModelLoop,
    timestep: usize,
    error: String,
    first: ModelStep,
    after_cross: ModelStep,
    after_autos: ModelStep,
)
    requires
        call_ensures(ModelLoop::start, (&work,), first),
        call_ensures(
            ModelLoop::next,
            (&work, ModelStep::Cross { timestep }, ModelEvent::NotModelled { error }),
            after_cross,
        ),
        call_ensures(
            ModelLoop::next,
            (&work, ModelStep::Autos { timestep }, ModelEvent::NotModelled { error }),
            after_autos,
        ),
    ensures
        after_cross == (ModelStep::Failed { error }),
        after_autos == (ModelStep::Failed { error }),
        work.num_timesteps == 0 ==> first is Finished,
{
}

/// A model is sent only after a look at the other threads that showed no issue.
pub proof fn lemma_models_are_sent_after_a_look(work: ModelLoop, events: Seq<ModelEvent>)
    requires
        work.possible(events),
        work.step_after(events) is Send,
    ensures
        events.len() > 0,
        events.last() == (ModelEvent::Checked { issue: false }),
{
}

/// What the modelling thread reports: nothing while it works, an error only if
/// modelling failed.
pub proof fn lemma_reports_of_modelling(step: ModelStep, r: Option<Result<(), String>>)
    requires
        call_ensures(ModelStep::outcome, (&step,), r),
    ensures
        r is None <==> step is Cross || step is Autos || step is Check || step is Send,
        step is Finished || step is Abandoned ==> r matches Some(Ok(_)),
        step matches ModelStep::Failed { error } ==> r == Some(Err::<(), String>(error)),
{
}

/// The reading thread starts at the first timestep, if there is one. It looks at
/// the other threads after each timestep, and goes on to the next if there is no
/// issue. Reading that fails ends it with its error.
pub proof fn lemma_steps_of_reading(
    work: ReadLoop,
    timestep: usize,
    issue: bool,
    error: String,
    first: ReadStep,
    after_read: ReadStep,
    after_failure: ReadStep,
    after_check: ReadStep,
)
    requires
        call_ensures(ReadLoop::start, (&work,), first),
        call_ensures(
            ReadLoop::next,
            (&work, ReadStep::Read { timestep }, ReadEvent::Read),
            after_read,
        ),
        call_ensures(
            ReadLoop::next,
            (&work, ReadStep::Read { timestep }, ReadEvent::NotRead { error }),
            after_failure,
        ),
        call_ensures(
            ReadLoop::next,
            (&work, ReadStep::Check { timestep }, ReadEvent::Checked { issue }),
            after_check,
        ),
    ensures
        work.num_timesteps > 0 ==> first == (ReadStep::Read { timestep: 0 }),
        work.num_timesteps == 0 ==> first is Finished,
        after_read == (ReadStep::Check { timestep }),
        after_failure == (ReadStep::Failed { error }),
        issue ==> after_check is Abandoned,
        !issue && timestep + 1 < work.num_timesteps ==> after_check == (ReadStep::Read {
            timestep: (timestep + 1) as usize,
        }),
        !issue && timestep + 1 >= work.num_timesteps ==> after_check is Finished,
{
}

/// What the reading thread reports: nothing while it works, an error only if
/// reading failed.
pub proof fn lemma_reports_of_reading(step: ReadStep, r: Option<Result<(), String>>)
    requires
        call_ensures(ReadStep::outcome, (&step,), r),
    ensures
        r is None <==> step is Read || step is Check,
        step is Finished || step is Abandoned ==> r matches Some(Ok(_)),
        step matches ReadStep::Failed { error } ==> r == Some(Err::<(), String>(error)),
{
}

/// The message about memory says how much is needed and what could be done; other
/// errors keep their own text.
pub proof fn lemma_messages_of_errors(
    e: DiCalibrateError,
    r: String,
    amount: &str,
    message: String,
)
    requires
        call_ensures(DiCalibrateError::message, (&e,), r),
        call_ensures(insufficient_memory_message, (amount,), message),
    ensures
        message@ == "Insufficient memory available to perform calibration; need "@ + amount@
            + " of memory.\nYou could try using fewer timesteps and channels."@,
        match e {
            DiCalibrateError::InsufficientMemory { need_bytes } => amount@ == human_bytes(
                need_bytes,
            ) ==> r@ == message@,
            DiCalibrateError::SolutionsRead(text) => r@ == text@,
            DiCalibrateError::SolutionsWrite(text) => r@ == text@,
            DiCalibrateError::Model(text) => r@ == text@,
            DiCalibrateError::VisRead(text) => r@ == text@,
            DiCalibrateError::VisWrite(text) => r@ == text@,
            DiCalibrateError::Fitsio(text) => r@ == text@,
            DiCalibrateError::IO(text) => r@ == text@,
        },
{
}

} // verus!
