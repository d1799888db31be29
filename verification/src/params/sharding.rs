//! Modelling with the baselines shared out over devices.

use vstd::prelude::*;

use super::cubes::VisJones;
use super::model_frame::{frame_cells, frame_shape, in_frame, ModelFrame};
use crate::gpu::partition::{
    lemma_shards_are_contiguous, partition_baselines_across_devices, shards,
};

verus! {

/// Should the baselines be shared out? Only where that gives more than one
/// device something to do.
pub open spec fn worth_sharding(on_gpu: bool, num_baselines: usize, gpu_devices: Seq<i32>) -> bool {
    on_gpu && shards(num_baselines, gpu_devices).len() > 1
}

/// Should the baselines be shared out over these devices?
pub fn use_baseline_shards(on_gpu: bool, num_baselines: usize, gpu_devices: &[i32]) -> (r: bool)
    ensures
        r == worth_sharding(on_gpu, num_baselines, gpu_devices@),
{
    on_gpu && gpu_devices.len() > 1 && num_baselines > 0 && partition_baselines_across_devices(
        num_baselines,
        gpu_devices,
    ).len() > 1
}

/// Baselines are shared out exactly if there are at least two of them and at
/// least two devices.
pub proof fn lemma_when_worth_sharding(on_gpu: bool, num_baselines: usize, gpu_devices: Seq<i32>)
    ensures
        worth_sharding(on_gpu, num_baselines, gpu_devices) <==> on_gpu && num_baselines >= 2
            && gpu_devices.len() >= 2,
{
}

/// Does a piece that starts at a baseline hold baseline `b`?
pub open spec fn piece_holds(piece: (usize, ModelFrame), b: int) -> bool {
    piece.0 <= b < piece.0 + frame_shape(piece.1).1
}

/// The visibility of a channel and baseline after the pieces have been put in
/// one after the other.
pub open spec fn assembled(
    before: VisJones,
    pieces: Seq<(usize, ModelFrame)>,
    c: int,
    b: int,
) -> VisJones
    decreases pieces.len(),
{
    if pieces.len() == 0 {
        before
    } else if piece_holds(pieces.last(), b) {
        frame_cells(pieces.last().1)[(c, b - pieces.last().0)]
    } else {
        assembled(before, pieces.drop_last(), c, b)
    }
}

/// Does a piece fit in a frame?
pub open spec fn piece_fits(piece: (usize, ModelFrame), shape: (usize, usize)) -> bool {
    &&& frame_shape(piece.1).0 == shape.0
    &&& piece.0 + frame_shape(piece.1).1 <= shape.1
}

/// Put pieces of a frame in, each at the baseline that it starts at.
pub fn assemble(frame: &mut ModelFrame, pieces: &Vec<(usize, ModelFrame)>)
    requires
        forall|k: int|
            0 <= k < pieces@.len() ==> piece_fits(
                #[trigger] pieces@[k],
                frame_shape(*old(frame)),
            ),
    ensures
        frame_shape(*final(frame)) == frame_shape(*old(frame)),
        forall|c: int, b: int|
            in_frame(frame_shape(*final(frame)), c, b) ==> #[trigger] frame_cells(
                *final(frame),
            )[(c, b)] == assembled(frame_cells(*old(frame))[(c, b)], pieces@, c, b),
{
    let ghost before = *frame;
    let mut k: usize = 0;
    while k < pieces.len()
        invariant
            k <= pieces@.len(),
            frame_shape(*frame) == frame_shape(before),
            forall|i: int|
                0 <= i < pieces@.len() ==> piece_fits(#[trigger] pieces@[i], frame_shape(before)),
            forall|c: int, b: int|
                in_frame(frame_shape(before), c, b) ==> #[trigger] frame_cells(*frame)[(c, b)]
                    == assembled(
                    frame_cells(before)[(c, b)],
                    pieces@.subrange(0, k as int),
                    c,
                    b,
                ),
        decreases pieces@.len() - k,
    {
        assert(piece_fits(pieces@[k as int], frame_shape(before)));
        let (offset, shard) = &pieces[k];
        let end: usize = *offset + shard.shape().1;
        frame.assign_baselines(*offset, end, shard);
        proof {
            let done = pieces@.subrange(0, k + 1);
            assert(done.last() == pieces@[k as int]);
            assert(done.drop_last() =~= pieces@.subrange(0, k as int));
        }
        k = k + 1;
    }
    assert(pieces@.subrange(0, pieces@.len() as int) =~= pieces@);
}

/// Is each piece the part of `whole` that its shard holds?
pub open spec fn pieces_of(
    whole: spec_fn(int, int) -> VisJones,
    num_channels: usize,
    shards: Seq<(i32, usize, usize)>,
    pieces: Seq<(usize, ModelFrame)>,
) -> bool {
    &&& pieces.len() == shards.len()
    &&& forall|k: int|
        #![trigger pieces[k]]
        0 <= k < pieces.len() ==> {
            &&& pieces[k].0 == shards[k].1
            &&& frame_shape(pieces[k].1) == (num_channels, shards[k].2)
            &&& forall|c: int, j: int|
                in_frame(frame_shape(pieces[k].1), c, j) ==> #[trigger] frame_cells(
                    pieces[k].1,
                )[(c, j)] == whole(c, pieces[k].0 + j)
        }
}

/// Modelling by shards gives what modelling all baselines at once gives: where
/// each device models the baselines of its shard, the pieces fit, and put
/// together they are the whole model.
pub proof fn lemma_shards_make_the_whole(
    whole: spec_fn(int, int) -> VisJones,
    num_channels: usize,
    num_baselines: usize,
    devices: Seq<i32>,
    pieces: Seq<(usize, ModelFrame)>,
    before: VisJones,
    c: int,
    b: int,
)
    requires
        devices.len() > 0,
        pieces_of(whole, num_channels, shards(num_baselines, devices), pieces),
        in_frame((num_channels, num_baselines), c, b),
    ensures
        forall|k: int|
            0 <= k < pieces.len() ==> piece_fits(
                #[trigger] pieces[k],
                (num_channels, num_baselines),
            ),
        assembled(before, pieces, c, b) == whole(c, b),
{
    let s = shards(num_baselines, devices);
    lemma_shards_are_contiguous(num_baselines, devices);
    lemma_assembled_so_far(
        whole,
        num_channels,
        num_baselines,
        devices,
        pieces,
        before,
        c,
        b,
        pieces.len() as int,
    );
    assert(pieces.subrange(0, pieces.len() as int) =~= pieces);
    assert forall|k: int| 0 <= k < pieces.len() implies piece_fits(
        #[trigger] pieces[k],
        (num_channels, num_baselines),
    ) by {
        lemma_shard_end(num_baselines, devices, k);
        assert(pieces[k].0 == s[k].1);
    }
}

/// Every shard ends at or before the last baseline.
proof fn lemma_shard_end(num_baselines: usize, devices: Seq<i32>, k: int)
    requires
        num_baselines > 0,
        devices.len() > 0,
        0 <= k < shards(num_baselines, devices).len(),
    ensures
        shards(num_baselines, devices)[k].1 + shards(num_baselines, devices)[k].2 <= num_baselines,
    decreases shards(num_baselines, devices).len() - k,
{
    let s = shards(num_baselines, devices);
    lemma_shards_are_contiguous(num_baselines, devices);
    if k + 1 < s.len() {
        lemma_shard_end(num_baselines, devices, k + 1);
        assert(s[k].1 + s[k].2 == s[k + 1].1);
    }
}

proof fn lemma_assembled_so_far(
    whole: spec_fn(int, int) -> VisJones,
    num_channels: usize,
    num_baselines: usize,
    devices: Seq<i32>,
    pieces: Seq<(usize, ModelFrame)>,
    before: VisJones,
    c: int,
    b: int,
    n: int,
)
    requires
        num_baselines > 0,
        devices.len() > 0,
        pieces_of(whole, num_channels, shards(num_baselines, devices), pieces),
        in_frame((num_channels, num_baselines), c, b),
        0 < n <= pieces.len(),
    ensures
        b < shards(num_baselines, devices)[n - 1].1 + shards(num_baselines, devices)[n - 1].2
            ==> assembled(before, pieces.subrange(0, n), c, b) == whole(c, b),
    decreases n,
{
    let s = shards(num_baselines, devices);
    lemma_shards_are_contiguous(num_baselines, devices);
    let done = pieces.subrange(0, n);
    assert(done.last() == pieces[n - 1]);
    assert(done.drop_last() =~= pieces.subrange(0, n - 1));
    assert(s[n - 1].1 == pieces[n - 1].0);
    if piece_holds(pieces[n - 1], b) {
        assert(in_frame(frame_shape(pieces[n - 1].1), c, b - pieces[n - 1].0));
        assert(frame_cells(pieces[n - 1].1)[(c, b - pieces[n - 1].0)] == whole(
            c,
            pieces[n - 1].0 + (b - pieces[n - 1].0),
        ));
    } else if n > 1 {
        lemma_assembled_so_far(
            whole,
            num_channels,
            num_baselines,
            devices,
            pieces,
            before,
            c,
            b,
            n - 1,
        );
        assert(s[n - 2].1 + s[n - 2].2 == s[n - 1].1);
    }
}

} // verus!
