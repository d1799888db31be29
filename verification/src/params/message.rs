//! What the reading and sky-modelling threads hand on.

use hifitime::Epoch;
use vstd::prelude::*;

use super::cubes::{
    in_shape, vis_cells, vis_shape, weight_cells, weight_shape, VisCube, WeightCube,
};
use super::input::InputVisParams;
use super::memory::WEIGHT_BYTES;
use super::model_frame::{
    frame_cells, frame_shape, is_uniform, weight_frame_cells, weight_frame_shape, ModelFrame,
    WeightFrame,
};
use super::threads::{lemma_models_are_sent_in_order, ModelEvent, ModelLoop, ModelStep};
use super::timeblock::Timeblock;
use crate::arrays::grid_allocatable;

verus! {

/// The model of a timestep, ready to be written.
#[derive(Debug)]
pub struct VisTimestep {
    /// Cross-correlations by channel and baseline.
    pub cross_data_fb: ModelFrame,

    /// The weights of the cross-correlations.
    pub cross_weights_fb: WeightFrame,

    /// Auto-correlations by channel and tile, and their weights.
    pub autos: Option<(ModelFrame, WeightFrame)>,

    pub timestamp: Epoch,
}

impl VisTimestep {
    /// Is this what is sent for a timestep: its cross-correlations, its
    /// auto-correlations exactly if they are modelled, the same weight for all
    /// of them, and the median timestamp of its timeblock?
    pub open spec fn tells(
        self,
        timeblocks: Seq<Timeblock>,
        timestep: int,
        cross: ModelFrame,
        autos: Option<ModelFrame>,
        weight: u32,
    ) -> bool {
        &&& self.timestamp == timeblocks[timestep].median
        &&& self.cross_data_fb == cross
        &&& is_uniform(self.cross_weights_fb, frame_shape(cross), weight)
        &&& match (self.autos, autos) {
            (Some((data, weights)), Some(modelled)) => {
                &&& data == modelled
                &&& is_uniform(weights, frame_shape(modelled), weight)
            },
            (None, None) => true,
            _ => false,
        }
    }
}

/// Can there be weights for a frame?
pub open spec fn weighable(frame: ModelFrame) -> bool {
    grid_allocatable(frame_shape(frame).0, frame_shape(frame).1, WEIGHT_BYTES as int)
}

impl ModelLoop {
    /// What to send in a step, given what was modelled before it.
    pub fn message(
        &self,
        input: &InputVisParams,
        timeblocks: &[Timeblock],
        step: &ModelStep,
        cross: ModelFrame,
        autos: Option<ModelFrame>,
        weight: u32,
    ) -> (r: VisTimestep)
        requires
            timeblocks@.len() == self.num_timesteps,
            *step matches ModelStep::Send { timestep } && timestep < self.num_timesteps,
            autos is Some == self.model_autos,
            frame_shape(cross).0 == input.cross_shape().0,
            frame_shape(cross).1 == input.cross_shape().1,
            weighable(cross),
            autos matches Some(a) ==> {
                &&& frame_shape(a).0 == input.auto_shape().0
                &&& frame_shape(a).1 == input.auto_shape().1
                &&& weighable(a)
            },
        ensures
            r.tells(timeblocks@, step->Send_timestep as int, cross, autos, weight),
            r.autos is Some == self.model_autos,
            frame_shape(r.cross_data_fb).0 == input.cross_shape().0,
            frame_shape(r.cross_data_fb).1 == input.cross_shape().1,
            r.autos matches Some((data, _)) ==> {
                &&& frame_shape(data).0 == input.auto_shape().0
                &&& frame_shape(data).1 == input.auto_shape().1
            },
    {
        let timestep: usize = match step {
            ModelStep::Send { timestep } => *timestep,
            _ => 0,
        };
        let cross_weights_fb: WeightFrame = WeightFrame::from_elem(cross.shape(), weight);
        let autos: Option<(ModelFrame, WeightFrame)> = match autos {
            Some(data) => {
                let weights: WeightFrame = WeightFrame::from_elem(data.shape(), weight);
                Some((data, weights))
            },
            None => None,
        };
        VisTimestep {
            cross_data_fb: cross,
            cross_weights_fb,
            autos,
            timestamp: timeblocks[timestep].median,
        }
    }
}

/// What is sent when `k` models have been sent already tells of timeblock `k`.
pub proof fn lemma_messages_follow_the_timeblocks(
    work: ModelLoop,
    events: Seq<ModelEvent>,
    timeblocks: Seq<Timeblock>,
    message: VisTimestep,
    cross: ModelFrame,
    autos: Option<ModelFrame>,
    weight: u32,
)
    requires
        work.possible(events),
        work.step_after(events) is Send,
        message.tells(
            timeblocks,
            work.step_after(events)->Send_timestep as int,
            cross,
            autos,
            weight,
        ),
    ensures
        message.timestamp == timeblocks[work.sent(events).len() as int].median,
{
    lemma_models_are_sent_in_order(work, events);
}

impl VisCube {
    /// Put the data or the model of a timestep in.
    pub fn set_timestep(&mut self, timestep: usize, frame: &ModelFrame)
        requires
            timestep < vis_shape(*old(self)).0,
            frame_shape(*frame).0 == vis_shape(*old(self)).1,
            frame_shape(*frame).1 == vis_shape(*old(self)).2,
        ensures
            vis_shape(*final(self)) == vis_shape(*old(self)),
            forall|t: int, c: int, b: int|
                in_shape(vis_shape(*final(self)), t, c, b) ==> #[trigger] vis_cells(
                    *final(self),
                )[(t, c, b)] == if t == timestep {
                    frame_cells(*frame)[(c, b)]
                } else {
                    vis_cells(*old(self))[(t, c, b)]
                },
    {
        let ghost before = *self;
        let (channels, baselines) = frame.shape();
        let mut c: usize = 0;
        while c < channels
            invariant
                c <= channels,
                frame_shape(*frame) == (channels, baselines),
                vis_shape(*self) == vis_shape(before),
                timestep < vis_shape(before).0,
                channels == vis_shape(before).1,
                baselines == vis_shape(before).2,
                forall|t: int, i: int, j: int|
                    in_shape(vis_shape(before), t, i, j) ==> #[trigger] vis_cells(*self)[(t, i, j)]
                        == if t == timestep && i < c {
                        frame_cells(*frame)[(i, j)]
                    } else {
                        vis_cells(before)[(t, i, j)]
                    },
            decreases channels - c,
        {
            let mut b: usize = 0;
            while b < baselines
                invariant
                    c < channels,
                    b <= baselines,
                    frame_shape(*frame) == (channels, baselines),
                    vis_shape(*self) == vis_shape(before),
                    timestep < vis_shape(before).0,
                    channels == vis_shape(before).1,
                    baselines == vis_shape(before).2,
                    forall|t: int, i: int, j: int|
                        in_shape(vis_shape(before), t, i, j) ==> #[trigger] vis_cells(
                            *self,
                        )[(t, i, j)] == if t == timestep && (i < c || i == c && j < b) {
                            frame_cells(*frame)[(i, j)]
                        } else {
                            vis_cells(before)[(t, i, j)]
                        },
                decreases baselines - b,
            {
                self.set_cell(timestep, c, b, frame.cell(c, b));
                b = b + 1;
            }
            c = c + 1;
        }
    }
}

impl WeightCube {
    /// Put the weights of a timestep in.
    pub fn set_timestep(&mut self, timestep: usize, frame: &WeightFrame)
        requires
            timestep < weight_shape(*old(self)).0,
            weight_frame_shape(*frame).0 == weight_shape(*old(self)).1,
            weight_frame_shape(*frame).1 == weight_shape(*old(self)).2,
        ensures
            weight_shape(*final(self)) == weight_shape(*old(self)),
            forall|t: int, c: int, b: int|
                in_shape(weight_shape(*final(self)), t, c, b) ==> #[trigger] weight_cells(
                    *final(self),
                )[(t, c, b)] == if t == timestep {
                    weight_frame_cells(*frame)[(c, b)]
                } else {
                    weight_cells(*old(self))[(t, c, b)]
                },
    {
        let ghost before = *self;
        let (channels, baselines) = frame.shape();
        let mut c: usize = 0;
        while c < channels
            invariant
                c <= channels,
                weight_frame_shape(*frame) == (channels, baselines),
                weight_shape(*self) == weight_shape(before),
                timestep < weight_shape(before).0,
                channels == weight_shape(before).1,
                baselines == weight_shape(before).2,
                forall|t: int, i: int, j: int|
                    in_shape(weight_shape(before), t, i, j) ==> #[trigger] weight_cells(*self)[(t, i, j)]
                        == if t == timestep && i < c {
                        weight_frame_cells(*frame)[(i, j)]
                    } else {
                        weight_cells(before)[(t, i, j)]
                    },
            decreases channels - c,
        {
            let mut b: usize = 0;
            while b < baselines
                invariant
                    c < channels,
                    b <= baselines,
                    weight_frame_shape(*frame) == (channels, baselines),
                    weight_shape(*self) == weight_shape(before),
                    timestep < weight_shape(before).0,
                    channels == weight_shape(before).1,
                    baselines == weight_shape(before).2,
                    forall|t: int, i: int, j: int|
                        in_shape(weight_shape(before), t, i, j) ==> #[trigger] weight_cells(
                            *self,
                        )[(t, i, j)] == if t == timestep && (i < c || i == c && j < b) {
                            weight_frame_cells(*frame)[(i, j)]
                        } else {
                            weight_cells(before)[(t, i, j)]
                        },
                decreases baselines - b,
            {
                self.set_cell(timestep, c, b, frame.cell(c, b));
                b = b + 1;
            }
            c = c + 1;
        }
    }
}

} // verus!
