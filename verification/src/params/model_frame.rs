//! The model visibilities of one timestep, by channel and baseline.

use ndarray::{Array2, Axis, Slice};
use vstd::prelude::*;

use super::cal_vis::zero_jones;
use super::cubes::VisJones;
use super::memory::{VIS_JONES_BYTES, WEIGHT_BYTES};
use crate::arrays::grid_allocatable;

verus! {

/// The model visibilities of one timestep, in an `ndarray::Array2`.
#[derive(Debug)]
#[verifier::external_body]
pub struct ModelFrame {
    inner: Array2<[u32; 8]>,
}

/// The numbers of channels and baselines of a frame.
pub uninterp spec fn frame_shape(frame: ModelFrame) -> (usize, usize);

/// The visibilities of a frame.
pub uninterp spec fn frame_cells(frame: ModelFrame) -> Map<(int, int), [u32; 8]>;

/// Is this a channel and a baseline of a frame?
pub open spec fn in_frame(shape: (usize, usize), c: int, b: int) -> bool {
    0 <= c < shape.0 && 0 <= b < shape.1
}

impl ModelFrame {
    /// A frame of zeros.
    pub fn blank(shape: (usize, usize)) -> (frame: ModelFrame)
        requires
            grid_allocatable(shape.0, shape.1, VIS_JONES_BYTES as int),
        ensures
            frame_shape(frame) == shape,
            forall|c: int, b: int|
                in_frame(shape, c, b) ==> (#[trigger] frame_cells(frame)[(c, b)])@ == zero_jones(),
    {
        let zero: VisJones = [0; 8];
        assert(zero@ =~= zero_jones());
        ModelFrame::from_elem(shape, zero)
    }

    /// The numbers of channels and baselines.
    pub fn shape(&self) -> (shape: (usize, usize))
        ensures
            shape == frame_shape(*self),
    {
        self.dim()
    }

    /// The visibility of a channel and baseline, where the frame has it.
    pub fn get(&self, c: usize, b: usize) -> (value: Option<VisJones>)
        ensures
            value == (if in_frame(frame_shape(*self), c as int, b as int) {
                Some(frame_cells(*self)[(c as int, b as int)])
            } else {
                None
            }),
    {
        let (channels, baselines) = self.dim();
        if c < channels && b < baselines {
            Some(self.cell(c, b))
        } else {
            None
        }
    }

    /// Set the visibility of a channel and baseline, where the frame has it;
    /// tell whether it does.
    pub fn set(&mut self, c: usize, b: usize, value: VisJones) -> (done: bool)
        ensures
            done == in_frame(frame_shape(*old(self)), c as int, b as int),
            frame_shape(*final(self)) == frame_shape(*old(self)),
            done ==> frame_cells(*final(self)) == frame_cells(*old(self)).insert(
                (c as int, b as int),
                value,
            ),
            !done ==> *final(self) == *old(self),
    {
        let (channels, baselines) = self.dim();
        if c < channels && b < baselines {
            self.set_cell(c, b, value);
            true
        } else {
            false
        }
    }

    /// `ndarray::Array2::from_elem`: the same value everywhere.
    #[verifier::external_body]
    fn from_elem(shape: (usize, usize), value: VisJones) -> (frame: ModelFrame)
        requires
            grid_allocatable(shape.0, shape.1, VIS_JONES_BYTES as int),
        ensures
            frame_shape(frame) == shape,
            forall|c: int, b: int|
                in_frame(shape, c, b) ==> #[trigger] frame_cells(frame)[(c, b)] == value,
    {
        ModelFrame { inner: Array2::from_elem(shape, value) }
    }

    /// `ndarray::ArrayBase::dim`: the shape.
    #[verifier::external_body]
    fn dim(&self) -> (shape: (usize, usize))
        ensures
            shape == frame_shape(*self),
    {
        self.inner.dim()
    }

    /// `ndarray`'s indexing.
    #[verifier::external_body]
    pub(crate) fn cell(&self, c: usize, b: usize) -> (value: VisJones)
        requires
            in_frame(frame_shape(*self), c as int, b as int),
        ensures
            value == frame_cells(*self)[(c as int, b as int)],
    {
        self.inner[[c, b]]
    }

    /// `ndarray`'s indexing, to write: one visibility changes and nothing else.
    #[verifier::external_body]
    fn set_cell(&mut self, c: usize, b: usize, value: VisJones)
        requires
            in_frame(frame_shape(*old(self)), c as int, b as int),
        ensures
            frame_shape(*final(self)) == frame_shape(*old(self)),
            frame_cells(*final(self)) == frame_cells(*old(self)).insert(
                (c as int, b as int),
                value,
            ),
    {
        self.inner[[c, b]] = value;
    }

    /// `ndarray::ArrayBase::slice_axis_mut` and `ndarray::ArrayBase::assign`:
    /// the baselines from `offset` on take the visibilities of `shard`, which
    /// has the same channels, and the others stay.
    #[verifier::external_body]
    pub(crate) fn assign_baselines(&mut self, offset: usize, end: usize, shard: &ModelFrame)
        requires
            offset + frame_shape(*shard).1 == end,
            end <= frame_shape(*old(self)).1,
            frame_shape(*shard).0 == frame_shape(*old(self)).0,
        ensures
            frame_shape(*final(self)) == frame_shape(*old(self)),
            forall|c: int, b: int|
                in_frame(frame_shape(*final(self)), c, b) ==> #[trigger] frame_cells(
                    *final(self),
                )[(c, b)] == if offset <= b < end {
                    frame_cells(*shard)[(c, b - offset)]
                } else {
                    frame_cells(*old(self))[(c, b)]
                },
    {
        self.inner.slice_axis_mut(Axis(1), Slice::from(offset..end)).assign(&shard.inner);
    }
}

/// The weights of one timestep by their encodings, in an `ndarray::Array2`.
#[derive(Debug)]
#[verifier::external_body]
pub struct WeightFrame {
    inner: Array2<u32>,
}

/// The numbers of rows and columns of weights.
pub uninterp spec fn weight_frame_shape(frame: WeightFrame) -> (usize, usize);

/// The weights of a frame.
pub uninterp spec fn weight_frame_cells(frame: WeightFrame) -> Map<(int, int), u32>;

/// Is every weight of a frame of that shape the same?
pub open spec fn is_uniform(frame: WeightFrame, shape: (usize, usize), weight: u32) -> bool {
    &&& weight_frame_shape(frame) == shape
    &&& forall|c: int, b: int|
        in_frame(shape, c, b) ==> #[trigger] weight_frame_cells(frame)[(c, b)] == weight
}

impl WeightFrame {
    /// The numbers of rows and columns.
    pub fn shape(&self) -> (shape: (usize, usize))
        ensures
            shape == weight_frame_shape(*self),
    {
        self.dim()
    }

    /// Weights of zero.
    pub fn blank(shape: (usize, usize)) -> (frame: WeightFrame)
        requires
            grid_allocatable(shape.0, shape.1, WEIGHT_BYTES as int),
        ensures
            is_uniform(frame, shape, 0),
    {
        Self::from_elem(shape, 0)
    }

    /// Set a weight, where the frame has it; tell whether it does.
    pub fn set(&mut self, c: usize, b: usize, value: u32) -> (done: bool)
        ensures
            done == in_frame(weight_frame_shape(*old(self)), c as int, b as int),
            weight_frame_shape(*final(self)) == weight_frame_shape(*old(self)),
            done ==> weight_frame_cells(*final(self)) == weight_frame_cells(*old(self)).insert(
                (c as int, b as int),
                value,
            ),
            !done ==> *final(self) == *old(self),
    {
        let (rows, columns) = self.dim();
        if c < rows && b < columns {
            self.set_cell(c, b, value);
            true
        } else {
            false
        }
    }

    /// A weight, where the frame has it.
    pub fn get(&self, c: usize, b: usize) -> (value: Option<u32>)
        ensures
            value == (if in_frame(weight_frame_shape(*self), c as int, b as int) {
                Some(weight_frame_cells(*self)[(c as int, b as int)])
            } else {
                None
            }),
    {
        let (rows, columns) = self.dim();
        if c < rows && b < columns {
            Some(self.cell(c, b))
        } else {
            None
        }
    }

    /// `ndarray::Array2::from_elem`: the same value everywhere.
    #[verifier::external_body]
    pub(crate) fn from_elem(shape: (usize, usize), weight: u32) -> (frame: WeightFrame)
        requires
            grid_allocatable(shape.0, shape.1, WEIGHT_BYTES as int),
        ensures
            is_uniform(frame, shape, weight),
    {
        WeightFrame { inner: Array2::from_elem(shape, weight) }
    }

    /// `ndarray::ArrayBase::dim`: the shape.
    #[verifier::external_body]
    fn dim(&self) -> (shape: (usize, usize))
        ensures
            shape == weight_frame_shape(*self),
    {
        self.inner.dim()
    }

    /// `ndarray`'s indexing.
    #[verifier::external_body]
    pub(crate) fn cell(&self, c: usize, b: usize) -> (value: u32)
        requires
            in_frame(weight_frame_shape(*self), c as int, b as int),
        ensures
            value == weight_frame_cells(*self)[(c as int, b as int)],
    {
        self.inner[[c, b]]
    }

    /// `ndarray`'s indexing, to write: one cell changes and nothing else.
    #[verifier::external_body]
    fn set_cell(&mut self, c: usize, b: usize, value: u32)
        requires
            in_frame(weight_frame_shape(*old(self)), c as int, b as int),
        ensures
            weight_frame_shape(*final(self)) == weight_frame_shape(*old(self)),
            weight_frame_cells(*final(self)) == weight_frame_cells(*old(self)).insert(
                (c as int, b as int),
                value,
            ),
    {
        self.inner[[c, b]] = value;
    }
}

} // verus!
