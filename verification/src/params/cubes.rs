//! Visibilities and weights by timestep, channel and baseline, in
//! three-dimensional arrays.

use vstd::prelude::*;

verus! {

/// A single-precision visibility Jones matrix: the encodings of the real and
/// imaginary parts of its four elements, row after row.
pub type VisJones = [u32; 8];

/// The shape of a cube: timesteps, channels, baselines.
pub type Shape = (usize, usize, usize);

/// Is this the index of a cell?
pub open spec fn in_shape(shape: Shape, t: int, c: int, b: int) -> bool {
    0 <= t < shape.0 && 0 <= c < shape.1 && 0 <= b < shape.2
}

/// Where a cell lies in the values of a cube, timestep after timestep and
/// channel after channel.
pub open spec fn flat_index(shape: Shape, t: int, c: int, b: int) -> int {
    (t * shape.1 + c) * shape.2 + b
}

/// The number of cells.
pub open spec fn size(shape: Shape) -> int {
    shape.0 * shape.1 * shape.2
}

/// Can a cube of that shape be had? What counts are the lengths other than 0.
pub open spec fn representable(shape: Shape) -> bool {
    let a = if shape.0 == 0 { 1int } else { shape.0 as int };
    let b = if shape.1 == 0 { 1int } else { shape.1 as int };
    let c = if shape.2 == 0 { 1int } else { shape.2 as int };
    a * b * c <= isize::MAX
}

/// The number of cells, if a cube of that shape can be had.
pub fn checked_size(shape: Shape) -> (r: Option<usize>)
    ensures
        match r {
            Some(n) => representable(shape) && n == size(shape),
            None => !representable(shape),
        },
{
    let a: usize = if shape.0 == 0 {
        1
    } else {
        shape.0
    };
    let b: usize = if shape.1 == 0 {
        1
    } else {
        shape.1
    };
    let c: usize = if shape.2 == 0 {
        1
    } else {
        shape.2
    };
    match a.checked_mul(b) {
        None => {
            assert(a * b <= a * b * c) by (nonlinear_arith)
                requires
                    a >= 1,
                    b >= 1,
                    c >= 1,
            ;
            None
        },
        Some(ab) => match ab.checked_mul(c) {
            None => None,
            Some(all) => {
                if all > isize::MAX as usize {
                    None
                } else if shape.0 == 0 || shape.1 == 0 || shape.2 == 0 {
                    assert(size(shape) == 0) by (nonlinear_arith)
                        requires
                            size(shape) == shape.0 * shape.1 * shape.2,
                            shape.0 == 0 || shape.1 == 0 || shape.2 == 0,
                    ;
                    Some(0)
                } else {
                    Some(all)
                }
            },
        },
    }
}

/// Can a cube of that shape be had, with cells of so many bytes, where its memory
/// has to be asked for?
pub open spec fn allocatable(shape: Shape, bytes: int) -> bool {
    representable(shape) && size(shape) * bytes <= isize::MAX
}

/// Can a cube of that shape be had, where its memory has to be asked for?
pub fn is_allocatable(shape: Shape, bytes: usize) -> (r: bool)
    ensures
        r == allocatable(shape, bytes as int),
{
    match checked_size(shape) {
        None => false,
        Some(n) => match n.checked_mul(bytes) {
            None => false,
            Some(total) => total <= isize::MAX as usize,
        },
    }
}

/// Visibilities, in an `ndarray::Array3`.
#[derive(Debug)]
#[verifier::external_body]
pub struct VisCube {
    inner: ndarray::Array3<[u32; 8]>,
}

/// The shape of a cube of visibilities.
pub uninterp spec fn vis_shape(cube: VisCube) -> (usize, usize, usize);

/// The cells of a cube of visibilities.
pub uninterp spec fn vis_cells(cube: VisCube) -> Map<(int, int, int), [u32; 8]>;

impl VisCube {
    /// The numbers of timesteps, channels and baselines.
    pub fn shape(&self) -> (shape: Shape)
        ensures
            shape == vis_shape(*self),
    {
        self.dim()
    }

    /// The visibility of a timestep, channel and baseline, where the cube has it.
    pub fn get(&self, t: usize, c: usize, b: usize) -> (value: Option<VisJones>)
        ensures
            value == (if in_shape(vis_shape(*self), t as int, c as int, b as int) {
                Some(vis_cells(*self)[(t as int, c as int, b as int)])
            } else {
                None
            }),
    {
        let (timesteps, channels, baselines) = self.dim();
        if t < timesteps && c < channels && b < baselines {
            Some(self.cell(t, c, b))
        } else {
            None
        }
    }

    /// Set the visibility of a timestep, channel and baseline, where the cube has
    /// it; tell whether it does.
    pub fn set(&mut self, t: usize, c: usize, b: usize, value: VisJones) -> (done: bool)
        ensures
            done == in_shape(vis_shape(*old(self)), t as int, c as int, b as int),
            vis_shape(*final(self)) == vis_shape(*old(self)),
            done ==> vis_cells(*final(self)) == vis_cells(*old(self)).insert(
                (t as int, c as int, b as int),
                value,
            ),
            !done ==> *final(self) == *old(self),
    {
        let (timesteps, channels, baselines) = self.dim();
        if t < timesteps && c < channels && b < baselines {
            self.set_cell(t, c, b, value);
            true
        } else {
            false
        }
    }

    /// `ndarray::Array3::from_shape_vec` with as many values as cells: the
    /// values fill the cube, the last axis varying fastest.
    #[verifier::external_body]
    pub(crate) fn from_shape_vec(shape: Shape, values: Vec<VisJones>) -> (cube: VisCube)
        requires
            representable(shape),
            values@.len() == size(shape),
        ensures
            vis_shape(cube) == shape,
            forall|t: int, c: int, b: int|
                in_shape(shape, t, c, b) ==> (#[trigger] vis_cells(cube)[(t, c, b)])
                    == values@[flat_index(shape, t, c, b)],
    {
        VisCube { inner: ndarray::Array3::from_shape_vec(shape, values).unwrap() }
    }

    /// `ndarray::ArrayBase::dim`: the shape.
    #[verifier::external_body]
    fn dim(&self) -> (shape: Shape)
        ensures
            shape == vis_shape(*self),
    {
        self.inner.dim()
    }

    /// `ndarray`'s indexing.
    #[verifier::external_body]
    pub(crate) fn cell(&self, t: usize, c: usize, b: usize) -> (value: VisJones)
        requires
            in_shape(vis_shape(*self), t as int, c as int, b as int),
        ensures
            value == vis_cells(*self)[(t as int, c as int, b as int)],
    {
        self.inner[[t, c, b]]
    }

    /// `ndarray`'s indexing, to write: one cell changes and nothing else.
    #[verifier::external_body]
    pub(crate) fn set_cell(&mut self, t: usize, c: usize, b: usize, value: VisJones)
        requires
            in_shape(vis_shape(*old(self)), t as int, c as int, b as int),
        ensures
            vis_shape(*final(self)) == vis_shape(*old(self)),
            vis_cells(*final(self)) == vis_cells(*old(self)).insert(
                (t as int, c as int, b as int),
                value,
            ),
    {
        self.inner[[t, c, b]] = value;
    }
}

/// Single-precision weights by their encodings, in an `ndarray::Array3`.
#[derive(Debug)]
#[verifier::external_body]
pub struct WeightCube {
    inner: ndarray::Array3<u32>,
}

/// The shape of a cube of weights.
pub uninterp spec fn weight_shape(cube: WeightCube) -> (usize, usize, usize);

/// The cells of a cube of weights.
pub uninterp spec fn weight_cells(cube: WeightCube) -> Map<(int, int, int), u32>;

impl WeightCube {
    /// The numbers of timesteps, channels and baselines.
    pub fn shape(&self) -> (shape: Shape)
        ensures
            shape == weight_shape(*self),
    {
        self.dim()
    }

    /// The weight of a timestep, channel and baseline, where the cube has it.
    pub fn get(&self, t: usize, c: usize, b: usize) -> (value: Option<u32>)
        ensures
            value == (if in_shape(weight_shape(*self), t as int, c as int, b as int) {
                Some(weight_cells(*self)[(t as int, c as int, b as int)])
            } else {
                None
            }),
    {
        let (timesteps, channels, baselines) = self.dim();
        if t < timesteps && c < channels && b < baselines {
            Some(self.cell(t, c, b))
        } else {
            None
        }
    }

    /// Set the weight of a timestep, channel and baseline, where the cube has
    /// it; tell whether it does.
    pub fn set(&mut self, t: usize, c: usize, b: usize, value: u32) -> (done: bool)
        ensures
            done == in_shape(weight_shape(*old(self)), t as int, c as int, b as int),
            weight_shape(*final(self)) == weight_shape(*old(self)),
            done ==> weight_cells(*final(self)) == weight_cells(*old(self)).insert(
                (t as int, c as int, b as int),
                value,
            ),
            !done ==> *final(self) == *old(self),
    {
        let (timesteps, channels, baselines) = self.dim();
        if t < timesteps && c < channels && b < baselines {
            self.set_cell(t, c, b, value);
            true
        } else {
            false
        }
    }

    /// `ndarray::Array3::from_shape_vec` with as many values as cells: the
    /// values fill the cube, the last axis varying fastest.
    #[verifier::external_body]
    pub(crate) fn from_shape_vec(shape: Shape, values: Vec<u32>) -> (cube: WeightCube)
        requires
            representable(shape),
            values@.len() == size(shape),
        ensures
            weight_shape(cube) == shape,
            forall|t: int, c: int, b: int|
                in_shape(shape, t, c, b) ==> (#[trigger] weight_cells(cube)[(t, c, b)])
                    == values@[flat_index(shape, t, c, b)],
    {
        WeightCube { inner: ndarray::Array3::from_shape_vec(shape, values).unwrap() }
    }

    /// `ndarray::ArrayBase::dim`: the shape.
    #[verifier::external_body]
    fn dim(&self) -> (shape: Shape)
        ensures
            shape == weight_shape(*self),
    {
        self.inner.dim()
    }

    /// `ndarray`'s indexing.
    #[verifier::external_body]
    pub(crate) fn cell(&self, t: usize, c: usize, b: usize) -> (value: u32)
        requires
            in_shape(weight_shape(*self), t as int, c as int, b as int),
        ensures
            value == weight_cells(*self)[(t as int, c as int, b as int)],
    {
        self.inner[[t, c, b]]
    }

    /// `ndarray`'s indexing, to write: one cell changes and nothing else.
    #[verifier::external_body]
    pub(crate) fn set_cell(&mut self, t: usize, c: usize, b: usize, value: u32)
        requires
            in_shape(weight_shape(*old(self)), t as int, c as int, b as int),
        ensures
            weight_shape(*final(self)) == weight_shape(*old(self)),
            weight_cells(*final(self)) == weight_cells(*old(self)).insert(
                (t as int, c as int, b as int),
                value,
            ),
    {
        self.inner[[t, c, b]] = value;
    }
}

} // verus!
