//! Beam responses by frequency and direction.

use ndarray::Array2;
use vstd::prelude::*;

use super::traits::{Jones, JONES_BYTES};
use crate::arrays::grid_allocatable;
use crate::binary64::{Binary64, ZERO_BITS};

verus! {

/// Responses with a row for each frequency, in an `ndarray::Array2`.
#[derive(Debug)]
#[verifier::external_body]
pub struct ResponseGrid {
    inner: Array2<[Binary64; 8]>,
}

/// The numbers of frequencies and directions.
pub uninterp spec fn response_shape(grid: ResponseGrid) -> (usize, usize);

/// The responses of a grid.
pub uninterp spec fn response_cells(grid: ResponseGrid) -> Map<(int, int), [Binary64; 8]>;

/// `ndarray::Array2::from_elem`: the same value everywhere.
#[verifier::external_body]
fn array_from_elem(rows: usize, columns: usize, value: Jones) -> (grid: ResponseGrid)
    requires
        grid_allocatable(rows, columns, JONES_BYTES as int),
    ensures
        response_shape(grid) == (rows, columns),
        forall|f: int, d: int|
            0 <= f < rows && 0 <= d < columns ==> #[trigger] response_cells(grid)[(f, d)] == value,
{
    ResponseGrid { inner: Array2::from_elem((rows, columns), value) }
}

impl ResponseGrid {
    /// The response at a frequency and in a direction, where there is one.
    pub fn get(&self, frequency: usize, direction: usize) -> (value: Option<Jones>)
        ensures
            value == (if frequency < response_shape(*self).0 && direction < response_shape(
                *self,
            ).1 {
                Some(response_cells(*self)[(frequency as int, direction as int)])
            } else {
                None
            }),
    {
        let (frequencies, directions) = self.shape();
        if frequency < frequencies && direction < directions {
            Some(self.cell(frequency, direction))
        } else {
            None
        }
    }

    /// The numbers of frequencies and directions.
    pub fn shape(&self) -> (shape: (usize, usize))
        ensures
            shape == response_shape(*self),
    {
        self.dim()
    }

    /// The responses ordered frequency, direction, slowest to fastest.
    pub fn ordered(&self) -> (r: Vec<Jones>)
        ensures
            r@.len() == response_shape(*self).0 * response_shape(*self).1,
            forall|f: int, d: int|
                0 <= f < response_shape(*self).0 && 0 <= d < response_shape(*self).1
                    ==> #[trigger] r@[f * response_shape(*self).1 + d] == response_cells(
                    *self,
                )[(f, d)],
    {
        let (frequencies, directions) = self.dim();
        let mut r: Vec<Jones> = Vec::new();
        let mut f: usize = 0;
        while f < frequencies
            invariant
                response_shape(*self) == (frequencies, directions),
                f <= frequencies,
                r@.len() == f * directions,
                forall|i: int, j: int|
                    0 <= i < f && 0 <= j < directions ==> #[trigger] r@[i * directions + j]
                        == response_cells(*self)[(i, j)],
            decreases frequencies - f,
        {
            let mut d: usize = 0;
            while d < directions
                invariant
                    response_shape(*self) == (frequencies, directions),
                    f < frequencies,
                    d <= directions,
                    r@.len() == f * directions + d,
                    forall|i: int, j: int|
                        0 <= i < f && 0 <= j < directions ==> #[trigger] r@[i * directions + j]
                            == response_cells(*self)[(i, j)],
                    forall|j: int|
                        0 <= j < d ==> #[trigger] r@[f * directions + j] == response_cells(
                            *self,
                        )[(f as int, j)],
                decreases directions - d,
            {
                let ghost before = r@;
                r.push(self.cell(f, d));
                proof {
                    assert forall|i: int, j: int| 0 <= i < f && 0 <= j < directions implies
                        #[trigger] r@[i * directions + j] == response_cells(*self)[(i, j)] by {
                        lemma_before_row(i, j, f as int, directions as int);
                        assert(before[i * directions + j] == response_cells(*self)[(i, j)]);
                    }
                }
                d = d + 1;
            }
            proof {
                assert((f + 1) * directions == f * directions + directions) by (nonlinear_arith);
            }
            f = f + 1;
        }
        r
    }

    /// `ndarray::ArrayBase::dim`: the shape.
    #[verifier::external_body]
    fn dim(&self) -> (shape: (usize, usize))
        ensures
            shape == response_shape(*self),
    {
        self.inner.dim()
    }

    /// `ndarray`'s indexing.
    #[verifier::external_body]
    fn cell(&self, frequency: usize, direction: usize) -> (value: Jones)
        requires
            frequency < response_shape(*self).0,
            direction < response_shape(*self).1,
        ensures
            value == response_cells(*self)[(frequency as int, direction as int)],
    {
        self.inner[[frequency, direction]]
    }

    /// `ndarray`'s indexing, to write: one response changes and nothing else.
    #[verifier::external_body]
    fn set_cell(&mut self, frequency: usize, direction: usize, value: Jones)
        requires
            frequency < response_shape(*old(self)).0,
            direction < response_shape(*old(self)).1,
        ensures
            response_shape(*final(self)) == response_shape(*old(self)),
            response_cells(*final(self)) == response_cells(*old(self)).insert(
                (frequency as int, direction as int),
                value,
            ),
    {
        self.inner[[frequency, direction]] = value;
    }
}

/// What is in a row comes before the rows after it.
proof fn lemma_before_row(i: int, j: int, row: int, columns: int)
    requires
        0 <= i < row,
        0 <= j < columns,
    ensures
        0 <= i * columns + j < row * columns,
{
    assert(0 <= i * columns) by (nonlinear_arith)
        requires
            0 <= i,
            0 <= columns,
    ;
    assert(i * columns + columns <= row * columns) by (nonlinear_arith)
        requires
            i + 1 <= row,
            0 <= columns,
    ;
}

/// The responses of a tile, or of none in particular, at all frequencies and in
/// all directions. `respond` gives the response of a tile at a frequency in one of
/// the directions.
pub fn responses_by_frequency<F: Fn(Option<usize>, u32, usize) -> Jones>(
    tile_index: Option<usize>,
    freqs_hz: &[u32],
    num_directions: usize,
    respond: &F,
) -> (grid: ResponseGrid)
    requires
        grid_allocatable(freqs_hz@.len() as usize, num_directions, JONES_BYTES as int),
        forall|f: int, d: usize|
            0 <= f < freqs_hz@.len() && d < num_directions ==> #[trigger] respond.requires(
                (tile_index, freqs_hz@[f], d),
            ),
    ensures
        response_shape(grid).0 == freqs_hz@.len(),
        response_shape(grid).1 == num_directions,
        forall|f: int, d: int|
            0 <= f < freqs_hz@.len() && 0 <= d < num_directions ==> respond.ensures(
                (tile_index, freqs_hz@[f], d as usize),
                #[trigger] response_cells(grid)[(f, d)],
            ),
{
    let zero: Binary64 = Binary64::from_bits(ZERO_BITS);
    let num_freqs: usize = freqs_hz.len();
    let mut grid: ResponseGrid = array_from_elem(
        num_freqs,
        num_directions,
        [zero, zero, zero, zero, zero, zero, zero, zero],
    );
    let mut f: usize = 0;
    while f < num_freqs
        invariant
            num_freqs == freqs_hz@.len(),
            f <= num_freqs,
            response_shape(grid) == (num_freqs, num_directions),
            forall|i: int, d: usize|
                0 <= i < freqs_hz@.len() && d < num_directions ==> #[trigger] respond.requires(
                    (tile_index, freqs_hz@[i], d),
                ),
            forall|i: int, d: int|
                0 <= i < f && 0 <= d < num_directions ==> respond.ensures(
                    (tile_index, freqs_hz@[i], d as usize),
                    #[trigger] response_cells(grid)[(i, d)],
                ),
        decreases num_freqs - f,
    {
        let mut d: usize = 0;
        while d < num_directions
            invariant
                num_freqs == freqs_hz@.len(),
                f < num_freqs,
                d <= num_directions,
                response_shape(grid) == (num_freqs, num_directions),
                forall|i: int, d: usize|
                    0 <= i < freqs_hz@.len() && d < num_directions ==> #[trigger] respond.requires(
                        (tile_index, freqs_hz@[i], d),
                    ),
                forall|i: int, j: int|
                    0 <= i < f && 0 <= j < num_directions ==> respond.ensures(
                        (tile_index, freqs_hz@[i], j as usize),
                        #[trigger] response_cells(grid)[(i, j)],
                    ),
                forall|j: int|
                    0 <= j < d ==> respond.ensures(
                        (tile_index, freqs_hz@[f as int], j as usize),
                        #[trigger] response_cells(grid)[(f as int, j)],
                    ),
            decreases num_directions - d,
        {
            let value: Jones = respond(tile_index, freqs_hz[f], d);
            grid.set_cell(f, d, value);
            d = d + 1;
        }
        f = f + 1;
    }
    grid
}

/// Where the response of a tile at a frequency in a direction lies among all of
/// them: they are ordered tile, frequency, direction, slowest to fastest.
pub open spec fn response_index(
    num_freqs: int,
    num_directions: int,
    tile: int,
    frequency: int,
    direction: int,
) -> int {
    (tile * num_freqs + frequency) * num_directions + direction
}

/// The responses of a tile come after those of the tiles before it, in the order
/// of frequency and direction.
proof fn lemma_response_index(
    num_freqs: int,
    num_directions: int,
    tile: int,
    frequency: int,
    direction: int,
)
    ensures
        response_index(num_freqs, num_directions, tile, frequency, direction) == tile * (num_freqs
            * num_directions) + (frequency * num_directions + direction),
{
    assert((tile * num_freqs + frequency) * num_directions == tile * (num_freqs * num_directions)
        + frequency * num_directions) by (nonlinear_arith);
}

/// Every response has its place among all of them.
pub proof fn lemma_response_index_in_range(
    num_tiles: int,
    num_freqs: int,
    num_directions: int,
    tile: int,
    frequency: int,
    direction: int,
)
    requires
        0 <= tile < num_tiles,
        0 <= frequency < num_freqs,
        0 <= direction < num_directions,
    ensures
        0 <= response_index(num_freqs, num_directions, tile, frequency, direction) < num_tiles * (
        num_freqs * num_directions),
{
    lemma_response_index(num_freqs, num_directions, tile, frequency, direction);
    lemma_before_row(frequency, direction, num_freqs, num_directions);
    lemma_before_row(
        tile,
        frequency * num_directions + direction,
        num_tiles,
        num_freqs * num_directions,
    );
}

/// The responses of all tiles at all frequencies and in all directions, ordered
/// tile, frequency, direction, slowest to fastest. `respond` gives the response
/// of a tile at a frequency in one of the directions.
pub fn responses_by_tile<F: Fn(Option<usize>, u32, usize) -> Jones>(
    num_tiles: usize,
    freqs_hz: &[u32],
    num_directions: usize,
    respond: &F,
) -> (r: Vec<Jones>)
    requires
        grid_allocatable(freqs_hz@.len() as usize, num_directions, JONES_BYTES as int),
        forall|t: usize, f: int, d: usize|
            t < num_tiles && 0 <= f < freqs_hz@.len() && d < num_directions
                ==> #[trigger] respond.requires((Some(t), freqs_hz@[f], d)),
    ensures
        r@.len() == num_tiles * (freqs_hz@.len() * num_directions),
        forall|t: int, f: int, d: int|
            0 <= t < num_tiles && 0 <= f < freqs_hz@.len() && 0 <= d < num_directions
                ==> respond.ensures(
                (Some(t as usize), freqs_hz@[f], d as usize),
                #[trigger] r@[response_index(
                    freqs_hz@.len() as int,
                    num_directions as int,
                    t,
                    f,
                    d,
                )],
            ),
{
    let ghost (nf, nd) = (freqs_hz@.len() as int, num_directions as int);
    let mut r: Vec<Jones> = Vec::new();
    let mut tile: usize = 0;
    while tile < num_tiles
        invariant
            nf == freqs_hz@.len(),
            nd == num_directions,
            tile <= num_tiles,
            grid_allocatable(freqs_hz@.len() as usize, num_directions, JONES_BYTES as int),
            forall|t: usize, f: int, d: usize|
                t < num_tiles && 0 <= f < freqs_hz@.len() && d < num_directions
                    ==> #[trigger] respond.requires((Some(t), freqs_hz@[f], d)),
            r@.len() == tile * (nf * nd),
            forall|t: int, f: int, d: int|
                0 <= t < tile && 0 <= f < nf && 0 <= d < nd ==> respond.ensures(
                    (Some(t as usize), freqs_hz@[f], d as usize),
                    #[trigger] r@[response_index(nf, nd, t, f, d)],
                ),
        decreases num_tiles - tile,
    {
        let grid: ResponseGrid = responses_by_frequency(
            Some(tile),
            freqs_hz,
            num_directions,
            respond,
        );
        let mut block: Vec<Jones> = grid.ordered();
        let ghost before = r@;
        let ghost added = block@;
        r.append(&mut block);
        proof {
            assert((tile + 1) * (nf * nd) == tile * (nf * nd) + nf * nd) by (nonlinear_arith);
            assert forall|t: int, f: int, d: int|
                0 <= t < tile + 1 && 0 <= f < nf && 0 <= d < nd implies respond.ensures(
                (Some(t as usize), freqs_hz@[f], d as usize),
                #[trigger] r@[response_index(nf, nd, t, f, d)],
            ) by {
                lemma_response_index(nf, nd, t, f, d);
                lemma_before_row(f, d, nf, nd);
                if t < tile {
                    lemma_response_index_in_range(tile as int, nf, nd, t, f, d);
                    assert(r@[response_index(nf, nd, t, f, d)] == before[response_index(
                        nf,
                        nd,
                        t,
                        f,
                        d,
                    )]);
                } else {
                    assert(added[f * nd + d] == response_cells(grid)[(f, d)]);
                    assert(r@[response_index(nf, nd, t, f, d)] == added[f * nd + d]);
                }
            }
        }
        tile = tile + 1;
    }
    r
}

} // verus!
