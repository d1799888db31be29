//! What can be wrong with a request for a beam.

use vstd::prelude::*;

verus! {

/// Errors in setting up or using a beam.
#[derive(Debug)]
pub enum BeamError {
    /// The beam type has no such name, or does not support what was asked.
    Unrecognised(String),

    /// The dipole delays are not 16 per tile, or some are above 32.
    BadDelays,

    /// There are not as many rows of dipole delays as tiles.
    InconsistentDelays { num_rows: usize, num_tiles: usize },
}

} // verus!
