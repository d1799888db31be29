//! Blocks of timesteps.

use hifitime::Epoch;
use std::ops::Range;
use vstd::prelude::*;

use crate::copies::copy_of;

verus! {

/// `hifitime::Epoch`: an instant, carried along as it is.
#[verifier::external_type_specification]
#[verifier::external_body]
pub struct ExEpoch(Epoch);

/// A collection of timesteps that are averaged together.
#[derive(Debug)]
pub struct Timeblock {
    /// The timeblock index. e.g. If all observation timesteps are being used in
    /// a single calibration timeblock, then its index is 0.
    pub index: usize,

    /// The range of indices into an *unflagged* array of timesteps.
    pub range: Range<usize>,

    /// The timestamps comprising this timeblock. These are determined by the
    /// timesteps into all available timestamps.
    pub timestamps: Vec<Epoch>,

    /// The timesteps comprising this timeblock.
    pub timesteps: Vec<usize>,

    /// The median timestamp of the ideal timeblock.
    pub median: Epoch,
}

impl Timeblock {
    /// Is `local` this timeblock by itself: the first and only one, with
    /// `num_timesteps` timesteps of data?
    pub open spec fn is_local(self, local: Timeblock, num_timesteps: int) -> bool {
        &&& local.index == 0
        &&& local.range.start == 0
        &&& local.range.end == num_timesteps
        &&& local.timestamps@ == self.timestamps@
        &&& local.timesteps@ == self.timesteps@
        &&& local.median == self.median
    }

    /// This timeblock by itself, when only its data have been loaded.
    pub fn local(&self, num_timesteps: usize) -> (r: Timeblock)
        ensures
            self.is_local(r, num_timesteps as int),
    {
        Timeblock {
            index: 0,
            range: 0..num_timesteps,
            timestamps: copy_of(self.timestamps.as_slice()),
            timesteps: copy_of(self.timesteps.as_slice()),
            median: self.median,
        }
    }
}

} // verus!
