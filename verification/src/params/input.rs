//! What is known of the input data.

use std::collections::HashSet;
use vec1::Vec1;
use vstd::prelude::*;
use vstd::std_specs::hash::group_hash_axioms;

use super::timeblock::Timeblock;
use crate::binary64::Binary64;

verus! {

broadcast use group_hash_axioms;

/// A channel, after averaging.
#[derive(Debug, Clone, Copy, PartialEq, Eq, Structural)]
pub struct Chanblock {
    /// The centroid frequency \[Hz\].
    pub freq: Binary64,
}

/// The polarisations within data.
#[derive(Debug, Clone, Copy, PartialEq, Eq, Structural)]
pub enum Polarisations {
    XxXyYxYy,
    Xx,
    Yy,
    XxYy,
    XxYyXy,
}

impl Default for Polarisations {
    /// All of them.
    fn default() -> (r: Self)
        ensures
            r == Polarisations::XxXyYxYy,
    {
        Polarisations::XxXyYxYy
    }
}

/// The input data, as far as calibration has to know about them.
#[derive(Debug)]
pub struct InputVisParams {
    /// The timeblocks of the input data.
    pub timeblocks: Vec1<Timeblock>,

    /// The unflagged channels, after averaging.
    pub chanblocks: Vec<Chanblock>,

    /// The number of tiles, flagged ones included.
    pub num_tiles: usize,

    /// The indices of flagged tiles.
    pub flagged_tiles: HashSet<usize>,

    /// Are auto-correlations to be read?
    pub using_autos: bool,

    /// The polarisations of the observation.
    pub polarisations: Polarisations,
}

/// The elements of a list whose indices are not flagged.
pub open spec fn unflagged<T>(all: Seq<T>, flagged: Set<usize>) -> Seq<T>
    decreases all.len(),
{
    if all.len() == 0 {
        seq![]
    } else {
        let before = unflagged(all.drop_last(), flagged);
        if flagged.contains((all.len() - 1) as usize) {
            before
        } else {
            before.push(all.last())
        }
    }
}

/// The number of indices below `n` that are not flagged.
pub open spec fn num_unflagged(n: nat, flagged: Set<usize>) -> nat
    decreases n,
{
    if n == 0 {
        0
    } else {
        num_unflagged((n - 1) as nat, flagged) + if flagged.contains((n - 1) as usize) {
            0nat
        } else {
            1nat
        }
    }
}

/// The elements of a list, e.g. tile positions, whose indices are not flagged.
pub fn keep_unflagged<T: Copy>(all: &[T], flagged: &HashSet<usize>) -> (r: Vec<T>)
    ensures
        r@ == unflagged(all@, flagged@),
        r@.len() == num_unflagged(all@.len(), flagged@),
{
    let mut r: Vec<T> = Vec::new();
    let mut i: usize = 0;
    while i < all.len()
        invariant
            i <= all@.len(),
            r@ == unflagged(all@.subrange(0, i as int), flagged@),
            r@.len() == num_unflagged(i as nat, flagged@),
        decreases all@.len() - i,
    {
        assert(all@.subrange(0, i + 1).drop_last() =~= all@.subrange(0, i as int));
        if !flagged.contains(&i) {
            r.push(all[i]);
        }
        i = i + 1;
    }
    assert(all@.subrange(0, all@.len() as int) =~= all@);
    r
}

/// There are no more unflagged tiles than tiles, and as many where none is
/// flagged.
pub proof fn lemma_num_unflagged(n: nat, flagged: Set<usize>)
    requires
        n <= usize::MAX,
    ensures
        num_unflagged(n, flagged) <= n,
        (forall|i: usize| i < n ==> !flagged.contains(i)) ==> num_unflagged(n, flagged) == n,
    decreases n,
{
    if n > 0 {
        lemma_num_unflagged((n - 1) as nat, flagged);
        let last = (n - 1) as usize;
        assert(last < n);
    }
}

/// The number of baselines between different ones of `n` tiles.
pub open spec fn cross_baselines(n: nat) -> int {
    n * (n - 1) / 2
}

/// The number of baselines between different ones of `n` tiles.
pub fn num_cross_baselines(n: usize) -> (r: usize)
    requires
        n * (n - 1) <= usize::MAX,
    ensures
        r == cross_baselines(n as nat),
{
    if n == 0 {
        return 0;
    }
    (n * (n - 1)) / 2
}

/// A further tile adds a baseline to each of the tiles before it.
pub proof fn lemma_cross_baselines(n: nat)
    ensures
        cross_baselines(0) == 0,
        cross_baselines(n + 1) == cross_baselines(n) + n,
{
    assert((n + 1) * n == n * (n - 1) + 2 * n) by (nonlinear_arith);
}

impl InputVisParams {
    /// The number of unflagged tiles.
    pub open spec fn spec_num_unflagged_tiles(self) -> nat {
        num_unflagged(self.num_tiles as nat, self.flagged_tiles@)
    }

    /// The numbers of channels and of baselines between different unflagged tiles.
    pub open spec fn cross_shape(self) -> (nat, int) {
        (self.chanblocks@.len(), cross_baselines(self.spec_num_unflagged_tiles()))
    }

    /// The numbers of channels and of unflagged tiles.
    pub open spec fn auto_shape(self) -> (nat, nat) {
        (self.chanblocks@.len(), self.spec_num_unflagged_tiles())
    }

    /// The frequencies of the channels \[Hz\].
    pub fn get_freqs(&self) -> (r: Vec<Binary64>)
        ensures
            r@ == self.chanblocks@.map_values(|c: Chanblock| c.freq),
    {
        let mut r: Vec<Binary64> = Vec::new();
        let mut i: usize = 0;
        while i < self.chanblocks.len()
            invariant
                i <= self.chanblocks@.len(),
                r@.len() == i,
                forall|k: int| 0 <= k < i ==> #[trigger] r@[k] == self.chanblocks@[k].freq,
            decreases self.chanblocks@.len() - i,
        {
            r.push(self.chanblocks[i].freq);
            i = i + 1;
        }
        assert(r@ =~= self.chanblocks@.map_values(|c: Chanblock| c.freq));
        r
    }

    /// The number of tiles that aren't flagged.
    pub fn get_num_unflagged_tiles(&self) -> (r: usize)
        ensures
            r == self.spec_num_unflagged_tiles(),
    {
        let mut r: usize = 0;
        let mut i: usize = 0;
        while i < self.num_tiles
            invariant
                i <= self.num_tiles,
                r <= i,
                r == num_unflagged(i as nat, self.flagged_tiles@),
            decreases self.num_tiles - i,
        {
            if !self.flagged_tiles.contains(&i) {
                r = r + 1;
            }
            i = i + 1;
        }
        r
    }
}

} // verus!
