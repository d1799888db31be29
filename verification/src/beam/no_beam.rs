//! The beam that has no effect.

use vstd::prelude::*;

use super::beam_type::BeamType;
use super::delay_grid::DelayGrid;
use super::traits::{refers_below, shared_map, Beam, BeamGpu, Jones};
use crate::binary64::{Binary64, ONE_BITS, ZERO_BITS};

verus! {

/// A beam implementation that returns only identity Jones matrices for all beam
/// calculations.
#[derive(Debug, Clone, Copy)]
pub struct NoBeam {
    pub num_tiles: usize,
}

/// The identity Jones matrix.
pub open spec fn spec_identity() -> Seq<Binary64> {
    let one = Binary64 { bits: ONE_BITS };
    let zero = Binary64 { bits: ZERO_BITS };
    seq![one, zero, zero, zero, zero, zero, one, zero]
}

/// The identity Jones matrix.
pub fn identity() -> (r: Jones)
    ensures
        r@ == spec_identity(),
{
    let one: Binary64 = Binary64::from_bits(ONE_BITS);
    let zero: Binary64 = Binary64::from_bits(ZERO_BITS);
    let r: Jones = [one, zero, zero, zero, zero, zero, one, zero];
    assert(r@ =~= spec_identity());
    r
}

/// `n` identity Jones matrices.
fn identities(n: usize) -> (r: Vec<Jones>)
    ensures
        r@.len() == n,
        forall|i: int| 0 <= i < n ==> (#[trigger] r@[i])@ == spec_identity(),
{
    let mut r: Vec<Jones> = Vec::new();
    let mut i: usize = 0;
    while i < n
        invariant
            i <= n,
            r@.len() == i,
            forall|k: int| 0 <= k < i ==> (#[trigger] r@[k])@ == spec_identity(),
        decreases n - i,
    {
        r.push(identity());
        i = i + 1;
    }
    r
}

impl NoBeam {
    /// The response in any direction.
    pub fn calc_jones(&self) -> (r: Jones)
        ensures
            r@ == spec_identity(),
    {
        identity()
    }

    /// The responses in `num_directions` directions.
    pub fn calc_jones_array(&self, num_directions: usize) -> (r: Vec<Jones>)
        ensures
            r@.len() == num_directions,
            forall|i: int| 0 <= i < num_directions ==> (#[trigger] r@[i])@ == spec_identity(),
    {
        identities(num_directions)
    }

    /// Fill `results` with responses.
    pub fn calc_jones_array_inner(&self, results: &mut Vec<Jones>)
        ensures
            final(results)@.len() == old(results)@.len(),
            forall|i: int|
                0 <= i < final(results)@.len() ==> (#[trigger] final(results)@[i])@
                    == spec_identity(),
    {
        let mut i: usize = 0;
        while i < results.len()
            invariant
                i <= results@.len(),
                results@.len() == old(results)@.len(),
                forall|k: int| 0 <= k < i ==> (#[trigger] results@[k])@ == spec_identity(),
            decreases results.len() - i,
        {
            results.set(i, identity());
            i = i + 1;
        }
    }

    /// All tiles and all frequencies share one response on the device.
    pub fn prepare_gpu_beam(&self, freqs_hz: &[u32]) -> (r: NoBeamGpu)
        ensures
            r.tile_map@ == Seq::new(self.num_tiles as nat, |k: int| 0i32),
            r.freq_map@ == Seq::new(freqs_hz@.len(), |k: int| 0i32),
    {
        NoBeamGpu { tile_map: shared_map(self.num_tiles), freq_map: shared_map(freqs_hz.len()) }
    }
}

impl Beam for NoBeam {
    open spec fn beam_type(&self) -> BeamType {
        BeamType::NoBeam
    }

    open spec fn num_tiles(&self) -> usize {
        self.num_tiles
    }

    fn get_beam_type(&self) -> (r: BeamType) {
        BeamType::NoBeam
    }

    fn get_num_tiles(&self) -> (r: usize) {
        self.num_tiles
    }

    fn get_dipole_delays(&self) -> (r: Option<DelayGrid>) {
        None
    }

    fn get_ideal_dipole_delays(&self) -> (r: Option<[u32; 16]>) {
        None
    }

    fn get_dipole_gains(&self) -> (r: Option<Vec<Vec<Binary64>>>) {
        None
    }

    fn get_beam_file(&self) -> (r: Option<String>) {
        None
    }

    fn find_closest_freq(&self, desired_freq_hz: Binary64) -> (r: Binary64) {
        desired_freq_hz
    }
}

/// The device side of [`NoBeam`].
#[derive(Debug)]
pub struct NoBeamGpu {
    pub tile_map: Vec<i32>,
    pub freq_map: Vec<i32>,
}

impl NoBeamGpu {
    /// The responses to copy to the device, in `num_directions` directions.
    pub fn calc_jones_pair(&self, num_directions: usize) -> (r: Vec<Jones>)
        ensures
            r@.len() == num_directions,
            forall|i: int| 0 <= i < num_directions ==> (#[trigger] r@[i])@ == spec_identity(),
    {
        identities(num_directions)
    }
}

impl BeamGpu for NoBeamGpu {
    open spec fn gpu_beam_type(&self) -> BeamType {
        BeamType::NoBeam
    }

    open spec fn tile_map(&self) -> Option<Seq<i32>> {
        Some(self.tile_map@)
    }

    open spec fn freq_map(&self) -> Option<Seq<i32>> {
        Some(self.freq_map@)
    }

    open spec fn num_unique_tiles(&self) -> i32 {
        1
    }

    open spec fn num_unique_freqs(&self) -> i32 {
        1
    }

    fn get_beam_type(&self) -> (r: BeamType) {
        BeamType::NoBeam
    }

    fn get_tile_map(&self) -> (r: Option<&Vec<i32>>) {
        Some(&self.tile_map)
    }

    fn get_freq_map(&self) -> (r: Option<&Vec<i32>>) {
        Some(&self.freq_map)
    }

    fn get_num_unique_tiles(&self) -> (r: i32) {
        1
    }

    fn get_num_unique_freqs(&self) -> (r: i32) {
        1
    }
}

/// The maps of a prepared [`NoBeamGpu`] refer to the one response.
pub proof fn lemma_no_beam_maps(beam: NoBeamGpu, num_tiles: nat, num_freqs: nat)
    requires
        beam.tile_map@ == Seq::new(num_tiles, |k: int| 0i32),
        beam.freq_map@ == Seq::new(num_freqs, |k: int| 0i32),
    ensures
        refers_below(BeamGpu::tile_map(&beam), beam.num_unique_tiles()),
        refers_below(BeamGpu::freq_map(&beam), beam.num_unique_freqs()),
{
}

} // verus!
