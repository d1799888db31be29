//! What beam codes can be asked.

use vstd::prelude::*;

use super::beam_type::BeamType;
use super::delay_grid::DelayGrid;
use crate::binary64::Binary64;

verus! {

/// A beam-response Jones matrix: the real and imaginary parts of its four
/// elements, row after row.
pub type Jones = [Binary64; 8];

/// The size of a Jones matrix \[bytes\].
pub const JONES_BYTES: usize = 64;

/// A trait abstracting beam code functions.
pub trait Beam {
    /// The type of beam.
    spec fn beam_type(&self) -> BeamType;

    /// The number of tiles.
    spec fn num_tiles(&self) -> usize;

    /// Get the type of beam.
    fn get_beam_type(&self) -> (r: BeamType)
        ensures
            r == self.beam_type(),
    ;

    /// Get the number of tiles associated with this beam.
    fn get_num_tiles(&self) -> (r: usize)
        ensures
            r == self.num_tiles(),
    ;

    /// Get the dipole delays associated with this beam. Only beams made of MWA
    /// dipoles have any.
    fn get_dipole_delays(&self) -> (r: Option<DelayGrid>)
        ensures
            self.beam_type() != BeamType::FEE ==> r is None,
    ;

    /// Get the ideal dipole delays associated with this beam. Only beams made
    /// of MWA dipoles have any.
    fn get_ideal_dipole_delays(&self) -> (r: Option<[u32; 16]>)
        ensures
            self.beam_type() != BeamType::FEE ==> r is None,
    ;

    /// Get the dipole gains used in this beam object. The rows correspond to
    /// tiles and there are 32 columns, one for each dipole. The first 16 values
    /// are for X dipoles, the second 16 are for Y dipoles. Only beams made of
    /// MWA dipoles have any.
    fn get_dipole_gains(&self) -> (r: Option<Vec<Vec<Binary64>>>)
        ensures
            self.beam_type() != BeamType::FEE ==> r is None,
    ;

    /// Get the beam file associated with this beam, if there is one.
    fn get_beam_file(&self) -> (r: Option<String>)
        ensures
            self.beam_type() != BeamType::FEE ==> r is None,
    ;

    /// Given a frequency in Hz, find the closest frequency that the beam code
    /// is defined for. An example of when this is important is with the FEE
    /// beam code, which can only give beam responses at specific frequencies.
    /// On the other hand, analytic beams can be used at any frequency.
    fn find_closest_freq(&self, desired_freq_hz: Binary64) -> (r: Binary64)
        ensures
            self.beam_type() != BeamType::FEE ==> r == desired_freq_hz,
    ;
}

/// A trait abstracting beam code functions on a GPU: what the host knows of the
/// tables on the device.
pub trait BeamGpu {
    /// The type of beam used to create this [`BeamGpu`].
    spec fn gpu_beam_type(&self) -> BeamType;

    /// The unique tile of each tile, if there is such a map.
    spec fn tile_map(&self) -> Option<Seq<i32>>;

    /// The unique frequency of each frequency, if there is such a map.
    spec fn freq_map(&self) -> Option<Seq<i32>>;

    /// The number of unique tiles.
    spec fn num_unique_tiles(&self) -> i32;

    /// The number of unique frequencies.
    spec fn num_unique_freqs(&self) -> i32;

    /// Get the type of beam used to create this [`BeamGpu`].
    fn get_beam_type(&self) -> (r: BeamType)
        ensures
            r == self.gpu_beam_type(),
    ;

    /// Get the device tile map. This is necessary to access de-duplicated beam
    /// Jones matrices on the device.
    fn get_tile_map(&self) -> (r: Option<&Vec<i32>>)
        ensures
            match r {
                Some(map) => self.tile_map() == Some(map@),
                None => self.tile_map() is None,
            },
    ;

    /// Get the device freq map. This is necessary to access de-duplicated beam
    /// Jones matrices on the device.
    fn get_freq_map(&self) -> (r: Option<&Vec<i32>>)
        ensures
            match r {
                Some(map) => self.freq_map() == Some(map@),
                None => self.freq_map() is None,
            },
    ;

    /// Get the number of de-duplicated tiles associated with this [`BeamGpu`].
    fn get_num_unique_tiles(&self) -> (r: i32)
        ensures
            r == self.num_unique_tiles(),
    ;

    /// Get the number of de-duplicated frequencies associated with this
    /// [`BeamGpu`].
    fn get_num_unique_freqs(&self) -> (r: i32)
        ensures
            r == self.num_unique_freqs(),
    ;
}

/// `n` copies of 0: all tiles, or all frequencies, share one response.
pub fn shared_map(n: usize) -> (map: Vec<i32>)
    ensures
        map@ == Seq::new(n as nat, |k: int| 0i32),
{
    let mut map: Vec<i32> = Vec::new();
    let mut i: usize = 0;
    while i < n
        invariant
            i <= n,
            map@ =~= Seq::new(i as nat, |k: int| 0i32),
        decreases n - i,
    {
        map.push(0);
        i = i + 1;
    }
    map
}

/// 0 to `n - 1`: each frequency is distinct.
pub fn distinct_map(n: usize) -> (map: Vec<i32>)
    ensures
        map@ == Seq::new(n as nat, |k: int| (k as usize) as i32),
{
    let mut map: Vec<i32> = Vec::new();
    let mut i: usize = 0;
    while i < n
        invariant
            i <= n,
            map@ =~= Seq::new(i as nat, |k: int| (k as usize) as i32),
        decreases n - i,
    {
        map.push(#[verifier::truncate] (i as i32));
        i = i + 1;
    }
    map
}

/// Do the entries of a map refer to one of `n` unique responses?
pub open spec fn refers_below(map: Option<Seq<i32>>, n: i32) -> bool {
    map matches Some(m) ==> forall|k: int| 0 <= k < m.len() ==> 0 <= #[trigger] m[k] < n
}

} // verus!
