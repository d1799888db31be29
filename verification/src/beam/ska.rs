//! SKA-Low beams.
//!
//! Warning: where a response is asked for, the latitude is used for the local
//! sidereal time.

use vstd::prelude::*;

use super::beam_type::BeamType;
use super::delay_grid::DelayGrid;
use super::error::BeamError;
use super::responses::{
    lemma_response_index_in_range, response_cells, response_index, response_shape,
    responses_by_frequency, responses_by_tile, ResponseGrid,
};
use super::traits::{
    distinct_map, refers_below, shared_map, Beam, BeamGpu, Jones, JONES_BYTES,
};
use crate::arrays::grid_allocatable;
use crate::binary64::Binary64;
use crate::copies::{copy_of, copy_of_some, same_some};

verus! {

/// Right ascension and declination [radians].
#[derive(Debug, Clone, Copy, PartialEq, Eq, Structural)]
pub struct RaDec {
    pub ra: Binary64,
    pub dec: Binary64,
}

/// Configuration for SKA beams.
#[derive(Debug, Clone, Copy, PartialEq, Eq, Structural)]
pub struct SkaBeamConfig {
    /// Number of stations in the array.
    pub num_stations: usize,
    /// Phase centre of the observation.
    pub phase_centre: RaDec,
    /// Reference frequency in Hz.
    pub ref_freq_hz: Binary64,
    /// Array latitude in radians.
    pub latitude_rad: Binary64,
}

impl SkaBeamConfig {
    /// Create a new SKA beam configuration.
    pub fn new(
        num_stations: usize,
        phase_centre: RaDec,
        ref_freq_hz: Binary64,
        latitude_rad: Binary64,
    ) -> (r: Self)
        ensures
            r == (SkaBeamConfig { num_stations, phase_centre, ref_freq_hz, latitude_rad }),
    {
        Self { num_stations, phase_centre, ref_freq_hz, latitude_rad }
    }
}

/// The elements of one station: how far east and north each is from the centre
/// of the station [metres].
pub type StationElements = Vec<(Binary64, Binary64)>;

/// A matrix from geocentric to local coordinates, row by row.
pub type LocalMatrix = [[Binary64; 3]; 3];

/// What is known of the stations of an SKA-Low observation.
#[derive(Debug)]
pub struct SkaBeamParams {
    pub phase_centre: RaDec,
    pub ska_site_latitude_rad: Binary64,
    pub reference_frequency_hz: Binary64,
    pub number_of_stations: usize,
    /// How far each station is rotated.
    pub station_angle_rad: Option<Vec<Binary64>>,
    /// How far the feeds of each station are rotated.
    pub feed_angle_rad: Option<Vec<Binary64>>,
    /// The elements of each station.
    pub feed_coordinates: Option<Vec<StationElements>>,
    /// The local coordinates of each station.
    pub ecef_to_local_mats: Option<Vec<LocalMatrix>>,
}

/// A Gaussian main lobe.
#[derive(Debug, Clone, Copy)]
pub struct SkaGaussianBeam {
    pub config: SkaBeamConfig,
}

impl SkaGaussianBeam {
    pub fn new(config: SkaBeamConfig) -> (r: Self)
        ensures
            r.config == config,
    {
        Self { config }
    }

    /// Responses of this beam are not calculated on a GPU.
    pub fn calc_jones_pair(&self) -> (r: Result<(), BeamError>)
        ensures
            r matches Err(BeamError::Unrecognised(s)) && s@
                == "GPU not supported for SKA Gaussian beam"@,
    {
        Err(BeamError::Unrecognised("GPU not supported for SKA Gaussian beam".to_owned()))
    }
}

/// An Airy disk.
#[derive(Debug)]
pub struct SkaAiryBeam {
    pub phase_centre: RaDec,
    pub ska_site_latitude_rad: Binary64,
    pub reference_frequency_hz: Binary64,
    pub number_of_stations: usize,
    pub station_angle_rad: Option<Vec<Binary64>>,
    pub feed_angle_rad: Option<Vec<Binary64>>,
}

/// Is there an angle for tile `i`?
pub open spec fn has_angle(angles: Option<Vec<Binary64>>, i: int) -> bool {
    angles matches Some(a) && 0 <= i < a@.len()
}

impl Clone for SkaAiryBeam {
    fn clone(&self) -> (r: Self)
        ensures
            r.agrees(*self),
    {
        Self {
            phase_centre: self.phase_centre,
            ska_site_latitude_rad: self.ska_site_latitude_rad,
            reference_frequency_hz: self.reference_frequency_hz,
            number_of_stations: self.number_of_stations,
            station_angle_rad: copy_of_some(&self.station_angle_rad),
            feed_angle_rad: copy_of_some(&self.feed_angle_rad),
        }
    }
}

impl SkaAiryBeam {
    /// Do both describe the same beam?
    pub open spec fn agrees(self, other: SkaAiryBeam) -> bool {
        &&& self.phase_centre == other.phase_centre
        &&& self.ska_site_latitude_rad == other.ska_site_latitude_rad
        &&& self.reference_frequency_hz == other.reference_frequency_hz
        &&& self.number_of_stations == other.number_of_stations
        &&& same_some(self.station_angle_rad, other.station_angle_rad)
        &&& same_some(self.feed_angle_rad, other.feed_angle_rad)
    }

    pub fn new(params: SkaBeamParams) -> (r: Self)
        ensures
            r.phase_centre == params.phase_centre,
            r.ska_site_latitude_rad == params.ska_site_latitude_rad,
            r.reference_frequency_hz == params.reference_frequency_hz,
            r.number_of_stations == params.number_of_stations,
            r.station_angle_rad == params.station_angle_rad,
            r.feed_angle_rad == params.feed_angle_rad,
    {
        Self {
            phase_centre: params.phase_centre,
            ska_site_latitude_rad: params.ska_site_latitude_rad,
            reference_frequency_hz: params.reference_frequency_hz,
            number_of_stations: params.number_of_stations,
            station_angle_rad: params.station_angle_rad,
            feed_angle_rad: params.feed_angle_rad,
        }
    }

    /// The rotations of the station and of the feeds that apply to a tile.
    /// Without a tile, the ideal response is meant, which is not rotated.
    pub fn rotations(&self, tile_index: Option<usize>) -> (r: Option<(Binary64, Binary64)>)
        requires
            tile_index matches Some(i) ==> has_angle(self.station_angle_rad, i as int)
                && has_angle(self.feed_angle_rad, i as int),
        ensures
            r == (match tile_index {
                Some(i) => Some(
                    (
                        self.station_angle_rad->Some_0@[i as int],
                        self.feed_angle_rad->Some_0@[i as int],
                    ),
                ),
                None => None,
            }),
    {
        match (tile_index, &self.station_angle_rad, &self.feed_angle_rad) {
            (Some(i), Some(stations), Some(feeds)) => Some((stations[i], feeds[i])),
            _ => None,
        }
    }

    /// All "tiles" have the same response on the device; each frequency is
    /// distinct.
    pub fn prepare_gpu_beam(&self, freqs_hz: &[u32]) -> (r: SkaAiryBeamGpu)
        ensures
            r.cpu_object.agrees(*self),
            r.freqs_hz@ == freqs_hz@,
            r.tile_map@ == Seq::new(self.number_of_stations as nat, |k: int| 0i32),
            r.freq_map@ == Seq::new(freqs_hz@.len(), |k: int| (k as usize) as i32),
    {
        let tile_map: Vec<i32> = shared_map(self.number_of_stations);
        let freq_map: Vec<i32> = distinct_map(freqs_hz.len());
        SkaAiryBeamGpu {
            cpu_object: self.clone(),
            freqs_hz: copy_of(freqs_hz),
            tile_map,
            freq_map,
        }
    }
}

/// The array factor of the elements of each station.
#[derive(Debug)]
pub struct SkaArrayFactorBeam {
    pub phase_centre: RaDec,
    pub ska_site_latitude_rad: Binary64,
    pub reference_frequency_hz: Binary64,
    pub number_of_stations: usize,
    pub station_angle_rad: Vec<Binary64>,
    pub feed_angle_rad: Vec<Binary64>,
    pub feed_coordinates: Vec<StationElements>,
}

impl Clone for SkaArrayFactorBeam {
    fn clone(&self) -> (r: Self)
        ensures
            r.agrees(*self),
    {
        Self {
            phase_centre: self.phase_centre,
            ska_site_latitude_rad: self.ska_site_latitude_rad,
            reference_frequency_hz: self.reference_frequency_hz,
            number_of_stations: self.number_of_stations,
            station_angle_rad: copy_of(self.station_angle_rad.as_slice()),
            feed_angle_rad: copy_of(self.feed_angle_rad.as_slice()),
            feed_coordinates: copy_stations(&self.feed_coordinates),
        }
    }
}

impl SkaArrayFactorBeam {
    /// Do both describe the same beam?
    pub open spec fn agrees(self, other: SkaArrayFactorBeam) -> bool {
        &&& self.phase_centre == other.phase_centre
        &&& self.ska_site_latitude_rad == other.ska_site_latitude_rad
        &&& self.reference_frequency_hz == other.reference_frequency_hz
        &&& self.number_of_stations == other.number_of_stations
        &&& self.station_angle_rad@ == other.station_angle_rad@
        &&& self.feed_angle_rad@ == other.feed_angle_rad@
        &&& same_stations(self.feed_coordinates@, other.feed_coordinates@)
    }

    /// Needs the angles of stations and feeds and the elements of the stations.
    pub fn new(params: SkaBeamParams) -> (r: Self)
        requires
            params.station_angle_rad is Some,
            params.feed_angle_rad is Some,
            params.feed_coordinates is Some,
        ensures
            r.phase_centre == params.phase_centre,
            r.ska_site_latitude_rad == params.ska_site_latitude_rad,
            r.reference_frequency_hz == params.reference_frequency_hz,
            r.number_of_stations == params.number_of_stations,
            Some(r.station_angle_rad) == params.station_angle_rad,
            Some(r.feed_angle_rad) == params.feed_angle_rad,
            Some(r.feed_coordinates) == params.feed_coordinates,
    {
        Self {
            phase_centre: params.phase_centre,
            ska_site_latitude_rad: params.ska_site_latitude_rad,
            reference_frequency_hz: params.reference_frequency_hz,
            number_of_stations: params.number_of_stations,
            station_angle_rad: params.station_angle_rad.expect(
                "Error! I need a station angles for array factor beam",
            ),
            feed_angle_rad: params.feed_angle_rad.expect(
                "Error! I need feed angles for array factor beam",
            ),
            feed_coordinates: params.feed_coordinates.expect(
                "Error! I need feed coordinates for array factor beam",
            ),
        }
    }

    /// The feed rotation and the elements of a tile. A tile is needed for array
    /// factor beam forming.
    pub fn station(&self, tile_index: Option<usize>) -> (r: (Binary64, &StationElements))
        requires
            tile_index matches Some(i) && i < self.feed_angle_rad@.len() && i
                < self.feed_coordinates@.len(),
        ensures
            r.0 == self.feed_angle_rad@[tile_index->Some_0 as int],
            *r.1 == self.feed_coordinates@[tile_index->Some_0 as int],
    {
        let index: usize = tile_index.expect(
            "Error! tile_index is needed for array factor beam forming",
        );
        (self.feed_angle_rad[index], &self.feed_coordinates[index])
    }

    /// All "tiles" have the same response on the device, that of the first
    /// station; each frequency is distinct.
    pub fn prepare_gpu_beam(&self, freqs_hz: &[u32]) -> (r: SkaArrayFactorBeamGpu)
        ensures
            r.cpu_object.agrees(*self),
            r.freqs_hz@ == freqs_hz@,
            r.tile_map@ == Seq::new(self.number_of_stations as nat, |k: int| 0i32),
            r.freq_map@ == Seq::new(freqs_hz@.len(), |k: int| (k as usize) as i32),
    {
        let tile_map: Vec<i32> = shared_map(self.number_of_stations);
        let freq_map: Vec<i32> = distinct_map(freqs_hz.len());
        SkaArrayFactorBeamGpu {
            cpu_object: self.clone(),
            freqs_hz: copy_of(freqs_hz),
            tile_map,
            freq_map,
        }
    }
}

/// Do all stations have the same elements in both?
pub open spec fn same_stations(a: Seq<StationElements>, b: Seq<StationElements>) -> bool {
    &&& a.len() == b.len()
    &&& forall|i: int| 0 <= i < a.len() ==> (#[trigger] a[i])@ == b[i]@
}

fn copy_stations(stations: &Vec<StationElements>) -> (r: Vec<StationElements>)
    ensures
        same_stations(r@, stations@),
{
    let mut r: Vec<StationElements> = Vec::new();
    let mut i: usize = 0;
    while i < stations.len()
        invariant
            i <= stations@.len(),
            r@.len() == i,
            forall|k: int| 0 <= k < i ==> (#[trigger] r@[k])@ == stations@[k]@,
        decreases stations.len() - i,
    {
        r.push(copy_of(stations[i].as_slice()));
        i = i + 1;
    }
    r
}

/// Are there the same stations in both, or none in either?
pub open spec fn same_some_stations(
    a: Option<Vec<StationElements>>,
    b: Option<Vec<StationElements>>,
) -> bool {
    match (a, b) {
        (Some(x), Some(y)) => same_stations(x@, y@),
        (None, None) => true,
        _ => false,
    }
}

pub(crate) fn copy_some_stations(stations: &Option<Vec<StationElements>>) -> (r: Option<
    Vec<StationElements>,
>)
    ensures
        same_some_stations(r, *stations),
{
    match stations {
        Some(s) => Some(copy_stations(s)),
        None => None,
    }
}

impl Beam for SkaGaussianBeam {
    open spec fn beam_type(&self) -> BeamType {
        BeamType::SkaGaussian
    }

    open spec fn num_tiles(&self) -> usize {
        self.config.num_stations
    }

    fn get_beam_type(&self) -> (r: BeamType) {
        BeamType::SkaGaussian
    }

    fn get_num_tiles(&self) -> (r: usize) {
        self.config.num_stations
    }

    fn get_dipole_delays(&self) -> (r: Option<DelayGrid>) {
        None
    }

    fn get_ideal_dipole_delays(&self) -> (r: Option<[u32; 16]>) {
        None
    }

    fn get_dipole_gains(&self) -> (r: Option<Vec<Vec<Binary64>>>) {
        None
    }

    fn get_beam_file(&self) -> (r: Option<String>) {
        None
    }

    fn find_closest_freq(&self, desired_freq_hz: Binary64) -> (r: Binary64) {
        desired_freq_hz
    }
}

impl Beam for SkaAiryBeam {
    open spec fn beam_type(&self) -> BeamType {
        BeamType::SkaAiry
    }

    open spec fn num_tiles(&self) -> usize {
        self.number_of_stations
    }

    fn get_beam_type(&self) -> (r: BeamType) {
        BeamType::SkaAiry
    }

    fn get_num_tiles(&self) -> (r: usize) {
        self.number_of_stations
    }

    fn get_dipole_delays(&self) -> (r: Option<DelayGrid>) {
        None
    }

    fn get_ideal_dipole_delays(&self) -> (r: Option<[u32; 16]>) {
        None
    }

    fn get_dipole_gains(&self) -> (r: Option<Vec<Vec<Binary64>>>) {
        None
    }

    fn get_beam_file(&self) -> (r: Option<String>) {
        None
    }

    fn find_closest_freq(&self, desired_freq_hz: Binary64) -> (r: Binary64) {
        desired_freq_hz
    }
}

impl Beam for SkaArrayFactorBeam {
    open spec fn beam_type(&self) -> BeamType {
        BeamType::SkaArrayFactor
    }

    open spec fn num_tiles(&self) -> usize {
        self.number_of_stations
    }

    fn get_beam_type(&self) -> (r: BeamType) {
        BeamType::SkaArrayFactor
    }

    fn get_num_tiles(&self) -> (r: usize) {
        self.number_of_stations
    }

    fn get_dipole_delays(&self) -> (r: Option<DelayGrid>) {
        None
    }

    fn get_ideal_dipole_delays(&self) -> (r: Option<[u32; 16]>) {
        None
    }

    fn get_dipole_gains(&self) -> (r: Option<Vec<Vec<Binary64>>>) {
        None
    }

    fn get_beam_file(&self) -> (r: Option<String>) {
        None
    }

    fn find_closest_freq(&self, desired_freq_hz: Binary64) -> (r: Binary64) {
        desired_freq_hz
    }
}

/// The device side of [`SkaAiryBeam`].
#[derive(Debug)]
pub struct SkaAiryBeamGpu {
    pub cpu_object: SkaAiryBeam,
    pub freqs_hz: Vec<u32>,
    pub tile_map: Vec<i32>,
    pub freq_map: Vec<i32>,
}

/// The device side of [`SkaArrayFactorBeam`].
#[derive(Debug)]
pub struct SkaArrayFactorBeamGpu {
    pub cpu_object: SkaArrayFactorBeam,
    pub freqs_hz: Vec<u32>,
    pub tile_map: Vec<i32>,
    pub freq_map: Vec<i32>,
}

/// There are no tables on a device for this beam.
impl BeamGpu for SkaGaussianBeam {
    open spec fn gpu_beam_type(&self) -> BeamType {
        BeamType::SkaGaussian
    }

    open spec fn tile_map(&self) -> Option<Seq<i32>> {
        None
    }

    open spec fn freq_map(&self) -> Option<Seq<i32>> {
        None
    }

    open spec fn num_unique_tiles(&self) -> i32 {
        0
    }

    open spec fn num_unique_freqs(&self) -> i32 {
        0
    }

    fn get_beam_type(&self) -> (r: BeamType) {
        BeamType::SkaGaussian
    }

    fn get_tile_map(&self) -> (r: Option<&Vec<i32>>) {
        None
    }

    fn get_freq_map(&self) -> (r: Option<&Vec<i32>>) {
        None
    }

    fn get_num_unique_tiles(&self) -> (r: i32) {
        0
    }

    fn get_num_unique_freqs(&self) -> (r: i32) {
        0
    }
}

impl SkaAiryBeamGpu {
    /// The responses to copy to the device, at each frequency in each of so
    /// many directions. `respond` gives the response of a tile, or of none in
    /// particular, at a frequency [Hz] in one of the directions.
    pub fn calc_jones_pair<F: Fn(Option<usize>, u32, usize) -> Jones>(
        &self,
        num_directions: usize,
        respond: &F,
    ) -> (grid: ResponseGrid)
        requires
            grid_allocatable(self.freqs_hz@.len() as usize, num_directions, JONES_BYTES as int),
            forall|f: int, d: usize|
                0 <= f < self.freqs_hz@.len() && d < num_directions ==> #[trigger] respond.requires(
                    (None, self.freqs_hz@[f], d),
                ),
        ensures
            response_shape(grid).0 == self.freqs_hz@.len(),
            response_shape(grid).1 == num_directions,
            forall|f: int, d: int|
                0 <= f < self.freqs_hz@.len() && 0 <= d < num_directions ==> respond.ensures(
                    (None, self.freqs_hz@[f], d as usize),
                    #[trigger] response_cells(grid)[(f, d)],
                ),
    {
        responses_by_frequency(None, &self.freqs_hz, num_directions, respond)
    }
}

impl BeamGpu for SkaAiryBeamGpu {
    open spec fn gpu_beam_type(&self) -> BeamType {
        BeamType::SkaAiry
    }

    open spec fn tile_map(&self) -> Option<Seq<i32>> {
        Some(self.tile_map@)
    }

    open spec fn freq_map(&self) -> Option<Seq<i32>> {
        Some(self.freq_map@)
    }

    open spec fn num_unique_tiles(&self) -> i32 {
        1
    }

    open spec fn num_unique_freqs(&self) -> i32 {
        self.freqs_hz.len() as i32
    }

    fn get_beam_type(&self) -> (r: BeamType) {
        BeamType::SkaAiry
    }

    fn get_tile_map(&self) -> (r: Option<&Vec<i32>>) {
        Some(&self.tile_map)
    }

    fn get_freq_map(&self) -> (r: Option<&Vec<i32>>) {
        Some(&self.freq_map)
    }

    fn get_num_unique_tiles(&self) -> (r: i32) {
        1
    }

    fn get_num_unique_freqs(&self) -> (r: i32) {
        #[verifier::truncate]
        (self.freqs_hz.len() as i32)
    }
}

impl SkaArrayFactorBeamGpu {
    /// The responses to copy to the device, of each station at each frequency in
    /// each of so many directions; they are ordered tile, frequency, direction,
    /// slowest to fastest. `respond` gives the response of a tile at a frequency
    /// [Hz] in one of the directions.
    pub fn calc_jones_pair<F: Fn(Option<usize>, u32, usize) -> Jones>(
        &self,
        num_directions: usize,
        respond: &F,
    ) -> (r: Vec<Jones>)
        requires
            grid_allocatable(
                self.freqs_hz@.len() as usize,
                num_directions,
                JONES_BYTES as int,
            ),
            forall|t: usize, f: int, d: usize|
                t < self.cpu_object.station_angle_rad@.len() && 0 <= f < self.freqs_hz@.len() && d
                    < num_directions ==> #[trigger] respond.requires(
                    (Some(t), self.freqs_hz@[f], d),
                ),
        ensures
            r@.len() == self.cpu_object.station_angle_rad@.len() * (self.freqs_hz@.len()
                * num_directions),
            forall|t: int, f: int, d: int|
                0 <= t < self.cpu_object.station_angle_rad@.len() && 0 <= f < self.freqs_hz@.len()
                    && 0 <= d < num_directions ==> respond.ensures(
                    (Some(t as usize), self.freqs_hz@[f], d as usize),
                    #[trigger] r@[response_index(
                        self.freqs_hz@.len() as int,
                        num_directions as int,
                        t,
                        f,
                        d,
                    )],
                ),
    {
        responses_by_tile(
            self.cpu_object.station_angle_rad.len(),
            &self.freqs_hz,
            num_directions,
            respond,
        )
    }
}

impl BeamGpu for SkaArrayFactorBeamGpu {
    open spec fn gpu_beam_type(&self) -> BeamType {
        BeamType::SkaArrayFactor
    }

    open spec fn tile_map(&self) -> Option<Seq<i32>> {
        Some(self.tile_map@)
    }

    open spec fn freq_map(&self) -> Option<Seq<i32>> {
        Some(self.freq_map@)
    }

    open spec fn num_unique_tiles(&self) -> i32 {
        self.cpu_object.station_angle_rad.len() as i32
    }

    open spec fn num_unique_freqs(&self) -> i32 {
        self.freqs_hz.len() as i32
    }

    fn get_beam_type(&self) -> (r: BeamType) {
        BeamType::SkaArrayFactor
    }

    fn get_tile_map(&self) -> (r: Option<&Vec<i32>>) {
        Some(&self.tile_map)
    }

    fn get_freq_map(&self) -> (r: Option<&Vec<i32>>) {
        Some(&self.freq_map)
    }

    fn get_num_unique_tiles(&self) -> (r: i32) {
        #[verifier::truncate]
        (self.cpu_object.station_angle_rad.len() as i32)
    }

    fn get_num_unique_freqs(&self) -> (r: i32) {
        #[verifier::truncate]
        (self.freqs_hz.len() as i32)
    }
}

/// The maps of a prepared [`SkaAiryBeamGpu`] refer to the responses that there
/// are: one tile, and one frequency for each that was asked for.
pub proof fn lemma_airy_maps(beam: SkaAiryBeamGpu)
    requires
        beam.tile_map@ == Seq::new(beam.cpu_object.number_of_stations as nat, |k: int| 0i32),
        beam.freq_map@ == Seq::new(beam.freqs_hz@.len(), |k: int| (k as usize) as i32),
        beam.freqs_hz@.len() <= i32::MAX,
    ensures
        refers_below(BeamGpu::tile_map(&beam), beam.num_unique_tiles()),
        refers_below(BeamGpu::freq_map(&beam), beam.num_unique_freqs()),
        forall|k: int| 0 <= k < beam.freqs_hz@.len() ==> #[trigger] beam.freq_map@[k] == k,
{
}

/// The maps of a prepared [`SkaArrayFactorBeamGpu`] refer to responses that
/// there are, as long as there is a station: tiles to those of the first station,
/// and each frequency to its own.
pub proof fn lemma_array_factor_maps(
    beam: SkaArrayFactorBeamGpu,
    num_directions: int,
    tile: int,
    frequency: int,
    direction: int,
)
    requires
        beam.tile_map@ == Seq::new(beam.cpu_object.number_of_stations as nat, |k: int| 0i32),
        beam.freq_map@ == Seq::new(beam.freqs_hz@.len(), |k: int| (k as usize) as i32),
        beam.freqs_hz@.len() <= i32::MAX,
        0 < beam.cpu_object.station_angle_rad@.len() <= i32::MAX,
        0 <= tile < beam.cpu_object.number_of_stations,
        0 <= frequency < beam.freqs_hz@.len(),
        0 <= direction < num_directions,
    ensures
        refers_below(BeamGpu::tile_map(&beam), beam.num_unique_tiles()),
        refers_below(BeamGpu::freq_map(&beam), beam.num_unique_freqs()),
        beam.tile_map@[tile] == 0,
        beam.freq_map@[frequency] == frequency,
        0 <= response_index(
            beam.num_unique_freqs() as int,
            num_directions,
            beam.tile_map@[tile] as int,
            beam.freq_map@[frequency] as int,
            direction,
        ) < beam.num_unique_tiles() * (beam.num_unique_freqs() * num_directions),
{
    lemma_response_index_in_range(
        beam.num_unique_tiles() as int,
        beam.num_unique_freqs() as int,
        num_directions,
        beam.tile_map@[tile] as int,
        frequency,
        direction,
    );
}

} // verus!
