//! Generate sky-model visibilities from a sky-model source list.

use hifitime::Epoch;
use vec1::Vec1;
use vstd::arithmetic::power2::{lemma2_to64_rest, lemma_pow2_adds, pow2};
use vstd::prelude::*;

use super::channels::{coarse_channels, fine_channels, groups};
use super::merge::VisSimulateSkaCliArgs;
use crate::beam::delays::Delays;
use crate::beam::ska::{
    copy_some_stations, same_some_stations, LocalMatrix, RaDec, SkaBeamParams, StationElements,
};
use crate::binary64::{lemma_is_int, Binary64, ZERO_BITS};
use crate::copies::{copy_of, copy_of_some, same_some};
use crate::non_empty::{
    instants_as_vec, instants_of, instants_try_from_vec, quantities_of,
};

verus! {

/// The number of fine channels, if it is not specified.
pub const DEFAULT_NUM_FINE_CHANNELS: usize = 384;

/// The encoding of 80, the fine-channel resolution if it is not specified
/// \[kHz\].
pub const DEFAULT_FREQ_RES_KHZ_BITS: u64 = 0x4054_0000_0000_0000;

/// The number of timesteps, if it is not specified.
pub const DEFAULT_NUM_TIMESTEPS: usize = 14;

/// The encoding of 8, the time resolution if it is not specified \[seconds\].
pub const DEFAULT_TIME_RES_SECONDS_BITS: u64 = 0x4020_0000_0000_0000;

/// The encoding of 360, the largest right ascension \[degrees\].
pub const MAX_RA_BITS: u64 = 0x4076_8000_0000_0000;

/// The encoding of 90, the largest declination \[degrees\].
pub const MAX_DEC_BITS: u64 = 0x4056_8000_0000_0000;

/// The encoding of -90, the smallest declination \[degrees\].
pub const MIN_DEC_BITS: u64 = 0xc056_8000_0000_0000;

/// The encoding of 2^-52, the smallest fine-channel resolution \[kHz\].
pub const EPSILON_BITS: u64 = 0x3cb0_0000_0000_0000;

/// What is wrong with the arguments.
#[derive(Debug)]
pub enum VisSimulateArgsError {
    /// Right Ascension was not within 0 to 360!
    RaInvalid,

    /// Declination was not within -90 to 90!
    DecInvalid,

    /// One of RA and Dec was specified, but none or both are required!
    OnlyOneRAOrDec,

    /// Number of fine channels cannot be 0!
    FineChansZero,

    /// The fine channel resolution cannot be 0 or negative!
    FineChansWidthTooSmall,

    /// Number of timesteps cannot be 0!
    ZeroTimeSteps,

    /// The array position isn't \[<Longitude>, <Latitude>, <Height>\].
    BadArrayPosition { pos: Vec<Binary64> },
}

/// Where the array is.
#[derive(Debug, Clone, Copy, PartialEq, Eq, Structural)]
pub struct LatLngHeight {
    pub longitude_rad: Binary64,
    pub latitude_rad: Binary64,
    pub height_metres: Binary64,
}

/// Where a tile is \[metres\].
#[derive(Debug, Clone, Copy, PartialEq, Eq, Structural)]
pub struct XyzGeodetic {
    pub x: Binary64,
    pub y: Binary64,
    pub z: Binary64,
}

/// What visibilities were read from.
#[derive(Debug, Clone, Copy, PartialEq, Eq, Structural)]
pub enum VisInputType {
    Raw,
    MeasurementSet,
    Uvfits,
}

/// What a measurement set tells about the observation.
#[derive(Debug)]
pub struct ObsContext {
    pub input_data_type: VisInputType,
    pub phase_centre: RaDec,
    pub array_position: LatLngHeight,
    pub tile_xyzs: Vec<XyzGeodetic>,
    pub tile_names: Vec<String>,
    pub timestamps: Vec1<Epoch>,
    /// \[nanoseconds\]
    pub dut1: Option<i128>,
    pub dipole_delays: Option<Delays>,
    /// The rows correspond to tiles and there are 32 columns, one for each dipole.
    pub dipole_gains: Option<Vec<Vec<Binary64>>>,
    pub station_angles: Option<Vec<Binary64>>,
    pub feed_angles: Option<Vec<Binary64>>,
    pub feed_coordinates: Option<Vec<StationElements>>,
    pub ecef_to_local_mats: Option<Vec<LocalMatrix>>,
}

/// The phase centre of a simulation.
#[derive(Debug, Clone, Copy, PartialEq, Eq, Structural)]
pub enum PhaseCentre {
    /// As specified.
    Degrees { ra: Binary64, dec: Binary64 },

    /// That of the observation.
    Observed(RaDec),
}

/// The array position of a simulation.
#[derive(Debug, Clone, Copy, PartialEq, Eq, Structural)]
pub enum ArrayPosition {
    /// As specified.
    Degrees { longitude: Binary64, latitude: Binary64, height_metres: Binary64 },

    /// That of the observation.
    Observed(LatLngHeight),
}

/// The difference between UT1 and UTC in a simulation.
#[derive(Debug, Clone, Copy, PartialEq, Eq, Structural)]
pub enum Dut1 {
    /// As specified.
    Seconds(Binary64),

    /// That of the observation, or none.
    Nanoseconds(i128),
}

/// The centroid frequency of a simulation.
#[derive(Debug, Clone, Copy, PartialEq, Eq, Structural)]
pub enum MiddleFreq {
    /// As specified.
    Megahertz(Binary64),

    /// The mean of the fine channels of the observation.
    ObservedMean,
}

/// The kinds of components to remove from the sky model.
#[derive(Debug, Clone, Copy, PartialEq, Eq, Structural)]
pub struct Filters {
    pub points: bool,
    pub gaussians: bool,
    pub shapelets: bool,
}

/// When, where and at which frequencies to simulate.
#[derive(Debug)]
pub struct SimulationPlan {
    pub phase_centre: PhaseCentre,
    pub array_position: ArrayPosition,
    pub num_tiles: usize,
    pub num_timesteps: usize,
    /// \[seconds\]
    pub time_res: Binary64,
    /// As many as there are timesteps.
    pub timestamps: Vec1<Epoch>,
    pub dut1: Dut1,
    /// \[kHz\]
    pub freq_res: Binary64,
    /// \[Hz\]
    pub middle_freq: Binary64,
    pub fine_chan_freqs: Vec1<Binary64>,
    pub coarse_chan_freqs: Vec<Binary64>,
    /// What to filter out, if anything.
    pub filters: Option<Filters>,
}

/// The arithmetic that a plan takes.
pub struct Numerics<D, C, R, T> {
    /// The middle frequency \[Hz\].
    pub middle: D,

    /// The frequency of one of a number of fine channels about a middle frequency
    /// \[Hz\] with a resolution \[kHz\].
    pub channel: C,

    /// The centre frequency of the coarse channel that a frequency is in.
    pub coarse: R,

    /// The timestamp of a timestep, given the first timestamp of the observation,
    /// the offset from it \[seconds\] if there is one, and the time resolution
    /// \[seconds\].
    pub timestamp: T,
}

impl<
    D: Fn(MiddleFreq) -> Binary64,
    C: Fn(Binary64, Binary64, usize, usize) -> Binary64,
    R: Fn(Binary64) -> Binary64,
    T: Fn(Epoch, Option<Binary64>, Binary64, usize) -> Epoch,
> Numerics<D, C, R, T> {
    /// Can all of it be computed?
    pub open spec fn ready(self) -> bool {
        &&& forall|m: MiddleFreq| #[trigger] self.middle.requires((m,))
        &&& forall|m: Binary64, f: Binary64, n: usize, i: usize|
            i < n ==> #[trigger] self.channel.requires((m, f, n, i))
        &&& forall|f: Binary64| #[trigger] self.coarse.requires((f,))
        &&& forall|first: Epoch, offset: Option<Binary64>, res: Binary64, i: usize| #[trigger]
            self.timestamp.requires((first, offset, res, i))
    }
}

/// The right ascension is in range.
pub open spec fn ra_valid(ra: Binary64) -> bool {
    ra.spec_within(Binary64 { bits: ZERO_BITS }, Binary64 { bits: MAX_RA_BITS })
}

/// The declination is in range.
pub open spec fn dec_valid(dec: Binary64) -> bool {
    dec.spec_within(Binary64 { bits: MIN_DEC_BITS }, Binary64 { bits: MAX_DEC_BITS })
}

/// Is the fine-channel resolution too small?
pub open spec fn too_narrow(freq_res: Binary64) -> bool {
    freq_res.spec_below(Binary64 { bits: EPSILON_BITS })
}

/// The limits on arguments are what they are called: 0 to 360 degrees of right
/// ascension, -90 to 90 degrees of declination, and 2^-52 kHz. So are the defaults
/// of 80 kHz and 8 seconds.
pub proof fn lemma_limits()
    ensures
        (Binary64 { bits: ZERO_BITS }).is_int(0),
        (Binary64 { bits: MAX_RA_BITS }).is_int(360),
        (Binary64 { bits: MAX_DEC_BITS }).is_int(90),
        (Binary64 { bits: MIN_DEC_BITS }).is_int(-90),
        (Binary64 { bits: DEFAULT_FREQ_RES_KHZ_BITS }).is_int(80),
        (Binary64 { bits: DEFAULT_TIME_RES_SECONDS_BITS }).is_int(8),
        (Binary64 { bits: EPSILON_BITS }).value() == pow2(1022),
{
    lemma2_to64_rest();
    lemma_is_int(Binary64 { bits: MAX_RA_BITS }, 360, 44);
    lemma_is_int(Binary64 { bits: MAX_DEC_BITS }, 90, 46);
    lemma_is_int(Binary64 { bits: MIN_DEC_BITS }, 90, 46);
    lemma_is_int(Binary64 { bits: DEFAULT_FREQ_RES_KHZ_BITS }, 80, 46);
    lemma_is_int(Binary64 { bits: DEFAULT_TIME_RES_SECONDS_BITS }, 8, 49);
    lemma_pow2_adds(52, 970);
}

/// Are both the same error?
pub open spec fn same_error(a: VisSimulateArgsError, b: VisSimulateArgsError) -> bool {
    match (a, b) {
        (
            VisSimulateArgsError::BadArrayPosition { pos: p },
            VisSimulateArgsError::BadArrayPosition { pos: q },
        ) => p@ == q@,
        _ => a == b,
    }
}

/// What is wrong with the arguments, if anything; several things are looked at
/// in this order.
pub open spec fn args_error(args: VisSimulateSkaCliArgs) -> Option<VisSimulateArgsError> {
    let freq_res = chosen_freq_res(args);
    if args.ra is Some && args.dec is Some && !ra_valid(args.ra->0) {
        Some(VisSimulateArgsError::RaInvalid)
    } else if args.ra is Some && args.dec is Some && !dec_valid(args.dec->0) {
        Some(VisSimulateArgsError::DecInvalid)
    } else if args.ra is Some != args.dec is Some {
        Some(VisSimulateArgsError::OnlyOneRAOrDec)
    } else if args.array_position is Some && args.array_position->0@.len() != 3 {
        Some(VisSimulateArgsError::BadArrayPosition { pos: args.array_position->0 })
    } else if too_narrow(freq_res) {
        Some(VisSimulateArgsError::FineChansWidthTooSmall)
    } else if chosen_num_fine_channels(args) == 0 {
        Some(VisSimulateArgsError::FineChansZero)
    } else if chosen_num_timesteps(args) == 0 {
        Some(VisSimulateArgsError::ZeroTimeSteps)
    } else {
        None
    }
}

/// The fine-channel resolution \[kHz\].
pub open spec fn chosen_freq_res(args: VisSimulateSkaCliArgs) -> Binary64 {
    match args.freq_res {
        Some(f) => f,
        None => Binary64 { bits: DEFAULT_FREQ_RES_KHZ_BITS },
    }
}

/// The number of fine channels.
pub open spec fn chosen_num_fine_channels(args: VisSimulateSkaCliArgs) -> usize {
    match args.num_fine_channels {
        Some(n) => n,
        None => DEFAULT_NUM_FINE_CHANNELS,
    }
}

/// The phase centre, if the arguments are in order.
pub open spec fn chosen_phase_centre(
    args: VisSimulateSkaCliArgs,
    context: ObsContext,
) -> PhaseCentre {
    match (args.ra, args.dec) {
        (Some(ra), Some(dec)) => PhaseCentre::Degrees { ra, dec },
        _ => PhaseCentre::Observed(context.phase_centre),
    }
}

/// The array position, if the arguments are in order.
pub open spec fn chosen_array_position(
    args: VisSimulateSkaCliArgs,
    context: ObsContext,
) -> ArrayPosition {
    match args.array_position {
        Some(v) => ArrayPosition::Degrees {
            longitude: v@[0],
            latitude: v@[1],
            height_metres: v@[2],
        },
        None => ArrayPosition::Observed(context.array_position),
    }
}

/// The DUT1.
pub open spec fn chosen_dut1(args: VisSimulateSkaCliArgs, context: ObsContext) -> Dut1 {
    if args.ignore_dut1 {
        Dut1::Nanoseconds(0)
    } else {
        match (args.dut1, context.dut1) {
            (Some(seconds), _) => Dut1::Seconds(seconds),
            (None, Some(nanoseconds)) => Dut1::Nanoseconds(nanoseconds),
            (None, None) => Dut1::Nanoseconds(0),
        }
    }
}

/// The time resolution \[seconds\].
pub open spec fn chosen_time_res(time_res: Option<Binary64>) -> Binary64 {
    match time_res {
        Some(seconds) => seconds,
        None => Binary64 { bits: DEFAULT_TIME_RES_SECONDS_BITS },
    }
}

/// The number of timesteps.
pub open spec fn chosen_num_timesteps(args: VisSimulateSkaCliArgs) -> usize {
    match args.num_timesteps {
        Some(n) => n,
        None => DEFAULT_NUM_TIMESTEPS,
    }
}

/// Are these the timestamps? They are regular, from the first one of the
/// observation on.
pub open spec fn chosen_timestamps<T: Fn(Epoch, Option<Binary64>, Binary64, usize) -> Epoch>(
    args: VisSimulateSkaCliArgs,
    context: ObsContext,
    timestamp: T,
    timestamps: Seq<Epoch>,
) -> bool {
    &&& timestamps.len() == chosen_num_timesteps(args)
    &&& forall|i: int|
        0 <= i < timestamps.len() ==> timestamp.ensures(
            (
                instants_of(context.timestamps)[0],
                args.time_offset,
                chosen_time_res(args.time_res),
                i as usize,
            ),
            #[trigger] timestamps[i],
        )
}

/// The centroid frequency.
pub open spec fn chosen_middle_freq(args: VisSimulateSkaCliArgs) -> MiddleFreq {
    match args.middle_freq {
        Some(f) => MiddleFreq::Megahertz(f),
        None => MiddleFreq::ObservedMean,
    }
}

/// What to filter out, if anything.
pub open spec fn chosen_filters(args: VisSimulateSkaCliArgs) -> Option<Filters> {
    if args.filter_points || args.filter_gaussians || args.filter_shapelets {
        Some(
            Filters {
                points: args.filter_points,
                gaussians: args.filter_gaussians,
                shapelets: args.filter_shapelets,
            },
        )
    } else {
        None
    }
}

impl SimulationPlan {
    /// Is this the plan that the arguments ask for?
    pub open spec fn follows<
        D: Fn(MiddleFreq) -> Binary64,
        C: Fn(Binary64, Binary64, usize, usize) -> Binary64,
        R: Fn(Binary64) -> Binary64,
        T: Fn(Epoch, Option<Binary64>, Binary64, usize) -> Epoch,
    >(
        self,
        args: VisSimulateSkaCliArgs,
        context: ObsContext,
        numerics: Numerics<D, C, R, T>,
    ) -> bool {
        let fine = quantities_of(self.fine_chan_freqs);
        let n = chosen_num_fine_channels(args);
        &&& self.phase_centre == chosen_phase_centre(args, context)
        &&& self.array_position == chosen_array_position(args, context)
        &&& self.num_tiles == context.tile_xyzs@.len()
        &&& self.num_timesteps == chosen_num_timesteps(args)
        &&& self.time_res == chosen_time_res(args.time_res)
        &&& instants_of(self.timestamps).len() == self.num_timesteps
        &&& chosen_timestamps(args, context, numerics.timestamp, instants_of(self.timestamps))
        &&& self.dut1 == chosen_dut1(args, context)
        &&& self.freq_res == chosen_freq_res(args)
        &&& numerics.middle.ensures((chosen_middle_freq(args),), self.middle_freq)
        &&& fine.len() == n
        &&& forall|i: int|
            0 <= i < n ==> numerics.channel.ensures(
                (self.middle_freq, self.freq_res, n, i as usize),
                #[trigger] fine[i],
            )
        &&& groups(fine, numerics.coarse, self.coarse_chan_freqs@)
        &&& self.filters == chosen_filters(args)
    }
}

/// Get the phase centre, if one was specified. Verify that the input coordinates
/// are sensible.
pub fn check_phase_centre(ra: Option<Binary64>, dec: Option<Binary64>) -> (r: Result<
    Option<(Binary64, Binary64)>,
    VisSimulateArgsError,
>)
    ensures
        match (ra, dec) {
            (Some(ra), Some(dec)) => if !ra_valid(ra) {
                r == Err::<Option<(Binary64, Binary64)>, VisSimulateArgsError>(
                    VisSimulateArgsError::RaInvalid,
                )
            } else if !dec_valid(dec) {
                r == Err::<Option<(Binary64, Binary64)>, VisSimulateArgsError>(
                    VisSimulateArgsError::DecInvalid,
                )
            } else {
                r == Ok::<Option<(Binary64, Binary64)>, VisSimulateArgsError>(Some((ra, dec)))
            },
            (None, None) => r == Ok::<Option<(Binary64, Binary64)>, VisSimulateArgsError>(None),
            _ => r == Err::<Option<(Binary64, Binary64)>, VisSimulateArgsError>(
                VisSimulateArgsError::OnlyOneRAOrDec,
            ),
        },
{
    match (ra, dec) {
        (Some(ra), Some(dec)) => {
            if !ra.within(Binary64::from_bits(ZERO_BITS), Binary64::from_bits(MAX_RA_BITS)) {
                return Err(VisSimulateArgsError::RaInvalid);
            }
            if !dec.within(Binary64::from_bits(MIN_DEC_BITS), Binary64::from_bits(MAX_DEC_BITS)) {
                return Err(VisSimulateArgsError::DecInvalid);
            }
            Ok(Some((ra, dec)))
        },
        (None, None) => Ok(None),
        _ => Err(VisSimulateArgsError::OnlyOneRAOrDec),
    }
}

/// The local sidereal time and latitude to work with.
#[derive(Debug, Clone, Copy, PartialEq, Eq, Structural)]
pub struct PrecessionInfo {
    /// The local mean sidereal time \[radians\].
    pub lmst: Binary64,

    /// The local mean sidereal time, precessed to J2000 \[radians\].
    pub lmst_j2000: Binary64,

    /// The array latitude, precessed to J2000 \[radians\].
    pub array_latitude_j2000: Binary64,

    /// The array latitude \[radians\].
    pub array_latitude: Binary64,
}

impl PrecessionInfo {
    /// The local sidereal time and latitude to work with.
    pub open spec fn frame(self, no_precession: bool) -> (Binary64, Binary64) {
        if no_precession {
            (self.lmst, self.array_latitude)
        } else {
            (self.lmst_j2000, self.array_latitude_j2000)
        }
    }
}

/// The local sidereal time and latitude to work with: precessed to J2000, unless
/// that isn't wanted.
pub fn lst_and_latitude(no_precession: bool, info: PrecessionInfo) -> (r: (Binary64, Binary64))
    ensures
        r == info.frame(no_precession),
{
    if !no_precession {
        (info.lmst_j2000, info.array_latitude_j2000)
    } else {
        (info.lmst, info.array_latitude)
    }
}

impl ObsContext {
    /// Is this what SKA beams have to know of this observation?
    pub open spec fn describes(
        self,
        params: SkaBeamParams,
        latitude_rad: Binary64,
        middle_freq_hz: Binary64,
    ) -> bool {
        &&& params.phase_centre == self.phase_centre
        &&& params.ska_site_latitude_rad == latitude_rad
        &&& params.reference_frequency_hz == middle_freq_hz
        &&& params.number_of_stations == self.tile_xyzs@.len()
        &&& same_some(params.station_angle_rad, self.station_angles)
        &&& same_some(params.feed_angle_rad, self.feed_angles)
        &&& same_some_stations(params.feed_coordinates, self.feed_coordinates)
        &&& same_some(params.ecef_to_local_mats, self.ecef_to_local_mats)
    }

    /// What SKA beams have to know of this observation.
    pub fn ska_beam_params(&self, latitude_rad: Binary64, middle_freq_hz: Binary64) -> (r:
        SkaBeamParams)
        ensures
            self.describes(r, latitude_rad, middle_freq_hz),
    {
        SkaBeamParams {
            phase_centre: self.phase_centre,
            ska_site_latitude_rad: latitude_rad,
            reference_frequency_hz: middle_freq_hz,
            number_of_stations: self.tile_xyzs.len(),
            station_angle_rad: copy_of_some(&self.station_angles),
            feed_angle_rad: copy_of_some(&self.feed_angles),
            feed_coordinates: copy_some_stations(&self.feed_coordinates),
            ecef_to_local_mats: copy_of_some(&self.ecef_to_local_mats),
        }
    }
}

/// The time resolution \[seconds\].
fn choose_time_res(time_res: Option<Binary64>) -> (r: Binary64)
    ensures
        r == chosen_time_res(time_res),
{
    match time_res {
        Some(seconds) => seconds,
        None => Binary64::from_bits(DEFAULT_TIME_RES_SECONDS_BITS),
    }
}

/// The timestamps of a simulation, if there are any.
pub fn choose_timestamps<T: Fn(Epoch, Option<Binary64>, Binary64, usize) -> Epoch>(
    args: &VisSimulateSkaCliArgs,
    context: &ObsContext,
    timestamp: &T,
) -> (r: Option<Vec1<Epoch>>)
    requires
        forall|first: Epoch, offset: Option<Binary64>, res: Binary64, i: usize| #[trigger]
            timestamp.requires((first, offset, res, i)),
    ensures
        match r {
            None => chosen_num_timesteps(*args) == 0,
            Some(list) => {
                &&& chosen_num_timesteps(*args) > 0
                &&& chosen_timestamps(*args, *context, *timestamp, instants_of(list))
            },
        },
{
    let first: Epoch = instants_as_vec(&context.timestamps)[0];
    let time_res: Binary64 = choose_time_res(args.time_res);
    let num_timesteps: usize = match args.num_timesteps {
        Some(n) => n,
        None => DEFAULT_NUM_TIMESTEPS,
    };
    let mut timestamps: Vec<Epoch> = Vec::new();
    let mut i: usize = 0;
    while i < num_timesteps
        invariant
            i <= num_timesteps,
            forall|first: Epoch, offset: Option<Binary64>, res: Binary64, i: usize| #[trigger]
                timestamp.requires((first, offset, res, i)),
            timestamps@.len() == i,
            forall|k: int|
                0 <= k < i ==> timestamp.ensures(
                    (first, args.time_offset, time_res, k as usize),
                    #[trigger] timestamps@[k],
                ),
        decreases num_timesteps - i,
    {
        timestamps.push(timestamp(first, args.time_offset, time_res, i));
        i = i + 1;
    }
    match instants_try_from_vec(timestamps) {
        Ok(list) => Some(list),
        Err(_) => None,
    }
}

impl VisSimulateSkaCliArgs {
    /// Make sense of the arguments, given what the measurement set tells about
    /// the observation.
    pub fn plan<
        D: Fn(MiddleFreq) -> Binary64,
        C: Fn(Binary64, Binary64, usize, usize) -> Binary64,
        R: Fn(Binary64) -> Binary64,
        T: Fn(Epoch, Option<Binary64>, Binary64, usize) -> Epoch,
    >(&self, context: &ObsContext, numerics: &Numerics<D, C, R, T>) -> (r: Result<
        SimulationPlan,
        VisSimulateArgsError,
    >)
        requires
            numerics.ready(),
        ensures
            match args_error(*self) {
                Some(e) => r matches Err(found) && same_error(found, e),
                None => r matches Ok(plan) && plan.follows(*self, *context, *numerics),
            },
    {
        // Get the phase centre.
        let phase_centre: PhaseCentre = match check_phase_centre(self.ra, self.dec) {
            Err(e) => {
                return Err(e);
            },
            Ok(Some((ra, dec))) => PhaseCentre::Degrees { ra, dec },
            Ok(None) => PhaseCentre::Observed(context.phase_centre),
        };
        // If the user supplied the array position, unpack it here.
        let array_position: ArrayPosition = match &self.array_position {
            Some(v) => {
                if v.len() != 3 {
                    return Err(VisSimulateArgsError::BadArrayPosition { pos: copy_of(v.as_slice()) });
                }
                ArrayPosition::Degrees { longitude: v[0], latitude: v[1], height_metres: v[2] }
            },
            None => ArrayPosition::Observed(context.array_position),
        };
        let time_res: Binary64 = choose_time_res(self.time_res);
        let dut1: Dut1 = match (self.ignore_dut1, self.dut1) {
            (true, _) => Dut1::Nanoseconds(0),
            (false, Some(seconds)) => Dut1::Seconds(seconds),
            (false, None) => match context.dut1 {
                Some(nanoseconds) => Dut1::Nanoseconds(nanoseconds),
                None => Dut1::Nanoseconds(0),
            },
        };
        // Get the fine channel frequencies.
        let freq_res: Binary64 = match self.freq_res {
            Some(f) => f,
            None => Binary64::from_bits(DEFAULT_FREQ_RES_KHZ_BITS),
        };
        let num_fine_channels: usize = match self.num_fine_channels {
            Some(n) => n,
            None => DEFAULT_NUM_FINE_CHANNELS,
        };
        if freq_res.below(Binary64::from_bits(EPSILON_BITS)) {
            return Err(VisSimulateArgsError::FineChansWidthTooSmall);
        }
        let middle: &D = &numerics.middle;
        let middle_freq: Binary64 = middle(
            match self.middle_freq {
                Some(f) => MiddleFreq::Megahertz(f),
                None => MiddleFreq::ObservedMean,
            },
        );
        let channel: &C = &numerics.channel;
        let one_channel = |i: usize| -> (f: Binary64)
            requires
                i < num_fine_channels,
                channel.requires((middle_freq, freq_res, num_fine_channels, i)),
            ensures
                channel.ensures((middle_freq, freq_res, num_fine_channels, i), f),
            { channel(middle_freq, freq_res, num_fine_channels, i) };
        let fine_chan_freqs: Vec1<Binary64> = match fine_channels(
            num_fine_channels,
            &one_channel,
        ) {
            Some(list) => list,
            None => {
                return Err(VisSimulateArgsError::FineChansZero);
            },
        };
        proof {
            let fine = quantities_of(fine_chan_freqs);
            assert forall|i: int| 0 <= i < num_fine_channels implies numerics.channel.ensures(
                (middle_freq, freq_res, num_fine_channels, i as usize),
                #[trigger] fine[i],
            ) by {
                assert(one_channel.ensures((i as usize,), fine[i]));
            }
        }
        let coarse_chan_freqs: Vec<Binary64> = coarse_channels(&fine_chan_freqs, &numerics.coarse);
        let timestamps: Vec1<Epoch> = match choose_timestamps(self, context, &numerics.timestamp) {
            Some(timestamps) => timestamps,
            None => {
                return Err(VisSimulateArgsError::ZeroTimeSteps);
            },
        };
        // Apply any filters.
        let filters: Option<Filters> = if self.filter_points || self.filter_gaussians
            || self.filter_shapelets {
            Some(
                Filters {
                    points: self.filter_points,
                    gaussians: self.filter_gaussians,
                    shapelets: self.filter_shapelets,
                },
            )
        } else {
            None
        };
        let num_timesteps: usize = instants_as_vec(&timestamps).len();
        Ok(
            SimulationPlan {
                phase_centre,
                array_position,
                num_tiles: context.tile_xyzs.len(),
                num_timesteps,
                time_res,
                timestamps,
                dut1,
                freq_res,
                middle_freq,
                fine_chan_freqs,
                coarse_chan_freqs,
                filters,
            },
        )
    }
}

} // verus!
