//! Setting up beam objects.

use vstd::prelude::*;

use super::beam_type::{type_named, BeamType};
use super::delay_grid::{delay_columns, delay_rows, DelayGrid};
use super::delays::{any_above_dead, Delays, DEAD_DIPOLE};
use super::error::BeamError;
use super::layout::{get_s8_1, is_s8_1};
use super::no_beam::NoBeam;
use super::ska::{
    RaDec, SkaAiryBeam, SkaArrayFactorBeam, SkaBeamConfig, SkaBeamParams, SkaGaussianBeam,
    StationElements,
};
use super::traits::Beam;
use crate::binary64::{Binary64, ZERO_BITS};

verus! {

/// The encoding of 100 MHz in Hz, the reference frequency of SKA beams that are
/// set up without an observation.
pub const DEFAULT_SKA_REF_FREQ_BITS: u64 = 0x4197_d784_0000_0000;

/// What [`create_beam_object`] sets up.
pub enum BeamObject {
    /// A beam without effect.
    NoBeam(NoBeam),

    /// The FEE beam, whose coefficients are read from the file that the
    /// `MWA_BEAM_FILE` environment variable names.
    Fee { num_tiles: usize, delays: Delays },

    SkaGaussian(SkaGaussianBeam),

    SkaAiry(SkaAiryBeam),

    SkaArrayFactor(SkaArrayFactorBeam),
}

impl BeamObject {
    /// The type of this beam.
    pub open spec fn beam_type(self) -> BeamType {
        match self {
            BeamObject::NoBeam(b) => b.beam_type(),
            BeamObject::Fee { .. } => BeamType::FEE,
            BeamObject::SkaGaussian(b) => b.beam_type(),
            BeamObject::SkaAiry(b) => b.beam_type(),
            BeamObject::SkaArrayFactor(b) => b.beam_type(),
        }
    }

    /// The number of tiles of this beam.
    pub open spec fn num_tiles(self) -> usize {
        match self {
            BeamObject::NoBeam(b) => Beam::num_tiles(&b),
            BeamObject::Fee { num_tiles, .. } => num_tiles,
            BeamObject::SkaGaussian(b) => b.num_tiles(),
            BeamObject::SkaAiry(b) => b.num_tiles(),
            BeamObject::SkaArrayFactor(b) => b.num_tiles(),
        }
    }
}

/// The beam type that is asked for: the default where no name is given.
pub open spec fn selected_type(beam_type: Option<&str>) -> Option<BeamType> {
    match beam_type {
        None => Some(BeamType::SkaArrayFactor),
        Some(name) => type_named(name@),
    }
}

/// What is wrong with dipole delays for that many tiles, if anything.
pub open spec fn delays_error(delays: Delays, num_tiles: usize) -> Option<BeamError> {
    match delays {
        Delays::Partial(v) => if Delays::sensible(v@) {
            None
        } else {
            Some(BeamError::BadDelays)
        },
        Delays::Full(a) => if delay_columns(a) != 16 || exists|r: int, c: int|
            0 <= r < delay_rows(a).len() && 0 <= c < delay_columns(a) && (#[trigger] delay_rows(
                a,
            )[r][c]) > DEAD_DIPOLE {
            Some(BeamError::BadDelays)
        } else if delay_rows(a).len() != num_tiles {
            Some(
                BeamError::InconsistentDelays { num_rows: delay_rows(a).len() as usize, num_tiles },
            )
        } else {
            None
        },
    }
}

/// Is this the array factor beam that is set up without an observation? All that
/// is known of the stations is one, S8-1, which is not rotated; neither are the
/// feeds of its elements.
pub open spec fn is_default_array_factor(beam: SkaArrayFactorBeam, num_tiles: usize) -> bool {
    let zero = Binary64 { bits: ZERO_BITS };
    &&& beam.number_of_stations == num_tiles
    &&& beam.phase_centre == (RaDec { ra: zero, dec: zero })
    &&& beam.ska_site_latitude_rad == zero
    &&& beam.reference_frequency_hz.bits == DEFAULT_SKA_REF_FREQ_BITS
    &&& beam.station_angle_rad@ == seq![zero]
    &&& beam.feed_angle_rad@ == Seq::new(256, |i: int| zero)
    &&& beam.feed_coordinates@.len() == 1
    &&& is_s8_1(beam.feed_coordinates@[0]@)
}

/// The SKA parameters of beams that are set up without an observation.
pub open spec fn is_default_ska_params(params: SkaBeamParams, num_tiles: usize) -> bool {
    &&& params.phase_centre.ra.bits == ZERO_BITS
    &&& params.phase_centre.dec.bits == ZERO_BITS
    &&& params.ska_site_latitude_rad.bits == ZERO_BITS
    &&& params.reference_frequency_hz.bits == DEFAULT_SKA_REF_FREQ_BITS
    &&& params.number_of_stations == num_tiles
    &&& params.station_angle_rad is None
    &&& params.feed_angle_rad is None
    &&& params.feed_coordinates is None
    &&& params.ecef_to_local_mats is None
}

/// The beam type that is asked for: the default where no name is given.
pub fn select_beam_type(beam_type: Option<&str>) -> (r: Result<BeamType, BeamError>)
    ensures
        match r {
            Ok(t) => selected_type(beam_type) == Some(t),
            Err(e) => {
                &&& selected_type(beam_type) is None
                &&& e matches BeamError::Unrecognised(s) && s@ == beam_type->Some_0@
            },
        },
{
    match beam_type {
        None => Ok(BeamType::default()),
        Some(name) => match BeamType::from_str(name) {
            Some(t) => Ok(t),
            None => Err(BeamError::Unrecognised(name.to_owned())),
        },
    }
}

fn any_delay_above_dead(a: &DelayGrid) -> (r: bool)
    ensures
        r <==> exists|r: int, c: int|
            0 <= r < delay_rows(*a).len() && 0 <= c < delay_columns(*a) && (#[trigger] delay_rows(
                *a,
            )[r][c]) > DEAD_DIPOLE,
{
    let (num_rows, num_columns) = a.shape();
    let mut r: usize = 0;
    while r < num_rows
        invariant
            num_rows == delay_rows(*a).len(),
            num_columns == delay_columns(*a),
            r <= num_rows,
            forall|i: int, j: int|
                0 <= i < r && 0 <= j < num_columns ==> (#[trigger] delay_rows(*a)[i][j])
                    <= DEAD_DIPOLE,
        decreases num_rows - r,
    {
        let mut c: usize = 0;
        while c < num_columns
            invariant
                num_rows == delay_rows(*a).len(),
                num_columns == delay_columns(*a),
                r < num_rows,
                c <= num_columns,
                forall|i: int, j: int|
                    0 <= i < r && 0 <= j < num_columns ==> (#[trigger] delay_rows(*a)[i][j])
                        <= DEAD_DIPOLE,
                forall|j: int|
                    0 <= j < c ==> (#[trigger] delay_rows(*a)[r as int][j]) <= DEAD_DIPOLE,
            decreases num_columns - c,
        {
            if a.get(r, c) > DEAD_DIPOLE {
                return true;
            }
            c = c + 1;
        }
        r = r + 1;
    }
    false
}

/// Check that dipole delays are sensible for that many tiles.
pub fn check_delays(delays: &Delays, num_tiles: usize) -> (r: Result<(), BeamError>)
    ensures
        match r {
            Ok(()) => delays_error(*delays, num_tiles) is None,
            Err(e) => delays_error(*delays, num_tiles) == Some(e),
        },
{
    match delays {
        Delays::Partial(v) => {
            if v.len() != 16 || any_above_dead(v) {
                return Err(BeamError::BadDelays);
            }
        },
        Delays::Full(a) => {
            let (num_rows, num_columns) = a.shape();
            if num_columns != 16 || any_delay_above_dead(a) {
                return Err(BeamError::BadDelays);
            }
            if num_rows != num_tiles {
                return Err(BeamError::InconsistentDelays { num_rows, num_tiles });
            }
        },
    }
    Ok(())
}

fn default_ska_params(num_tiles: usize) -> (r: SkaBeamParams)
    ensures
        is_default_ska_params(r, num_tiles),
{
    SkaBeamParams {
        phase_centre: RaDec {
            ra: Binary64::from_bits(ZERO_BITS),
            dec: Binary64::from_bits(ZERO_BITS),
        },
        ska_site_latitude_rad: Binary64::from_bits(ZERO_BITS),
        reference_frequency_hz: Binary64::from_bits(DEFAULT_SKA_REF_FREQ_BITS),
        number_of_stations: num_tiles,
        station_angle_rad: None,
        feed_angle_rad: None,
        feed_coordinates: None,
        ecef_to_local_mats: None,
    }
}

fn default_array_factor(num_tiles: usize) -> (beam: SkaArrayFactorBeam)
    ensures
        is_default_array_factor(beam, num_tiles),
{
    let zero: Binary64 = Binary64::from_bits(ZERO_BITS);
    // Populate some default values, so that the beam response can be evaluated.
    let mut station_angles: Vec<Binary64> = Vec::new();
    station_angles.push(zero);
    let mut feed_angles: Vec<Binary64> = Vec::new();
    let mut i: usize = 0;
    while i < 256
        invariant
            i <= 256,
            zero.bits == ZERO_BITS,
            feed_angles@ =~= Seq::new(i as nat, |k: int| zero),
        decreases 256 - i,
    {
        feed_angles.push(zero);
        i = i + 1;
    }
    let mut feed_coordinates: Vec<StationElements> = Vec::new();
    feed_coordinates.push(get_s8_1());
    let mut params: SkaBeamParams = default_ska_params(num_tiles);
    params.station_angle_rad = Some(station_angles);
    params.feed_angle_rad = Some(feed_angles);
    params.feed_coordinates = Some(feed_coordinates);
    let beam: SkaArrayFactorBeam = SkaArrayFactorBeam::new(params);
    assert(beam.station_angle_rad@ =~= seq![zero]);
    beam
}

/// Set up the beam that is asked for. SKA beams get default parameters.
pub fn create_beam_object(
    beam_type: Option<&str>,
    num_tiles: usize,
    dipole_delays: Delays,
) -> (r: Result<BeamObject, BeamError>)
    ensures
        match selected_type(beam_type) {
            None => r matches Err(BeamError::Unrecognised(s)) && s@ == beam_type->Some_0@,
            Some(BeamType::NoBeam) => r matches Ok(BeamObject::NoBeam(b)) && b.num_tiles
                == num_tiles,
            Some(BeamType::FEE) => match delays_error(dipole_delays, num_tiles) {
                Some(e) => r == Err::<BeamObject, BeamError>(e),
                None => r == Ok::<BeamObject, BeamError>(
                    BeamObject::Fee { num_tiles, delays: dipole_delays },
                ),
            },
            Some(BeamType::SkaGaussian) => {
                &&& r matches Ok(BeamObject::SkaGaussian(b))
                &&& b.config.num_stations == num_tiles
                &&& b.config.phase_centre.ra.bits == ZERO_BITS
                &&& b.config.phase_centre.dec.bits == ZERO_BITS
                &&& b.config.ref_freq_hz.bits == DEFAULT_SKA_REF_FREQ_BITS
                &&& b.config.latitude_rad.bits == ZERO_BITS
            },
            Some(BeamType::SkaAiry) => {
                &&& r matches Ok(BeamObject::SkaAiry(b))
                &&& b.number_of_stations == num_tiles
                &&& b.phase_centre.ra.bits == ZERO_BITS
                &&& b.phase_centre.dec.bits == ZERO_BITS
                &&& b.reference_frequency_hz.bits == DEFAULT_SKA_REF_FREQ_BITS
                &&& b.ska_site_latitude_rad.bits == ZERO_BITS
                &&& b.station_angle_rad is None
                &&& b.feed_angle_rad is None
            },
            Some(BeamType::SkaArrayFactor) => r matches Ok(BeamObject::SkaArrayFactor(b))
                && is_default_array_factor(b, num_tiles),
        },
        r matches Ok(b) ==> selected_type(beam_type) == Some(b.beam_type()) && b.num_tiles()
            == num_tiles,
{
    let selected: BeamType = match select_beam_type(beam_type) {
        Ok(t) => t,
        Err(e) => {
            return Err(e);
        },
    };
    match selected {
        BeamType::NoBeam => Ok(BeamObject::NoBeam(NoBeam { num_tiles })),
        BeamType::FEE => {
            // Check that the delays are sensible.
            match check_delays(&dipole_delays, num_tiles) {
                Ok(()) => Ok(BeamObject::Fee { num_tiles, delays: dipole_delays }),
                Err(e) => Err(e),
            }
        },
        BeamType::SkaGaussian => {
            let params: SkaBeamParams = default_ska_params(num_tiles);
            Ok(
                BeamObject::SkaGaussian(
                    SkaGaussianBeam::new(
                        SkaBeamConfig::new(
                            params.number_of_stations,
                            params.phase_centre,
                            params.reference_frequency_hz,
                            params.ska_site_latitude_rad,
                        ),
                    ),
                ),
            )
        },
        BeamType::SkaAiry => Ok(
            BeamObject::SkaAiry(SkaAiryBeam::new(default_ska_params(num_tiles))),
        ),
        BeamType::SkaArrayFactor => Ok(
            BeamObject::SkaArrayFactor(default_array_factor(num_tiles)),
        ),
    }
}

} // verus!
