//! What beams are for.

use vstd::prelude::*;

use super::beam_type::{
    beam_types_comma_separated, joined, lemma_names_round_trip, BeamType,
};
use super::create::{check_delays, create_beam_object, select_beam_type, BeamObject};
use super::delay_grid::{delay_columns, delay_rows, DelayGrid};
use super::delays::{
    all_alive, dipole_alive, is_smallest, last_delay, rows_used, Delays,
};
use super::error::BeamError;
use super::layout::S8_1_MILLIMETRES;
use super::no_beam::{identity, NoBeam, NoBeamGpu};
use super::responses::{
    response_cells, response_index, response_shape, responses_by_frequency, responses_by_tile,
    ResponseGrid,
};
use super::ska::{
    RaDec, SkaAiryBeam, SkaAiryBeamGpu, SkaArrayFactorBeam, SkaArrayFactorBeamGpu, SkaBeamConfig,
    SkaBeamParams, SkaGaussianBeam, StationElements,
};
use super::traits::{distinct_map, shared_map, Beam, BeamGpu, Jones};
use crate::binary64::Binary64;
use crate::params::array_laws::{is_identity, lemma_is_identity, lemma_one};

verus! {

/// Beam types are known by these names, and by no others.
pub proof fn lemma_beam_types_have_names(name: &str, r: Option<BeamType>)
    requires
        call_ensures(BeamType::from_str, (name,), r),
    ensures
        r == Some(BeamType::FEE) <==> name@ == "fee"@,
        r == Some(BeamType::NoBeam) <==> name@ == "none"@,
        r == Some(BeamType::SkaGaussian) <==> name@ == "ska_gaussian"@,
        r == Some(BeamType::SkaAiry) <==> name@ == "ska_airy"@,
        r == Some(BeamType::SkaArrayFactor) <==> name@ == "ska_array_factor"@,
{
    lemma_names_round_trip(BeamType::FEE, name@);
    lemma_names_round_trip(BeamType::NoBeam, name@);
    lemma_names_round_trip(BeamType::SkaGaussian, name@);
    lemma_names_round_trip(BeamType::SkaAiry, name@);
    lemma_names_round_trip(BeamType::SkaArrayFactor, name@);
}

/// A beam type is found by the name that it is written with.
pub proof fn lemma_written_beam_types_are_found(
    t: BeamType,
    written: String,
    name: &str,
    r: Option<BeamType>,
)
    requires
        call_ensures(BeamType::to_string, (t,), written),
        call_ensures(BeamType::from_str, (name,), r),
    ensures
        name@ == written@ <==> r == Some(t),
{
    lemma_names_round_trip(t, name@);
}

/// All names are listed, with commas between them.
pub proof fn lemma_beam_types_are_listed(r: String)
    requires
        call_ensures(beam_types_comma_separated, (), r),
    ensures
        r@ == "fee"@ + ", "@ + "none"@ + ", "@ + "ska_gaussian"@ + ", "@ + "ska_airy"@ + ", "@
            + "ska_array_factor"@,
{
    let names = BeamType::spec_all().map_values(|t: BeamType| t.spec_name());
    assert(names =~= seq![
        "fee"@,
        "none"@,
        "ska_gaussian"@,
        "ska_airy"@,
        "ska_array_factor"@,
    ]);
    lemma_joined(names, ", "@);
}

proof fn lemma_joined(texts: Seq<Seq<char>>, separator: Seq<char>)
    requires
        texts.len() == 5,
    ensures
        joined(texts, separator) == texts[0] + separator + texts[1] + separator + texts[2]
            + separator + texts[3] + separator + texts[4],
{
    let four = texts.drop_last();
    let three = four.drop_last();
    let two = three.drop_last();
    let one = two.drop_last();
    reveal_with_fuel(joined, 6);
    assert(joined(one, separator) == texts[0]);
    assert(joined(two, separator) == texts[0] + separator + texts[1]);
    assert(joined(three, separator) == texts[0] + separator + texts[1] + separator + texts[2]);
}

/// Where no beam type is named, it is the array factor of SKA-Low stations.
/// A name that there is not is told.
pub proof fn lemma_selected_beam_types(
    name: Option<&str>,
    r: Result<BeamType, BeamError>,
    t: BeamType,
    written: String,
)
    requires
        call_ensures(select_beam_type, (name,), r),
        call_ensures(BeamType::to_string, (t,), written),
    ensures
        name is None ==> r == Ok::<BeamType, BeamError>(BeamType::SkaArrayFactor),
        name matches Some(n) ==> (n@ == written@ <==> r == Ok::<BeamType, BeamError>(t)),
        r matches Err(e) ==> (e matches BeamError::Unrecognised(text) && name is Some && text@
            == name->0@),
{
    if let Some(n) = name {
        lemma_names_round_trip(t, n@);
    }
}

/// Are dipole delays sensible for so many tiles? There have to be 16 for one tile
/// or each of them, none above 32.
pub open spec fn delays_make_sense(delays: Delays, num_tiles: usize) -> bool {
    match delays {
        Delays::Partial(v) => v@.len() == 16 && forall|i: int|
            0 <= i < 16 ==> #[trigger] v@[i] <= 32,
        Delays::Full(a) => delay_columns(a) == 16 && delay_rows(a).len() == num_tiles && forall|
            r: int,
            c: int,
        |
            0 <= r < num_tiles && 0 <= c < 16 ==> #[trigger] delay_rows(a)[r][c] <= 32,
    }
}

/// Dipole delays are refused exactly if they are not sensible. That there are not
/// as many rows as tiles is told with both numbers, where all else is in order.
pub proof fn lemma_delays_are_checked(
    delays: Delays,
    num_tiles: usize,
    r: Result<(), BeamError>,
)
    requires
        call_ensures(check_delays, (&delays, num_tiles), r),
    ensures
        r is Ok <==> delays_make_sense(delays, num_tiles),
        r matches Err(e) ==> match e {
            BeamError::BadDelays => match delays {
                Delays::Partial(v) => true,
                Delays::Full(a) => !delays_make_sense(delays, delay_rows(a).len() as usize)
                    || delay_rows(a).len() > usize::MAX,
            },
            BeamError::InconsistentDelays { num_rows, num_tiles: told } => {
                &&& delays matches Delays::Full(a)
                &&& num_rows == delay_rows(a).len() as usize
                &&& told == num_tiles
                &&& delay_rows(a).len() != num_tiles
                &&& delay_rows(a).len() <= usize::MAX ==> delays_make_sense(delays, num_rows)
            },
            BeamError::Unrecognised(_) => false,
        },
{
    if let Delays::Full(a) = delays {
        let n = delay_rows(a).len() as usize;
        if delay_rows(a).len() <= usize::MAX && delays_make_sense(delays, n) {
            assert(super::create::delays_error(delays, num_tiles) != Some(BeamError::BadDelays));
        }
    }
}

/// User-provided delays are taken exactly if there are 16 of them, none above 32.
pub proof fn lemma_parsed_delays(delays: Vec<u32>, r: Result<Delays, BeamError>)
    requires
        call_ensures(Delays::parse, (delays,), r),
    ensures
        r is Ok <==> delays@.len() == 16 && forall|i: int|
            0 <= i < 16 ==> #[trigger] delays@[i] <= 32,
        r matches Ok(d) ==> d == Delays::Partial(delays),
        r matches Err(e) ==> e is BadDelays,
{
}

/// Is this the last delay that is given for a dipole?
pub open spec fn is_last_given(delays: Seq<u32>, dipole: int, i: int) -> bool {
    &&& 0 <= i < delays.len()
    &&& i % 16 == dipole
    &&& forall|j: int| i < j < delays.len() ==> (#[trigger] delays[j], j % 16).1 != dipole
}

/// Does a dipole of a tile have that delay? It may be given twice, for X and Y.
pub open spec fn has_delay(rows: Seq<Seq<u32>>, n: int, dipole: int, delay: u32) -> bool {
    exists|r: int, c: int|
        0 <= r < n && 0 <= c < rows[r].len() && c % 16 == dipole && (#[trigger] rows[r][c]) == delay
}

/// The delays of one tile are ideal; where a dipole is given more than once, the
/// last counts, and where it is not given, it is dead.
pub proof fn lemma_ideal_delays_of_one_tile(delays: Vec<u32>, r: [u32; 16], d: int, i: int)
    requires
        call_ensures(Delays::get_ideal_delays, (&Delays::Partial(delays),), r),
        0 <= d < 16,
    ensures
        is_last_given(delays@, d, i) ==> r@[d] == delays@[i],
        delays@.len() <= d ==> r@[d] == 32,
        delays@.len() == 16 ==> r@ == delays@,
{
    assert(r@[d] == last_delay(delays@, d));
    if is_last_given(delays@, d, i) {
        let n = delays@.len() as int;
        let k = d + 16 * ((n - 1 - d) / 16);
        assert(k % 16 == d && 0 <= k < n && k + 16 >= n && i <= n - 1 && d <= i);
        assert(i <= k) by {
            if i > k {
                assert(i - k < 16 && (i - k) % 16 == 0);
            }
        }
        if i < k {
            assert((delays@[k], k % 16).1 != d);
        }
    }
    if delays@.len() == 16 {
        assert forall|j: int| 0 <= j < 16 implies r@[j] == delays@[j] by {
            assert(r@[j] == last_delay(delays@, j));
        }
        assert(r@ =~= delays@);
    }
}

/// The ideal delays of all tiles are smallest, and they are those of all tiles
/// that are needed to have no dipole dead.
pub proof fn lemma_ideal_delays_of_all_tiles(grid: DelayGrid, r: [u32; 16])
    requires
        call_ensures(Delays::get_ideal_delays, (&Delays::Full(grid),), r),
    ensures
        exists|n: int| #[trigger] is_smallest_of_first(delay_rows(grid), n, r@),
{
    let rows = delay_rows(grid);
    let n = rows_used(rows, 0);
    lemma_first_rows(rows, 0);
    assert(Delays::Full(grid).ideal(r@));
    assert forall|d: int| #![trigger r@[d]] 0 <= d < 16 implies is_smallest(rows, n, d, r@[d]) by {
        assert(r@[d] == r@[d]);
    }
    assert forall|d: int| 0 <= d < 16 && n < rows.len() implies #[trigger] r@[d] < 32 by {
        assert(dipole_alive(rows, n, d));
        assert(is_smallest(rows, n, d, r@[d]));
    }
    assert(is_smallest_of_first(rows, n, r@));
}

/// Is each delay the smallest that the first `n` tiles have for its dipole, or 32
/// where they have none below? The first `n` tiles are as few as it takes to have
/// every dipole alive, or all of them.
pub open spec fn is_smallest_of_first(rows: Seq<Seq<u32>>, n: int, ideal: Seq<u32>) -> bool {
    &&& 0 <= n <= rows.len()
    &&& rows.len() > 0 ==> n > 0
    &&& ideal.len() == 16
    &&& forall|d: int|
        #![trigger ideal[d]]
        0 <= d < 16 ==> {
            &&& ideal[d] <= 32
            &&& ideal[d] < 32 ==> has_delay(rows, n, d, ideal[d])
            &&& forall|r: int, c: int|
                0 <= r < n && 0 <= c < rows[r].len() && c % 16 == d ==> ideal[d]
                    <= #[trigger] rows[r][c]
        }
    &&& n < rows.len() ==> forall|d: int| 0 <= d < 16 ==> #[trigger] ideal[d] < 32
    &&& forall|m: int| 0 < m < n ==> #[trigger] leaves_dead(rows, m)
}

/// Do the first `m` tiles leave a dipole dead?
pub open spec fn leaves_dead(rows: Seq<Seq<u32>>, m: int) -> bool {
    exists|d: int| #[trigger] is_dead(rows, m, d)
}

/// Do the first `m` tiles leave that dipole dead?
pub open spec fn is_dead(rows: Seq<Seq<u32>>, m: int, d: int) -> bool {
    &&& 0 <= d < 16
    &&& forall|r: int, c: int|
        0 <= r < m && 0 <= c < rows[r].len() && c % 16 == d ==> #[trigger] rows[r][c] >= 32
}

proof fn lemma_first_rows(rows: Seq<Seq<u32>>, from: int)
    requires
        0 <= from,
        forall|m: int| 0 < m <= from && m <= rows.len() ==> #[trigger] leaves_dead(rows, m),
    ensures
        rows_used(rows, from) <= rows.len(),
        from < rows.len() ==> rows_used(rows, from) > from,
        from <= rows.len() ==> rows_used(rows, from) >= from,
        rows_used(rows, from) == rows.len() || all_alive(rows, rows_used(rows, from)),
        forall|m: int| 0 < m < rows_used(rows, from) ==> #[trigger] leaves_dead(rows, m),
    decreases rows.len() - from,
{
    if from < rows.len() && !all_alive(rows, from + 1) {
        assert(leaves_dead(rows, from + 1)) by {
            let m = from + 1;
            let d = choose|d: int| 0 <= d < 16 && !(#[trigger] dipole_alive(rows, m, d));
            assert(is_dead(rows, from + 1, d));
        }
        lemma_first_rows(rows, from + 1);
    }
}

/// All tiles get the ideal delays; the delays of one tile stay.
pub proof fn lemma_tiles_get_ideal_delays()
    ensures
        forall|delays: &mut Delays, ideal: [u32; 16]|
            #[trigger] call_ensures(Delays::set_to_ideal_delays, (delays,), ())
                && #[trigger] call_ensures(
                Delays::get_ideal_delays,
                (&*delays,),
                ideal,
            ) ==> match (*delays, *final(delays)) {
                (Delays::Partial(before), Delays::Partial(after)) => after == before,
                (Delays::Full(before), Delays::Full(after)) => {
                    &&& delay_columns(after) == delay_columns(before)
                    &&& delay_rows(after).len() == delay_rows(before).len()
                    &&& forall|r: int|
                        0 <= r < delay_rows(after).len() ==> #[trigger] delay_rows(after)[r]
                            == ideal@
                },
                _ => false,
            },
{
    assert forall|delays: &mut Delays, ideal: [u32; 16]|
        #[trigger] call_ensures(Delays::set_to_ideal_delays, (delays,), ())
            && #[trigger] call_ensures(
            Delays::get_ideal_delays,
            (&*delays,),
            ideal,
        ) implies match (*delays, *final(delays)) {
        (Delays::Partial(before), Delays::Partial(after)) => after == before,
        (Delays::Full(before), Delays::Full(after)) => {
            &&& delay_columns(after) == delay_columns(before)
            &&& delay_rows(after).len() == delay_rows(before).len()
            &&& forall|r: int|
                0 <= r < delay_rows(after).len() ==> #[trigger] delay_rows(after)[r] == ideal@
        },
        _ => false,
    } by {
        if let (Delays::Full(before), Delays::Full(after)) = (*delays, *final(delays)) {
            let found = choose|found: Seq<u32>| #[trigger]
                delays.ideal(found) && forall|r: int|
                    0 <= r < delay_rows(after).len() ==> #[trigger] delay_rows(after)[r] == found;
            super::delays::lemma_ideal_is_unique(*delays, found, ideal@);
        }
    }
}

/// Copies of delays are these delays.
pub proof fn lemma_copies_of_delays(delays: Delays, r: Delays, grid: DelayGrid, copy: DelayGrid)
    requires
        call_ensures(<Delays as Clone>::clone, (&delays,), r),
        call_ensures(<DelayGrid as Clone>::clone, (&grid,), copy),
    ensures
        match (delays, r) {
            (Delays::Partial(v), Delays::Partial(w)) => w@ == v@,
            (Delays::Full(a), Delays::Full(b)) => delay_rows(b) == delay_rows(a) && delay_columns(b)
                == delay_columns(a),
            _ => false,
        },
        delay_rows(copy) == delay_rows(grid),
        delay_columns(copy) == delay_columns(grid),
{
}

/// Delays are given row after row, and got by row and column.
pub proof fn lemma_delays_are_kept(
    rows: usize,
    columns: usize,
    values: Vec<u32>,
    grid: Option<DelayGrid>,
    r: usize,
    c: usize,
)
    requires
        call_ensures(DelayGrid::from_shape_vec, (rows, columns, values), grid),
    ensures
        grid is Some <==> rows * columns == values@.len() && rows <= isize::MAX && columns
            <= isize::MAX,
        grid matches Some(g) ==> forall|got: Option<u32>| #[trigger]
            call_ensures(DelayGrid::delay, (&g, r, c), got) ==> {
                &&& got is Some <==> r < rows && c < columns
                &&& got matches Some(v) ==> v == values@[r * columns + c]
            },
{
}

/// Is this an SKA beam without an observation: at 100 MHz, and at 0 in all angles?
pub open spec fn is_unobserved(phase_centre: RaDec, latitude: Binary64, freq: Binary64) -> bool {
    &&& phase_centre.ra.is_int(0)
    &&& phase_centre.dec.is_int(0)
    &&& latitude.is_int(0)
    &&& freq.is_int(100_000_000)
}

/// The beam that is named is set up, for as many tiles as there are. Only a name
/// that there is not and delays that make no sense for an FEE beam are refused.
pub proof fn lemma_named_beams_are_set_up(
    name: Option<&str>,
    num_tiles: usize,
    delays: Delays,
    r: Result<BeamObject, BeamError>,
    selected: Result<BeamType, BeamError>,
    checked: Result<(), BeamError>,
)
    requires
        call_ensures(create_beam_object, (name, num_tiles, delays), r),
        call_ensures(select_beam_type, (name,), selected),
        call_ensures(check_delays, (&delays, num_tiles), checked),
    ensures
        match selected {
            Err(_) => r matches Err(BeamError::Unrecognised(text)) && text@ == name->0@,
            Ok(BeamType::NoBeam) => r matches Ok(BeamObject::NoBeam(beam)) && beam.num_tiles
                == num_tiles,
            Ok(BeamType::FEE) => {
                &&& r is Ok <==> delays_make_sense(delays, num_tiles)
                &&& r matches Err(e) ==> checked == Err::<(), BeamError>(e)
                &&& r is Ok ==> r == Ok::<BeamObject, BeamError>(
                    BeamObject::Fee { num_tiles, delays },
                )
            },
            Ok(BeamType::SkaGaussian) => r matches Ok(BeamObject::SkaGaussian(beam)) && {
                &&& beam.config.num_stations == num_tiles
                &&& is_unobserved(
                    beam.config.phase_centre,
                    beam.config.latitude_rad,
                    beam.config.ref_freq_hz,
                )
            },
            Ok(BeamType::SkaAiry) => r matches Ok(BeamObject::SkaAiry(beam)) && {
                &&& beam.number_of_stations == num_tiles
                &&& is_unobserved(
                    beam.phase_centre,
                    beam.ska_site_latitude_rad,
                    beam.reference_frequency_hz,
                )
                &&& beam.station_angle_rad is None
                &&& beam.feed_angle_rad is None
            },
            Ok(BeamType::SkaArrayFactor) => r matches Ok(BeamObject::SkaArrayFactor(beam)) && {
                &&& beam.number_of_stations == num_tiles
                &&& is_unobserved(
                    beam.phase_centre,
                    beam.ska_site_latitude_rad,
                    beam.reference_frequency_hz,
                )
                &&& beam.station_angle_rad@.len() == 1
                &&& beam.station_angle_rad@[0].is_int(0)
                &&& beam.feed_angle_rad@.len() == 256
                &&& forall|i: int| 0 <= i < 256 ==> (#[trigger] beam.feed_angle_rad@[i]).is_int(0)
                &&& beam.feed_coordinates@.len() == 1
                &&& beam.feed_coordinates@[0]@.len() == 256
                &&& forall|i: int|
                    #![trigger beam.feed_coordinates@[0]@[i]]
                    0 <= i < 256 ==> {
                        let element = beam.feed_coordinates@[0]@[i];
                        &&& element.0.is_thousandths(S8_1_MILLIMETRES@[i].0 as int)
                        &&& element.1.is_thousandths(S8_1_MILLIMETRES@[i].1 as int)
                    }
            },
        },
{
    lemma_one();
    lemma_reference_frequency();
    assert(delays_make_sense(delays, num_tiles) <==> super::create::delays_error(
        delays,
        num_tiles,
    ) is None);
}

/// The reference frequency of SKA beams without an observation is 100 MHz.
pub proof fn lemma_reference_frequency()
    ensures
        (Binary64 { bits: super::create::DEFAULT_SKA_REF_FREQ_BITS }).is_int(100_000_000),
{
    vstd::arithmetic::power2::lemma2_to64();
    vstd::arithmetic::power2::lemma2_to64_rest();
    crate::binary64::lemma_is_int(
        Binary64 { bits: super::create::DEFAULT_SKA_REF_FREQ_BITS },
        100_000_000,
        26,
    );
}

/// SKA beams are made of what is known of the stations.
pub proof fn lemma_ska_beams_are_made_of_parameters(
    params: SkaBeamParams,
    airy: SkaAiryBeam,
    array_factor: SkaArrayFactorBeam,
    config: SkaBeamConfig,
    made: SkaBeamConfig,
    gaussian: SkaGaussianBeam,
)
    requires
        call_ensures(SkaAiryBeam::new, (params,), airy),
        call_ensures(SkaArrayFactorBeam::new, (params,), array_factor),
        call_ensures(
            SkaBeamConfig::new,
            (config.num_stations, config.phase_centre, config.ref_freq_hz, config.latitude_rad),
            made,
        ),
        call_ensures(SkaGaussianBeam::new, (config,), gaussian),
    ensures
        airy.phase_centre == params.phase_centre,
        airy.ska_site_latitude_rad == params.ska_site_latitude_rad,
        airy.reference_frequency_hz == params.reference_frequency_hz,
        airy.number_of_stations == params.number_of_stations,
        airy.station_angle_rad == params.station_angle_rad,
        airy.feed_angle_rad == params.feed_angle_rad,
        array_factor.phase_centre == params.phase_centre,
        array_factor.ska_site_latitude_rad == params.ska_site_latitude_rad,
        array_factor.reference_frequency_hz == params.reference_frequency_hz,
        array_factor.number_of_stations == params.number_of_stations,
        Some(array_factor.station_angle_rad) == params.station_angle_rad,
        Some(array_factor.feed_angle_rad) == params.feed_angle_rad,
        Some(array_factor.feed_coordinates) == params.feed_coordinates,
        made == config,
        gaussian.config == config,
{
}

/// A tile has its own rotations and elements.
pub proof fn lemma_tiles_have_their_own(
    airy: SkaAiryBeam,
    array_factor: SkaArrayFactorBeam,
    tile: Option<usize>,
    rotations: Option<(Binary64, Binary64)>,
    station: (Binary64, &StationElements),
)
    requires
        call_ensures(SkaAiryBeam::rotations, (&airy, tile), rotations),
        call_ensures(SkaArrayFactorBeam::station, (&array_factor, tile), station),
    ensures
        tile is None ==> rotations is None,
        tile matches Some(i) ==> {
            &&& rotations matches Some((station_angle, feed_angle))
            &&& station_angle == airy.station_angle_rad->Some_0@[i as int]
            &&& feed_angle == airy.feed_angle_rad->Some_0@[i as int]
            &&& station.0 == array_factor.feed_angle_rad@[i as int]
            &&& *station.1 == array_factor.feed_coordinates@[i as int]
        },
{
}

/// Are all entries 0?
pub open spec fn all_refer_to_first(map: Seq<i32>, n: int) -> bool {
    map.len() == n && forall|k: int| 0 <= k < n ==> #[trigger] map[k] == 0
}

/// Is each entry its own number, as far as there are numbers?
pub open spec fn each_refers_to_itself(map: Seq<i32>, n: int) -> bool {
    map.len() == n && forall|k: int| 0 <= k < n && k <= i32::MAX ==> #[trigger] map[k] == k
}

/// On a device all tiles share a response; frequencies have their own, unless
/// there is no beam.
pub proof fn lemma_device_maps(
    no_beam: NoBeam,
    airy: SkaAiryBeam,
    array_factor: SkaArrayFactorBeam,
    freqs_hz: &[u32],
    no_beam_gpu: NoBeamGpu,
    airy_gpu: SkaAiryBeamGpu,
    array_factor_gpu: SkaArrayFactorBeamGpu,
)
    requires
        call_ensures(NoBeam::prepare_gpu_beam, (&no_beam, freqs_hz), no_beam_gpu),
        call_ensures(SkaAiryBeam::prepare_gpu_beam, (&airy, freqs_hz), airy_gpu),
        call_ensures(
            SkaArrayFactorBeam::prepare_gpu_beam,
            (&array_factor, freqs_hz),
            array_factor_gpu,
        ),
    ensures
        all_refer_to_first(no_beam_gpu.tile_map@, no_beam.num_tiles as int),
        all_refer_to_first(no_beam_gpu.freq_map@, freqs_hz@.len() as int),
        all_refer_to_first(airy_gpu.tile_map@, airy.number_of_stations as int),
        each_refers_to_itself(airy_gpu.freq_map@, freqs_hz@.len() as int),
        airy_gpu.freqs_hz@ == freqs_hz@,
        all_refer_to_first(array_factor_gpu.tile_map@, array_factor.number_of_stations as int),
        each_refers_to_itself(array_factor_gpu.freq_map@, freqs_hz@.len() as int),
        array_factor_gpu.freqs_hz@ == freqs_hz@,
        array_factor_gpu.cpu_object.station_angle_rad@ == array_factor.station_angle_rad@,
{
}

/// Maps of one response for all, and of one for each.
pub proof fn lemma_maps(n: usize, shared: Vec<i32>, distinct: Vec<i32>)
    requires
        call_ensures(shared_map, (n,), shared),
        call_ensures(distinct_map, (n,), distinct),
    ensures
        all_refer_to_first(shared@, n as int),
        each_refers_to_itself(distinct@, n as int),
{
}

/// Copies of beams on the device are the beams that were prepared.
pub proof fn lemma_devices_know_the_beams(
    airy: SkaAiryBeam,
    array_factor: SkaArrayFactorBeam,
    freqs_hz: &[u32],
    airy_gpu: SkaAiryBeamGpu,
    array_factor_gpu: SkaArrayFactorBeamGpu,
)
    requires
        call_ensures(SkaAiryBeam::prepare_gpu_beam, (&airy, freqs_hz), airy_gpu),
        call_ensures(
            SkaArrayFactorBeam::prepare_gpu_beam,
            (&array_factor, freqs_hz),
            array_factor_gpu,
        ),
    ensures
        airy_gpu.cpu_object.phase_centre == airy.phase_centre,
        airy_gpu.cpu_object.ska_site_latitude_rad == airy.ska_site_latitude_rad,
        airy_gpu.cpu_object.reference_frequency_hz == airy.reference_frequency_hz,
        airy_gpu.cpu_object.number_of_stations == airy.number_of_stations,
        airy_gpu.cpu_object.station_angle_rad is Some == airy.station_angle_rad is Some,
        airy.station_angle_rad matches Some(a) ==> airy_gpu.cpu_object.station_angle_rad->0@ == a@,
        airy_gpu.cpu_object.feed_angle_rad is Some == airy.feed_angle_rad is Some,
        airy.feed_angle_rad matches Some(a) ==> airy_gpu.cpu_object.feed_angle_rad->0@ == a@,
        array_factor_gpu.cpu_object.phase_centre == array_factor.phase_centre,
        array_factor_gpu.cpu_object.ska_site_latitude_rad == array_factor.ska_site_latitude_rad,
        array_factor_gpu.cpu_object.reference_frequency_hz == array_factor.reference_frequency_hz,
        array_factor_gpu.cpu_object.number_of_stations == array_factor.number_of_stations,
        array_factor_gpu.cpu_object.station_angle_rad@ == array_factor.station_angle_rad@,
        array_factor_gpu.cpu_object.feed_angle_rad@ == array_factor.feed_angle_rad@,
        array_factor_gpu.cpu_object.feed_coordinates@.len()
            == array_factor.feed_coordinates@.len(),
        forall|k: int|
            0 <= k < array_factor.feed_coordinates@.len() ==> (
            #[trigger] array_factor_gpu.cpu_object.feed_coordinates@[k])@
                == array_factor.feed_coordinates@[k]@,
{
}

/// Beams tell their type and their number of tiles. Beams that are not made of MWA
/// dipoles work at any frequency.
pub proof fn lemma_beams_tell_what_they_are(
    no_beam: NoBeam,
    gaussian: SkaGaussianBeam,
    airy: SkaAiryBeam,
    array_factor: SkaArrayFactorBeam,
    types: (BeamType, BeamType, BeamType, BeamType),
    tiles: (usize, usize, usize, usize),
    freq: Binary64,
    freqs: (Binary64, Binary64, Binary64, Binary64),
)
    requires
        call_ensures(<NoBeam as Beam>::get_beam_type, (&no_beam,), types.0),
        call_ensures(<SkaGaussianBeam as Beam>::get_beam_type, (&gaussian,), types.1),
        call_ensures(<SkaAiryBeam as Beam>::get_beam_type, (&airy,), types.2),
        call_ensures(<SkaArrayFactorBeam as Beam>::get_beam_type, (&array_factor,), types.3),
        call_ensures(<NoBeam as Beam>::get_num_tiles, (&no_beam,), tiles.0),
        call_ensures(<SkaGaussianBeam as Beam>::get_num_tiles, (&gaussian,), tiles.1),
        call_ensures(<SkaAiryBeam as Beam>::get_num_tiles, (&airy,), tiles.2),
        call_ensures(<SkaArrayFactorBeam as Beam>::get_num_tiles, (&array_factor,), tiles.3),
        call_ensures(<NoBeam as Beam>::find_closest_freq, (&no_beam, freq), freqs.0),
        call_ensures(<SkaGaussianBeam as Beam>::find_closest_freq, (&gaussian, freq), freqs.1),
        call_ensures(<SkaAiryBeam as Beam>::find_closest_freq, (&airy, freq), freqs.2),
        call_ensures(
            <SkaArrayFactorBeam as Beam>::find_closest_freq,
            (&array_factor, freq),
            freqs.3,
        ),
    ensures
        types == (
            BeamType::NoBeam,
            BeamType::SkaGaussian,
            BeamType::SkaAiry,
            BeamType::SkaArrayFactor,
        ),
        tiles == (
            no_beam.num_tiles,
            gaussian.config.num_stations,
            airy.number_of_stations,
            array_factor.number_of_stations,
        ),
        freqs == (freq, freq, freq, freq),
{
}

/// Only beams that are made of MWA dipoles have dipole delays, gains and a beam
/// file; any other beam is defined at every frequency.
pub proof fn lemma_only_dipoles_have_delays<T: Beam>(
    beam: T,
    t: BeamType,
    delays: Option<DelayGrid>,
    ideal: Option<[u32; 16]>,
    gains: Option<Vec<Vec<Binary64>>>,
    file: Option<String>,
    freq: Binary64,
    closest: Binary64,
)
    requires
        call_ensures(<T as Beam>::get_beam_type, (&beam,), t),
        call_ensures(<T as Beam>::get_dipole_delays, (&beam,), delays),
        call_ensures(<T as Beam>::get_ideal_dipole_delays, (&beam,), ideal),
        call_ensures(<T as Beam>::get_dipole_gains, (&beam,), gains),
        call_ensures(<T as Beam>::get_beam_file, (&beam,), file),
        call_ensures(<T as Beam>::find_closest_freq, (&beam, freq), closest),
        t != BeamType::FEE,
    ensures
        delays is None,
        ideal is None,
        gains is None,
        file is None,
        closest == freq,
{
}

/// Devices tell of which beam they have responses, and how many.
pub proof fn lemma_devices_tell_what_they_have(
    no_beam: NoBeamGpu,
    gaussian: SkaGaussianBeam,
    airy: SkaAiryBeamGpu,
    array_factor: SkaArrayFactorBeamGpu,
    types: (BeamType, BeamType, BeamType, BeamType),
    tiles: (i32, i32, i32, i32),
    freqs: (i32, i32, i32, i32),
)
    requires
        airy.freqs_hz@.len() <= i32::MAX,
        array_factor.freqs_hz@.len() <= i32::MAX,
        array_factor.cpu_object.station_angle_rad@.len() <= i32::MAX,
        call_ensures(<NoBeamGpu as BeamGpu>::get_beam_type, (&no_beam,), types.0),
        call_ensures(<SkaGaussianBeam as BeamGpu>::get_beam_type, (&gaussian,), types.1),
        call_ensures(<SkaAiryBeamGpu as BeamGpu>::get_beam_type, (&airy,), types.2),
        call_ensures(<SkaArrayFactorBeamGpu as BeamGpu>::get_beam_type, (&array_factor,), types.3),
        call_ensures(<NoBeamGpu as BeamGpu>::get_num_unique_tiles, (&no_beam,), tiles.0),
        call_ensures(<SkaGaussianBeam as BeamGpu>::get_num_unique_tiles, (&gaussian,), tiles.1),
        call_ensures(<SkaAiryBeamGpu as BeamGpu>::get_num_unique_tiles, (&airy,), tiles.2),
        call_ensures(
            <SkaArrayFactorBeamGpu as BeamGpu>::get_num_unique_tiles,
            (&array_factor,),
            tiles.3,
        ),
        call_ensures(<NoBeamGpu as BeamGpu>::get_num_unique_freqs, (&no_beam,), freqs.0),
        call_ensures(<SkaGaussianBeam as BeamGpu>::get_num_unique_freqs, (&gaussian,), freqs.1),
        call_ensures(<SkaAiryBeamGpu as BeamGpu>::get_num_unique_freqs, (&airy,), freqs.2),
        call_ensures(
            <SkaArrayFactorBeamGpu as BeamGpu>::get_num_unique_freqs,
            (&array_factor,),
            freqs.3,
        ),
    ensures
        types == (
            BeamType::NoBeam,
            BeamType::SkaGaussian,
            BeamType::SkaAiry,
            BeamType::SkaArrayFactor,
        ),
        tiles.0 == 1,
        tiles.1 == 0,
        tiles.2 == 1,
        tiles.3 == array_factor.cpu_object.station_angle_rad@.len(),
        freqs.0 == 1,
        freqs.1 == 0,
        freqs.2 == airy.freqs_hz@.len(),
        freqs.3 == array_factor.freqs_hz@.len(),
{
}

/// Devices hand out their own maps; for a Gaussian beam there are none.
pub proof fn lemma_devices_hand_out_their_maps(
    no_beam: NoBeamGpu,
    gaussian: SkaGaussianBeam,
    airy: SkaAiryBeamGpu,
    array_factor: SkaArrayFactorBeamGpu,
    tile_maps: (Option<&Vec<i32>>, Option<&Vec<i32>>, Option<&Vec<i32>>, Option<&Vec<i32>>),
    freq_maps: (Option<&Vec<i32>>, Option<&Vec<i32>>, Option<&Vec<i32>>, Option<&Vec<i32>>),
)
    requires
        call_ensures(<NoBeamGpu as BeamGpu>::get_tile_map, (&no_beam,), tile_maps.0),
        call_ensures(<SkaGaussianBeam as BeamGpu>::get_tile_map, (&gaussian,), tile_maps.1),
        call_ensures(<SkaAiryBeamGpu as BeamGpu>::get_tile_map, (&airy,), tile_maps.2),
        call_ensures(
            <SkaArrayFactorBeamGpu as BeamGpu>::get_tile_map,
            (&array_factor,),
            tile_maps.3,
        ),
        call_ensures(<NoBeamGpu as BeamGpu>::get_freq_map, (&no_beam,), freq_maps.0),
        call_ensures(<SkaGaussianBeam as BeamGpu>::get_freq_map, (&gaussian,), freq_maps.1),
        call_ensures(<SkaAiryBeamGpu as BeamGpu>::get_freq_map, (&airy,), freq_maps.2),
        call_ensures(
            <SkaArrayFactorBeamGpu as BeamGpu>::get_freq_map,
            (&array_factor,),
            freq_maps.3,
        ),
    ensures
        tile_maps.0 matches Some(map) && map@ == no_beam.tile_map@,
        tile_maps.1 is None,
        tile_maps.2 matches Some(map) && map@ == airy.tile_map@,
        tile_maps.3 matches Some(map) && map@ == array_factor.tile_map@,
        freq_maps.0 matches Some(map) && map@ == no_beam.freq_map@,
        freq_maps.1 is None,
        freq_maps.2 matches Some(map) && map@ == airy.freq_map@,
        freq_maps.3 matches Some(map) && map@ == array_factor.freq_map@,
{
}

/// The beam without effect answers with identity matrices.
pub proof fn lemma_no_beam_has_no_effect(
    beam: NoBeam,
    gpu: NoBeamGpu,
    n: usize,
    i: int,
    one: Jones,
    jones: Jones,
    array: Vec<Jones>,
    pair: Vec<Jones>,
)
    requires
        call_ensures(identity, (), one),
        call_ensures(NoBeam::calc_jones, (&beam,), jones),
        call_ensures(NoBeam::calc_jones_array, (&beam, n), array),
        call_ensures(NoBeamGpu::calc_jones_pair, (&gpu, n), pair),
    ensures
        is_identity(one),
        is_identity(jones),
        array@.len() == n,
        pair@.len() == n,
        0 <= i < n ==> is_identity(array@[i]) && is_identity(pair@[i]),
        forall|results: &mut Vec<Jones>| #[trigger]
            call_ensures(NoBeam::calc_jones_array_inner, (&beam, results), ()) ==> {
                &&& final(results)@.len() == results@.len()
                &&& 0 <= i < results@.len() ==> is_identity(final(results)@[i])
            },
{
    lemma_is_identity(one);
    lemma_is_identity(jones);
    if 0 <= i < n {
        lemma_is_identity(array@[i]);
        lemma_is_identity(pair@[i]);
    }
    assert forall|results: &mut Vec<Jones>| #[trigger]
        call_ensures(NoBeam::calc_jones_array_inner, (&beam, results), ()) && 0 <= i
            < results@.len() implies is_identity(final(results)@[i]) by {
        lemma_is_identity(final(results)@[i]);
    }
}

/// Responses are asked for by tile, frequency and direction, and each stands in its
/// place.
pub proof fn lemma_responses_have_their_places<F: Fn(Option<usize>, u32, usize) -> Jones>(
    tile: Option<usize>,
    num_tiles: usize,
    freqs_hz: &[u32],
    num_directions: usize,
    respond: F,
    grid: ResponseGrid,
    all: Vec<Jones>,
    t: usize,
    f: usize,
    d: usize,
)
    requires
        call_ensures(
            responses_by_frequency::<F>,
            (tile, freqs_hz, num_directions, &respond),
            grid,
        ),
        call_ensures(responses_by_tile::<F>, (num_tiles, freqs_hz, num_directions, &respond), all),
        t < num_tiles,
        f < freqs_hz@.len(),
        d < num_directions,
    ensures
        all@.len() == num_tiles * (freqs_hz@.len() * num_directions),
        respond.ensures(
            (Some(t), freqs_hz@[f as int], d),
            all@[(t * freqs_hz@.len() + f) * num_directions + d],
        ),
        forall|got: Option<Jones>| #[trigger]
            call_ensures(ResponseGrid::get, (&grid, f, d), got) ==> (got matches Some(jones)
                && respond.ensures((tile, freqs_hz@[f as int], d), jones)),
        forall|listed: Vec<Jones>| #[trigger]
            call_ensures(ResponseGrid::ordered, (&grid,), listed) ==> {
                &&& listed@.len() == freqs_hz@.len() * num_directions
                &&& respond.ensures(
                    (tile, freqs_hz@[f as int], d),
                    listed@[f * num_directions + d],
                )
            },
{
    let i = response_index(
        freqs_hz@.len() as int,
        num_directions as int,
        t as int,
        f as int,
        d as int,
    );
    assert(respond.ensures(
        (Some((t as int) as usize), freqs_hz@[f as int], (d as int) as usize),
        all@[i],
    ));
    let cell = response_cells(grid)[(f as int, d as int)];
    assert(respond.ensures((tile, freqs_hz@[f as int], (d as int) as usize), cell));
    assert forall|listed: Vec<Jones>| #[trigger]
        call_ensures(ResponseGrid::ordered, (&grid,), listed) implies {
        &&& listed@.len() == freqs_hz@.len() * num_directions
        &&& respond.ensures((tile, freqs_hz@[f as int], d), listed@[f * num_directions + d])
    } by {
        assert(listed@[(f as int) * response_shape(grid).1 + (d as int)] == cell);
    }
}

/// Nothing is got outside of the frequencies and directions that there are.
pub proof fn lemma_responses_end(
    grid: ResponseGrid,
    shape: (usize, usize),
    f: usize,
    d: usize,
    got: Option<Jones>,
)
    requires
        call_ensures(ResponseGrid::shape, (&grid,), shape),
        call_ensures(ResponseGrid::get, (&grid, f, d), got),
    ensures
        shape == response_shape(grid),
        got is Some <==> f < shape.0 && d < shape.1,
{
}

/// The responses for a device: of no tile in particular for an Airy disk, which all
/// tiles share, and of each station for an array factor.
pub proof fn lemma_responses_for_devices<F: Fn(Option<usize>, u32, usize) -> Jones>(
    airy: SkaAiryBeamGpu,
    array_factor: SkaArrayFactorBeamGpu,
    num_directions: usize,
    respond: F,
    grid: ResponseGrid,
    all: Vec<Jones>,
    t: usize,
    f: usize,
    d: usize,
)
    requires
        call_ensures(
            SkaAiryBeamGpu::calc_jones_pair::<F>,
            (&airy, num_directions, &respond),
            grid,
        ),
        call_ensures(
            SkaArrayFactorBeamGpu::calc_jones_pair::<F>,
            (&array_factor, num_directions, &respond),
            all,
        ),
        d < num_directions,
    ensures
        response_shape(grid).0 == airy.freqs_hz@.len(),
        response_shape(grid).1 == num_directions,
        f < airy.freqs_hz@.len() ==> respond.ensures(
            (None, airy.freqs_hz@[f as int], d),
            response_cells(grid)[(f as int, d as int)],
        ),
        all@.len() == array_factor.cpu_object.station_angle_rad@.len() * (
        array_factor.freqs_hz@.len() * num_directions),
        t < array_factor.cpu_object.station_angle_rad@.len() && f < array_factor.freqs_hz@.len()
            ==> respond.ensures(
            (Some(t), array_factor.freqs_hz@[f as int], d),
            all@[(t * array_factor.freqs_hz@.len() + f) * num_directions + d],
        ),
{
    let i = response_index(
        array_factor.freqs_hz@.len() as int,
        num_directions as int,
        t as int,
        f as int,
        d as int,
    );
    let a = all@[i];
    let cell = response_cells(grid)[(f as int, d as int)];
}

/// A Gaussian beam is not calculated on a GPU.
pub proof fn lemma_gaussian_beams_stay_off_devices(
    beam: SkaGaussianBeam,
    r: Result<(), BeamError>,
)
    requires
        call_ensures(SkaGaussianBeam::calc_jones_pair, (&beam,), r),
    ensures
        r matches Err(BeamError::Unrecognised(text)) && text@
            == "GPU not supported for SKA Gaussian beam"@,
{
}

} // verus!
